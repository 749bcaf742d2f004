use reqtui::ui_graph::{init_ui_graph, Direction, PaneId};

fn all_panes() -> Vec<PaneId> {
    vec![
        PaneId::Tabs,
        PaneId::Endpoint,
        PaneId::BodyHeaderSelect,
        PaneId::RequestEntry,
        PaneId::MethodSelect,
        PaneId::SendButton,
        PaneId::ResponseTabs,
        PaneId::ResponseText,
    ]
}

#[test]
fn edge_table_matches_construction() {
    let g = init_ui_graph();
    let expected: [(PaneId, Direction, PaneId); 20] = [
        (PaneId::Tabs, Direction::Down, PaneId::Endpoint),
        (PaneId::Endpoint, Direction::Up, PaneId::Tabs),
        (PaneId::Endpoint, Direction::Down, PaneId::BodyHeaderSelect),
        (PaneId::Endpoint, Direction::Right, PaneId::ResponseTabs),
        (PaneId::BodyHeaderSelect, Direction::Up, PaneId::Endpoint),
        (PaneId::BodyHeaderSelect, Direction::Right, PaneId::ResponseText),
        (PaneId::BodyHeaderSelect, Direction::Down, PaneId::RequestEntry),
        (PaneId::RequestEntry, Direction::Up, PaneId::BodyHeaderSelect),
        (PaneId::RequestEntry, Direction::Right, PaneId::ResponseText),
        (PaneId::RequestEntry, Direction::Down, PaneId::MethodSelect),
        (PaneId::MethodSelect, Direction::Up, PaneId::RequestEntry),
        (PaneId::MethodSelect, Direction::Right, PaneId::SendButton),
        (PaneId::SendButton, Direction::Left, PaneId::MethodSelect),
        (PaneId::SendButton, Direction::Up, PaneId::RequestEntry),
        (PaneId::SendButton, Direction::Right, PaneId::ResponseText),
        (PaneId::ResponseTabs, Direction::Up, PaneId::Tabs),
        (PaneId::ResponseTabs, Direction::Left, PaneId::Endpoint),
        (PaneId::ResponseTabs, Direction::Down, PaneId::ResponseText),
        (PaneId::ResponseText, Direction::Up, PaneId::ResponseTabs),
        (PaneId::ResponseText, Direction::Left, PaneId::RequestEntry),
    ];
    assert_eq!(g.edges.len(), 20);
    for (i, (from, dir, to)) in expected.iter().enumerate() {
        assert_eq!(g.edges[i].from, *from);
        assert_eq!(g.edges[i].dir, *dir);
        assert_eq!(g.edges[i].to, *to);
        assert_eq!(g.lookup(*from, *dir), Some(*to));
    }
}

#[test]
fn lookup_returns_none_where_no_edge_exists() {
    let g = init_ui_graph();
    assert_eq!(g.lookup(PaneId::Tabs, Direction::Up), None);
    assert_eq!(g.lookup(PaneId::Tabs, Direction::Left), None);
    assert_eq!(g.lookup(PaneId::Tabs, Direction::Right), None);
    assert_eq!(g.lookup(PaneId::MethodSelect, Direction::Down), None);
    assert_eq!(g.lookup(PaneId::ResponseText, Direction::Down), None);
    assert_eq!(g.lookup(PaneId::ResponseText, Direction::Right), None);
    for p in all_panes() {
        assert_eq!(g.lookup(p, Direction::Enter), None);
        assert_eq!(g.lookup(p, Direction::Exit), None);
    }
}

#[test]
fn edges_are_one_way_not_symmetric() {
    let g = init_ui_graph();
    // Right from the send button reaches the response text, but left from
    // the response text goes to the request editor, not back.
    assert_eq!(g.lookup(PaneId::SendButton, Direction::Right), Some(PaneId::ResponseText));
    assert_eq!(g.lookup(PaneId::ResponseText, Direction::Left), Some(PaneId::RequestEntry));
    // Right from the body/header bar reaches the response text, which has
    // no edge back up to it at all.
    assert_eq!(g.lookup(PaneId::BodyHeaderSelect, Direction::Right), Some(PaneId::ResponseText));
    assert_ne!(g.lookup(PaneId::ResponseText, Direction::Left), Some(PaneId::BodyHeaderSelect));
}

#[test]
fn at_most_one_edge_per_source_and_direction() {
    let g = init_ui_graph();
    for i in 0..g.edges.len() {
        for j in (i + 1)..g.edges.len() {
            assert!(
                !(g.edges[i].from == g.edges[j].from && g.edges[i].dir == g.edges[j].dir),
                "duplicate edge source at {} and {}",
                i,
                j
            );
        }
    }
}
