//! The static focus graph: the closed set of pane identities, the
//! directions that relate them, and the literal edge table built once
//! at startup and never changed.

use vstd::prelude::*;

verus! {

/// Identity of one interactive region of the interface. The set of panes is
/// closed and fixed at startup; every value of this type is a pane of the
/// graph.
#[derive(Clone, Copy, PartialEq, Eq, Structural, Debug)]
pub enum PaneId {
    Tabs,
    Endpoint,
    BodyHeaderSelect,
    RequestEntry,
    MethodSelect,
    SendButton,
    ResponseTabs,
    ResponseText,
}

/// Spatial or hierarchical relation between panes: the four sibling
/// directions, plus entering a nested pane and exiting to the enclosing one.
#[derive(Clone, Copy, PartialEq, Eq, Structural, Debug)]
pub enum Direction {
    Left,
    Right,
    Up,
    Down,
    Enter,
    Exit,
}

/// One directed, one-way edge of the focus graph. No symmetry is assumed:
/// an edge from `from` to `to` says nothing about moving back.
#[derive(Clone, Copy, PartialEq, Eq, Structural, Debug)]
pub struct Edge {
    pub from: PaneId,
    pub dir: Direction,
    pub to: PaneId,
}

/// The static directed graph describing which pane lies in each direction
/// from every other pane. Built once at startup and never changed.
pub struct PaneGraph {
    pub edges: Vec<Edge>,
}

/// The target of the first edge leaving `from` in direction `dir`, if any.
/// Scanning in definition order makes the earliest-defined edge win, so a
/// lookup never silently applies several edges.
pub open spec fn edge_target(edges: Seq<Edge>, from: PaneId, dir: Direction) -> Option<PaneId>
    decreases edges.len(),
{
    if edges.len() == 0 {
        None
    } else if edges[0].from == from && edges[0].dir == dir {
        Some(edges[0].to)
    } else {
        edge_target(edges.drop_first(), from, dir)
    }
}

/// At most one edge leaves any pane in any one direction.
pub open spec fn no_duplicate_sources(edges: Seq<Edge>) -> bool {
    forall|i: int, j: int|
        0 <= i < j < edges.len() ==> !(edges[i].from == edges[j].from && edges[i].dir
            == edges[j].dir)
}

/// The concrete edge table of the interface, in definition order.
pub open spec fn ui_edges() -> Seq<Edge> {
    seq![
        Edge { from: PaneId::Tabs, dir: Direction::Down, to: PaneId::Endpoint },
        Edge { from: PaneId::Endpoint, dir: Direction::Up, to: PaneId::Tabs },
        Edge { from: PaneId::Endpoint, dir: Direction::Down, to: PaneId::BodyHeaderSelect },
        Edge { from: PaneId::Endpoint, dir: Direction::Right, to: PaneId::ResponseTabs },
        Edge { from: PaneId::BodyHeaderSelect, dir: Direction::Up, to: PaneId::Endpoint },
        Edge { from: PaneId::BodyHeaderSelect, dir: Direction::Right, to: PaneId::ResponseText },
        Edge { from: PaneId::BodyHeaderSelect, dir: Direction::Down, to: PaneId::RequestEntry },
        Edge { from: PaneId::RequestEntry, dir: Direction::Up, to: PaneId::BodyHeaderSelect },
        Edge { from: PaneId::RequestEntry, dir: Direction::Right, to: PaneId::ResponseText },
        Edge { from: PaneId::RequestEntry, dir: Direction::Down, to: PaneId::MethodSelect },
        Edge { from: PaneId::MethodSelect, dir: Direction::Up, to: PaneId::RequestEntry },
        Edge { from: PaneId::MethodSelect, dir: Direction::Right, to: PaneId::SendButton },
        Edge { from: PaneId::SendButton, dir: Direction::Left, to: PaneId::MethodSelect },
        Edge { from: PaneId::SendButton, dir: Direction::Up, to: PaneId::RequestEntry },
        Edge { from: PaneId::SendButton, dir: Direction::Right, to: PaneId::ResponseText },
        Edge { from: PaneId::ResponseTabs, dir: Direction::Up, to: PaneId::Tabs },
        Edge { from: PaneId::ResponseTabs, dir: Direction::Left, to: PaneId::Endpoint },
        Edge { from: PaneId::ResponseTabs, dir: Direction::Down, to: PaneId::ResponseText },
        Edge { from: PaneId::ResponseText, dir: Direction::Up, to: PaneId::ResponseTabs },
        Edge { from: PaneId::ResponseText, dir: Direction::Left, to: PaneId::RequestEntry },
    ]
}

/// The construction really does keep at most one edge per (source,
/// direction) pair, as the graph's invariant demands.
pub proof fn lemma_ui_edges_unambiguous()
    ensures
        no_duplicate_sources(ui_edges()),
{
}

impl PaneGraph {
    /// Look up the pane reached from `from` in direction `dir`; `None` when
    /// the table has no such edge.
    pub fn lookup(&self, from: PaneId, dir: Direction) -> (r: Option<PaneId>)
        ensures
            r == edge_target(self.edges@, from, dir),
    {
        let n = self.edges.len();
        let mut i: usize = 0;
        proof {
            assert(self.edges@.skip(0) =~= self.edges@);
        }
        while i < n
            invariant
                i <= n,
                n == self.edges@.len(),
                edge_target(self.edges@.skip(i as int), from, dir) == edge_target(
                    self.edges@,
                    from,
                    dir,
                ),
            decreases n - i,
        {
            let e = self.edges[i];
            proof {
                assert(self.edges@.skip(i as int)[0] == self.edges@[i as int]);
                assert(self.edges@.skip(i as int).drop_first() =~= self.edges@.skip(i + 1));
            }
            if e.from == from && e.dir == dir {
                return Some(e.to);
            }
            i = i + 1;
        }
        proof {
            assert(self.edges@.skip(n as int) =~= Seq::<Edge>::empty());
        }
        None
    }
}

/// Build the startup focus graph: the literal edge table of the interface.
pub fn init_ui_graph() -> (r: PaneGraph)
    ensures
        r.edges@ == ui_edges(),
{
    let mut edges: Vec<Edge> = Vec::new();
    edges.push(Edge { from: PaneId::Tabs, dir: Direction::Down, to: PaneId::Endpoint });
    edges.push(Edge { from: PaneId::Endpoint, dir: Direction::Up, to: PaneId::Tabs });
    edges.push(Edge { from: PaneId::Endpoint, dir: Direction::Down, to: PaneId::BodyHeaderSelect });
    edges.push(Edge { from: PaneId::Endpoint, dir: Direction::Right, to: PaneId::ResponseTabs });
    edges.push(Edge { from: PaneId::BodyHeaderSelect, dir: Direction::Up, to: PaneId::Endpoint });
    edges.push(
        Edge { from: PaneId::BodyHeaderSelect, dir: Direction::Right, to: PaneId::ResponseText },
    );
    edges.push(
        Edge { from: PaneId::BodyHeaderSelect, dir: Direction::Down, to: PaneId::RequestEntry },
    );
    edges.push(
        Edge { from: PaneId::RequestEntry, dir: Direction::Up, to: PaneId::BodyHeaderSelect },
    );
    edges.push(Edge { from: PaneId::RequestEntry, dir: Direction::Right, to: PaneId::ResponseText });
    edges.push(Edge { from: PaneId::RequestEntry, dir: Direction::Down, to: PaneId::MethodSelect });
    edges.push(Edge { from: PaneId::MethodSelect, dir: Direction::Up, to: PaneId::RequestEntry });
    edges.push(Edge { from: PaneId::MethodSelect, dir: Direction::Right, to: PaneId::SendButton });
    edges.push(Edge { from: PaneId::SendButton, dir: Direction::Left, to: PaneId::MethodSelect });
    edges.push(Edge { from: PaneId::SendButton, dir: Direction::Up, to: PaneId::RequestEntry });
    edges.push(Edge { from: PaneId::SendButton, dir: Direction::Right, to: PaneId::ResponseText });
    edges.push(Edge { from: PaneId::ResponseTabs, dir: Direction::Up, to: PaneId::Tabs });
    edges.push(Edge { from: PaneId::ResponseTabs, dir: Direction::Left, to: PaneId::Endpoint });
    edges.push(Edge { from: PaneId::ResponseTabs, dir: Direction::Down, to: PaneId::ResponseText });
    edges.push(Edge { from: PaneId::ResponseText, dir: Direction::Up, to: PaneId::ResponseTabs });
    edges.push(Edge { from: PaneId::ResponseText, dir: Direction::Left, to: PaneId::RequestEntry });
    proof {
        assert(edges@ =~= ui_edges());
    }
    PaneGraph { edges }
}

} // verus!
