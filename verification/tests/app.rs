use reqtui::app::{Action, App, Highlight, InputMode, Key, RequestError};
use reqtui::ui_graph::PaneId;

fn press_all(app: &mut App, keys: &[Key]) {
    for k in keys {
        let a = app.handle_key(*k);
        assert!(matches!(a, Action::Continue));
    }
}

fn type_text(app: &mut App, s: &str) {
    for c in s.chars() {
        let a = app.handle_key(Key::Char(c));
        assert!(matches!(a, Action::Continue));
    }
}

#[test]
fn initial_state_is_navigation_on_tabs() {
    let app = App::new();
    assert_eq!(app.input_mode, InputMode::Navigation);
    assert_eq!(app.current_pane, PaneId::Tabs);
    assert_eq!(app.tabs, vec![0]);
    assert_eq!(app.current_tab, 0);
    assert_eq!(app.response_body, String::new());
    assert_eq!(app.endpoint_widget.text, Vec::<char>::new());
    assert_eq!(app.request_widget.text, Vec::<char>::new());
    assert!(!app.endpoint_widget.newlines_allowed);
    assert!(app.request_widget.newlines_allowed);
    assert_eq!(app.method_select.get_current_tab(), "GET".to_string());
    assert_eq!(app.highlight_of(PaneId::Tabs), Highlight::Focused);
    assert_eq!(app.highlight_of(PaneId::Endpoint), Highlight::Idle);
}

#[test]
fn exactly_one_pane_is_highlighted() {
    let mut app = App::new();
    press_all(&mut app, &[Key::Down, Key::Down]);
    let panes = [
        PaneId::Tabs,
        PaneId::Endpoint,
        PaneId::BodyHeaderSelect,
        PaneId::RequestEntry,
        PaneId::MethodSelect,
        PaneId::SendButton,
        PaneId::ResponseTabs,
        PaneId::ResponseText,
    ];
    let lit: Vec<PaneId> =
        panes.iter().copied().filter(|p| app.highlight_of(*p) != Highlight::Idle).collect();
    assert_eq!(lit, vec![PaneId::BodyHeaderSelect]);
}

#[test]
fn endpoint_editing_scenario() {
    let mut app = App::new();
    // Down from the tab bar focuses the endpoint.
    press_all(&mut app, &[Key::Down]);
    assert_eq!(app.current_pane, PaneId::Endpoint);
    assert_eq!(app.highlight_of(PaneId::Endpoint), Highlight::Focused);
    // Enter activates it: no Enter edge, so the mode machine takes over.
    press_all(&mut app, &[Key::Enter]);
    assert_eq!(app.input_mode, InputMode::EndpointEntry);
    assert_eq!(app.highlight_of(PaneId::Endpoint), Highlight::Editing);
    // Typed characters land in the endpoint buffer.
    type_text(&mut app, "http://x.com");
    // Escape returns to Navigation with the focused highlight back.
    press_all(&mut app, &[Key::Esc]);
    assert_eq!(app.input_mode, InputMode::Navigation);
    assert_eq!(app.highlight_of(PaneId::Endpoint), Highlight::Focused);
    let typed: Vec<char> = "http://x.com".chars().collect();
    assert_eq!(app.endpoint_widget.text, typed);
}

#[test]
fn endpoint_buffer_drops_line_breaks() {
    let mut app = App::new();
    press_all(&mut app, &[Key::Down, Key::Enter]);
    type_text(&mut app, "a");
    app.endpoint_input_char('\n');
    type_text(&mut app, "b");
    let typed: Vec<char> = "ab".chars().collect();
    assert_eq!(app.endpoint_widget.text, typed);
}

#[test]
fn enter_in_endpoint_mode_returns_to_navigation() {
    let mut app = App::new();
    press_all(&mut app, &[Key::Down, Key::Enter]);
    assert_eq!(app.input_mode, InputMode::EndpointEntry);
    press_all(&mut app, &[Key::Enter]);
    assert_eq!(app.input_mode, InputMode::Navigation);
}

#[test]
fn method_select_saturates_at_delete() {
    let mut app = App::new();
    // Walk down the request column to the method selector and activate it.
    press_all(&mut app, &[Key::Down, Key::Down, Key::Down, Key::Down]);
    assert_eq!(app.current_pane, PaneId::MethodSelect);
    press_all(&mut app, &[Key::Enter]);
    assert_eq!(app.input_mode, InputMode::MethodSelect);
    assert_eq!(app.method_select.get_current_tab(), "GET".to_string());
    // Three steps right land on DELETE.
    press_all(&mut app, &[Key::Right, Key::Right, Key::Right]);
    assert_eq!(app.method_select.get_current_tab(), "DELETE".to_string());
    // A fourth step right saturates: still DELETE, no wraparound.
    press_all(&mut app, &[Key::Right]);
    assert_eq!(app.method_select.get_current_tab(), "DELETE".to_string());
    assert_eq!(app.method_select.current_tab, 3);
    // And left steps back.
    press_all(&mut app, &[Key::Left]);
    assert_eq!(app.method_select.get_current_tab(), "PUT".to_string());
}

#[test]
fn malformed_body_is_rejected_before_dispatch() {
    let mut app = App::new();
    for c in "{ json: yes }".chars() {
        app.input_char(c);
    }
    let r = app.submit();
    assert_eq!(r.unwrap_err(), RequestError::MalformedBody);
    assert_eq!(app.response_body, "Error: request body is not valid JSON".to_string());
}

#[test]
fn malformed_body_scenario_through_keys() {
    let mut app = App::new();
    // Type an invalid body in the request editor.
    press_all(&mut app, &[Key::Down, Key::Down, Key::Down, Key::Enter]);
    assert_eq!(app.input_mode, InputMode::Entry);
    type_text(&mut app, "{ json: yes }");
    press_all(&mut app, &[Key::Esc]);
    // Walk to the send button and press it.
    press_all(&mut app, &[Key::Down, Key::Right]);
    assert_eq!(app.current_pane, PaneId::SendButton);
    let a = app.handle_key(Key::Enter);
    assert!(matches!(a, Action::Rejected(RequestError::MalformedBody)));
    assert!(!app.response_body.is_empty());
    assert_eq!(app.input_mode, InputMode::Navigation);
}

#[test]
fn valid_body_composes_the_request() {
    let mut app = App::new();
    for c in "http://x.com/api".chars() {
        app.endpoint_input_char(c);
    }
    for c in "{\"a\": [1, 2], \"b\": null}".chars() {
        app.input_char(c);
    }
    app.method_right();
    let req = app.submit().unwrap();
    assert_eq!(req.method, "POST".to_string());
    assert_eq!(req.url, "http://x.com/api".to_string());
    assert_eq!(req.body, "{\"a\": [1, 2], \"b\": null}".to_string());
    // A successful submission leaves the response pane alone.
    assert_eq!(app.response_body, String::new());
}

#[test]
fn send_button_submit_through_keys() {
    let mut app = App::new();
    for c in "[1, 2, 3]".chars() {
        app.input_char(c);
    }
    press_all(&mut app, &[Key::Down, Key::Down, Key::Down, Key::Down, Key::Right]);
    assert_eq!(app.current_pane, PaneId::SendButton);
    let a = app.handle_key(Key::Enter);
    match a {
        Action::Submit(req) => {
            assert_eq!(req.method, "GET".to_string());
            assert_eq!(req.body, "[1, 2, 3]".to_string());
        },
        other => panic!("expected a submit action, got {:?}", other),
    }
    assert_eq!(app.input_mode, InputMode::Navigation);
}

#[test]
fn dispatch_failure_is_surfaced_in_response_pane() {
    let mut app = App::new();
    app.report_request_error(RequestError::DispatchError("connection refused".to_string()));
    assert_eq!(app.response_body, "Error: request failed: connection refused".to_string());
}

#[test]
fn response_text_fills_response_pane() {
    let mut app = App::new();
    app.apply_response("{\"ok\": true}".to_string());
    assert_eq!(app.response_body, "{\"ok\": true}".to_string());
}

#[test]
fn tab_right_opens_fresh_identifiers() {
    let mut app = App::new();
    press_all(&mut app, &[Key::Enter]);
    assert_eq!(app.input_mode, InputMode::TabSelect);
    press_all(&mut app, &[Key::Right, Key::Right]);
    assert_eq!(app.tabs, vec![0, 1, 2]);
    assert_eq!(app.current_tab, 2);
}

#[test]
fn tab_right_reuses_smallest_free_identifier() {
    let mut app = App::new();
    press_all(&mut app, &[Key::Enter, Key::Right, Key::Right]);
    assert_eq!(app.tabs, vec![0, 1, 2]);
    press_all(&mut app, &[Key::Left, Key::Left]);
    assert_eq!(app.current_tab, 0);
    press_all(&mut app, &[Key::Backspace]);
    assert_eq!(app.tabs, vec![1, 2]);
    press_all(&mut app, &[Key::Right, Key::Right]);
    assert_eq!(app.tabs, vec![1, 2, 0]);
    assert_eq!(app.current_tab, 2);
}

#[test]
fn tab_left_saturates_at_first_tab() {
    let mut app = App::new();
    press_all(&mut app, &[Key::Enter, Key::Left]);
    assert_eq!(app.current_tab, 0);
}

#[test]
fn deleting_last_tab_reinstates_placeholder() {
    let mut app = App::new();
    press_all(&mut app, &[Key::Enter]);
    press_all(&mut app, &[Key::Delete]);
    assert_eq!(app.tabs, vec![0]);
    assert_eq!(app.current_tab, 0);
}

#[test]
fn deleting_past_end_steps_current_back() {
    let mut app = App::new();
    press_all(&mut app, &[Key::Enter, Key::Right]);
    assert_eq!(app.tabs, vec![0, 1]);
    assert_eq!(app.current_tab, 1);
    press_all(&mut app, &[Key::Backspace]);
    assert_eq!(app.tabs, vec![0]);
    assert_eq!(app.current_tab, 0);
}

#[test]
fn quit_from_navigation_and_tab_select() {
    let mut app = App::new();
    let a = app.handle_key(Key::Char('q'));
    assert!(matches!(a, Action::Quit));
    press_all(&mut app, &[Key::Enter]);
    let a = app.handle_key(Key::Char('q'));
    assert!(matches!(a, Action::Quit));
}

#[test]
fn unmapped_keys_are_silent_noops() {
    let mut app = App::new();
    let before_pane = app.current_pane;
    press_all(&mut app, &[Key::Char('x'), Key::Backspace, Key::Tab, Key::Delete]);
    assert_eq!(app.current_pane, before_pane);
    assert_eq!(app.input_mode, InputMode::Navigation);
    // No Exit edge is defined anywhere, so Escape in Navigation stands still.
    press_all(&mut app, &[Key::Esc]);
    assert_eq!(app.current_pane, before_pane);
    // Left from the tab bar is unmapped too.
    press_all(&mut app, &[Key::Left]);
    assert_eq!(app.current_pane, PaneId::Tabs);
}

#[test]
fn vim_keys_move_focus_like_arrows() {
    let mut app = App::new();
    press_all(&mut app, &[Key::Char('j')]);
    assert_eq!(app.current_pane, PaneId::Endpoint);
    press_all(&mut app, &[Key::Char('l')]);
    assert_eq!(app.current_pane, PaneId::ResponseTabs);
    press_all(&mut app, &[Key::Char('h')]);
    assert_eq!(app.current_pane, PaneId::Endpoint);
    press_all(&mut app, &[Key::Char('k')]);
    assert_eq!(app.current_pane, PaneId::Tabs);
}

#[test]
fn activating_response_text_changes_nothing() {
    let mut app = App::new();
    press_all(&mut app, &[Key::Down, Key::Right, Key::Down]);
    assert_eq!(app.current_pane, PaneId::ResponseText);
    press_all(&mut app, &[Key::Enter]);
    assert_eq!(app.input_mode, InputMode::Navigation);
    assert_eq!(app.current_pane, PaneId::ResponseText);
}

#[test]
fn reserved_modes_accept_only_exit() {
    let mut app = App::new();
    press_all(&mut app, &[Key::Down, Key::Down, Key::Enter]);
    assert_eq!(app.input_mode, InputMode::BodyHeaderSelect);
    press_all(&mut app, &[Key::Left, Key::Char('z'), Key::Enter]);
    assert_eq!(app.input_mode, InputMode::BodyHeaderSelect);
    press_all(&mut app, &[Key::Esc]);
    assert_eq!(app.input_mode, InputMode::Navigation);
    press_all(&mut app, &[Key::Up, Key::Right, Key::Enter]);
    assert_eq!(app.current_pane, PaneId::ResponseTabs);
    assert_eq!(app.input_mode, InputMode::ResponseSelect);
    press_all(&mut app, &[Key::Esc]);
    assert_eq!(app.input_mode, InputMode::Navigation);
}

#[test]
fn entry_mode_routes_editing_keys() {
    let mut app = App::new();
    press_all(&mut app, &[Key::Down, Key::Down, Key::Down, Key::Enter]);
    assert_eq!(app.input_mode, InputMode::Entry);
    assert_eq!(app.highlight_of(PaneId::RequestEntry), Highlight::Editing);
    type_text(&mut app, "ab");
    press_all(&mut app, &[Key::Enter]);
    type_text(&mut app, "cd");
    press_all(&mut app, &[Key::Tab]);
    press_all(&mut app, &[Key::Left, Key::Left, Key::Backspace]);
    press_all(&mut app, &[Key::Up, Key::Down]);
    let expected: Vec<char> = "ab\nc  ".chars().collect();
    assert_eq!(app.request_widget.text, expected);
    assert_eq!(app.request_widget.cursor_pos, 4);
    press_all(&mut app, &[Key::Esc]);
    assert_eq!(app.input_mode, InputMode::Navigation);
    assert_eq!(app.highlight_of(PaneId::RequestEntry), Highlight::Focused);
}
