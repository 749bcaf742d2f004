//! The application core: the focus controller, the modal input-routing
//! machine, the request tabs, the two editors and the submission path,
//! with the specification relations that pin down every transition.

pub mod tab_select;
pub mod text_entry;

use vstd::prelude::*;
use vstd::string::StringExecFns;

use self::tab_select::{select_left_rel, select_right_rel, TabSelect};
use self::text_entry::{
    backspace_rel, cursor_left_rel, cursor_right_rel, input_char_rel, input_tab_rel, TextEntry,
};
use crate::json::is_json;
use crate::ui_graph::{edge_target, init_ui_graph, ui_edges, Direction, PaneGraph, PaneId};

verus! {

/// Which component currently owns keystroke interpretation. Navigation is
/// the initial mode and the only mode reachable from every other mode;
/// there is no mode stack.
#[derive(Clone, Copy, PartialEq, Eq, Structural, Debug)]
pub enum InputMode {
    Navigation,
    TabSelect,
    Entry,
    EndpointEntry,
    BodyHeaderSelect,
    MethodSelect,
    ResponseSelect,
}

/// Rendering intent of one pane's frame.
#[derive(Clone, Copy, PartialEq, Eq, Structural, Debug)]
pub enum Highlight {
    Idle,
    Focused,
    Editing,
}

/// A discrete key event, as the consumer loop hands it to the core.
#[derive(Clone, Copy, PartialEq, Eq, Structural, Debug)]
pub enum Key {
    Esc,
    Enter,
    Backspace,
    Delete,
    Tab,
    Left,
    Right,
    Up,
    Down,
    Char(char),
}

/// Everything the external dispatcher needs to issue one call.
#[derive(Debug)]
pub struct Request {
    pub method: String,
    pub url: String,
    pub body: String,
}

/// Why a request did not produce a response body. A malformed body is
/// caught before any network activity; a dispatch error is whatever the
/// external call reports back.
#[derive(Debug, PartialEq, Eq)]
pub enum RequestError {
    MalformedBody,
    DispatchError(String),
}

/// What the consumer loop should do after a key has been interpreted.
#[derive(Debug)]
pub enum Action {
    /// The state change is complete; keep consuming events.
    Continue,
    /// The user asked to leave the application.
    Quit,
    /// Hand this request to the external dispatcher.
    Submit(Request),
    /// A submission was rejected before dispatch; the response pane
    /// already shows the error.
    Rejected(RequestError),
}

/// The whole mutable state of the core: the request tabs, the focus
/// position and per-pane highlight, the input mode, the two text buffers,
/// the method selector and the response pane's text.
pub struct App {
    pub tabs: Vec<usize>,
    pub current_tab: usize,
    pub input_mode: InputMode,
    pub response_body: String,
    pub current_pane: PaneId,
    pub ui: PaneGraph,
    pub endpoint_widget: TextEntry,
    pub request_widget: TextEntry,
    pub method_select: TabSelect,
    pub current_highlight: Highlight,
}

/// The error text shown when the request body fails validation.
pub open spec fn malformed_body_message() -> Seq<char> {
    "Error: request body is not valid JSON"@
}

/// The text put before a dispatch failure's own message.
pub open spec fn dispatch_error_prefix() -> Seq<char> {
    "Error: request failed: "@
}

/// The text written into the response pane for each kind of request error.
pub open spec fn error_message_of(e: RequestError) -> Seq<char> {
    match e {
        RequestError::MalformedBody => malformed_body_message(),
        RequestError::DispatchError(m) => dispatch_error_prefix() + m@,
    }
}

/// All state except the response pane's text is the same.
pub open spec fn same_except_response(pre: App, post: App) -> bool {
    &&& post.tabs == pre.tabs
    &&& post.current_tab == pre.current_tab
    &&& post.input_mode == pre.input_mode
    &&& post.current_pane == pre.current_pane
    &&& post.ui == pre.ui
    &&& post.endpoint_widget == pre.endpoint_widget
    &&& post.request_widget == pre.request_widget
    &&& post.method_select == pre.method_select
    &&& post.current_highlight == pre.current_highlight
}

/// All state except the request tab list and its current index is the same.
pub open spec fn same_except_tabs(pre: App, post: App) -> bool {
    &&& post.input_mode == pre.input_mode
    &&& post.response_body == pre.response_body
    &&& post.current_pane == pre.current_pane
    &&& post.ui == pre.ui
    &&& post.endpoint_widget == pre.endpoint_widget
    &&& post.request_widget == pre.request_widget
    &&& post.method_select == pre.method_select
    &&& post.current_highlight == pre.current_highlight
}

/// All state except the body editor is the same.
pub open spec fn same_except_request_widget(pre: App, post: App) -> bool {
    &&& post.tabs == pre.tabs
    &&& post.current_tab == pre.current_tab
    &&& post.input_mode == pre.input_mode
    &&& post.response_body == pre.response_body
    &&& post.current_pane == pre.current_pane
    &&& post.ui == pre.ui
    &&& post.endpoint_widget == pre.endpoint_widget
    &&& post.method_select == pre.method_select
    &&& post.current_highlight == pre.current_highlight
}

/// All state except the URL editor is the same.
pub open spec fn same_except_endpoint_widget(pre: App, post: App) -> bool {
    &&& post.tabs == pre.tabs
    &&& post.current_tab == pre.current_tab
    &&& post.input_mode == pre.input_mode
    &&& post.response_body == pre.response_body
    &&& post.current_pane == pre.current_pane
    &&& post.ui == pre.ui
    &&& post.request_widget == pre.request_widget
    &&& post.method_select == pre.method_select
    &&& post.current_highlight == pre.current_highlight
}

/// All state except the method selector is the same.
pub open spec fn same_except_method_select(pre: App, post: App) -> bool {
    &&& post.tabs == pre.tabs
    &&& post.current_tab == pre.current_tab
    &&& post.input_mode == pre.input_mode
    &&& post.response_body == pre.response_body
    &&& post.current_pane == pre.current_pane
    &&& post.ui == pre.ui
    &&& post.endpoint_widget == pre.endpoint_widget
    &&& post.request_widget == pre.request_widget
    &&& post.current_highlight == pre.current_highlight
}

/// What a focus move does: when the graph has an edge from the current pane
/// in the given direction, focus passes to exactly that edge's target and
/// the target is highlighted as focused; when it has none, nothing at all
/// changes. This holds for every pane and every direction.
pub open spec fn focus_move_rel(pre: App, post: App, dir: Direction) -> bool {
    match edge_target(pre.ui.edges@, pre.current_pane, dir) {
        Some(t) => post == (App {
            current_pane: t,
            current_highlight: Highlight::Focused,
            ..pre
        }),
        None => post == pre,
    }
}

/// What leaving an editing mode does: back to Navigation, with the current
/// pane highlighted as focused again.
pub open spec fn exit_input_rel(pre: App, post: App) -> bool {
    post == (App { input_mode: InputMode::Navigation, current_highlight: Highlight::Focused, ..pre })
}

/// The mode a leaf pane switches the machine into when activated, if any.
pub open spec fn activation_mode(p: PaneId) -> Option<InputMode> {
    match p {
        PaneId::Tabs => Some(InputMode::TabSelect),
        PaneId::Endpoint => Some(InputMode::EndpointEntry),
        PaneId::BodyHeaderSelect => Some(InputMode::BodyHeaderSelect),
        PaneId::RequestEntry => Some(InputMode::Entry),
        PaneId::MethodSelect => Some(InputMode::MethodSelect),
        PaneId::SendButton => None,
        PaneId::ResponseTabs => Some(InputMode::ResponseSelect),
        PaneId::ResponseText => None,
    }
}

/// The submitted request carries the selected method, the URL editor's
/// content and the body editor's content.
pub open spec fn request_matches(pre: App, req: Request) -> bool {
    &&& req.method@ == pre.method_select.tabs@[pre.method_select.current_tab as int]@
    &&& req.url@ == pre.endpoint_widget.text@
    &&& req.body@ == pre.request_widget.text@
}

/// What submitting does: a body that is valid JSON leaves the state alone
/// and yields the composed request; any other body changes nothing but the
/// response pane, which now shows the malformed-body error.
pub open spec fn submit_rel(pre: App, post: App, r: Result<Request, RequestError>) -> bool {
    if is_json(pre.request_widget.text@) {
        &&& post == pre
        &&& (r matches Ok(req) && request_matches(pre, req))
    } else {
        &&& same_except_response(pre, post)
        &&& post.response_body@ == malformed_body_message()
        &&& (r matches Err(e) && e == RequestError::MalformedBody)
    }
}

/// `submit_rel`, folded into the action handed back by `enter`.
pub open spec fn submit_action_rel(pre: App, post: App, r: Action) -> bool {
    if is_json(pre.request_widget.text@) {
        &&& post == pre
        &&& (r matches Action::Submit(req) && request_matches(pre, req))
    } else {
        &&& same_except_response(pre, post)
        &&& post.response_body@ == malformed_body_message()
        &&& r == Action::Rejected(RequestError::MalformedBody)
    }
}

/// What `enter` does: follow an Enter edge when the graph has one;
/// otherwise activate the current pane, which either switches the machine
/// into that pane's mode, or submits (send button), or does nothing.
pub open spec fn enter_rel(pre: App, post: App, r: Action) -> bool {
    match edge_target(pre.ui.edges@, pre.current_pane, Direction::Enter) {
        Some(t) => {
            &&& post == (App { current_pane: t, current_highlight: Highlight::Focused, ..pre })
            &&& r is Continue
        },
        None => match activation_mode(pre.current_pane) {
            Some(m) => {
                &&& post == (App { input_mode: m, current_highlight: Highlight::Editing, ..pre })
                &&& r is Continue
            },
            None => if pre.current_pane == PaneId::SendButton {
                submit_action_rel(pre, post, r)
            } else {
                post == pre && r is Continue
            },
        },
    }
}

/// What `tab_left` does: step to the previous request tab, saturating at
/// the first.
pub open spec fn tab_left_rel(pre: App, post: App) -> bool {
    post == (App {
        current_tab: if pre.current_tab > 0 {
            (pre.current_tab - 1) as usize
        } else {
            0usize
        },
        ..pre
    })
}

/// `k` is the smallest identifier absent from `s`.
pub open spec fn is_fresh_tab_id(s: Seq<usize>, k: usize) -> bool {
    &&& !s.contains(k)
    &&& forall|j: int| 0 <= j < k ==> #[trigger] s.contains(j as usize)
}

/// What `tab_right` does: step to the next request tab; past the last tab,
/// a new tab is opened under the smallest identifier not in use.
pub open spec fn tab_right_rel(pre: App, post: App) -> bool {
    &&& post.current_tab == pre.current_tab + 1
    &&& if pre.current_tab + 1 < pre.tabs@.len() {
        post.tabs == pre.tabs
    } else {
        exists|k: usize| #![auto] post.tabs@ == pre.tabs@.push(k) && is_fresh_tab_id(pre.tabs@, k)
    }
    &&& same_except_tabs(pre, post)
}

/// What `tab_delete` does: close the current tab; closing the last tab
/// reinstates the placeholder identifier 0, and an index past the new end
/// steps back onto the last tab.
pub open spec fn tab_delete_rel(pre: App, post: App) -> bool {
    let rest = pre.tabs@.remove(pre.current_tab as int);
    &&& post.tabs@ == if rest.len() == 0 {
        seq![0usize]
    } else {
        rest
    }
    &&& post.current_tab == if (pre.current_tab as int) < post.tabs@.len() {
        pre.current_tab as int
    } else {
        pre.current_tab - 1
    }
    &&& same_except_tabs(pre, post)
}

/// Key routing while Navigation owns the keys: directional keys (arrows or
/// h/j/k/l) walk the focus graph, Enter activates the focused pane, Escape
/// walks up the hierarchy, `q` quits, and everything else is a silent
/// no-op.
pub open spec fn nav_step_rel(pre: App, post: App, k: Key, r: Action) -> bool {
    match k {
        Key::Esc => focus_move_rel(pre, post, Direction::Exit) && r is Continue,
        Key::Enter => enter_rel(pre, post, r),
        Key::Left => focus_move_rel(pre, post, Direction::Left) && r is Continue,
        Key::Right => focus_move_rel(pre, post, Direction::Right) && r is Continue,
        Key::Up => focus_move_rel(pre, post, Direction::Up) && r is Continue,
        Key::Down => focus_move_rel(pre, post, Direction::Down) && r is Continue,
        Key::Char(c) => if c == 'q' {
            post == pre && r is Quit
        } else if c == 'h' {
            focus_move_rel(pre, post, Direction::Left) && r is Continue
        } else if c == 'l' {
            focus_move_rel(pre, post, Direction::Right) && r is Continue
        } else if c == 'k' {
            focus_move_rel(pre, post, Direction::Up) && r is Continue
        } else if c == 'j' {
            focus_move_rel(pre, post, Direction::Down) && r is Continue
        } else {
            post == pre && r is Continue
        },
        _ => post == pre && r is Continue,
    }
}

/// Key routing while the body editor owns the keys: characters, line
/// breaks, backspace, tab-insert and horizontal cursor moves reach the
/// buffer, vertical moves are the buffer's documented no-ops, and Escape
/// returns to Navigation.
pub open spec fn entry_step_rel(pre: App, post: App, k: Key, r: Action) -> bool {
    &&& r is Continue
    &&& match k {
        Key::Esc => exit_input_rel(pre, post),
        Key::Enter => same_except_request_widget(pre, post) && input_char_rel(
            pre.request_widget,
            post.request_widget,
            '\n',
        ),
        Key::Backspace => same_except_request_widget(pre, post) && backspace_rel(
            pre.request_widget,
            post.request_widget,
        ),
        Key::Tab => same_except_request_widget(pre, post) && input_tab_rel(
            pre.request_widget,
            post.request_widget,
        ),
        Key::Left => same_except_request_widget(pre, post) && cursor_left_rel(
            pre.request_widget,
            post.request_widget,
        ),
        Key::Right => same_except_request_widget(pre, post) && cursor_right_rel(
            pre.request_widget,
            post.request_widget,
        ),
        Key::Char(c) => same_except_request_widget(pre, post) && input_char_rel(
            pre.request_widget,
            post.request_widget,
            c,
        ),
        _ => post == pre,
    }
}

/// Key routing while the tab bar owns the keys: left/right cycle the
/// request tabs, backspace or delete closes the current tab, `q` quits and
/// Escape returns to Navigation.
pub open spec fn tab_select_step_rel(pre: App, post: App, k: Key, r: Action) -> bool {
    match k {
        Key::Esc => exit_input_rel(pre, post) && r is Continue,
        Key::Left => tab_left_rel(pre, post) && r is Continue,
        Key::Right => tab_right_rel(pre, post) && r is Continue,
        Key::Backspace => tab_delete_rel(pre, post) && r is Continue,
        Key::Delete => tab_delete_rel(pre, post) && r is Continue,
        Key::Char(c) => if c == 'q' {
            post == pre && r is Quit
        } else if c == 'h' {
            tab_left_rel(pre, post) && r is Continue
        } else if c == 'l' {
            tab_right_rel(pre, post) && r is Continue
        } else {
            post == pre && r is Continue
        },
        _ => post == pre && r is Continue,
    }
}

/// Key routing while the URL editor owns the keys: characters, backspace
/// and horizontal cursor moves reach the single-line buffer, and both
/// Enter and Escape return to Navigation.
pub open spec fn endpoint_step_rel(pre: App, post: App, k: Key, r: Action) -> bool {
    &&& r is Continue
    &&& match k {
        Key::Esc => exit_input_rel(pre, post),
        Key::Enter => exit_input_rel(pre, post),
        Key::Backspace => same_except_endpoint_widget(pre, post) && backspace_rel(
            pre.endpoint_widget,
            post.endpoint_widget,
        ),
        Key::Left => same_except_endpoint_widget(pre, post) && cursor_left_rel(
            pre.endpoint_widget,
            post.endpoint_widget,
        ),
        Key::Right => same_except_endpoint_widget(pre, post) && cursor_right_rel(
            pre.endpoint_widget,
            post.endpoint_widget,
        ),
        Key::Char(c) => same_except_endpoint_widget(pre, post) && input_char_rel(
            pre.endpoint_widget,
            post.endpoint_widget,
            c,
        ),
        _ => post == pre,
    }
}

/// Key routing while the method selector owns the keys: left/right move
/// the selection among the HTTP methods and Escape returns to Navigation.
pub open spec fn method_step_rel(pre: App, post: App, k: Key, r: Action) -> bool {
    &&& r is Continue
    &&& match k {
        Key::Esc => exit_input_rel(pre, post),
        Key::Left => same_except_method_select(pre, post) && select_left_rel(
            pre.method_select,
            post.method_select,
        ),
        Key::Right => same_except_method_select(pre, post) && select_right_rel(
            pre.method_select,
            post.method_select,
        ),
        _ => post == pre,
    }
}

/// Key routing in the modes reserved for future sub-navigation: only the
/// exit action is accepted.
pub open spec fn select_pane_step_rel(pre: App, post: App, k: Key, r: Action) -> bool {
    &&& r is Continue
    &&& match k {
        Key::Esc => exit_input_rel(pre, post),
        _ => post == pre,
    }
}

/// The whole input-routing machine: which component a key reaches, and
/// what it does there, as a function of the current mode.
pub open spec fn step_rel(pre: App, post: App, k: Key, r: Action) -> bool {
    match pre.input_mode {
        InputMode::Navigation => nav_step_rel(pre, post, k, r),
        InputMode::Entry => entry_step_rel(pre, post, k, r),
        InputMode::TabSelect => tab_select_step_rel(pre, post, k, r),
        InputMode::EndpointEntry => endpoint_step_rel(pre, post, k, r),
        InputMode::MethodSelect => method_step_rel(pre, post, k, r),
        InputMode::BodyHeaderSelect => select_pane_step_rel(pre, post, k, r),
        InputMode::ResponseSelect => select_pane_step_rel(pre, post, k, r),
    }
}

impl App {
    /// Internal consistency of the whole state: both editors are well
    /// formed, the URL editor rejects line breaks while the body editor
    /// accepts them, the method selector is well formed, the tab list is
    /// non-empty with unique identifiers and a valid current index, and the
    /// focus graph is the fixed startup table.
    pub open spec fn wf(self) -> bool {
        &&& self.endpoint_widget.wf()
        &&& !self.endpoint_widget.newlines_allowed
        &&& self.request_widget.wf()
        &&& self.request_widget.newlines_allowed
        &&& self.method_select.wf()
        &&& self.tabs@.len() > 0
        &&& self.current_tab < self.tabs@.len()
        &&& self.tabs@.no_duplicates()
        &&& self.ui.edges@ == ui_edges()
    }

    /// The highlight always reflects the mode: focused while navigating,
    /// editing while any input mode owns the keys.
    pub open spec fn mode_highlight_consistent(self) -> bool {
        self.current_highlight == if self.input_mode == InputMode::Navigation {
            Highlight::Focused
        } else {
            Highlight::Editing
        }
    }

    /// The highlight intent of one pane: the current pane carries the
    /// focused or editing highlight, every other pane is idle.
    pub open spec fn spec_highlight_of(self, pane: PaneId) -> Highlight {
        if pane == self.current_pane {
            self.current_highlight
        } else {
            Highlight::Idle
        }
    }

    /// A fresh session: focus on the tab bar in Navigation mode, one
    /// request tab with identifier 0, both editors empty, GET selected and
    /// nothing in the response pane.
    pub fn new() -> (r: App)
        ensures
            r.wf(),
            r.mode_highlight_consistent(),
            r.tabs@ == seq![0usize],
            r.current_tab == 0,
            r.input_mode == InputMode::Navigation,
            r.response_body@ == Seq::<char>::empty(),
            r.current_pane == PaneId::Tabs,
            r.ui.edges@ == ui_edges(),
            r.endpoint_widget.text@ == Seq::<char>::empty(),
            r.endpoint_widget.cursor_pos == 0,
            !r.endpoint_widget.newlines_allowed,
            r.request_widget.text@ == Seq::<char>::empty(),
            r.request_widget.cursor_pos == 0,
            r.request_widget.newlines_allowed,
            r.method_select.current_tab == 0,
            r.method_select.tabs@.len() == 4,
            r.method_select.tabs@[0]@ == "GET"@,
            r.method_select.tabs@[1]@ == "POST"@,
            r.method_select.tabs@[2]@ == "PUT"@,
            r.method_select.tabs@[3]@ == "DELETE"@,
            r.current_highlight == Highlight::Focused,
    {
        let graph = init_ui_graph();
        let mut tabs: Vec<usize> = Vec::new();
        tabs.push(0);
        proof {
            assert(tabs@ =~= seq![0usize]);
        }
        let mut methods: Vec<String> = Vec::new();
        methods.push("GET".to_owned());
        methods.push("POST".to_owned());
        methods.push("PUT".to_owned());
        methods.push("DELETE".to_owned());
        let method_select = TabSelect::new(methods, "Method".to_owned());
        App {
            tabs,
            current_tab: 0,
            input_mode: InputMode::Navigation,
            response_body: String::new(),
            current_pane: PaneId::Tabs,
            ui: graph,
            endpoint_widget: TextEntry::new(Vec::new(), false),
            request_widget: TextEntry::new(Vec::new(), true),
            method_select,
            current_highlight: Highlight::Focused,
        }
    }

    /// Walk one edge of the focus graph, if it exists; unmapped directions
    /// are a silent no-op.
    fn move_focus(&mut self, dir: Direction)
        requires
            old(self).wf(),
        ensures
            final(self).wf(),
            focus_move_rel(*old(self), *final(self), dir),
    {
        match self.ui.lookup(self.current_pane, dir) {
            Some(t) => {
                self.current_pane = t;
                self.current_highlight = Highlight::Focused;
            },
            None => {},
        }
    }

    /// Walk up the pane hierarchy along an Exit edge, used at the
    /// Navigation level.
    pub fn escape(&mut self)
        requires
            old(self).wf(),
        ensures
            final(self).wf(),
            focus_move_rel(*old(self), *final(self), Direction::Exit),
    {
        self.move_focus(Direction::Exit);
    }

    /// Move focus to the pane on the left, if one is mapped.
    pub fn left(&mut self)
        requires
            old(self).wf(),
        ensures
            final(self).wf(),
            focus_move_rel(*old(self), *final(self), Direction::Left),
    {
        self.move_focus(Direction::Left);
    }

    /// Move focus to the pane on the right, if one is mapped.
    pub fn right(&mut self)
        requires
            old(self).wf(),
        ensures
            final(self).wf(),
            focus_move_rel(*old(self), *final(self), Direction::Right),
    {
        self.move_focus(Direction::Right);
    }

    /// Move focus to the pane above, if one is mapped.
    pub fn up(&mut self)
        requires
            old(self).wf(),
        ensures
            final(self).wf(),
            focus_move_rel(*old(self), *final(self), Direction::Up),
    {
        self.move_focus(Direction::Up);
    }

    /// Move focus to the pane below, if one is mapped.
    pub fn down(&mut self)
        requires
            old(self).wf(),
        ensures
            final(self).wf(),
            focus_move_rel(*old(self), *final(self), Direction::Down),
    {
        self.move_focus(Direction::Down);
    }

    /// Activate the focused pane: follow an Enter edge when the graph has
    /// one, otherwise switch into the pane's mode or, on the send button,
    /// submit the composed request.
    pub fn enter(&mut self) -> (r: Action)
        requires
            old(self).wf(),
        ensures
            final(self).wf(),
            enter_rel(*old(self), *final(self), r),
    {
        match self.ui.lookup(self.current_pane, Direction::Enter) {
            Some(t) => {
                self.current_pane = t;
                self.current_highlight = Highlight::Focused;
                Action::Continue
            },
            None => {
                match self.current_pane {
                    PaneId::Tabs => {
                        self.input_mode = InputMode::TabSelect;
                        self.current_highlight = Highlight::Editing;
                        Action::Continue
                    },
                    PaneId::Endpoint => {
                        self.input_mode = InputMode::EndpointEntry;
                        self.current_highlight = Highlight::Editing;
                        Action::Continue
                    },
                    PaneId::BodyHeaderSelect => {
                        self.input_mode = InputMode::BodyHeaderSelect;
                        self.current_highlight = Highlight::Editing;
                        Action::Continue
                    },
                    PaneId::RequestEntry => {
                        self.input_mode = InputMode::Entry;
                        self.current_highlight = Highlight::Editing;
                        Action::Continue
                    },
                    PaneId::MethodSelect => {
                        self.input_mode = InputMode::MethodSelect;
                        self.current_highlight = Highlight::Editing;
                        Action::Continue
                    },
                    PaneId::SendButton => {
                        match self.submit() {
                            Ok(req) => Action::Submit(req),
                            Err(e) => Action::Rejected(e),
                        }
                    },
                    PaneId::ResponseTabs => {
                        self.input_mode = InputMode::ResponseSelect;
                        self.current_highlight = Highlight::Editing;
                        Action::Continue
                    },
                    PaneId::ResponseText => Action::Continue,
                }
            },
        }
    }

    /// Leave the current input mode and return keystroke ownership to
    /// Navigation.
    pub fn exit_input(&mut self)
        requires
            old(self).wf(),
        ensures
            final(self).wf(),
            exit_input_rel(*old(self), *final(self)),
    {
        self.input_mode = InputMode::Navigation;
        self.current_highlight = Highlight::Focused;
    }

    /// Validate the body and compose the request for the dispatcher; a body
    /// that is not valid JSON is rejected before any network activity and
    /// the error is surfaced in the response pane.
    pub fn submit(&mut self) -> (r: Result<Request, RequestError>)
        requires
            old(self).wf(),
        ensures
            final(self).wf(),
            submit_rel(*old(self), *final(self), r),
    {
        let valid = crate::json::check_json(&self.request_widget.text);
        if valid {
            let method = self.method_select.get_current_tab();
            let url = self.endpoint_widget.text_string();
            let body = self.request_widget.text_string();
            Ok(Request { method, url, body })
        } else {
            self.report_request_error(RequestError::MalformedBody);
            Err(RequestError::MalformedBody)
        }
    }

    /// Write a successful dispatch's response text into the response pane.
    pub fn apply_response(&mut self, text: String)
        requires
            old(self).wf(),
        ensures
            final(self).wf(),
            same_except_response(*old(self), *final(self)),
            final(self).response_body@ == text@,
    {
        self.response_body = text;
    }

    /// Surface a request error in the response pane; never fatal.
    pub fn report_request_error(&mut self, e: RequestError)
        requires
            old(self).wf(),
        ensures
            final(self).wf(),
            same_except_response(*old(self), *final(self)),
            final(self).response_body@ == error_message_of(e),
    {
        match e {
            RequestError::MalformedBody => {
                self.response_body = "Error: request body is not valid JSON".to_owned();
            },
            RequestError::DispatchError(m) => {
                self.response_body = "Error: request failed: ".to_owned().concat(m.as_str());
            },
        }
    }

    /// Step to the previous request tab, saturating at the first.
    pub fn tab_left(&mut self)
        requires
            old(self).wf(),
        ensures
            final(self).wf(),
            tab_left_rel(*old(self), *final(self)),
    {
        if self.current_tab > 0 {
            self.current_tab = self.current_tab - 1;
        }
    }

    /// Step to the next request tab; past the last tab, open a new tab
    /// under the smallest identifier not in use.
    pub fn tab_right(&mut self)
        requires
            old(self).wf(),
        ensures
            final(self).wf(),
            tab_right_rel(*old(self), *final(self)),
    {
        let n = self.tabs.len();
        proof {
            assert(self.current_tab + 1 <= n);
        }
        self.current_tab = self.current_tab + 1;
        if self.current_tab >= self.tabs.len() {
            let id = fresh_tab_id(&self.tabs);
            self.tabs.push(id);
            proof {
                let pre = old(self).tabs@;
                assert forall|i: int, j: int|
                    0 <= i < pre.push(id).len() && 0 <= j < pre.push(id).len() && i
                        != j implies pre.push(id)[i] != pre.push(id)[j] by {
                    if i < pre.len() && j < pre.len() {
                        assert(pre[i] != pre[j]);
                    } else if i < pre.len() {
                        assert(pre.contains(pre[i]));
                    } else if j < pre.len() {
                        assert(pre.contains(pre[j]));
                    }
                }
            }
        }
    }

    /// Close the current request tab; closing the last tab reinstates the
    /// placeholder identifier 0.
    pub fn tab_delete(&mut self)
        requires
            old(self).wf(),
        ensures
            final(self).wf(),
            tab_delete_rel(*old(self), *final(self)),
    {
        proof {
            old(self).tabs@.remove_ensures(old(self).current_tab as int);
            let rest = old(self).tabs@.remove(old(self).current_tab as int);
            assert forall|i: int, j: int|
                0 <= i < rest.len() && 0 <= j < rest.len() && i != j implies rest[i] != rest[j] by {
                let ct = old(self).current_tab as int;
                let pre = old(self).tabs@;
                let pi: int = if i < ct {
                    i
                } else {
                    i + 1
                };
                let pj: int = if j < ct {
                    j
                } else {
                    j + 1
                };
                assert(rest[i] == pre[pi]);
                assert(rest[j] == pre[pj]);
                assert(pre[pi] != pre[pj]);
            }
        }
        self.tabs.remove(self.current_tab);
        if self.tabs.len() == 0 {
            self.tabs.push(0);
            proof {
                assert(self.tabs@ =~= seq![0usize]);
            }
        }
        if self.current_tab >= self.tabs.len() {
            self.current_tab = self.current_tab - 1;
        }
    }

    /// Route a backspace to the body editor.
    pub fn backspace(&mut self)
        requires
            old(self).wf(),
        ensures
            final(self).wf(),
            same_except_request_widget(*old(self), *final(self)),
            backspace_rel(old(self).request_widget, final(self).request_widget),
    {
        self.request_widget.backspace();
    }

    /// Route a tab-insert to the body editor.
    pub fn input_tab(&mut self)
        requires
            old(self).wf(),
        ensures
            final(self).wf(),
            same_except_request_widget(*old(self), *final(self)),
            input_tab_rel(old(self).request_widget, final(self).request_widget),
    {
        self.request_widget.input_tab();
    }

    /// Move the body editor's cursor one character left.
    pub fn entry_left(&mut self)
        requires
            old(self).wf(),
        ensures
            final(self).wf(),
            same_except_request_widget(*old(self), *final(self)),
            cursor_left_rel(old(self).request_widget, final(self).request_widget),
    {
        self.request_widget.cursor_left();
    }

    /// Move the body editor's cursor one character right.
    pub fn entry_right(&mut self)
        requires
            old(self).wf(),
        ensures
            final(self).wf(),
            same_except_request_widget(*old(self), *final(self)),
            cursor_right_rel(old(self).request_widget, final(self).request_widget),
    {
        self.request_widget.cursor_right();
    }

    /// Vertical movement in the body editor; a documented no-op.
    pub fn entry_up(&mut self)
        ensures
            *final(self) == *old(self),
    {
        self.request_widget.cursor_up();
    }

    /// Vertical movement in the body editor; a documented no-op.
    pub fn entry_down(&mut self)
        ensures
            *final(self) == *old(self),
    {
        self.request_widget.cursor_down();
    }

    /// Route a character to the body editor.
    pub fn input_char(&mut self, c: char)
        requires
            old(self).wf(),
        ensures
            final(self).wf(),
            same_except_request_widget(*old(self), *final(self)),
            input_char_rel(old(self).request_widget, final(self).request_widget, c),
    {
        self.request_widget.input_char(c);
    }

    /// Route a character to the URL editor; line breaks are dropped there.
    pub fn endpoint_input_char(&mut self, c: char)
        requires
            old(self).wf(),
        ensures
            final(self).wf(),
            same_except_endpoint_widget(*old(self), *final(self)),
            input_char_rel(old(self).endpoint_widget, final(self).endpoint_widget, c),
    {
        self.endpoint_widget.input_char(c);
    }

    /// Route a backspace to the URL editor.
    pub fn endpoint_backspace(&mut self)
        requires
            old(self).wf(),
        ensures
            final(self).wf(),
            same_except_endpoint_widget(*old(self), *final(self)),
            backspace_rel(old(self).endpoint_widget, final(self).endpoint_widget),
    {
        self.endpoint_widget.backspace();
    }

    /// Step the HTTP-method selection left, saturating at the first method.
    pub fn method_left(&mut self)
        requires
            old(self).wf(),
        ensures
            final(self).wf(),
            same_except_method_select(*old(self), *final(self)),
            select_left_rel(old(self).method_select, final(self).method_select),
    {
        self.method_select.move_left();
    }

    /// Step the HTTP-method selection right, saturating at the last method.
    pub fn method_right(&mut self)
        requires
            old(self).wf(),
        ensures
            final(self).wf(),
            same_except_method_select(*old(self), *final(self)),
            select_right_rel(old(self).method_select, final(self).method_select),
    {
        self.method_select.move_right();
    }

    /// The highlight intent to render one pane with.
    pub fn highlight_of(&self, pane: PaneId) -> (h: Highlight)
        ensures
            h == self.spec_highlight_of(pane),
    {
        if pane == self.current_pane {
            self.current_highlight
        } else {
            Highlight::Idle
        }
    }

    /// Shutdown hook of the core: nothing in this state needs releasing.
    pub fn exit(&mut self)
        ensures
            *final(self) == *old(self),
    {
    }

    /// Interpret one key event in the current mode: route it to the focus
    /// controller, a text buffer, the tab bar or the method selector, and
    /// tell the consumer loop what to do next. A key with no binding in
    /// the current mode is a silent no-op, never an error.
    ///
    /// Escape is interpreted modally first: in any non-Navigation mode it
    /// leaves that mode and nothing else; only in Navigation does it walk
    /// the graph's Exit edge. The two never apply to the same keypress.
    pub fn handle_key(&mut self, k: Key) -> (r: Action)
        requires
            old(self).wf(),
            old(self).mode_highlight_consistent(),
        ensures
            final(self).wf(),
            final(self).mode_highlight_consistent(),
            step_rel(*old(self), *final(self), k, r),
    {
        match self.input_mode {
            InputMode::Navigation => match k {
                Key::Esc => {
                    self.escape();
                    Action::Continue
                },
                Key::Enter => self.enter(),
                Key::Left => {
                    self.left();
                    Action::Continue
                },
                Key::Right => {
                    self.right();
                    Action::Continue
                },
                Key::Up => {
                    self.up();
                    Action::Continue
                },
                Key::Down => {
                    self.down();
                    Action::Continue
                },
                Key::Char(c) => {
                    if c == 'q' {
                        Action::Quit
                    } else if c == 'h' {
                        self.left();
                        Action::Continue
                    } else if c == 'l' {
                        self.right();
                        Action::Continue
                    } else if c == 'k' {
                        self.up();
                        Action::Continue
                    } else if c == 'j' {
                        self.down();
                        Action::Continue
                    } else {
                        Action::Continue
                    }
                },
                _ => Action::Continue,
            },
            InputMode::Entry => {
                match k {
                    Key::Esc => self.exit_input(),
                    Key::Enter => self.input_char('\n'),
                    Key::Backspace => self.backspace(),
                    Key::Tab => self.input_tab(),
                    Key::Left => self.entry_left(),
                    Key::Right => self.entry_right(),
                    Key::Up => self.entry_up(),
                    Key::Down => self.entry_down(),
                    Key::Char(c) => self.input_char(c),
                    Key::Delete => {},
                }
                Action::Continue
            },
            InputMode::TabSelect => match k {
                Key::Esc => {
                    self.exit_input();
                    Action::Continue
                },
                Key::Left => {
                    self.tab_left();
                    Action::Continue
                },
                Key::Right => {
                    self.tab_right();
                    Action::Continue
                },
                Key::Backspace => {
                    self.tab_delete();
                    Action::Continue
                },
                Key::Delete => {
                    self.tab_delete();
                    Action::Continue
                },
                Key::Char(c) => {
                    if c == 'q' {
                        Action::Quit
                    } else if c == 'h' {
                        self.tab_left();
                        Action::Continue
                    } else if c == 'l' {
                        self.tab_right();
                        Action::Continue
                    } else {
                        Action::Continue
                    }
                },
                _ => Action::Continue,
            },
            InputMode::EndpointEntry => {
                match k {
                    Key::Esc => self.exit_input(),
                    Key::Enter => self.exit_input(),
                    Key::Backspace => self.endpoint_backspace(),
                    Key::Left => self.endpoint_widget.cursor_left(),
                    Key::Right => self.endpoint_widget.cursor_right(),
                    Key::Char(c) => self.endpoint_input_char(c),
                    _ => {},
                }
                Action::Continue
            },
            InputMode::MethodSelect => {
                match k {
                    Key::Esc => self.exit_input(),
                    Key::Left => self.method_left(),
                    Key::Right => self.method_right(),
                    _ => {},
                }
                Action::Continue
            },
            InputMode::BodyHeaderSelect => {
                match k {
                    Key::Esc => self.exit_input(),
                    _ => {},
                }
                Action::Continue
            },
            InputMode::ResponseSelect => {
                match k {
                    Key::Esc => self.exit_input(),
                    _ => {},
                }
                Action::Continue
            },
        }
    }
}

/// Modes nest a single level: a key interpreted outside Navigation either
/// keeps the machine in the same mode or returns it to Navigation — no
/// mode is ever entered from another non-Navigation mode.
pub proof fn lemma_single_level_modes(pre: App, post: App, k: Key, r: Action)
    requires
        step_rel(pre, post, k, r),
        pre.input_mode != InputMode::Navigation,
    ensures
        post.input_mode == pre.input_mode || post.input_mode == InputMode::Navigation,
{
}

/// A focus move obeys the literal startup edge table: it lands on exactly
/// the recorded target of the edge leaving the current pane in the given
/// direction, or leaves focus unchanged when the table has no such edge.
pub proof fn lemma_move_follows_edge_table(pre: App, post: App, dir: Direction)
    requires
        pre.wf(),
        focus_move_rel(pre, post, dir),
    ensures
        match edge_target(ui_edges(), pre.current_pane, dir) {
            Some(t) => post.current_pane == t,
            None => post.current_pane == pre.current_pane,
        },
{
}

/// Exactly one pane carries a non-idle highlight at any time: the current
/// pane, whose highlight follows the mode; every other pane is idle.
pub proof fn lemma_single_highlight(a: App, p: PaneId)
    requires
        a.mode_highlight_consistent(),
    ensures
        a.spec_highlight_of(a.current_pane) != Highlight::Idle,
        p != a.current_pane ==> a.spec_highlight_of(p) == Highlight::Idle,
{
}

/// Does the tab list contain this identifier?
fn contains_id(v: &Vec<usize>, x: usize) -> (b: bool)
    ensures
        b == v@.contains(x),
{
    let mut i: usize = 0;
    while i < v.len()
        invariant
            i <= v@.len(),
            forall|j: int| 0 <= j < i ==> v@[j] != x,
        decreases v@.len() - i,
    {
        if v[i] == x {
            return true;
        }
        i = i + 1;
    }
    false
}

/// Among any `m` pairwise distinct identifiers that include all of
/// `0 .. m`, there are at least `m` entries: the pigeonhole bound that
/// keeps the search for a fresh identifier inside the list's length.
proof fn lemma_fresh_id_pigeonhole(s: Seq<usize>, m: int)
    requires
        s.no_duplicates(),
        0 <= m <= usize::MAX as int + 1,
        forall|j: int| 0 <= j < m ==> #[trigger] s.contains(j as usize),
    ensures
        m <= s.len(),
{
    let t = s.map_values(|x: usize| x as int);
    assert forall|i: int, j: int|
        0 <= i < t.len() && 0 <= j < t.len() && i != j implies t[i] != t[j] by {
        assert(s[i] != s[j]);
    }
    t.unique_seq_to_set();
    broadcast use vstd::seq_lib::seq_to_set_is_finite;

    vstd::set_lib::lemma_int_range(0, m);
    assert forall|j: int|
        vstd::set_lib::set_int_range(0, m).contains(j) implies t.to_set().contains(j) by {
        assert(s.contains(j as usize));
        let idx = choose|idx: int| 0 <= idx < s.len() && s[idx] == j as usize;
        assert(t[idx] == j);
        assert(t.contains(j));
    }
    assert(vstd::set_lib::set_int_range(0, m).subset_of(t.to_set()));
    vstd::set_lib::lemma_len_subset(vstd::set_lib::set_int_range(0, m), t.to_set());
}

/// The smallest identifier not yet used by any tab.
fn fresh_tab_id(tabs: &Vec<usize>) -> (r: usize)
    requires
        tabs@.no_duplicates(),
    ensures
        is_fresh_tab_id(tabs@, r),
{
    let n = tabs.len();
    let mut i: usize = 0;
    loop
        invariant
            tabs@.no_duplicates(),
            n == tabs@.len(),
            i <= n,
            forall|j: int| 0 <= j < i ==> #[trigger] tabs@.contains(j as usize),
        ensures
            is_fresh_tab_id(tabs@, i),
        decreases n + 1 - i,
    {
        if !contains_id(tabs, i) {
            break ;
        }
        proof {
            assert forall|j: int| 0 <= j < i + 1 implies #[trigger] tabs@.contains(j as usize) by {
                if j < i {
                } else {
                    assert(j == i);
                    assert(tabs@.contains(i));
                }
            }
            lemma_fresh_id_pigeonhole(tabs@, i as int + 1);
        }
        i = i + 1;
    }
    i
}

} // verus!
