use vstd::prelude::*;

verus! {

/// A bounded, saturating left/right selection widget over a non-empty
/// ordered list of labels, used for the HTTP-method choice and for labeled
/// tab bars.
pub struct TabSelect {
    pub tabs: Vec<String>,
    pub current_tab: usize,
    pub title: String,
}

/// What `move_left` does: step the selection left, saturating at the first
/// label.
pub open spec fn select_left_rel(pre: TabSelect, post: TabSelect) -> bool {
    &&& post.current_tab == if pre.current_tab > 0 {
        pre.current_tab - 1
    } else {
        0int
    }
    &&& post.tabs == pre.tabs
    &&& post.title == pre.title
}

/// What `move_right` does: step the selection right, saturating at the last
/// label.
pub open spec fn select_right_rel(pre: TabSelect, post: TabSelect) -> bool {
    &&& post.current_tab == if pre.current_tab + 1 < pre.tabs@.len() {
        pre.current_tab + 1
    } else {
        pre.current_tab as int
    }
    &&& post.tabs == pre.tabs
    &&& post.title == pre.title
}

impl TabSelect {
    /// The label list is never empty and the selection stays inside it.
    pub open spec fn wf(self) -> bool {
        &&& self.tabs@.len() > 0
        &&& self.current_tab < self.tabs@.len()
    }

    /// A fresh selector over `tabs`, with the first label selected.
    pub fn new(tabs: Vec<String>, title: String) -> (r: TabSelect)
        requires
            tabs@.len() > 0,
        ensures
            r.tabs@ == tabs@,
            r.current_tab == 0,
            r.title@ == title@,
            r.wf(),
    {
        TabSelect { tabs, current_tab: 0, title }
    }

    /// Move the selection one step to the left, saturating at the first
    /// label.
    pub fn move_left(&mut self)
        ensures
            select_left_rel(*old(self), *final(self)),
    {
        if self.current_tab > 0 {
            self.current_tab = self.current_tab - 1;
        }
    }

    /// Move the selection one step to the right, saturating at the last
    /// label.
    pub fn move_right(&mut self)
        requires
            old(self).wf(),
        ensures
            final(self).wf(),
            select_right_rel(*old(self), *final(self)),
    {
        if self.current_tab < self.tabs.len() - 1 {
            self.current_tab = self.current_tab + 1;
        }
    }

    /// The currently selected label.
    pub fn get_current_tab(&self) -> (r: String)
        requires
            self.wf(),
        ensures
            r@ == self.tabs@[self.current_tab as int]@,
    {
        self.tabs[self.current_tab].clone()
    }
}

} // verus!
