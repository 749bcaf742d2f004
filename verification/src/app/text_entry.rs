use vstd::prelude::*;

verus! {

/// Number of line breaks in `s` strictly before position `n`: the row the
/// cursor sits on when its offset is `n`.
pub open spec fn cursor_row(s: Seq<char>, n: int) -> int
    decreases n,
{
    if n <= 0 {
        0
    } else {
        cursor_row(s, n - 1) + if s[n - 1] == '\n' {
            1int
        } else {
            0int
        }
    }
}

/// Number of characters between the last line break before position `n` and
/// position `n` itself: the column the cursor sits on when its offset is `n`.
pub open spec fn cursor_col(s: Seq<char>, n: int) -> int
    decreases n,
{
    if n <= 0 {
        0
    } else if s[n - 1] == '\n' {
        0
    } else {
        cursor_col(s, n - 1) + 1
    }
}

/// An editable sequence of characters with a single cursor offset.
///
/// The URL editor and the request-body editor both own one of these; the
/// only difference between them is whether line breaks may be inserted.
pub struct TextEntry {
    pub text: Vec<char>,
    pub cursor_pos: usize,
    pub newlines_allowed: bool,
}

/// What `input_char` does: insert `c` at the cursor and advance the cursor,
/// except that a disallowed line break changes nothing.
pub open spec fn input_char_rel(pre: TextEntry, post: TextEntry, c: char) -> bool {
    if c == '\n' && !pre.newlines_allowed {
        post == pre
    } else {
        &&& post.text@ == pre.text@.insert(pre.cursor_pos as int, c)
        &&& post.cursor_pos == pre.cursor_pos + 1
        &&& post.newlines_allowed == pre.newlines_allowed
    }
}

/// What `input_tab` does: insert two spaces at the cursor and advance the
/// cursor by two.
pub open spec fn input_tab_rel(pre: TextEntry, post: TextEntry) -> bool {
    &&& post.text@ == pre.text@.insert(pre.cursor_pos as int, ' ').insert(pre.cursor_pos + 1, ' ')
    &&& post.cursor_pos == pre.cursor_pos + 2
    &&& post.newlines_allowed == pre.newlines_allowed
}

/// What `backspace` does: remove the character before the cursor and move
/// the cursor back, except at offset zero, where nothing changes.
pub open spec fn backspace_rel(pre: TextEntry, post: TextEntry) -> bool {
    if pre.cursor_pos == 0 {
        post == pre
    } else {
        &&& post.text@ == pre.text@.remove(pre.cursor_pos - 1)
        &&& post.cursor_pos == pre.cursor_pos - 1
        &&& post.newlines_allowed == pre.newlines_allowed
    }
}

/// What `cursor_left` does: move the cursor one step left, saturating at
/// offset zero.
pub open spec fn cursor_left_rel(pre: TextEntry, post: TextEntry) -> bool {
    &&& post.cursor_pos == if pre.cursor_pos > 0 {
        pre.cursor_pos - 1
    } else {
        0int
    }
    &&& post.text == pre.text
    &&& post.newlines_allowed == pre.newlines_allowed
}

/// What `cursor_right` does: move the cursor one step right, saturating at
/// the end of the content.
pub open spec fn cursor_right_rel(pre: TextEntry, post: TextEntry) -> bool {
    &&& post.cursor_pos == if pre.cursor_pos < pre.text@.len() {
        pre.cursor_pos + 1
    } else {
        pre.cursor_pos as int
    }
    &&& post.text == pre.text
    &&& post.newlines_allowed == pre.newlines_allowed
}

/// Relies on String::push: appends exactly the given character at the end.
#[verifier::external_body]
fn push_char(s: &mut String, c: char)
    ensures
        final(s)@ == old(s)@.push(c),
{
    s.push(c);
}

impl TextEntry {
    /// The cursor never leaves the content: `0 <= cursor_pos <= text.len()`.
    pub open spec fn wf(self) -> bool {
        self.cursor_pos <= self.text@.len()
    }

    /// A fresh buffer holding `text`, with the cursor at the end.
    pub fn new(text: Vec<char>, newlines_allowed: bool) -> (r: TextEntry)
        ensures
            r.text@ == text@,
            r.cursor_pos == text@.len(),
            r.newlines_allowed == newlines_allowed,
            r.wf(),
    {
        let cursor_pos = text.len();
        TextEntry { cursor_pos, text, newlines_allowed }
    }

    /// Insert `c` at the cursor and advance the cursor by one; a line break
    /// is silently dropped when the buffer disallows line breaks.
    pub fn input_char(&mut self, c: char)
        requires
            old(self).wf(),
        ensures
            final(self).wf(),
            input_char_rel(*old(self), *final(self), c),
    {
        if c == '\n' && !self.newlines_allowed {
            return ;
        }
        if self.cursor_pos >= self.text.len() {
            self.text.push(c);
            proof {
                assert(self.text@ =~= old(self).text@.insert(old(self).cursor_pos as int, c));
            }
        } else {
            self.text.insert(self.cursor_pos, c);
        }
        let n = self.text.len();
        proof {
            assert(self.cursor_pos + 1 <= n);
        }
        self.cursor_pos = self.cursor_pos + 1;
    }

    /// Insert two spaces at the cursor and advance the cursor by two.
    pub fn input_tab(&mut self)
        requires
            old(self).wf(),
        ensures
            final(self).wf(),
            input_tab_rel(*old(self), *final(self)),
    {
        self.text.insert(self.cursor_pos, ' ');
        let n = self.text.len();
        proof {
            assert(self.cursor_pos + 1 <= n);
        }
        self.text.insert(self.cursor_pos + 1, ' ');
        let m = self.text.len();
        proof {
            assert(self.cursor_pos + 2 <= m);
        }
        self.cursor_pos = self.cursor_pos + 2;
    }

    /// Remove the character immediately before the cursor and move the
    /// cursor back by one; at offset zero nothing happens.
    pub fn backspace(&mut self)
        requires
            old(self).wf(),
        ensures
            final(self).wf(),
            backspace_rel(*old(self), *final(self)),
    {
        if self.cursor_pos < 1 {
            return ;
        }
        self.text.remove(self.cursor_pos - 1);
        self.cursor_pos = self.cursor_pos - 1;
    }

    /// Move the cursor one character to the left, saturating at offset zero.
    pub fn cursor_left(&mut self)
        ensures
            cursor_left_rel(*old(self), *final(self)),
    {
        if self.cursor_pos > 0 {
            self.cursor_pos = self.cursor_pos - 1;
        }
    }

    /// Move the cursor one character to the right, saturating at the end of
    /// the content.
    pub fn cursor_right(&mut self)
        requires
            old(self).wf(),
        ensures
            final(self).wf(),
            cursor_right_rel(*old(self), *final(self)),
    {
        if self.cursor_pos < self.text.len() {
            self.cursor_pos = self.cursor_pos + 1;
        }
    }

    /// Vertical cursor movement is deliberately left as a no-op: the buffer
    /// keeps no per-line column memory, and callers treat up as unmapped.
    pub fn cursor_up(&mut self)
        ensures
            *final(self) == *old(self),
    {
    }

    /// Vertical cursor movement is deliberately left as a no-op: the buffer
    /// keeps no per-line column memory, and callers treat down as unmapped.
    pub fn cursor_down(&mut self)
        ensures
            *final(self) == *old(self),
    {
    }

    /// Project the one-dimensional cursor offset into (column, row), counting
    /// from the start of the content on each call.
    pub fn get_cursor_xy(&self) -> (r: (usize, usize))
        requires
            self.wf(),
        ensures
            r.0 == cursor_col(self.text@, self.cursor_pos as int),
            r.1 == cursor_row(self.text@, self.cursor_pos as int),
    {
        let mut x: usize = 0;
        let mut y: usize = 0;
        let mut i: usize = 0;
        while i < self.cursor_pos
            invariant
                i <= self.cursor_pos,
                self.wf(),
                x <= i,
                y <= i,
                x == cursor_col(self.text@, i as int),
                y == cursor_row(self.text@, i as int),
            decreases self.cursor_pos - i,
        {
            if self.text[i] == '\n' {
                x = 0;
                y = y + 1;
            } else {
                x = x + 1;
            }
            i = i + 1;
        }
        (x, y)
    }

    /// The content as an owned string, for handing to collaborators that
    /// work on strings.
    pub fn text_string(&self) -> (r: String)
        ensures
            r@ == self.text@,
    {
        let mut r = String::new();
        let mut i: usize = 0;
        proof {
            assert(r@ =~= self.text@.subrange(0, 0));
        }
        while i < self.text.len()
            invariant
                i <= self.text@.len(),
                r@ == self.text@.subrange(0, i as int),
            decreases self.text@.len() - i,
        {
            push_char(&mut r, self.text[i]);
            proof {
                assert(r@ =~= self.text@.subrange(0, i + 1));
            }
            i = i + 1;
        }
        proof {
            assert(self.text@.subrange(0, self.text@.len() as int) =~= self.text@);
        }
        r
    }
}

} // verus!
