//! The scroll cursor: a scroll offset paired with the length of the content
//! it scrolls through.
//!
//! The offset moves freely under the arrow keys (saturating at the type's
//! bounds) and is clamped back into `[0, content_length)` every time a
//! scrollable view is rendered, because the content length varies per tab
//! and per snapshot.  Scroll position is per-session, not per-tab: switching
//! tabs carries the offset over until the next render clamps it.

use vstd::prelude::*;

verus! {

/// Offset `o` clamped into the valid scroll range for content of length
/// `len`: the largest index below `len`, and 0 when there is no content.
pub open spec fn clamped(o: int, len: int) -> int {
    if len <= 0 {
        0
    } else if o >= len {
        len - 1
    } else {
        o
    }
}

/// Clamping never moves the offset up, and leaves it alone whenever it
/// already lies inside the content.
pub proof fn lemma_clamped_shrinks(o: int, len: int)
    requires
        o >= 0,
    ensures
        clamped(o, len) <= o,
        0 <= o < len ==> clamped(o, len) == o,
{
}

/// What the renderer needs in order to size and place a vertical
/// scrollbar: the bar's position and the length of the scrolled content.
#[derive(Clone, Copy, Debug, PartialEq, Eq, Structural)]
pub struct ScrollState {
    /// Current position of the scrollbar thumb.
    pub position: usize,
    /// Length of the content the bar scrolls through, in lines.
    pub content_length: usize,
}

impl ScrollState {
    /// A scrollbar at the top of empty content.
    pub fn new() -> (s: ScrollState)
        ensures
            s.position == 0,
            s.content_length == 0,
    {
        ScrollState { position: 0, content_length: 0 }
    }

    /// The same state with the content length replaced.
    pub fn content_length(self, len: usize) -> (s: ScrollState)
        ensures
            s.content_length == len,
            s.position == self.position,
    {
        ScrollState { content_length: len, ..self }
    }

    /// The same state with the position replaced.
    pub fn position(self, pos: usize) -> (s: ScrollState)
        ensures
            s.position == pos,
            s.content_length == self.content_length,
    {
        ScrollState { position: pos, ..self }
    }
}

impl Default for ScrollState {
    /// A scrollbar at the top of empty content.
    fn default() -> (s: ScrollState)
        ensures
            s.position == 0,
            s.content_length == 0,
    {
        ScrollState::new()
    }
}

/// The scroll cursor: the session-wide scroll offset together with the
/// scrollbar state handed to the renderer.  Owned by the view state,
/// mutated by the arrow keys and re-clamped by the render dispatcher.
#[derive(Clone, Copy, Debug, PartialEq, Eq, Structural)]
pub struct App {
    /// The scroll offset, in lines from the top.
    pub vertical_scroll: usize,
    /// The scrollbar state most recently handed to the renderer.
    pub vertical_scroll_state: ScrollState,
}

impl App {
    /// The cursor at the top, over empty content.
    pub fn new() -> (a: App)
        ensures
            a.vertical_scroll == 0,
            a.vertical_scroll_state.position == 0,
            a.vertical_scroll_state.content_length == 0,
    {
        App { vertical_scroll: 0, vertical_scroll_state: ScrollState::new() }
    }

    /// The cursor after one step down: the offset grows by one, saturating
    /// at the type's maximum, and the scrollbar follows it.
    pub open spec fn down_spec(self) -> App {
        let v: usize = if self.vertical_scroll == usize::MAX {
            usize::MAX
        } else {
            (self.vertical_scroll + 1) as usize
        };
        App {
            vertical_scroll: v,
            vertical_scroll_state: ScrollState {
                position: v,
                content_length: self.vertical_scroll_state.content_length,
            },
        }
    }

    /// The cursor after one step up: the offset shrinks by one, with a
    /// saturating floor at zero, and the scrollbar follows it.
    pub open spec fn up_spec(self) -> App {
        let v: usize = if self.vertical_scroll == 0 {
            0usize
        } else {
            (self.vertical_scroll - 1) as usize
        };
        App {
            vertical_scroll: v,
            vertical_scroll_state: ScrollState {
                position: v,
                content_length: self.vertical_scroll_state.content_length,
            },
        }
    }

    /// The cursor after a render against content of length `len`: the
    /// offset clamped into range and a scrollbar sized to the content.
    pub open spec fn synced_spec(self, len: usize) -> App {
        let v: usize = clamped(self.vertical_scroll as int, len as int) as usize;
        App {
            vertical_scroll: v,
            vertical_scroll_state: ScrollState { position: v, content_length: len },
        }
    }

    /// Scroll one line down, saturating at the type's maximum; the
    /// effective ceiling is applied at render time by `sync_to_content`.
    pub fn scroll_down(&mut self)
        ensures
            *final(self) == old(self).down_spec(),
            final(self).vertical_scroll >= old(self).vertical_scroll,
    {
        self.vertical_scroll = if self.vertical_scroll == usize::MAX {
            usize::MAX
        } else {
            self.vertical_scroll + 1
        };
        self.vertical_scroll_state = self.vertical_scroll_state.position(self.vertical_scroll);
    }

    /// Scroll one line up, with a saturating floor at zero.
    pub fn scroll_up(&mut self)
        ensures
            *final(self) == old(self).up_spec(),
            final(self).vertical_scroll <= old(self).vertical_scroll,
    {
        self.vertical_scroll = if self.vertical_scroll == 0 {
            0
        } else {
            self.vertical_scroll - 1
        };
        self.vertical_scroll_state = self.vertical_scroll_state.position(self.vertical_scroll);
    }

    /// Re-clamp the cursor against the content about to be drawn: record
    /// the fresh content length, pull the offset back into range — it may
    /// shrink, never grow — and align the scrollbar with it.  The render
    /// dispatcher calls this for every scrollable view, every cycle.
    pub fn sync_to_content(&mut self, len: usize)
        ensures
            *final(self) == old(self).synced_spec(len),
            final(self).vertical_scroll == clamped(old(self).vertical_scroll as int, len as int),
            final(self).vertical_scroll <= old(self).vertical_scroll,
            final(self).vertical_scroll_state.content_length == len,
            final(self).vertical_scroll_state.position == final(self).vertical_scroll,
    {
        if len == 0 {
            self.vertical_scroll = 0;
        } else if self.vertical_scroll >= len {
            self.vertical_scroll = len - 1;
        }
        self.vertical_scroll_state = ScrollState {
            position: self.vertical_scroll,
            content_length: len,
        };
    }
}

impl Default for App {
    /// The cursor at the top, over empty content.
    fn default() -> (a: App)
        ensures
            a.vertical_scroll == 0,
            a.vertical_scroll_state.position == 0,
            a.vertical_scroll_state.content_length == 0,
    {
        App::new()
    }
}

} // verus!
