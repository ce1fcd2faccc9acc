use vstd::prelude::*;

verus! {

/// Cap on a manual downward scroll: a sentinel far past any real content;
/// the render-time clamp pulls the offset back to the true bottom.
pub const MAX_MANUAL_OFFSET: usize = 9999;

/// Scroll position of one pane: a line offset from the top, and whether the
/// pane follows the newest content as it grows.
pub struct ScrollState {
    pub offset: usize,
    pub auto_follow: bool,
}

/// The offset that pins a viewport of `height` lines to the bottom of
/// `total` lines of content.
pub open spec fn bottom_offset(total: nat, height: nat) -> nat {
    if total > height {
        (total - height) as nat
    } else {
        0
    }
}

/// The pane state after one manual step toward the top.
pub open spec fn scrolled_up(s: ScrollState) -> ScrollState {
    ScrollState {
        offset: if s.offset > 0 {
            (s.offset - 1) as usize
        } else {
            0
        },
        auto_follow: false,
    }
}

/// The pane state after one manual step toward the bottom.
pub open spec fn scrolled_down(s: ScrollState) -> ScrollState {
    ScrollState {
        offset: if s.offset < MAX_MANUAL_OFFSET {
            (s.offset + 1) as usize
        } else {
            s.offset
        },
        auto_follow: s.auto_follow,
    }
}

/// The pane state after the render-time clamp against `total` content lines
/// and a viewport of `height` lines.
pub open spec fn clamped(s: ScrollState, total: nat, height: nat) -> ScrollState {
    if s.auto_follow {
        ScrollState { offset: bottom_offset(total, height) as usize, auto_follow: true }
    } else if total <= height {
        ScrollState { offset: 0, auto_follow: true }
    } else if s.offset > bottom_offset(total, height) {
        ScrollState { offset: bottom_offset(total, height) as usize, auto_follow: true }
    } else {
        s
    }
}

impl ScrollState {
    /// A pane starts at the top, following the content.
    pub fn new() -> (r: ScrollState)
        ensures
            r == (ScrollState { offset: 0, auto_follow: true }),
    {
        ScrollState { offset: 0, auto_follow: true }
    }

    /// One manual step up leaves follow mode and moves one line toward the
    /// top, stopping at the first line.
    pub fn scroll_up(&mut self)
        ensures
            *final(self) == scrolled_up(*old(self)),
    {
        self.auto_follow = false;
        if self.offset > 0 {
            self.offset = self.offset - 1;
        }
    }

    /// One manual step down moves one line toward the bottom, up to the
    /// sentinel; follow mode re-engages only through the clamp, once the
    /// view really reaches the bottom again.
    pub fn scroll_down(&mut self)
        ensures
            *final(self) == scrolled_down(*old(self)),
    {
        if self.offset < MAX_MANUAL_OFFSET {
            self.offset = self.offset + 1;
        }
    }

    /// The clamp run on every frame: a following pane pins to the bottom; a
    /// manual pane is clamped into the content, and re-engages follow mode
    /// when the content fits the viewport or the offset had run past the
    /// bottom.
    pub fn clamp_to(&mut self, total: usize, height: usize)
        ensures
            *final(self) == clamped(*old(self), total as nat, height as nat),
    {
        let bottom = if total > height {
            total - height
        } else {
            0
        };
        if self.auto_follow {
            self.offset = bottom;
        } else if total <= height {
            self.offset = 0;
            self.auto_follow = true;
        } else if self.offset > bottom {
            self.offset = bottom;
            self.auto_follow = true;
        }
    }
}

} // verus!
