use vstd::prelude::*;

verus! {

/// Scroll state of the content pane, in lines.
#[derive(Clone, Copy, Debug)]
pub struct ScrollPosition {
    pub current: u16,
    pub max: u16,
    pub viewport_height: u16,
}

impl ScrollPosition {
    /// The largest offset at which the last line is still on screen.
    pub open spec fn max_scroll(self) -> int {
        if self.max > self.viewport_height {
            self.max - self.viewport_height
        } else {
            0
        }
    }

    pub fn new() -> (r: Self)
        ensures
            r.current == 0,
            r.max == 0,
            r.viewport_height == 0,
    {
        ScrollPosition { current: 0, max: 0, viewport_height: 0 }
    }

    /// Whether a line below the viewport can still be brought into view.
    pub fn can_scroll_down(&self) -> (r: bool)
        ensures
            r == (self.current < self.max_scroll()),
    {
        if self.max <= self.viewport_height {
            false
        } else {
            self.current < self.max - self.viewport_height
        }
    }

    pub fn can_scroll_up(&self) -> (r: bool)
        ensures
            r == (self.current > 0),
    {
        self.current > 0
    }

    /// Moves down by `lines`, stopping where the last line reaches the bottom of the
    /// viewport. Content that fits the viewport does not scroll.
    pub fn scroll_down(&mut self, lines: u16)
        ensures
            final(self).max == old(self).max,
            final(self).viewport_height == old(self).viewport_height,
            final(self).current == if old(self).max > old(self).viewport_height {
                if old(self).current + lines < old(self).max_scroll() {
                    old(self).current + lines
                } else {
                    old(self).max_scroll()
                }
            } else {
                old(self).current as int
            },
    {
        if self.max > self.viewport_height {
            let max_scroll = self.max - self.viewport_height;
            let target: u32 = self.current as u32 + lines as u32;
            self.current = if target < max_scroll as u32 {
                target as u16
            } else {
                max_scroll
            };
        }
    }

    /// Moves up by `lines`, stopping at the top.
    pub fn scroll_up(&mut self, lines: u16)
        ensures
            final(self).max == old(self).max,
            final(self).viewport_height == old(self).viewport_height,
            final(self).current == if old(self).current >= lines {
                old(self).current - lines
            } else {
                0
            },
    {
        self.current = self.current.saturating_sub(lines);
    }

    pub fn reset(&mut self)
        ensures
            final(self).current == 0,
            final(self).max == old(self).max,
            final(self).viewport_height == old(self).viewport_height,
    {
        self.current = 0;
    }
}

} // verus!
