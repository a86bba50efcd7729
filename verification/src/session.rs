use vstd::prelude::*;

verus! {

/// The drawing bookkeeping of one client's event loop: whether the screen
/// must be drawn again, and whether it must be cleared first.
pub struct FrameFlags {
    pub needs_redraw: bool,
    pub clear_screen: bool,
}

impl FrameFlags {
    /// A new client's screen is cleared and drawn.
    pub fn new() -> (r: Self)
        ensures
            r.needs_redraw,
            r.clear_screen,
    {
        FrameFlags { needs_redraw: true, clear_screen: true }
    }

    /// The terminal changed size: clear it and draw again.
    pub fn on_resize(&mut self)
        ensures
            final(self).needs_redraw,
            final(self).clear_screen,
    {
        self.needs_redraw = true;
        self.clear_screen = true;
    }

    /// Another client changed the shared state: draw again.
    pub fn on_broadcast(&mut self)
        ensures
            final(self).needs_redraw,
            final(self).clear_screen == old(self).clear_screen,
    {
        self.needs_redraw = true;
    }

    /// Whether to draw a frame now, and if so whether to clear the screen
    /// before it. Taking a frame resets both flags.
    pub fn take_frame(&mut self) -> (r: Option<bool>)
        ensures
            old(self).needs_redraw ==> r == Some(old(self).clear_screen),
            old(self).needs_redraw ==> !final(self).needs_redraw && !final(self).clear_screen,
            !old(self).needs_redraw ==> r is None && *final(self) == *old(self),
    {
        if self.needs_redraw {
            let clear_this_frame = self.clear_screen;
            self.clear_screen = false;
            self.needs_redraw = false;
            Some(clear_this_frame)
        } else {
            None
        }
    }
}

/// The terminal size that an SSH window request announces, in columns and
/// rows; each is cut to its low 16 bits.
pub fn terminal_size(column_count: u32, row_count: u32) -> (r: (u16, u16))
    ensures
        r.0 == column_count as u16,
        r.1 == row_count as u16,
{
    (column_count as u16, row_count as u16)
}

} // verus!
