//! Widgets that remember where they were last drawn, so pointer positions
//! can be tested against them.

use vstd::prelude::*;

use crate::bindings::KeyBindings;
use crate::geometry::Rect;
use crate::geometry::rect_contains;

verus! {

/// A widget that keeps the rectangle it was last drawn into and answers
/// whether a pointer position lies over it.
pub trait MouseContext {
    /// The rectangle the widget was last drawn into.
    spec fn context_rect(&self) -> Rect;

    /// Is the position `(x, y)` over the widget's last rectangle?
    fn is_over(&self, x: u16, y: u16) -> (b: bool)
        ensures
            b == rect_contains(self.context_rect(), x, y),
    ;

    /// Remembers the rectangle the widget is being drawn into.
    fn set_context(&mut self, rect: Rect)
        ensures
            final(self).context_rect() == rect,
    ;
}

impl MouseContext for KeyBindings {
    open spec fn context_rect(&self) -> Rect {
        self.rect
    }

    fn is_over(&self, x: u16, y: u16) -> (b: bool) {
        self.rect.contains(x, y)
    }

    fn set_context(&mut self, rect: Rect)
        ensures
            final(self)@ == old(self)@,
            final(self).id == old(self).id,
            final(self).lead_row == old(self).lead_row,
    {
        self.rect = rect;
    }
}

} // verus!
