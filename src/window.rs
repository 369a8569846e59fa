//! The single fullscreen window of a mobile session.
use vstd::prelude::*;

verus! {

/// What a window shows of itself: its size in pixels and its scale factor in
/// thousandths (1000 is a scale of one).
pub struct WindowModel {
    pub width: u32,
    pub height: u32,
    pub dpi: u32,
}

/// The window: fullscreen, at the origin, with no cursor and no title, so that
/// only its size can change.
pub struct MobileWindow {
    width: u32,
    height: u32,
    dpi: u32,
}

impl View for MobileWindow {
    type V = WindowModel;

    closed spec fn view(&self) -> WindowModel {
        WindowModel { width: self.width, height: self.height, dpi: self.dpi }
    }
}

impl MobileWindow {
    pub fn new(width: u32, height: u32, dpi: u32) -> (r: Self)
        ensures
            r@ == (WindowModel { width, height, dpi }),
    {
        MobileWindow { width, height, dpi }
    }

    /// Takes the size that the host reports; the scale factor stays.
    pub fn resize(&mut self, width: u32, height: u32)
        ensures
            final(self)@ == (WindowModel { width, height, dpi: old(self)@.dpi }),
    {
        self.width = width;
        self.height = height;
    }

    /// A size asked for by the frame loop: taken only when both sides are positive.
    pub fn set_size(&mut self, width: i32, height: i32)
        ensures
            final(self)@ == if width > 0 && height > 0 {
                WindowModel { width: width as u32, height: height as u32, dpi: old(self)@.dpi }
            } else {
                old(self)@
            },
    {
        if width > 0 && height > 0 {
            self.width = width as u32;
            self.height = height as u32;
        }
    }

    /// The one window of the session.
    pub fn id(&self) -> (r: u64)
        ensures
            r == 0,
    {
        0
    }

    pub fn dpi(&self) -> (r: u32)
        ensures
            r == self@.dpi,
    {
        self.dpi
    }

    pub fn size(&self) -> (r: (u32, u32))
        ensures
            r == (self@.width, self@.height),
    {
        (self.width, self.height)
    }

    /// The screen is the window: a mobile window is always fullscreen.
    pub fn screen_size(&self) -> (r: (u32, u32))
        ensures
            r == (self@.width, self@.height),
    {
        self.size()
    }
}

} // verus!
