//! The window that shows the board: its size, and the switch between
//! windowed and fullscreen display.
//!
//! Nothing here opens a window. The types describe what the windowing
//! system is to be asked for, in the same half pixel units as the board.

use vstd::prelude::*;

use crate::geometry::Rect;

verus! {

/// Free space around the board image, both sides of an axis together: 50 pixels.
pub const WINDOW_MARGIN: u32 = 100;

/// Distance of the board image from the window's top and left edges: 25 pixels.
pub const BOARD_OFFSET: u32 = 50;

/// How the window shares the screen.
#[derive(Clone, Copy, Debug, PartialEq, Eq, Structural)]
pub enum FullscreenType {
    /// An ordinary window.
    Windowed,
    /// A borderless window that covers the desktop.
    Desktop,
}

/// Size and behaviour of the window. A maximum of 0 means no limit.
#[derive(Clone, Copy, Debug, PartialEq, Eq, Structural)]
pub struct WindowMode {
    pub width: u32,
    pub height: u32,
    pub maximized: bool,
    pub fullscreen_type: FullscreenType,
    pub borderless: bool,
    pub min_width: u32,
    pub min_height: u32,
    pub max_width: u32,
    pub max_height: u32,
    pub resizable: bool,
}

/// The window that shows a board image of the size `dimensions`: the image
/// with a margin around it, which is also the least size of the window.
pub open spec fn window_for(dimensions: Rect) -> WindowMode {
    WindowMode {
        width: (dimensions.w + WINDOW_MARGIN) as u32,
        height: (dimensions.h + WINDOW_MARGIN) as u32,
        maximized: false,
        fullscreen_type: FullscreenType::Windowed,
        borderless: false,
        min_width: (dimensions.w + WINDOW_MARGIN) as u32,
        min_height: (dimensions.h + WINDOW_MARGIN) as u32,
        max_width: 0,
        max_height: 0,
        resizable: true,
    }
}

/// What the user has asked of the window, and what it was last set to.
#[derive(Clone, Copy, Debug, PartialEq, Eq, Structural)]
pub struct WindowSettings {
    /// A change of the fullscreen state is waiting to be carried out.
    pub toggle_fullscreen: bool,
    /// The state that the waiting change leads to.
    pub is_fullscreen: bool,
    pub resize_projection: bool,
    pub win_mo: WindowMode,
}

impl WindowSettings {
    /// Settings of a window that was just opened with `win_mo`: nothing is waiting.
    pub fn new(win_mo: WindowMode) -> (s: WindowSettings)
        ensures
            s == (WindowSettings {
                toggle_fullscreen: false,
                is_fullscreen: false,
                resize_projection: false,
                win_mo,
            }),
    {
        WindowSettings {
            toggle_fullscreen: false,
            is_fullscreen: false,
            resize_projection: false,
            win_mo,
        }
    }

    /// The display type that a waiting change asks for, if one is waiting.
    pub open spec fn requested(self) -> Option<FullscreenType> {
        if !self.toggle_fullscreen {
            None
        } else if self.is_fullscreen {
            Some(FullscreenType::Desktop)
        } else {
            Some(FullscreenType::Windowed)
        }
    }

    /// The change of display type that is waiting, if one is. Asking
    /// changes nothing: the change keeps waiting until the caller reports
    /// that it was carried out.
    pub fn fullscreen_request(&self) -> (r: Option<FullscreenType>)
        ensures
            r == self.requested(),
    {
        if !self.toggle_fullscreen {
            None
        } else if self.is_fullscreen {
            Some(FullscreenType::Desktop)
        } else {
            Some(FullscreenType::Windowed)
        }
    }

    /// Takes note of how the windowing system answered the waiting change.
    /// A change that was carried out waits no longer; one that failed
    /// keeps waiting, as it was.
    pub fn after_fullscreen_change(&mut self, succeeded: bool)
        ensures
            *final(self) == (WindowSettings {
                toggle_fullscreen: old(self).toggle_fullscreen && !succeeded,
                ..*old(self)
            }),
            final(self).requested() == (if succeeded {
                None
            } else {
                old(self).requested()
            }),
    {
        if succeeded {
            self.toggle_fullscreen = false;
        }
    }
}

} // verus!
