//! The surface lifecycle: the recorded size and presentation mode of the
//! presentable surface, and what a resize does to them.

use vstd::prelude::*;

verus! {

/// How frames are handed to the display.
#[derive(Clone, Copy, Debug, PartialEq, Eq, Structural)]
pub enum PresentMode {
    /// Presentation waits for the display's vertical blank.
    AutoVsync,
    /// Presentation does not wait.
    AutoNoVsync,
}

/// Why the next frame could not be acquired from the surface.
#[derive(Clone, Copy, Debug, PartialEq, Eq, Structural)]
pub enum SurfaceError {
    Timeout,
    Outdated,
    Lost,
    OutOfMemory,
}

impl SurfaceError {
    /// Whether the failure ends the program. Running out of memory does;
    /// every other failure costs at most the frame.
    pub open spec fn is_fatal(self) -> bool {
        self == SurfaceError::OutOfMemory
    }

    /// Whether the failure passes once the surface is configured again: a
    /// lost and an outdated surface are such.
    pub open spec fn is_transient(self) -> bool {
        self == SurfaceError::Lost || self == SurfaceError::Outdated
    }

    /// Whether the failure passes once the surface is configured again.
    pub fn recovers(self) -> (transient: bool)
        ensures
            transient == self.is_transient(),
    {
        match self {
            SurfaceError::Lost => true,
            SurfaceError::Outdated => true,
            _ => false,
        }
    }

    /// Whether the failure ends the program.
    pub fn terminates(self) -> (fatal: bool)
        ensures
            fatal == self.is_fatal(),
    {
        match self {
            SurfaceError::OutOfMemory => true,
            _ => false,
        }
    }
}

/// The presentation mode that a vsync setting selects.
pub open spec fn present_mode_for(vsync: bool) -> PresentMode {
    if vsync {
        PresentMode::AutoVsync
    } else {
        PresentMode::AutoNoVsync
    }
}

/// Size, in physical pixels, and presentation mode of the surface. A width or
/// height of zero is the state of a minimized window: nothing is drawn to the
/// content area until a later resize gives it an area again.
#[derive(Clone, Copy, Debug, PartialEq, Eq, Structural)]
pub struct SurfaceState {
    pub width: u32,
    pub height: u32,
    pub presentation_mode: PresentMode,
}

impl SurfaceState {
    /// The surface has an area to draw to.
    pub open spec fn drawable(&self) -> bool {
        self.width > 0 && self.height > 0
    }

    /// The state after the window reported the size `width` by `height`.
    pub open spec fn resized(self, width: u32, height: u32) -> SurfaceState {
        SurfaceState { width, height, presentation_mode: self.presentation_mode }
    }

    /// The state after vsync was switched on or off.
    pub open spec fn with_vsync(self, enable: bool) -> SurfaceState {
        SurfaceState {
            width: self.width,
            height: self.height,
            presentation_mode: present_mode_for(enable),
        }
    }

    /// A surface of the given size that waits for the vertical blank.
    pub fn new(width: u32, height: u32) -> (state: SurfaceState)
        ensures
            state == (SurfaceState { width, height, presentation_mode: PresentMode::AutoVsync }),
    {
        SurfaceState { width, height, presentation_mode: PresentMode::AutoVsync }
    }

    /// The state to configure the surface with when it is configured anew
    /// without a resize: the recorded one, where it has an area.
    pub open spec fn configuration(self) -> Option<SurfaceState> {
        if self.drawable() {
            Some(self)
        } else {
            None
        }
    }

    /// Whether the surface has an area to draw to.
    pub fn is_drawable(&self) -> (drawable: bool)
        ensures
            drawable == self.drawable(),
    {
        self.width > 0 && self.height > 0
    }

    /// Records a size reported by the window. A size with an area is returned
    /// as the configuration the surface is to be configured with, every time;
    /// for a size without an area the surface is left as it is configured.
    pub fn resize(&mut self, width: u32, height: u32) -> (configure: Option<SurfaceState>)
        ensures
            *final(self) == old(self).resized(width, height),
            configure == if width > 0 && height > 0 {
                Some(*final(self))
            } else {
                None
            },
    {
        self.width = width;
        self.height = height;
        if width > 0 && height > 0 {
            Some(*self)
        } else {
            None
        }
    }

    /// Selects the presentation mode for a vsync setting. The surface is not
    /// reconfigured: the mode is part of the next configuration.
    pub fn set_vsync(&mut self, enable: bool)
        ensures
            *final(self) == old(self).with_vsync(enable),
    {
        self.presentation_mode = if enable {
            PresentMode::AutoVsync
        } else {
            PresentMode::AutoNoVsync
        };
    }
}

/// No failure to acquire a frame is both fatal and transient.
pub proof fn lemma_fatal_is_not_transient(error: SurfaceError)
    ensures
        !(error.is_fatal() && error.is_transient()),
{
}

/// Resizing twice to one size leaves the state that resizing once leaves, and
/// where the size has an area the second resize asks for the same
/// configuration as the first.
pub proof fn lemma_resize_idempotent(state: SurfaceState, width: u32, height: u32)
    ensures
        state.resized(width, height).resized(width, height) == state.resized(width, height),
        state.resized(width, height).width == width,
        state.resized(width, height).height == height,
        width > 0 && height > 0 ==> state.resized(width, height).drawable(),
{
}

} // verus!
