//! What the control panel shows and sets.

use vstd::prelude::*;

verus! {

/// The values shown and edited by the control panel.
#[derive(Clone, Copy, Debug, PartialEq, Eq, Structural)]
pub struct UiState {
    /// Frames drawn during the last second.
    pub fps: usize,
    /// Whether presentation waits for the vertical blank.
    pub vsync: bool,
}

impl UiState {
    /// No frame counted yet, vsync on.
    pub fn new() -> (state: UiState)
        ensures
            state == (UiState { fps: 0, vsync: true }),
    {
        UiState { fps: 0, vsync: true }
    }
}

/// A texture of the control panel, as the panel's toolkit names it.
#[derive(Clone, Copy, Debug, PartialEq, Eq, Structural)]
pub enum TextureId {
    /// A texture the toolkit manages itself.
    Managed(u64),
    /// A texture the host registered.
    User(u64),
}

} // verus!
