use runner::surface::{PresentMode, SurfaceError, SurfaceState};
use runner::ui::UiState;

#[test]
fn new_surface_waits_for_the_vertical_blank() {
    assert_eq!(
        SurfaceState::new(640, 480),
        SurfaceState { width: 640, height: 480, presentation_mode: PresentMode::AutoVsync }
    );
}

#[test]
fn resize_with_an_area_asks_for_a_configuration() {
    let mut state = SurfaceState::new(640, 480);
    let configure = state.resize(800, 600);
    let expected =
        SurfaceState { width: 800, height: 600, presentation_mode: PresentMode::AutoVsync };
    assert_eq!(configure, Some(expected));
    assert_eq!(state, expected);
    assert!(state.is_drawable());
}

#[test]
fn resize_twice_configures_twice_and_records_once() {
    let mut state = SurfaceState::new(640, 480);
    let first = state.resize(1024, 768);
    let after_first = state;
    let second = state.resize(1024, 768);
    assert!(first.is_some());
    assert_eq!(second, first);
    assert_eq!(state, after_first);
    assert_eq!((state.width, state.height), (1024, 768));
}

#[test]
fn resize_without_an_area_configures_nothing() {
    for (width, height) in [(0u32, 0u32), (0, 600), (800, 0)] {
        let mut state = SurfaceState::new(640, 480);
        assert_eq!(state.resize(width, height), None);
        assert_eq!((state.width, state.height), (width, height));
        assert!(!state.is_drawable());
        assert_eq!(state.presentation_mode, PresentMode::AutoVsync);
    }
}

#[test]
fn surface_recovers_from_having_no_area() {
    let mut state = SurfaceState::new(0, 0);
    assert!(!state.is_drawable());
    let configure = state.resize(300, 200);
    assert_eq!(configure, Some(state));
    assert!(state.is_drawable());
}

#[test]
fn vsync_selects_the_presentation_mode() {
    let mut state = SurfaceState::new(640, 480);
    state.set_vsync(false);
    assert_eq!(
        state,
        SurfaceState { width: 640, height: 480, presentation_mode: PresentMode::AutoNoVsync }
    );
    // The mode is part of the next configuration.
    let configure = state.resize(641, 480).unwrap();
    assert_eq!(configure.presentation_mode, PresentMode::AutoNoVsync);
    state.set_vsync(true);
    assert_eq!(state.presentation_mode, PresentMode::AutoVsync);
    assert_eq!((state.width, state.height), (641, 480));
}

#[test]
fn only_running_out_of_memory_is_fatal() {
    assert!(SurfaceError::OutOfMemory.terminates());
    assert!(!SurfaceError::Lost.terminates());
    assert!(!SurfaceError::Outdated.terminates());
    assert!(!SurfaceError::Timeout.terminates());
}

#[test]
fn lost_and_outdated_surfaces_are_transient() {
    assert!(SurfaceError::Lost.recovers());
    assert!(SurfaceError::Outdated.recovers());
    assert!(!SurfaceError::Timeout.recovers());
    assert!(!SurfaceError::OutOfMemory.recovers());
}

#[test]
fn new_ui_state_has_no_frames_and_vsync_on() {
    assert_eq!(UiState::new(), UiState { fps: 0, vsync: true });
}
