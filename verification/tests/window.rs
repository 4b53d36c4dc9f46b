use kiss3d_drm::window_common::{drm_device_candidate, Action, CloseState, WindowEventKind};

#[test]
fn new_window_is_open() {
    assert!(!CloseState::new().should_close());
}

#[test]
fn close_sets_should_close() {
    let mut state = CloseState::new();
    state.close();
    assert!(state.should_close());
}

#[test]
fn escape_release_and_close_request_close() {
    let mut state = CloseState::new();
    state.handle_event(WindowEventKind::Key { escape: true, action: Action::Release });
    assert!(state.should_close());

    let mut state = CloseState::new();
    state.handle_event(WindowEventKind::Close);
    assert!(state.should_close());
}

#[test]
fn other_events_keep_window_open() {
    let mut state = CloseState::new();
    state.handle_event(WindowEventKind::Key { escape: true, action: Action::Press });
    state.handle_event(WindowEventKind::Key { escape: false, action: Action::Release });
    state.handle_event(WindowEventKind::Other);
    assert!(!state.should_close());
}

#[test]
fn closing_is_permanent() {
    let mut state = CloseState::new();
    state.handle_event(WindowEventKind::Close);
    state.handle_event(WindowEventKind::Other);
    assert!(state.should_close());
}

#[test]
fn device_fallback_order() {
    let paths: Vec<&str> = (0..6).filter_map(drm_device_candidate).collect();
    assert_eq!(
        paths,
        vec!["/dev/dri/card0", "/dev/dri/card1", "/dev/dri/card2", "/dev/dri/renderD128", "/dev/dri/renderD129"]
    );
    assert_eq!(drm_device_candidate(5), None);
}
