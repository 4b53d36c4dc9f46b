use kiss3d_drm::drm_canvas::{present_step, resource_handles_failure, PresentAction, PresentEvent, RenderMode, connector_query_failure, io_error_message, find_available_crtc, probe_connector, select_best_mode, ConnectorProbe, ConnectorState};
use kiss3d_drm::drm_canvas::DrmCanvasError;

#[test]
fn messages_of_each_variant() {
    let cases = vec![
        (DrmCanvasError::DeviceRequest("no adapter".to_string()), "Failed to request device: no adapter"),
        (DrmCanvasError::Init("x".to_string()), "Initialization error: x"),
        (DrmCanvasError::DrmError("y".to_string()), "DRM error: y"),
        (DrmCanvasError::ModesetError("z".to_string()), "Display configuration error: z"),
        (DrmCanvasError::PageFlipError("busy".to_string()), "Page flip error: busy"),
        (DrmCanvasError::NoConnectedDisplay, "No connected display found"),
    ];
    for (err, text) in cases {
        assert_eq!(err.message(), text);
    }
}

#[test]
fn io_error_message_and_conversion() {
    let io = std::io::Error::new(std::io::ErrorKind::NotFound, "card missing");
    let err: DrmCanvasError = io.into();
    assert!(matches!(err, DrmCanvasError::IoError(_)));
    assert_eq!(err.message(), "I/O error: card missing");
}

#[test]
fn probe_selects_connected_and_skips_others() {
    assert!(matches!(probe_connector(Some(Ok(ConnectorState::Connected))), ConnectorProbe::Select));
    assert!(matches!(probe_connector(Some(Ok(ConnectorState::Disconnected))), ConnectorProbe::Skip));
    assert!(matches!(probe_connector(Some(Ok(ConnectorState::Unknown))), ConnectorProbe::Skip));
}

#[test]
fn probe_fails_on_query_error() {
    let io = std::io::Error::new(std::io::ErrorKind::PermissionDenied, "denied");
    match probe_connector(Some(Err(io))) {
        ConnectorProbe::Fail(DrmCanvasError::DrmError(m)) => {
            assert_eq!(m, "Failed to get connector info: denied");
        }
        other => panic!("unexpected {:?}", other),
    }
}

#[test]
fn first_crtc_is_used() {
    assert_eq!(find_available_crtc(&[41u32, 42, 43]).unwrap(), 41);
    match find_available_crtc::<u32>(&[]) {
        Err(DrmCanvasError::ModesetError(m)) => assert_eq!(m, "No CRTCs available"),
        other => panic!("unexpected {:?}", other),
    }
}

#[test]
fn first_mode_is_preferred() {
    assert_eq!(select_best_mode(&[(1920u16, 1080u16), (1280, 720)]).unwrap(), (1920, 1080));
    match select_best_mode::<(u16, u16)>(&[]) {
        Err(DrmCanvasError::ModesetError(m)) => assert_eq!(m, "No display modes available"),
        other => panic!("unexpected {:?}", other),
    }
}

#[test]
fn probe_ends_search_without_connectors() {
    assert!(matches!(probe_connector(None), ConnectorProbe::Fail(DrmCanvasError::NoConnectedDisplay)));
}

#[test]
fn io_error_message_is_prefix_and_detail() {
    assert_eq!(io_error_message("broken pipe"), "I/O error: broken pipe");
    assert_eq!(io_error_message(""), "I/O error: ");
}

#[test]
fn connector_query_failure_is_drm_error() {
    match connector_query_failure("no such device") {
        DrmCanvasError::DrmError(m) => assert_eq!(m, "Failed to get connector info: no such device"),
        other => panic!("unexpected {:?}", other),
    }
}

#[test]
fn resource_handles_failure_is_drm_error() {
    match resource_handles_failure("permission denied") {
        DrmCanvasError::DrmError(m) => assert_eq!(m, "Failed to get resource handles: permission denied"),
        other => panic!("unexpected {:?}", other),
    }
}

#[test]
fn offscreen_present_is_noop() {
    assert!(matches!(present_step(RenderMode::Offscreen, PresentEvent::Begin), PresentAction::Finish(Ok(()))));
}

#[test]
fn display_present_reads_then_sends() {
    assert!(matches!(present_step(RenderMode::Display, PresentEvent::Begin), PresentAction::ReadFrame));
    assert!(matches!(present_step(RenderMode::Display, PresentEvent::FrameRead(Ok(()))), PresentAction::SendFrame));
    assert!(matches!(present_step(RenderMode::Display, PresentEvent::FrameSent(Ok(()))), PresentAction::Finish(Ok(()))));
}

#[test]
fn display_present_failures() {
    match present_step(RenderMode::Display, PresentEvent::FrameRead(Err("map failed".to_string()))) {
        PresentAction::Finish(Err(DrmCanvasError::Init(m))) => assert_eq!(m, "map failed"),
        other => panic!("unexpected {:?}", other),
    }
    match present_step(RenderMode::Display, PresentEvent::FrameSent(Err("sending on a closed channel".to_string()))) {
        PresentAction::Finish(Err(DrmCanvasError::PageFlipError(m))) => {
            assert_eq!(m, "Failed to send frame to display thread: sending on a closed channel")
        }
        other => panic!("unexpected {:?}", other),
    }
}
