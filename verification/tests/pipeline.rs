use rtspy::pipeline::{
    bus_log_line, pad_link_failure_line, playing_failure_message, server_url, should_link_source_pad, BusMessage,
    CapsStructure, ErrorScan, ScanStep, ERROR_SCAN_POLLS,
};

fn caps(name: &str, media: Option<&str>, enc: Option<&str>) -> Option<CapsStructure> {
    Some(CapsStructure {
        name: name.to_string(),
        media: media.map(|s| s.to_string()),
        encoding_name: enc.map(|s| s.to_string()),
    })
}

#[test]
fn h264_video_pad_is_linked() {
    assert!(should_link_source_pad(false, &caps("application/x-rtp", Some("video"), Some("H264"))));
}

#[test]
fn other_pads_are_not_linked() {
    assert!(!should_link_source_pad(true, &caps("application/x-rtp", Some("video"), Some("H264"))));
    assert!(!should_link_source_pad(false, &caps("application/x-rtp", Some("audio"), Some("OPUS"))));
    assert!(!should_link_source_pad(false, &caps("application/x-rtp", Some("video"), Some("H265"))));
    assert!(!should_link_source_pad(false, &caps("application/x-rtp", None, Some("H264"))));
    assert!(!should_link_source_pad(false, &caps("video/x-raw", Some("video"), Some("H264"))));
    assert!(!should_link_source_pad(false, &None));
}

#[test]
fn bus_log_lines() {
    let e = BusMessage::Error {
        source: "Some(\"/GstPipeline:pipeline0/GstRTSPSrc:rtspsrc0\")".to_string(),
        text: "Could not open resource".to_string(),
        debug: Some("gstrtspsrc.c(1)".to_string()),
    };
    assert_eq!(
        bus_log_line(&e).unwrap(),
        "GST error from Some(\"/GstPipeline:pipeline0/GstRTSPSrc:rtspsrc0\"): Could not open resource gstrtspsrc.c(1)"
    );
    let w = BusMessage::Warning { source: "None".to_string(), text: "late".to_string(), debug: None };
    assert_eq!(bus_log_line(&w).unwrap(), "GST warning from None: late ");
    let s = BusMessage::StateChanged {
        element: Some("/GstPipeline:pipeline0".to_string()),
        old: "Paused".to_string(),
        current: "Playing".to_string(),
    };
    assert_eq!(bus_log_line(&s).unwrap(), "State changed (/GstPipeline:pipeline0): Paused -> Playing");
    let s = BusMessage::StateChanged { element: None, old: "Null".to_string(), current: "Ready".to_string() };
    assert!(bus_log_line(&s).is_none());
    assert!(bus_log_line(&BusMessage::Other).is_none());
}

#[test]
fn error_scan_finds_error_details() {
    let mut scan = ErrorScan::new();
    assert!(matches!(scan.next(None), ScanStep::Poll));
    assert!(matches!(scan.next(Some(BusMessage::Other)), ScanStep::Poll));
    let r = scan.next(Some(BusMessage::Error {
        source: "None".to_string(),
        text: "Internal data stream error.".to_string(),
        debug: Some("not-negotiated".to_string()),
    }));
    match r {
        ScanStep::Done(Some(d)) => assert_eq!(d, "Internal data stream error. not-negotiated"),
        _ => panic!("expected details"),
    }
}

#[test]
fn error_scan_without_debug_ends_with_space() {
    let mut scan = ErrorScan::new();
    let r = scan.next(Some(BusMessage::Error { source: "None".to_string(), text: "e".to_string(), debug: None }));
    assert!(matches!(r, ScanStep::Done(Some(d)) if d == "e "));
}

#[test]
fn error_scan_gives_up_after_ten_polls() {
    let mut scan = ErrorScan::new();
    for _ in 0..ERROR_SCAN_POLLS - 1 {
        assert!(matches!(scan.next(None), ScanStep::Poll));
    }
    assert!(matches!(scan.next(None), ScanStep::Done(None)));
    assert_eq!(scan.polls, 10);
}

#[test]
fn playing_failure_text() {
    assert_eq!(
        playing_failure_message("Ok(Async)", "Paused", "Playing", None),
        "Pipeline failed to reach Playing. set_state=Ok(Async), current=Paused, pending=Playing, details=unknown"
    );
    assert_eq!(
        playing_failure_message("Err(StateChangeError)", "Null", "VoidPending", Some("x y".to_string())),
        "Pipeline failed to reach Playing. set_state=Err(StateChangeError), current=Null, pending=VoidPending, details=x y"
    );
}

#[test]
fn streamer_announces_url_with_double_slash() {
    assert_eq!(server_url("8554", "/live"), "rtsp://127.0.0.1:8554//live");
    assert_eq!(server_url("9000", "cam"), "rtsp://127.0.0.1:9000/cam");
}

#[test]
fn pad_link_failure_text() {
    assert_eq!(pad_link_failure_line("WrongHierarchy"), "Failed to link RTSP pad: WrongHierarchy");
}
