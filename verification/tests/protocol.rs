use mio_compositor::ipc::{ipc_step, IpcStep};
use mio_compositor::ipc_json::{answer_json, camera_json, output_camera_json, output_json, outputs_answer_json, state_json, window_json, windows_json, CameraReport, OutputCameraReport, OutputReport, WindowReport,};
use mio_compositor::ipc::resized_by_one;
use mio_compositor::cli::{
    compositor_usage, is_help, is_version, usage, parse_options, response_is_error, startup_environment,
    BackendKind, OsArg, ParsedOptions,
};
use mio_compositor::direction::Direction;
use mio_compositor::ipc::{
    error_response, escape_json, frame_error_message, frame_request, json_string, parse_request,
    presentation_name, unknown_window_response, FrameError, IpcRequest, WindowProperty, WindowPropertyKind,
    MAX_REQUEST_BYTES,
};
use mio_compositor::shell::Presentation;

fn arg(text: &str) -> OsArg {
    OsArg { bytes: text.as_bytes().to_vec(), text: Some(text.to_owned()) }
}

fn args(texts: &[&str]) -> Vec<OsArg> {
    texts.iter().map(|t| arg(t)).collect()
}

#[test]
fn recognizes_help_without_a_mio_connection() {
    for argument in ["--help", "-h", "help"] {
        assert!(is_help(argument));
    }
    assert!(!is_help("state"));
    assert!(usage().contains("  quit\n"));
    assert!(usage().contains("set-property ID floating BOOL"));
    assert!(usage().contains("set-opacity ID FLOAT"));
}

#[test]
fn recognizes_version_without_a_mio_connection() {
    assert!(is_version("--version"));
    assert!(is_version("-V"));
    assert!(!is_version("state"));
}

#[test]
fn server_errors_produce_a_failed_cli_result() {
    assert!(response_is_error(r#"{"ok":false,"error":"unknown window 9"}"#));
    assert!(!response_is_error(r#"{"ok":true}"#));
    assert!(!response_is_error(r#"{"ok":true,"windows":[]}"#));
}

#[test]
fn parses_read_and_action_requests() {
    assert_eq!(parse_request("quit\n"), Ok(IpcRequest::Quit));
    assert!(parse_request("quit now").is_err());
    assert_eq!(parse_request("state\n"), Ok(IpcRequest::State));
    assert_eq!(parse_request("windows\n"), Ok(IpcRequest::Windows));
    assert!(matches!(
        parse_request("set-opacity 4 0.5"),
        Ok(IpcRequest::SetOpacity { ref opacity, .. }) if opacity.parse::<f32>() == Ok(0.5)
    ));
    assert!(parse_request("camera-to nope").is_err());
    assert_eq!(parse_request("camera-step left"), Ok(IpcRequest::CameraStep { direction: Direction::Left }));
    assert_eq!(parse_request("activate-output 2"), Ok(IpcRequest::ActivateOutput { id: 2 }));
    assert!(matches!(
        parse_request("set-property 7 floating true"),
        Ok(IpcRequest::SetProperty { property: WindowProperty::Floating(true), .. })
    ));
    assert!(matches!(
        parse_request("set-property 7 blur true"),
        Ok(IpcRequest::SetProperty { property: WindowProperty::Blur(true), .. })
    ));
    assert!(parse_request("resize-window 2 diagonal").is_err());
    assert!(parse_request("close 2 extra").is_err());
}

#[test]
fn parses_property_requests_and_reports_errors() {
    assert_eq!(
        parse_request("clear-property 3 blur"),
        Ok(IpcRequest::ClearProperty { id: 3, kind: WindowPropertyKind::Blur })
    );
    assert_eq!(
        parse_request("move-window 5 up"),
        Ok(IpcRequest::MoveWindow { id: 5, direction: Direction::Up })
    );
    assert!(parse_request("set-opacity 4 lots").is_err());
    assert!(parse_request("").is_err());
}

#[test]
fn serializes_all_window_presentations() {
    assert_eq!(presentation_name(Presentation::Normal), "normal");
    assert_eq!(presentation_name(Presentation::Maximized), "maximized");
    assert_eq!(presentation_name(Presentation::Fullscreen), "fullscreen");
}

#[test]
fn escapes_json_metadata() {
    assert_eq!(escape_json("a\"b\\c\n"), "a\\\"b\\\\c\\n");
}

#[test]
fn json_answers_quote_and_report_errors() {
    assert_eq!(json_string(None), "null");
    assert_eq!(json_string(Some("fo\"o")), "\"fo\\\"o\"");
    assert_eq!(error_response("bad\n"), r#"{"ok":false,"error":"bad\n"}"#);
    assert_eq!(unknown_window_response(9), r#"{"ok":false,"error":"unknown window 9"}"#);
    assert!(response_is_error(&unknown_window_response(9)));
}

#[test]
fn request_framing_stops_at_newline_and_enforces_the_limit() {
    assert_eq!(frame_request(b"windows\n".to_vec()).unwrap(), b"windows");
    assert_eq!(frame_request(vec![b'x'; MAX_REQUEST_BYTES]).unwrap().len(), MAX_REQUEST_BYTES);
    assert_eq!(frame_request(vec![b'x'; MAX_REQUEST_BYTES + 1]), Err(FrameError::TooLong));
    assert_eq!(frame_error_message(FrameError::TooLong), "request exceeds 4096 bytes");
}

#[test]
fn startup_command_receives_only_mio_display_endpoints() {
    let native = startup_environment(&b"wayland-7".to_vec(), Some(&b"/run/user/1000/mio.sock".to_vec()), None, "udev");
    let value = |changes: &[mio_compositor::cli::EnvChange], name: &str| {
        changes.iter().find(|c| c.name == name).expect("the variable has an explicit change").value.clone()
    };
    assert_eq!(value(&native, "WAYLAND_DISPLAY"), Some(b"wayland-7".to_vec()));
    assert_eq!(value(&native, "MIO_SOCKET"), Some(b"/run/user/1000/mio.sock".to_vec()));
    assert_eq!(value(&native, "DISPLAY"), None);
    assert_eq!(value(&native, "XDG_CURRENT_DESKTOP"), Some(b"mio".to_vec()));
    assert_eq!(value(&native, "XDG_SESSION_DESKTOP"), Some(b"mio".to_vec()));
    assert_eq!(value(&native, "MIO_BACKEND"), Some(b"udev".to_vec()));

    let compatibility = startup_environment(&b"wayland-7".to_vec(), None, Some(":100"), "winit");
    assert_eq!(value(&compatibility, "DISPLAY"), Some(b":100".to_vec()));
    assert_eq!(value(&compatibility, "MIO_SOCKET"), None);
}

#[test]
fn compositor_help_is_a_successful_parse_mode() {
    let parsed = parse_options(&args(&["--help"])).unwrap();
    assert!(matches!(parsed, ParsedOptions::Help));
    assert!(compositor_usage().contains("--check-config"));
}

#[test]
fn compositor_version_is_a_successful_parse_mode() {
    let parsed = parse_options(&args(&["--version"])).unwrap();
    assert!(matches!(parsed, ParsedOptions::Version));
}

#[test]
fn compositor_backend_is_explicitly_selectable() {
    let ParsedOptions::Run(options) = parse_options(&args(&["--backend", "udev"])).unwrap() else {
        panic!("backend selection should run the compositor");
    };
    assert_eq!(options.backend, BackendKind::Udev);
}

#[test]
fn compositor_options_report_each_error() {
    assert_eq!(parse_options(&args(&["--command"])).unwrap_err(), "--command requires a program");
    assert_eq!(parse_options(&args(&["--config"])).unwrap_err(), "--config requires a path");
    assert_eq!(parse_options(&args(&["--backend"])).unwrap_err(), "--backend requires winit or udev");
    assert_eq!(parse_options(&args(&["--backend", "drm"])).unwrap_err(), "--backend must be winit or udev");
    assert_eq!(
        parse_options(&args(&["--xwayland-display"])).unwrap_err(),
        "--xwayland-display requires :NUMBER"
    );
    let not_utf8 = vec![arg("--xwayland-display"), OsArg { bytes: vec![0xff], text: None }];
    assert_eq!(parse_options(&not_utf8).unwrap_err(), "--xwayland-display must be valid UTF-8");
    assert_eq!(
        parse_options(&args(&["--virtual-outputs", "0"])).unwrap_err(),
        "--virtual-outputs must be a positive number"
    );
    assert_eq!(parse_options(&args(&["--frobnicate"])).unwrap_err(), compositor_usage());
    let ParsedOptions::Run(options) = parse_options(&args(&[
        "-c",
        "foot",
        "--config",
        "/etc/mio.kdl",
        "--check-config",
        "--xwayland-satellite",
        "--xwayland-display",
        ":5",
        "--virtual-outputs",
        "+3",
    ]))
    .unwrap() else {
        panic!("a full command line should run the compositor");
    };
    assert_eq!(options.command, Some(b"foot".to_vec()));
    assert_eq!(options.config_path, Some(b"/etc/mio.kdl".to_vec()));
    assert!(options.explicit_config && options.check_config && options.xwayland_satellite);
    assert_eq!(options.xwayland_display, ":5");
    assert_eq!(options.virtual_outputs, 3);
    assert_eq!(BackendKind::Winit.name(), "winit");
}

#[test]
fn read_answers_follow_the_documented_json_shapes() {
    let window = WindowReport {
        id: 3,
        app_id: Some("foot".into()),
        title: None,
        x: "-1.5".into(),
        y: "2".into(),
        width: 4,
        height: 5,
        focused: true,
        presentation: Presentation::Maximized,
        opacity: "0.8".into(),
        floating: false,
        blur: true,
    };
    let text = |v: Vec<char>| v.into_iter().collect::<String>();
    assert_eq!(
        text(window_json(&window)),
        r#"{"id":3,"app_id":"foot","title":null,"rect":{"x":-1.5,"y":2,"width":4,"height":5},"focused":true,"presentation":"maximized","opacity":0.8,"floating":false,"blur":true}"#
    );
    let windows = windows_json(&vec![window.clone(), WindowReport { id: 4, ..window }]);
    assert!(text(windows.clone()).starts_with(r#"[{"id":3,"#));
    assert!(text(windows.clone()).contains(r#"},{"id":4,"#));
    assert_eq!(text(windows_json(&Vec::new())), "[]");
    let camera = CameraReport { output_id: 1, x: "0".into(), y: "-2".into(), zoom: "0.5".into() };
    assert_eq!(text(camera_json(&camera)), r#"{"output_id":1,"x":0,"y":-2,"zoom":0.5}"#);
    let output = OutputReport {
        id: None,
        name: "DP\"1".into(),
        x: -10,
        y: 0,
        width: 1920,
        height: 1080,
        scale: "1.25".into(),
    };
    assert_eq!(
        text(output_json(&output)),
        r#"{"id":null,"name":"DP\"1","x":-10,"y":0,"width":1920,"height":1080,"scale":1.25}"#
    );
    let camera_of_output = OutputCameraReport { id: 2, active: false, x: "1".into(), y: "1".into(), zoom: "1".into() };
    assert_eq!(text(output_camera_json(&camera_of_output)), r#"{"id":2,"active":false,"x":1,"y":1,"zoom":1}"#);
    let empty: Vec<char> = "[]".chars().collect();
    let null: Vec<char> = "null".chars().collect();
    let camera_text = camera_json(&camera);
    assert_eq!(
        text(state_json(&empty, &null, &camera_text, &empty, &empty)),
        r#"{"ok":true,"windows":[],"focused_window":null,"camera":{"output_id":1,"x":0,"y":-2,"zoom":0.5},"outputs":[],"cameras":[]}"#
    );
    assert_eq!(text(answer_json("window", &null)), r#"{"ok":true,"window":null}"#);
    assert_eq!(text(outputs_answer_json(&empty, &empty)), r#"{"ok":true,"outputs":[],"cameras":[]}"#);
}

#[test]
fn resize_requests_change_one_axis_by_one_cell() {
    assert_eq!(resized_by_one(4, 5, Direction::Left), (3, 5));
    assert_eq!(resized_by_one(0, 5, Direction::Left), (0, 5));
    assert_eq!(resized_by_one(4, 5, Direction::Down), (4, 6));
    assert_eq!(resized_by_one(4, u64::MAX, Direction::Down), (4, u64::MAX));
}

#[test]
fn requests_become_world_actions_with_opacity_aliases_normalised() {
    let step = |request: &str| ipc_step(parse_request(request).unwrap());
    assert_eq!(step("state"), IpcStep::ReadState);
    assert_eq!(step("quit"), IpcStep::Quit);
    assert_eq!(step("focus 3"), IpcStep::FocusWindow(3));
    assert_eq!(step("camera-to 3"), IpcStep::CameraCenter(3));
    assert_eq!(step("resize-window 2 down"), IpcStep::ResizeWindow(2, Direction::Down));
    assert_eq!(
        step("set-opacity 7 0.5"),
        IpcStep::SetProperty(7, WindowProperty::Opacity("0.5".to_string()))
    );
    assert_eq!(step("set-opacity 7 0.5"), step("set-property 7 opacity 0.5"));
    assert_eq!(step("clear-opacity 7"), IpcStep::ClearProperty(7, WindowPropertyKind::Opacity));
    assert_eq!(step("clear-opacity 7"), step("clear-property 7 opacity"));
}

#[test]
fn a_further_word_is_refused_and_spacing_does_not_matter() {
    assert_eq!(parse_request("quit now"), Err("too many arguments"));
    assert_eq!(parse_request("close 2 extra"), Err("too many arguments"));
    assert_eq!(parse_request("  move-window\t3   left "), parse_request("move-window 3 left"));
}
