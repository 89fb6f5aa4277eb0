use ratablet::args::{normalize_host, parse_positive, usage, Args};
use ratablet::device::DeviceInfo;
use ratablet::output::{
    abs_axes, report_events, scale, MacAction, MacPen, MouseKind, PointerPhase, ScreenArea,
    WindowsPen,
};
use ratablet::pen::{read_event, scale_axis, InputEvent, PartialRecord, PenState};
use ratablet::retry::{error_kind, same_error_type, RetryErrorKind};
use ratablet::rotation::RotationMode;
use ratablet::session::{ended_before_header, keep_error_line, parse_accel_line, Session};
use ratablet::ssh::{data_token, shell_quote, ssh_command, token_accepted, REMOTE_SCRIPT};
use ratablet::state::{ConnectionStatus, RetryPlan, SharedState};
use ratablet::text::{parse_i32, parse_u16, trim_str};
use ratablet::ui::{
    auth_error, auto_selectable, forget_message, icon_rgba, initial_host, initial_rotation,
    rgba_to_argb, rotation_label, shown_rotation, status_kind, tray_text, Language, PanelWindow,
    Removal, StatusKind, Text, WindowAction,
};

fn words(list: &[&str]) -> Vec<String> {
    list.iter().map(|w| w.to_string()).collect()
}

fn info(model: &str, max_x: i32, max_y: i32) -> DeviceInfo {
    DeviceInfo {
        model: model.to_string(),
        path: "/dev/input/event1".to_string(),
        event_size: 24,
        max_x,
        max_y,
        max_pressure: 4096,
    }
}

// ---------------------------------------------------------------------------
// Command line
// ---------------------------------------------------------------------------

#[test]
fn command_line_defaults() {
    let args = Args::parse(&words(&[])).unwrap();
    assert_eq!(args.host, "root@10.11.99.1");
    assert!(!args.host_explicit);
    assert_eq!(args.rotate, None);
    assert!(!args.auto_rotate && !args.headless && !args.verbose);
}

#[test]
fn command_line_reads_every_option() {
    let args = Args::parse(&words(&[
        "--host", "10.0.0.5", "--key", "/home/me/.ssh/rm", "--device", "/dev/input/event2",
        "--max-x", "11180", "--max-y", "+15340", "--max-pressure", "4096", "--rotate", "270",
        "--headless", "-v",
    ]))
    .unwrap();
    assert_eq!(args.host, "root@10.0.0.5");
    assert!(args.host_explicit);
    assert_eq!(args.key.as_deref(), Some("/home/me/.ssh/rm"));
    assert_eq!(args.device.as_deref(), Some("/dev/input/event2"));
    assert_eq!((args.max_x, args.max_y, args.max_pressure), (Some(11180), Some(15340), Some(4096)));
    assert_eq!(args.rotate, Some(270));
    assert!(args.headless && args.verbose);
}

#[test]
fn command_line_errors() {
    assert_eq!(Args::parse(&words(&["--help"])).unwrap_err(), usage());
    assert_eq!(Args::parse(&words(&["-h"])).unwrap_err(), usage());
    assert!(usage().starts_with("Usage: ratablet [--host root@10.11.99.1]"));
    assert_eq!(
        Args::parse(&words(&["--bogus"])).unwrap_err(),
        format!("unknown option: --bogus\n\n{}", usage())
    );
    assert_eq!(
        Args::parse(&words(&["--host"])).unwrap_err(),
        "--host requires a value"
    );
    assert_eq!(
        Args::parse(&words(&["--rotate", "45"])).unwrap_err(),
        "--rotate must be 0, 90, 180, or 270"
    );
    assert_eq!(
        Args::parse(&words(&["--rotate", "-90"])).unwrap_err(),
        "--rotate must be 0, 90, 180, or 270"
    );
    assert_eq!(
        Args::parse(&words(&["--max-x", "0"])).unwrap_err(),
        "expected a positive integer, got \"0\""
    );
    assert_eq!(
        Args::parse(&words(&["--device", "/dev/input/mouse0"])).unwrap_err(),
        "--device must look like /dev/input/event2"
    );
    assert_eq!(
        Args::parse(&words(&["--device", "/dev/input/event"])).unwrap_err(),
        "--device must look like /dev/input/event2"
    );
    assert_eq!(
        Args::parse(&words(&["--auto-rotate", "--rotate", "90"])).unwrap_err(),
        "--auto-rotate and --rotate cannot be used together"
    );
    assert_eq!(
        Args::parse(&words(&["--host", "a b"])).unwrap_err(),
        "SSH target must not be empty or contain spaces"
    );
}

#[test]
fn positive_numbers() {
    assert_eq!(parse_positive("17"), Ok(17));
    assert_eq!(parse_positive("2147483647"), Ok(2147483647));
    assert_eq!(
        parse_positive("2147483648"),
        Err("expected a positive integer, got \"2147483648\"".to_string())
    );
    assert_eq!(
        parse_positive("-3"),
        Err("expected a positive integer, got \"-3\"".to_string())
    );
    assert_eq!(
        parse_positive("a\"b"),
        Err("expected a positive integer, got \"a\\\"b\"".to_string())
    );
}

#[test]
fn integer_literals_read_like_str_parse() {
    for text in ["0", "+5", "-5", "007", "-2147483648", "2147483647", "2147483648", "", "+", "-", "1a", " 1"] {
        assert_eq!(parse_i32(text), text.parse::<i32>().ok(), "{text:?}");
    }
    for text in ["0", "+5", "-5", "65535", "65536", "", "+", "-0"] {
        assert_eq!(parse_u16(text), text.parse::<u16>().ok(), "{text:?}");
    }
}

#[test]
fn trimming_follows_unicode_white_space() {
    assert_eq!(trim_str("\u{3000} x y\t\n"), "x y");
}

#[test]
fn ssh_targets() {
    assert_eq!(normalize_host("  rm.local \n").unwrap(), "root@rm.local");
    assert_eq!(
        normalize_host("").unwrap_err(),
        "SSH target must not be empty or contain spaces"
    );
    assert_eq!(
        normalize_host("@host").unwrap_err(),
        "SSH target must be an IP, hostname, or user@host"
    );
    assert_eq!(
        normalize_host("root@-oProxyCommand=x").unwrap_err(),
        "SSH target must be an IP, hostname, or user@host"
    );
    assert!(normalize_host("a@b@c").is_err());
    let once = normalize_host("10.11.99.1").unwrap();
    assert_eq!(normalize_host(&once).unwrap(), once);
}

// ---------------------------------------------------------------------------
// Header and records
// ---------------------------------------------------------------------------

#[test]
fn header_errors() {
    let args = Args::default();
    assert_eq!(
        DeviceInfo::from_header("RAT2\t64\t/dev/input/event1\treMarkable 2.0\n", &args).unwrap_err(),
        "invalid remote header: \"RAT2\\t64\\t/dev/input/event1\\treMarkable 2.0\\n\""
    );
    assert_eq!(
        DeviceInfo::from_header("RAT1\t64\n", &args).unwrap_err(),
        "invalid remote header: \"RAT1\\t64\\n\""
    );
    assert_eq!(
        DeviceInfo::from_header("RAT1\t16\t/dev/input/event1\treMarkable 2.0\n", &args)
            .unwrap_err(),
        "unsupported remote word size: 16"
    );
    assert_eq!(
        DeviceInfo::from_header("RAT1\t64\t/dev/input/event9\tfuture model\0\0\r\n", &args)
            .unwrap_err(),
        "unknown model \"future model\"; pass --max-x, --max-y, and --max-pressure"
    );
}

#[test]
fn header_fields() {
    let mut args = Args::default();
    args.max_pressure = Some(2048);
    let info = DeviceInfo::from_header(
        "RAT1\t32\t/dev/input/event1\treMarkable 2.0\tmore\0\r\n",
        &args,
    );
    // The model is everything after the third tab, without trailing NULs.
    assert_eq!(info.unwrap().model, "reMarkable 2.0\tmore");
    let rm2 = DeviceInfo::from_header("RAT1\t32\t/dev/input/event1\treMarkable 2.0\0\n", &args)
        .unwrap();
    assert_eq!(rm2.model, "reMarkable 2.0");
    assert_eq!(rm2.path, "/dev/input/event1");
    assert_eq!(rm2.event_size, 16);
    assert_eq!((rm2.max_x, rm2.max_y, rm2.max_pressure), (20967, 15725, 2048));
    let pro = DeviceInfo::from_header("RAT1\t64\tp\t  reMarkable PRO \n", &Args::default()).unwrap();
    assert_eq!((pro.max_x, pro.max_y, pro.max_pressure), (11180, 15340, 4096));
    assert!(pro.supports_auto_rotation());
    assert_eq!(pro.landscape_rotation(), 90);
    assert_eq!(pro.output_ranges(90), (15340, 11180));
    assert_eq!(pro.output_ranges(180), (11180, 15340));
}

#[test]
fn records_at_end_of_stream() {
    assert_eq!(read_event(&[], 24), Ok(None));
    let partial = read_event(&[1, 2, 3], 16).unwrap_err();
    assert_eq!(partial, PartialRecord { filled: 3, record_size: 16 });
    assert_eq!(partial.message(), "partial evdev record (3/16 bytes)");
    let mut bytes = vec![0u8; 20];
    bytes[8..10].copy_from_slice(&1u16.to_le_bytes());
    bytes[10..12].copy_from_slice(&330u16.to_le_bytes());
    bytes[12..16].copy_from_slice(&(-7i32).to_le_bytes());
    assert_eq!(
        read_event(&bytes, 16),
        Ok(Some(InputEvent { kind: 1, code: 330, value: -7 }))
    );
}

// ---------------------------------------------------------------------------
// Pen state
// ---------------------------------------------------------------------------

#[test]
fn pen_state_follows_events() {
    let mut state = PenState::default();
    assert!(!state.apply(InputEvent { kind: 3, code: 0, value: 100 }));
    assert!(!state.apply(InputEvent { kind: 3, code: 24, value: 900 }));
    assert!(!state.apply(InputEvent { kind: 1, code: 330, value: 1 }));
    assert!(!state.apply(InputEvent { kind: 1, code: 321, value: 5 }));
    assert!(!state.apply(InputEvent { kind: 4, code: 4, value: 9 }));
    assert!(state.apply(InputEvent { kind: 0, code: 0, value: 0 }));
    assert_eq!((state.x, state.pressure, state.touch, state.eraser), (100, 900, true, true));
    assert!(state.in_range());
    assert!(!PenState::default().in_range());
}

#[test]
fn scaling_axes() {
    assert_eq!(scale_axis(50, 100, 1000), 500);
    assert_eq!(scale_axis(-5, 100, 1000), 0);
    assert_eq!(scale_axis(500, 100, 1000), 1000);
    assert_eq!(scale_axis(1, 3, 2), 0);
    assert_eq!(scale_axis(1, 3, -2), 0);
    assert_eq!(scale_axis(2, 3, -2), -1);
    assert_eq!(scale(50, 100, 1919), 959);
}

#[test]
fn every_rotation_maps_corners() {
    let at = |x, y| PenState { x, y, ..PenState::default() };
    let r = at(0, 0).transformed(100, 200, 100, 200, 0);
    assert_eq!((r.x, r.y), (0, 0));
    let r = at(25, 80).transformed(100, 200, 100, 200, 180);
    assert_eq!((r.x, r.y), (75, 120));
    let r = at(25, 80).transformed(100, 200, 200, 100, 270);
    assert_eq!((r.x, r.y), (80, 75));
    let r = at(100, 200).transformed(100, 200, 100, 200, 0);
    assert_eq!((r.x, r.y), (100, 200));
}

#[test]
fn reports_reproduce_the_state() {
    let state = PenState {
        x: 10,
        y: -3,
        pressure: 7,
        distance: 2,
        tilt_x: -900,
        tilt_y: 450,
        touch: true,
        stylus1: false,
        stylus2: true,
        tool_pen: true,
        eraser: false,
    };
    let events = report_events(state);
    assert_eq!(events.len(), 12);
    let mut replay = PenState { x: 99, eraser: true, ..PenState::default() };
    let ends: Vec<bool> = events.iter().map(|e| replay.apply(*e)).collect();
    assert_eq!(replay, state);
    assert_eq!(ends.iter().filter(|end| **end).count(), 1);
    assert!(ends[11]);
    let axes = abs_axes(11180, 15340, 4096);
    assert_eq!(axes.len(), 6);
    assert_eq!((axes[0].code, axes[0].maximum, axes[0].resolution), (0, 11180, 100));
    assert_eq!((axes[4].code, axes[4].minimum, axes[4].maximum), (26, -9000, 9000));
}

// ---------------------------------------------------------------------------
// Rotation and shared state
// ---------------------------------------------------------------------------

#[test]
fn rotation_modes() {
    for mode in [
        RotationMode::Landscape,
        RotationMode::Auto,
        RotationMode::Fixed(0),
        RotationMode::Fixed(90),
        RotationMode::Fixed(180),
        RotationMode::Fixed(270),
    ] {
        assert_eq!(RotationMode::decode(mode.encode()), mode);
    }
    assert_eq!(RotationMode::decode(77), RotationMode::Landscape);
    let rm2 = info("reMarkable 2.0", 20967, 15725);
    let pro = info("reMarkable Ferrari", 11180, 15340);
    assert_eq!(RotationMode::Landscape.rotation(&rm2, 180), 0);
    assert_eq!(RotationMode::Landscape.rotation(&pro, 180), 90);
    assert_eq!(RotationMode::Auto.rotation(&pro, 180), 180);
    assert_eq!(RotationMode::Auto.rotation(&pro, u16::MAX), 90);
    assert_eq!(RotationMode::Fixed(270).rotation(&rm2, 0), 270);
    let mut args = Args::default();
    assert_eq!(RotationMode::from_args(&args), RotationMode::Landscape);
    args.rotate = Some(180);
    assert_eq!(RotationMode::from_args(&args), RotationMode::Fixed(180));
    args.auto_rotate = true;
    assert_eq!(RotationMode::from_args(&args), RotationMode::Auto);
}

#[test]
fn shared_state_reconnects_on_changes() {
    let mut shared = SharedState::new(RotationMode::Landscape, "root@a".to_string(), None);
    assert_eq!((shared.revision, shared.effective_rotation), (0, u16::MAX));
    shared.set_rotation_mode(RotationMode::Landscape);
    assert_eq!(shared.revision, 0);
    shared.set_rotation_mode(RotationMode::Fixed(90));
    assert_eq!(shared.revision, 1);
    assert_eq!(shared.rotation_mode(), RotationMode::Fixed(90));
    shared.set_password(Some("pw".to_string()));
    assert_eq!(shared.revision, 2);
    shared.set_host("root@b".to_string(), None);
    assert_eq!((shared.revision, shared.host.as_str(), shared.password.clone()), (3, "root@b", None));
    assert!(matches!(shared.connection, ConnectionStatus::Connecting));
    shared.revision = u64::MAX;
    shared.stop();
    assert!(shared.stop);
    assert_eq!(shared.revision, 0);
}

#[test]
fn waiting_keeps_the_first_error_of_a_kind() {
    let mut shared = SharedState::new(RotationMode::Auto, "root@a".to_string(), None);
    shared.set_waiting("connect to host a: Connection timed out".to_string());
    shared.set_waiting("connect to host b: Connection timed out".to_string());
    assert!(
        matches!(&shared.connection, ConnectionStatus::Waiting(e) if e == "connect to host a: Connection timed out")
    );
    shared.set_waiting("something odd".to_string());
    shared.set_waiting("something else".to_string());
    assert!(matches!(&shared.connection, ConnectionStatus::Waiting(e) if e == "something else"));
}

#[test]
fn authentication_failure_waits_for_a_new_password() {
    let mut shared = SharedState::new(RotationMode::Auto, "root@a".to_string(), None);
    shared.revision = 7;
    let plan = shared.fail("root@a: Permission denied (publickey,password).".to_string());
    assert_eq!(plan, RetryPlan::NewSettings { revision: 7 });
    assert_eq!(status_kind(&shared.connection), StatusKind::AuthenticationRequired);
    assert!(!shared.wait_over(plan, 0));
    assert!(!shared.wait_over(plan, u32::MAX));
    shared.set_password(Some("pw".to_string()));
    assert!(shared.wait_over(plan, 0));
}

#[test]
fn other_failures_retry_after_a_second() {
    let mut shared = SharedState::new(RotationMode::Auto, "root@a".to_string(), None);
    let plan = shared.fail("Connection refused".to_string());
    assert_eq!(plan, RetryPlan::Pause { steps: 10 });
    assert!(matches!(&shared.connection, ConnectionStatus::Waiting(e) if e == "Connection refused"));
    assert!(!shared.wait_over(plan, 9));
    assert!(shared.wait_over(plan, 10));
    shared.stop();
    assert!(shared.wait_over(plan, 0));
}

#[test]
fn error_kinds() {
    assert_eq!(error_kind("Permission denied"), RetryErrorKind::Authentication);
    assert_eq!(error_kind("operation TIMED OUT"), RetryErrorKind::Timeout);
    assert_eq!(error_kind("Connection refused"), RetryErrorKind::Refused);
    assert_eq!(error_kind("No route to host"), RetryErrorKind::Unreachable);
    assert_eq!(error_kind("Network is unreachable"), RetryErrorKind::Unreachable);
    assert_eq!(error_kind("Could not resolve hostname x"), RetryErrorKind::NameResolution);
    assert_eq!(error_kind("Name or service not known"), RetryErrorKind::NameResolution);
    assert_eq!(error_kind("odd"), RetryErrorKind::Other);
    assert!(same_error_type("odd", "odd"));
    assert!(!same_error_type("odd", "even"));
}

// ---------------------------------------------------------------------------
// Session
// ---------------------------------------------------------------------------

#[test]
fn session_refuses_auto_rotation_without_sensor() {
    let err = Session::start(RotationMode::Auto, info("reMarkable 2.0", 20967, 15725)).err();
    assert_eq!(
        err.as_deref(),
        Some("reMarkable 2.0 has no supported rotation sensor; use --rotate")
    );
}

#[test]
fn session_turns_and_scales_reports() {
    let mut session = Session::start(RotationMode::Landscape, info("reMarkable Ferrari", 100, 200)).unwrap();
    assert_eq!((session.output_x, session.output_y), (200, 100));
    assert_eq!(session.fixed_rotation(), 90);
    assert_eq!(
        session.connected_message(),
        "connected: reMarkable Ferrari (/dev/input/event1, 24 bytes/event, 200x100, pressure 4096, rotate 90)"
    );
    let x = InputEvent { kind: 3, code: 0, value: 25 };
    let y = InputEvent { kind: 3, code: 1, value: 80 };
    let end = InputEvent { kind: 0, code: 0, value: 0 };
    for event in [x, y] {
        assert!(session.accepts(event, u16::MAX));
        assert_eq!(session.handle(event, u16::MAX), None);
    }
    let (rotate, out) = session.handle(end, u16::MAX).unwrap();
    assert_eq!(rotate, 90);
    assert_eq!((out.x, out.y), (120, 25));
    let overflow = InputEvent { kind: 3, code: 1, value: i32::MIN };
    assert!(session.accepts(overflow, u16::MAX));
    session.handle(overflow, u16::MAX);
    assert!(!session.accepts(end, u16::MAX));
    let auto = Session::start(RotationMode::Auto, info("reMarkable Ferrari", 100, 200)).unwrap();
    assert!(auto.connected_message().ends_with("rotate auto)"));
}

#[test]
fn ssh_diagnostics() {
    assert_eq!(parse_accel_line("RATACCEL\t12\t-40"), Some((12, -40)));
    assert_eq!(parse_accel_line("RATACCEL\tx\t5\t\t6"), Some((5, 6)));
    assert_eq!(parse_accel_line("RATACCEL\t5"), None);
    assert_eq!(parse_accel_line("ratablet: rotation sensor unavailable"), None);
    let mut errors = Vec::new();
    for i in 0..10 {
        keep_error_line(&mut errors, format!("line {i}"));
    }
    assert_eq!(errors.len(), 8);
    assert_eq!(errors[0], "line 2");
    assert_eq!(ended_before_header(&errors[..0].to_vec(), "exit status: 255"), "SSH exited with exit status: 255");
    assert_eq!(
        ended_before_header(&vec!["a".to_string(), "b".to_string()], "x"),
        "a\nb"
    );
}

#[test]
fn shell_quoting() {
    assert_eq!(shell_quote("plain"), "'plain'");
    assert_eq!(shell_quote("it's"), "'it'\\''s'");
    assert_eq!(shell_quote(""), "''");
    assert_eq!(shell_quote("''"), "''\\'''\\'''");
    assert!(REMOTE_SCRIPT.contains("printf 'RAT1\\t%s\\t%s\\t%s\\n'"));
}

#[test]
fn data_connections_need_the_token() {
    assert!(token_accepted(b"right-token", "right-token"));
    assert!(!token_accepted(b"wrong-token", "right-token"));
    assert!(!token_accepted(b"right", "right-token"));
    assert!(token_accepted("ü".as_bytes(), "ü"));
}

#[test]
fn session_tokens_are_random_hex() {
    let first = data_token().unwrap();
    let second = data_token().unwrap();
    for token in [&first, &second] {
        assert_eq!(token.len(), 32);
        assert!(token.chars().all(|c| c.is_ascii_digit() || ('a'..='f').contains(&c)));
    }
    assert_ne!(first, second);
}

// ---------------------------------------------------------------------------
// Panel
// ---------------------------------------------------------------------------

#[test]
fn languages() {
    assert_eq!(Language::parse(Language::English.code()), Some(Language::English));
    assert_eq!(Language::parse(Language::Chinese.code()), Some(Language::Chinese));
    assert_eq!(Language::parse("fr"), None);
    assert_eq!(Language::from_locale(Some("ZH-tw")), Language::Chinese);
    assert_eq!(Language::from_locale(Some("en-US")), Language::English);
    assert_eq!(Language::from_locale(None), Language::English);
    let en = Text::for_language(Language::English);
    let zh = Text::for_language(Language::Chinese);
    assert_eq!(en.device_tab, "Device");
    assert_eq!(zh.settings_tab, "设置");
    assert_eq!(en.quit, "Quit ratablet");
    assert_eq!(tray_text(Language::English), ("Open", "Quit"));
    assert_eq!(tray_text(Language::Chinese), ("打开", "退出"));
    assert_eq!(rotation_label(RotationMode::Fixed(90), &en), "90°");
    assert_eq!(rotation_label(RotationMode::Auto, &zh), "自动旋转");
}

#[test]
fn panel_opening_settings() {
    let mut args = Args::default();
    assert_eq!(initial_rotation(&args, Some("180")), RotationMode::Fixed(180));
    assert_eq!(initial_rotation(&args, Some("sideways")), RotationMode::Landscape);
    args.rotate = Some(90);
    assert_eq!(initial_rotation(&args, Some("180")), RotationMode::Fixed(90));
    assert_eq!(initial_host(&args, Some("10.0.0.9")), "root@10.0.0.9");
    assert_eq!(initial_host(&args, Some("bad host")), "root@10.11.99.1");
    args.host_explicit = true;
    args.host = "me@rm".to_string();
    assert_eq!(initial_host(&args, Some("10.0.0.9")), "me@rm");
}

#[test]
fn device_page_status() {
    let waiting_auth = ConnectionStatus::Waiting("Permission denied".to_string());
    let waiting = ConnectionStatus::Waiting("Connection refused".to_string());
    assert_eq!(status_kind(&waiting_auth), StatusKind::AuthenticationRequired);
    assert_eq!(status_kind(&waiting), StatusKind::Waiting);
    assert_eq!(status_kind(&ConnectionStatus::Connecting), StatusKind::Connecting);
    assert_eq!(auth_error(&waiting_auth).as_deref(), Some("Permission denied"));
    assert_eq!(auth_error(&waiting), None);
    let rm2 = info("reMarkable 2.0", 20967, 15725);
    assert!(!auto_selectable(&ConnectionStatus::Connected(rm2.clone())));
    assert!(auto_selectable(&ConnectionStatus::Connecting));
    assert_eq!(shown_rotation(u16::MAX, RotationMode::Landscape, &rm2), 0);
    assert_eq!(shown_rotation(180, RotationMode::Landscape, &rm2), 180);
}

#[test]
fn panel_window_hides_and_shows() {
    let mut window = PanelWindow::new(false);
    assert_eq!(window.step(Some(true), false, false, None), WindowAction::Keep);
    assert!(window.was_focused);
    assert_eq!(window.step(Some(false), false, false, None), WindowAction::Hide);
    assert_eq!(window.step(None, true, false, None), WindowAction::CancelCloseAndHide);
    assert_eq!(window.step(None, true, true, None), WindowAction::Keep);
    let denied = Some("Permission denied".to_string());
    assert_eq!(window.step(None, false, false, denied.clone()), WindowAction::ShowAndFocus);
    assert_eq!(window.step(None, false, false, denied), WindowAction::Keep);
    let mut popup = PanelWindow::new(true);
    popup.step(Some(true), false, false, None);
    assert_eq!(popup.step(Some(false), false, false, None), WindowAction::Close);
}

#[test]
fn icon_pixels() {
    let icon = icon_rgba(32);
    assert_eq!(icon.len(), 32 * 32 * 4);
    let px = |x: usize, y: usize| &icon[(y * 32 + x) * 4..(y * 32 + x) * 4 + 4];
    assert_eq!(px(0, 0), [0, 0, 0, 0]);
    assert_eq!(px(4, 5), [28, 155, 150, 255]);
    assert_eq!(px(10, 10), [0, 0, 0, 0]);
    assert_eq!(px(12, 25), [245, 245, 245, 255]);
    assert_eq!(px(12, 26), [28, 155, 150, 255]);
    assert_eq!(px(30, 7), [245, 245, 245, 255]);
    assert_eq!(px(31, 6), [0, 0, 0, 0]);
    let argb = rgba_to_argb(&vec![1, 2, 3, 4, 5, 6, 7, 8, 9]);
    assert_eq!(argb, vec![4, 1, 2, 3, 8, 5, 6, 7, 9]);
}

// ---------------------------------------------------------------------------
// Pen output
// ---------------------------------------------------------------------------

#[test]
fn windows_pen_frames() {
    let screen = ScreenArea { x: -1920, y: 0, width: 3840, height: 1080 };
    let mut pen = WindowsPen::new();
    let away = PenState::default();
    assert_eq!(pen.frame(away, 100, 100, 4096, screen), None);
    pen.commit(away, false);
    let hover = PenState { tool_pen: true, x: 50, y: 100, tilt_x: -12345, tilt_y: 150, ..away };
    let frame = pen.frame(hover, 100, 100, 4096, screen).unwrap();
    assert_eq!(frame.phase, PointerPhase::Update);
    assert!(frame.in_range && !frame.in_contact);
    assert_eq!((frame.x, frame.y), (-1920 + 1919, 1079));
    assert_eq!((frame.tilt_x, frame.tilt_y), (-90, 1));
    pen.commit(hover, true);
    let down = PenState { touch: true, pressure: 4096, ..hover };
    let frame = pen.frame(down, 100, 100, 4096, screen).unwrap();
    assert_eq!((frame.phase, frame.in_contact, frame.pressure), (PointerPhase::Down, true, 1024));
    pen.commit(down, true);
    let frame = pen.frame(hover, 100, 100, 4096, screen).unwrap();
    assert_eq!((frame.phase, frame.in_contact), (PointerPhase::Up, false));
    pen.commit(hover, true);
    let released = pen.release().unwrap();
    assert!(!released.tool_pen && !released.touch);
    let frame = pen.frame(away, 100, 100, 4096, screen).unwrap();
    assert_eq!((frame.phase, frame.in_range), (PointerPhase::Up, false));
}

#[test]
fn mac_pen_events() {
    let mut pen = MacPen::new();
    let away = PenState::default();
    assert!(pen.actions(away).is_empty());
    let hover = PenState { tool_pen: true, ..away };
    assert_eq!(
        pen.actions(hover),
        vec![
            MacAction::Proximity { entering: true, eraser: false },
            MacAction::Pointer { state: hover, kind: MouseKind::Moved },
        ]
    );
    pen.commit(hover);
    let down = PenState { touch: true, pressure: 10, ..hover };
    assert_eq!(pen.actions(down), vec![MacAction::Pointer { state: down, kind: MouseKind::Down }]);
    pen.commit(down);
    let lifted = PenState { touch: false, pressure: 0, ..down };
    assert_eq!(
        pen.actions(away),
        vec![
            MacAction::Pointer { state: lifted, kind: MouseKind::Up },
            MacAction::Proximity { entering: false, eraser: false },
        ]
    );
    let rubber = PenState { eraser: true, touch: true, ..down };
    assert_eq!(
        pen.actions(rubber),
        vec![
            MacAction::Proximity { entering: true, eraser: true },
            MacAction::Pointer { state: rubber, kind: MouseKind::Dragged },
        ]
    );
}

#[test]
fn mac_clicks_stay_balanced() {
    let away = PenState::default();
    let hover = PenState { tool_pen: true, ..away };
    let touch = PenState { touch: true, pressure: 40, ..hover };
    let touch_out_of_range = PenState { touch: true, ..away };
    let rubber = PenState { eraser: true, touch: true, ..away };
    let run = [
        hover, touch, touch, away, touch_out_of_range, touch, hover, rubber, touch, away, hover,
        touch,
    ];
    let mut pen = MacPen::new();
    let (mut presses, mut releases) = (0, 0);
    for state in run {
        for action in pen.actions(state) {
            match action {
                MacAction::Pointer { kind: MouseKind::Down, .. } => presses += 1,
                MacAction::Pointer { kind: MouseKind::Up, .. } => releases += 1,
                _ => {}
            }
        }
        pen.commit(state);
        assert_eq!(presses - releases, i32::from(pen.was_touching));
        assert!(!pen.was_touching || pen.was_in_range);
    }
    assert_eq!((presses, releases), (4, 3));
}

#[test]
fn windows_contacts_stay_balanced() {
    let screen = ScreenArea { x: 0, y: 0, width: 1920, height: 1080 };
    let away = PenState::default();
    let hover = PenState { tool_pen: true, ..away };
    let touch = PenState { touch: true, pressure: 40, ..hover };
    let rubber = PenState { eraser: true, touch: true, ..away };
    let run = [hover, touch, touch, away, away, touch, hover, rubber, touch, away, hover, touch];
    let mut pen = WindowsPen::new();
    let (mut begun, mut ended) = (0, 0);
    for state in run {
        let frame = pen.frame(state, 100, 100, 4096, screen);
        if let Some(frame) = frame {
            if frame.phase == PointerPhase::Down {
                begun += 1;
            } else if frame.phase == PointerPhase::Up && pen.was_touching {
                ended += 1;
            }
        }
        pen.commit(state, frame.is_some());
        assert_eq!(begun - ended, i32::from(pen.was_touching));
        assert!(!pen.was_touching || pen.was_in_range);
    }
    assert_eq!((begun, ended), (4, 3));
}

#[test]
fn windows_touch_out_of_range_opens_no_contact() {
    let screen = ScreenArea { x: 0, y: 0, width: 1920, height: 1080 };
    let hover = PenState { tool_pen: true, ..PenState::default() };
    let touch_without_tool = PenState { touch: true, ..PenState::default() };
    let touch = PenState { touch: true, ..hover };
    let mut pen = WindowsPen::new();
    for state in [hover, touch_without_tool] {
        let framed = pen.frame(state, 100, 100, 4096, screen).is_some();
        pen.commit(state, framed);
    }
    let frame = pen.frame(touch, 100, 100, 4096, screen).unwrap();
    assert_eq!((frame.phase, frame.in_contact), (PointerPhase::Update, true));
}

#[test]
fn ssh_command_passes_the_key_and_names_this_program() {
    let mut args = Args::default();
    let plain = ssh_command(&args, true, None, 7, "tok", "/dev/null", "/opt/ratablet");
    assert_eq!(plain.program, "ssh");
    assert_eq!(plain.args.len(), 28);
    assert!(!plain.args.iter().any(|a| a == "-i"));
    assert_eq!(
        plain.envs,
        vec![
            ("SSH_ASKPASS".to_string(), "/opt/ratablet".to_string()),
            ("SSH_ASKPASS_REQUIRE".to_string(), "force".to_string()),
            ("RATABLET_ASKPASS".to_string(), "1".to_string()),
        ]
    );
    let remote = format!(
        "RAT_DEVICE='' RAT_AUTO='1' RAT_PORT='7' RAT_TOKEN='tok' /bin/sh -c {}",
        shell_quote(REMOTE_SCRIPT)
    );
    assert_eq!(plain.args[25..], ["--".to_string(), "root@10.11.99.1".to_string(), remote]);
    args.key = Some("/home/u/.ssh/rm".to_string());
    args.device = Some("/dev/input/event2".to_string());
    let keyed = ssh_command(&args, false, Some("pw"), 7, "tok", "NUL", "C:\\ratablet.exe");
    assert_eq!(keyed.args.len(), 30);
    assert_eq!(keyed.args[25..27], ["-i".to_string(), "/home/u/.ssh/rm".to_string()]);
    assert_eq!(keyed.args[22], "UserKnownHostsFile=NUL");
    assert!(keyed.args[29].starts_with("RAT_DEVICE='/dev/input/event2' RAT_AUTO='0' "));
    assert_eq!(keyed.envs[3], ("RATABLET_PASSWORD".to_string(), "pw".to_string()));
}

#[test]
fn attempts_take_the_current_settings_until_they_change() {
    let mut shared = SharedState::new(RotationMode::Fixed(90), "root@a".to_string(), Some("pw".to_string()));
    shared.effective_rotation = 180;
    shared.revision = 4;
    let attempt = shared.begin_attempt().unwrap();
    assert_eq!(shared.effective_rotation, u16::MAX);
    assert_eq!(
        (attempt.mode, attempt.revision, attempt.host.as_str(), attempt.password.as_deref()),
        (RotationMode::Fixed(90), 4, "root@a", Some("pw"))
    );
    assert!(shared.still_current(4));
    shared.set_host("root@b".to_string(), None);
    assert!(!shared.still_current(4));
    shared.stop();
    assert!(!shared.still_current(shared.revision));
    shared.effective_rotation = 90;
    assert!(shared.begin_attempt().is_none());
    assert_eq!(shared.effective_rotation, 90);
}

#[test]
fn choosing_the_mode_in_use_keeps_the_connection() {
    let mut shared = SharedState::new(RotationMode::Landscape, "root@a".to_string(), None);
    shared.set_rotation_mode(RotationMode::Landscape);
    assert_eq!(shared.revision, 0);
    shared.set_rotation_mode(RotationMode::Auto);
    assert_eq!((shared.revision, shared.rotation_mode), (1, 1));
}

#[test]
fn forgetting_a_password_that_was_never_stored_succeeds() {
    let text = Text::for_language(Language::English);
    assert_eq!(
        forget_message(&Removal::Removed, &text),
        (true, "Saved password removed.".to_string())
    );
    assert_eq!(
        forget_message(&Removal::NoEntry, &text),
        (true, "Saved password removed.".to_string())
    );
    assert_eq!(
        forget_message(&Removal::Failed("locked".to_string()), &text),
        (false, "Credential store error: locked".to_string())
    );
}

#[test]
fn short_records_read_at_the_end_of_the_stream() {
    assert_eq!(read_event(&[], 4), Ok(None));
    assert_eq!(
        read_event(&[1, 2], 4),
        Err(PartialRecord { filled: 2, record_size: 4 })
    );
}
