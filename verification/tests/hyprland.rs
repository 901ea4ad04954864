use mouse_coords::platform::hyprland::parse_cursor_pos;

#[test]
fn parses_plain() {
    assert_eq!(parse_cursor_pos("1920, 540"), Some((1920, 540)));
}

#[test]
fn parses_spacing_and_newline() {
    assert_eq!(parse_cursor_pos(" 12,34\n"), Some((12, 34)));
    assert_eq!(parse_cursor_pos("0, 0"), Some((0, 0)));
}

#[test]
fn parses_negative_multi_monitor() {
    assert_eq!(parse_cursor_pos("-1920, -1080"), Some((-1920, -1080)));
}

#[test]
fn hyprland_rejects_garbage() {
    assert_eq!(parse_cursor_pos("unknown request"), None);
    assert_eq!(parse_cursor_pos("1.5, 2"), None);
    assert_eq!(parse_cursor_pos(""), None);
}

use mouse_coords::platform::hyprland::{
    get_position_blocking, instance_signature, interpret_reply, read_step, socket_bases,
    socket_in, socket_not_found, HyprAction, HyprEvent, HyprPhase, HyprlandQuery, ReadEvent,
    ReadOutcome, SearchAction, SearchStage, SendFailure, SocketSearch, READ_CHUNK,
    SOCKET_TIMEOUT_SECS,
};
use mouse_coords::{Error, Point};

fn query_msg(e: &Error) -> String {
    match e {
        Error::Query(m) => m.clone(),
        other => panic!("expected a query error, got {:?}", other),
    }
}

#[test]
fn parses_extreme_values() {
    assert_eq!(parse_cursor_pos("2147483647, -2147483648"), Some((i32::MAX, i32::MIN)));
    assert_eq!(parse_cursor_pos("2147483648, 0"), None);
    assert_eq!(parse_cursor_pos("+7, 007"), Some((7, 7)));
    assert_eq!(parse_cursor_pos("1,2,3"), None);
    assert_eq!(parse_cursor_pos("1 ,\u{3000}2\u{a0}"), Some((1, 2)));
    assert_eq!(parse_cursor_pos("-, 2"), None);
}

#[test]
fn round_trip_of_rendered_positions() {
    for (x, y) in [(0, 0), (5, -5), (i32::MIN, i32::MAX), (1920, 1080)] {
        assert_eq!(parse_cursor_pos(&format!("{}, {}", x, y)), Some((x, y)));
    }
}

#[test]
fn padding_is_ignored() {
    assert_eq!(parse_cursor_pos("\t\n 3, 4 \r\n"), parse_cursor_pos("3, 4"));
}

#[test]
fn signature_blank_is_unset() {
    assert_eq!(instance_signature(Some("  ".to_string())), None);
    assert_eq!(instance_signature(None), None);
    assert_eq!(instance_signature(Some("abc".to_string())), Some("abc".to_string()));
}

fn b(s: &str) -> Vec<u8> {
    s.as_bytes().to_vec()
}

#[test]
fn bases_in_order() {
    assert_eq!(
        socket_bases(Some("/run/user/1000".to_string())),
        vec![b("/run/user/1000/hypr"), b("/tmp/hypr")]
    );
    assert_eq!(socket_bases(Some("/run/".to_string()))[0], b("/run/hypr"));
    assert_eq!(socket_bases(Some(" ".to_string())), vec![b("/tmp/hypr")]);
    assert_eq!(socket_bases(None), vec![b("/tmp/hypr")]);
}

#[test]
fn socket_paths() {
    assert_eq!(socket_in(&b("/tmp/hypr"), &b("abc")), b("/tmp/hypr/abc/.socket.sock"));
    assert_eq!(socket_in(&b("/tmp/hypr"), &b("/abs")), b("/abs/.socket.sock"));
    let odd = vec![b'a', 0xff, b'z'];
    let mut expected = b("/tmp/hypr/");
    expected.extend_from_slice(&odd);
    expected.extend_from_slice(b"/.socket.sock");
    assert_eq!(socket_in(&b("/tmp/hypr"), &odd), expected);
}

#[test]
fn not_found_messages() {
    match socket_not_found(&None) {
        Error::Connection(m) => assert_eq!(
            m,
            "Hyprland IPC socket not found (HYPRLAND_INSTANCE_SIGNATURE is not set); is Hyprland running and is $XDG_RUNTIME_DIR available?"
        ),
        other => panic!("{:?}", other),
    }
    match socket_not_found(&Some("a\"b".to_string())) {
        Error::Connection(m) => assert_eq!(
            m,
            "Hyprland IPC socket not found (HYPRLAND_INSTANCE_SIGNATURE=\"a\\\"b\"); is Hyprland running and is $XDG_RUNTIME_DIR available?"
        ),
        other => panic!("{:?}", other),
    }
}

#[test]
fn reply_interpretation() {
    assert_eq!(interpret_reply(&b"1920, 540".to_vec()).unwrap(), Point { x: 1920, y: 540 });
    let e = interpret_reply(&b"nope".to_vec()).unwrap_err();
    assert_eq!(query_msg(&e), "Hyprland cursorpos returned an unparseable reply: \"nope\"");
    let e = interpret_reply(&vec![0xff, b'1']).unwrap_err();
    assert_eq!(
        query_msg(&e),
        "Hyprland cursorpos returned an unparseable reply: \"\u{fffd}1\""
    );
}

#[test]
fn reads_until_end_of_file() {
    let mut reply = Vec::new();
    assert!(matches!(read_step(&mut reply, ReadEvent::Bytes(b"12".to_vec())), ReadOutcome::More));
    assert!(matches!(read_step(&mut reply, ReadEvent::Interrupted), ReadOutcome::More));
    assert!(matches!(read_step(&mut reply, ReadEvent::Bytes(Vec::new())), ReadOutcome::Complete));
    assert_eq!(reply, b"12".to_vec());

    let mut long = Vec::new();
    let out = read_step(&mut long, ReadEvent::Bytes(vec![b' '; READ_CHUNK]));
    assert!(matches!(out, ReadOutcome::More));
    assert!(matches!(read_step(&mut long, ReadEvent::Bytes(b"x".to_vec())), ReadOutcome::More));
    assert_eq!(long.len(), READ_CHUNK + 1);
}

#[test]
fn read_failure_keeps_buffered_data() {
    let mut reply = b"3".to_vec();
    assert!(matches!(
        read_step(&mut reply, ReadEvent::Failed("timed out".to_string())),
        ReadOutcome::Complete
    ));
    let mut empty = Vec::new();
    match read_step(&mut empty, ReadEvent::Failed("timed out".to_string())) {
        ReadOutcome::Failed(e) => assert_eq!(query_msg(&e), "Hyprland IPC read: timed out"),
        _ => panic!("expected a failure"),
    }
}

#[test]
fn search_prefers_named_instance() {
    let (mut s, a) = SocketSearch::start(Some("sig".to_string()), Some("/run/u".to_string()));
    assert!(matches!(&a, SearchAction::CheckExists(p) if *p == b("/run/u/hypr/sig/.socket.sock")));
    let a = s.on_exists(false);
    assert!(matches!(&a, SearchAction::CheckExists(p) if *p == b("/tmp/hypr/sig/.socket.sock")));
    let a = s.on_exists(false);
    assert!(matches!(&a, SearchAction::ListDir(d) if *d == b("/run/u/hypr")));
    let a = s.on_listing(None);
    assert!(matches!(&a, SearchAction::ListDir(d) if *d == b("/tmp/hypr")));
    let a = s.on_listing(Some(vec![b("x"), vec![0xfe, b'y']]));
    assert!(matches!(&a, SearchAction::CheckExists(p) if *p == b("/tmp/hypr/x/.socket.sock")));
    let a = s.on_exists(false);
    let odd = {
        let mut v = b("/tmp/hypr/");
        v.extend_from_slice(&[0xfe, b'y']);
        v.extend_from_slice(b"/.socket.sock");
        v
    };
    assert!(matches!(&a, SearchAction::CheckExists(p) if *p == odd));
    let a = s.on_exists(true);
    assert!(matches!(&a, SearchAction::Found(p) if *p == odd));
    assert!(matches!(&s.stage, SearchStage::Found(_)));
}

#[test]
fn search_without_signature_scans_and_gives_up() {
    let (mut s, a) = SocketSearch::start(None, None);
    assert!(matches!(&a, SearchAction::ListDir(d) if *d == b("/tmp/hypr")));
    match s.on_listing(Some(Vec::new())) {
        SearchAction::NotFound(Error::Connection(m)) => {
            assert!(m.contains("HYPRLAND_INSTANCE_SIGNATURE is not set"))
        }
        _ => panic!("expected not found"),
    }
}

fn finished(a: HyprAction) -> Result<Point, Error> {
    match a {
        HyprAction::Finished(r) => r,
        _ => panic!("expected the answer"),
    }
}

#[test]
fn full_query_succeeds() {
    let (mut q, a) = HyprlandQuery::start(Some("sig".to_string()), None);
    assert!(matches!(&a, HyprAction::CheckExists(p) if *p == b("/tmp/hypr/sig/.socket.sock")));
    let a = get_position_blocking(&mut q, HyprEvent::Exists(true));
    assert!(matches!(&a, HyprAction::Connect(p) if *p == b("/tmp/hypr/sig/.socket.sock")));
    let a = get_position_blocking(&mut q, HyprEvent::Connected(None));
    match &a {
        HyprAction::Send { request, timeout_secs } => {
            assert_eq!(request, &b"cursorpos".to_vec());
            assert_eq!(*timeout_secs, SOCKET_TIMEOUT_SECS);
            assert_eq!(*timeout_secs, 2);
        }
        _ => panic!("expected a send"),
    }
    let a = get_position_blocking(&mut q, HyprEvent::Sent(None));
    assert!(matches!(a, HyprAction::Read { room: 128 }));
    let a = get_position_blocking(&mut q, HyprEvent::Read(ReadEvent::Bytes(b"-5, ".to_vec())));
    assert!(matches!(a, HyprAction::Read { room: 128 }));
    let a = get_position_blocking(&mut q, HyprEvent::Read(ReadEvent::Bytes(b"7\n".to_vec())));
    assert!(matches!(a, HyprAction::Read { room: 128 }));
    let a = get_position_blocking(&mut q, HyprEvent::Read(ReadEvent::Bytes(Vec::new())));
    assert_eq!(finished(a).unwrap(), Point { x: -5, y: 7 });
    assert!(matches!(q.phase, HyprPhase::Done));
}

#[test]
fn full_query_failures() {
    let (mut q, _) = HyprlandQuery::start(Some("s".to_string()), None);
    get_position_blocking(&mut q, HyprEvent::Exists(true));
    match finished(get_position_blocking(&mut q, HyprEvent::Connected(Some("refused".to_string())))) {
        Err(Error::Connection(m)) => {
            assert_eq!(m, "Hyprland IPC connect /tmp/hypr/s/.socket.sock: refused")
        }
        other => panic!("{:?}", other),
    }

    let (mut q, _) = HyprlandQuery::start(Some("s".to_string()), None);
    get_position_blocking(&mut q, HyprEvent::Exists(true));
    get_position_blocking(&mut q, HyprEvent::Connected(None));
    let r = finished(get_position_blocking(
        &mut q,
        HyprEvent::Sent(Some(SendFailure::Write("broken pipe".to_string()))),
    ));
    assert_eq!(query_msg(&r.unwrap_err()), "Hyprland IPC write: broken pipe");

    let (mut q, _) = HyprlandQuery::start(Some("s".to_string()), None);
    get_position_blocking(&mut q, HyprEvent::Exists(true));
    get_position_blocking(&mut q, HyprEvent::Connected(None));
    let r = finished(get_position_blocking(
        &mut q,
        HyprEvent::Sent(Some(SendFailure::ReadTimeout("e".to_string()))),
    ));
    assert_eq!(query_msg(&r.unwrap_err()), "set_read_timeout: e");

    let (mut q, _) = HyprlandQuery::start(Some("s".to_string()), None);
    get_position_blocking(&mut q, HyprEvent::Exists(true));
    get_position_blocking(&mut q, HyprEvent::Connected(None));
    let r = finished(get_position_blocking(
        &mut q,
        HyprEvent::Sent(Some(SendFailure::WriteTimeout("e".to_string()))),
    ));
    assert_eq!(query_msg(&r.unwrap_err()), "set_write_timeout: e");

    let (mut q, _) = HyprlandQuery::start(None, None);
    let r = finished(get_position_blocking(&mut q, HyprEvent::Listing(None)));
    assert!(matches!(r, Err(Error::Connection(_))));
}

#[test]
fn timeout_after_data_parses_what_arrived() {
    let (mut q, _) = HyprlandQuery::start(Some("s".to_string()), None);
    get_position_blocking(&mut q, HyprEvent::Exists(true));
    get_position_blocking(&mut q, HyprEvent::Connected(None));
    get_position_blocking(&mut q, HyprEvent::Sent(None));
    get_position_blocking(&mut q, HyprEvent::Read(ReadEvent::Bytes(b"10, 20".to_vec())));
    let r = finished(get_position_blocking(
        &mut q,
        HyprEvent::Read(ReadEvent::Failed("timed out".to_string())),
    ));
    assert_eq!(r.unwrap(), Point { x: 10, y: 20 });
}

#[test]
fn long_reply_is_read_to_the_end() {
    let (mut q, _) = HyprlandQuery::start(Some("s".to_string()), None);
    get_position_blocking(&mut q, HyprEvent::Exists(true));
    get_position_blocking(&mut q, HyprEvent::Connected(None));
    get_position_blocking(&mut q, HyprEvent::Sent(None));
    let mut first = b("1, 2");
    first.extend_from_slice(&[b' '; 124]);
    assert_eq!(first.len(), READ_CHUNK);
    let a = get_position_blocking(&mut q, HyprEvent::Read(ReadEvent::Bytes(first)));
    assert!(matches!(a, HyprAction::Read { room: 128 }));
    let a = get_position_blocking(&mut q, HyprEvent::Read(ReadEvent::Bytes(b("xyz"))));
    assert!(matches!(a, HyprAction::Read { room: 128 }));
    let r = finished(get_position_blocking(&mut q, HyprEvent::Read(ReadEvent::Bytes(Vec::new()))));
    assert!(query_msg(&r.unwrap_err())
        .starts_with("Hyprland cursorpos returned an unparseable reply: "));
}

#[test]
fn connect_error_shows_path_lossily() {
    let (mut q, _) = HyprlandQuery::start(None, None);
    get_position_blocking(&mut q, HyprEvent::Listing(Some(vec![vec![b'i', 0xff]])));
    get_position_blocking(&mut q, HyprEvent::Exists(true));
    match finished(get_position_blocking(&mut q, HyprEvent::Connected(Some("nope".to_string())))) {
        Err(Error::Connection(m)) => {
            assert_eq!(m, "Hyprland IPC connect /tmp/hypr/i\u{fffd}/.socket.sock: nope")
        }
        other => panic!("{:?}", other),
    }
}
