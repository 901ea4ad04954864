use mouse_coords::platform::gnome::{
    dbus_err, get_position_async, pointer_fields, GnomeEvent, GnomeProbe, GnomeStep,
};
use mouse_coords::{Error, Point};

/// The library's fields of a `global.get_pointer()` result, read as
/// coordinates the way the backend does: parsed as floating point, finite,
/// rounded.
fn parse_pointer_result(s: &str) -> Option<(i32, i32)> {
    let (x, y) = pointer_fields(s)?;
    let x: f64 = x.parse().ok()?;
    let y: f64 = y.parse().ok()?;
    if !x.is_finite() || !y.is_finite() {
        return None;
    }
    Some((x.round() as i32, y.round() as i32))
}

#[test]
fn parses_int_list() {
    assert_eq!(parse_pointer_result("[640, 400, 0]"), Some((640, 400)));
}

#[test]
fn parses_float_list() {
    assert_eq!(parse_pointer_result("[640.0, 400.0, 0]"), Some((640, 400)));
}

#[test]
fn parses_quoted() {
    assert_eq!(parse_pointer_result("'[12, 34, 0]'"), Some((12, 34)));
}

#[test]
fn gnome_rejects_garbage() {
    assert_eq!(parse_pointer_result(""), None);
    assert_eq!(parse_pointer_result("false"), None);
}

#[test]
fn rounds_and_rejects_non_finite() {
    assert_eq!(parse_pointer_result("[1.5, -2.5, 0]"), Some((2, -3)));
    assert_eq!(parse_pointer_result("[inf, 2, 0]"), None);
}

fn fields(s: &str) -> Option<(String, String)> {
    pointer_fields(s)
}

fn pair(a: &str, b: &str) -> Option<(String, String)> {
    Some((a.to_string(), b.to_string()))
}

#[test]
fn fields_of_int_list() {
    assert_eq!(fields("[640, 400, 0]"), pair("640", "400"));
}

#[test]
fn fields_of_float_list() {
    assert_eq!(fields("[640.0, 400.0, 0]"), pair("640.0", "400.0"));
}

#[test]
fn fields_of_quoted() {
    assert_eq!(fields("'[12, 34, 0]'"), pair("12", "34"));
    assert_eq!(fields("\"[12, 34, 0]\""), pair("12", "34"));
}

#[test]
fn fields_of_garbage() {
    assert_eq!(fields(""), None);
    assert_eq!(fields("false"), None);
}

#[test]
fn fields_with_surrounding_text_and_odd_shapes() {
    assert_eq!(fields("pointer: [1, 2, 0] done"), pair("1", "2"));
    assert_eq!(fields("] 5, 6 ["), pair("] 5", "6 ["));
    assert_eq!(fields("7,8"), pair("7", "8"));
    assert_eq!(fields("''"), None);
    assert_eq!(fields("' 9 , 10 '"), pair("9", "10"));
}

#[test]
fn probes_in_order() {
    assert!(matches!(
        get_position_async(GnomeProbe::WdotoolBridge, GnomeEvent::Start),
        GnomeStep::Probe(GnomeProbe::WdotoolBridge)
    ));
    assert!(matches!(
        get_position_async(GnomeProbe::WdotoolBridge, GnomeEvent::Bridge(None)),
        GnomeStep::Probe(GnomeProbe::MouseCoordsBridge)
    ));
    assert!(matches!(
        get_position_async(GnomeProbe::MouseCoordsBridge, GnomeEvent::Bridge(None)),
        GnomeStep::Probe(GnomeProbe::ShellEval)
    ));
    match get_position_async(GnomeProbe::MouseCoordsBridge, GnomeEvent::Bridge(Some((3, -4)))) {
        GnomeStep::Done(Ok(p)) => assert_eq!(p, Point { x: 3, y: -4 }),
        _ => panic!("expected the bridge's answer"),
    }
}

fn done_query(step: GnomeStep) -> String {
    match step {
        GnomeStep::Done(Err(Error::Query(m))) => m,
        _ => panic!("expected a query error"),
    }
}

#[test]
fn eval_outcomes() {
    let m = done_query(get_position_async(
        GnomeProbe::ShellEval,
        GnomeEvent::EvalAnswered { ok: false, result: String::new(), parsed: None },
    ));
    assert!(m.starts_with("GNOME Wayland: no pointer backend available"));
    assert!(m.ends_with("and is not used."));
    match get_position_async(
        GnomeProbe::ShellEval,
        GnomeEvent::EvalAnswered { ok: true, result: "[1, 2, 0]".to_string(), parsed: Some((1, 2)) },
    ) {
        GnomeStep::Done(Ok(p)) => assert_eq!(p, Point { x: 1, y: 2 }),
        _ => panic!("expected a position"),
    }
    let m = done_query(get_position_async(
        GnomeProbe::ShellEval,
        GnomeEvent::EvalAnswered { ok: true, result: "nan".to_string(), parsed: None },
    ));
    assert_eq!(m, "GNOME Shell Eval returned an unparseable pointer: \"nan\"");
    let m = done_query(get_position_async(
        GnomeProbe::ShellEval,
        GnomeEvent::EvalFailed("no such name".to_string()),
    ));
    assert_eq!(m, "gnome dbus: no such name");
}

#[test]
fn dbus_error_text() {
    match dbus_err("x") {
        Error::Query(m) => assert_eq!(m, "gnome dbus: x"),
        other => panic!("{:?}", other),
    }
}
