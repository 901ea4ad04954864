use mouse_coords::platform::kwin::{
    bridge_address, callback_outcome, dbus_err, io_err, plugin_name, pointer_script,
    report_pointer, script_object_path, CallbackWait, BRIDGE_IFACE, BRIDGE_PATH,
};
use mouse_coords::{Error, Point};

fn query_msg(e: Error) -> String {
    match e {
        Error::Query(m) => m,
        other => panic!("{:?}", other),
    }
}

#[test]
fn script_text() {
    let expected = r#"
(function() {
  var p = workspace.cursorPos;
  var ok = (p && typeof p.x === "number" && typeof p.y === "number");
  callDBus(
    ":1.42", "/com/mousecoords/KdeBridge", "com.mousecoords.KdeBridge", "ReportPointer",
    -17, ok, ok ? (p.x | 0) : 0, ok ? (p.y | 0) : 0
  );
})();
"#;
    assert_eq!(pointer_script(-17, ":1.42"), expected);
    assert!(pointer_script(5, ":1.9").contains("\n    5, ok,"));
    assert_eq!(BRIDGE_PATH, "/com/mousecoords/KdeBridge");
    assert_eq!(BRIDGE_IFACE, "com.mousecoords.KdeBridge");
}

#[test]
fn plugin_names() {
    assert_eq!(plugin_name(1234, 7, Some(99)), "mousecoords-1234-7-99");
    assert_eq!(plugin_name(1, -2, None), "mousecoords-1--2-0");
    assert_ne!(plugin_name(1, 2, Some(3)), plugin_name(1, 3, Some(3)));
    assert_eq!(
        plugin_name(u32::MAX, i32::MIN, Some(u128::MAX)),
        format!("mousecoords-{}-{}-{}", u32::MAX, i32::MIN, u128::MAX)
    );
}

#[test]
fn script_paths() {
    assert_eq!(script_object_path(0).unwrap(), "/Scripting/Script0");
    assert_eq!(script_object_path(12).unwrap(), "/Scripting/Script12");
    assert_eq!(query_msg(script_object_path(-1).unwrap_err()), "loadScript returned -1");
}

#[test]
fn bridge_names() {
    assert_eq!(bridge_address(Some(":1.5".to_string())).unwrap(), ":1.5");
    assert_eq!(query_msg(bridge_address(None).unwrap_err()), "dbus has no unique name");
}

#[test]
fn callbacks() {
    assert_eq!(report_pointer(true, 4, 5), Some((4, 5)));
    assert_eq!(report_pointer(false, 4, 5), None);
    assert_eq!(
        callback_outcome(CallbackWait::Reported(Some((4, 5)))).unwrap(),
        Point { x: 4, y: 5 }
    );
    assert_eq!(
        query_msg(callback_outcome(CallbackWait::Reported(None)).unwrap_err()),
        "KWin returned an invalid cursor"
    );
    assert_eq!(
        query_msg(callback_outcome(CallbackWait::TimedOut).unwrap_err()),
        "timeout waiting for KWin callback"
    );
    assert_eq!(
        query_msg(callback_outcome(CallbackWait::Closed).unwrap_err()),
        "KWin script exited before callback"
    );
}

#[test]
fn error_texts() {
    assert_eq!(query_msg(dbus_err("boom")), "dbus: boom");
    assert_eq!(query_msg(io_err("disk")), "io: disk");
}

use mouse_coords::platform::kwin::{
    get_position_async, KwinAction, KwinEvent, KwinSession, KwinStage, ScriptFileFailure,
    CALLBACK_TIMEOUT_SECS,
};

fn answer(a: KwinAction) -> Result<Point, Error> {
    match a {
        KwinAction::Finished(r) => r,
        _ => panic!("expected the answer"),
    }
}

#[test]
fn round_trip_succeeds() {
    let (mut s, a) = KwinSession::start();
    assert!(matches!(a, KwinAction::ConnectSession));
    let a = get_position_async(&mut s, KwinEvent::Connected(Ok(())));
    assert!(matches!(&a, KwinAction::RegisterBridge { path } if path == "/com/mousecoords/KdeBridge"));
    let a = get_position_async(&mut s, KwinEvent::Registered(Ok(())));
    assert!(matches!(a, KwinAction::ReadUniqueName));
    let a = get_position_async(&mut s, KwinEvent::UniqueName(Some(":1.7".to_string())));
    assert!(matches!(a, KwinAction::Reserve));
    let a = get_position_async(
        &mut s,
        KwinEvent::Reserved { req_id: 3, pid: 10, since_epoch_nanos: Some(20) },
    );
    match &a {
        KwinAction::WriteScript { script } => assert_eq!(script, &pointer_script(3, ":1.7")),
        _ => panic!("expected the script"),
    }
    let a = get_position_async(&mut s, KwinEvent::ScriptWritten(Ok("/tmp/x.js".to_string())));
    assert!(matches!(&a, KwinAction::LoadScript { file, plugin }
        if file == "/tmp/x.js" && plugin == "mousecoords-10-3-20"));
    let a = get_position_async(&mut s, KwinEvent::Loaded(Ok(4)));
    assert!(matches!(&a, KwinAction::RunScript { object_path } if object_path == "/Scripting/Script4"));
    let a = get_position_async(&mut s, KwinEvent::Ran(Ok(())));
    assert!(matches!(&a, KwinAction::AwaitCallback { timeout_secs, plugin }
        if *timeout_secs == CALLBACK_TIMEOUT_SECS && *timeout_secs == 3 && plugin == "mousecoords-10-3-20"));
    let a = get_position_async(&mut s, KwinEvent::Callback(CallbackWait::Reported(Some((8, 9)))));
    assert_eq!(answer(a).unwrap(), Point { x: 8, y: 9 });
    assert!(matches!(s.stage, KwinStage::Done));
}

#[test]
fn round_trip_failures() {
    let (mut s, _) = KwinSession::start();
    let r = answer(get_position_async(&mut s, KwinEvent::Connected(Err("no bus".to_string()))));
    assert_eq!(query_msg(r.unwrap_err()), "dbus: no bus");

    let (mut s, _) = KwinSession::start();
    get_position_async(&mut s, KwinEvent::Connected(Ok(())));
    get_position_async(&mut s, KwinEvent::Registered(Ok(())));
    let r = answer(get_position_async(&mut s, KwinEvent::UniqueName(None)));
    assert_eq!(query_msg(r.unwrap_err()), "dbus has no unique name");

    let (mut s, _) = KwinSession::start();
    get_position_async(&mut s, KwinEvent::Connected(Ok(())));
    get_position_async(&mut s, KwinEvent::Registered(Ok(())));
    get_position_async(&mut s, KwinEvent::UniqueName(Some(":1.1".to_string())));
    get_position_async(&mut s, KwinEvent::Reserved { req_id: 1, pid: 1, since_epoch_nanos: None });
    let r = answer(get_position_async(
        &mut s,
        KwinEvent::ScriptWritten(Err(ScriptFileFailure::InvalidPath)),
    ));
    assert_eq!(query_msg(r.unwrap_err()), "invalid tmp path");

    let (mut s, _) = KwinSession::start();
    get_position_async(&mut s, KwinEvent::Connected(Ok(())));
    get_position_async(&mut s, KwinEvent::Registered(Ok(())));
    get_position_async(&mut s, KwinEvent::UniqueName(Some(":1.1".to_string())));
    get_position_async(&mut s, KwinEvent::Reserved { req_id: 1, pid: 1, since_epoch_nanos: None });
    let r = answer(get_position_async(
        &mut s,
        KwinEvent::ScriptWritten(Err(ScriptFileFailure::Io("full".to_string()))),
    ));
    assert_eq!(query_msg(r.unwrap_err()), "io: full");

    let (mut s, _) = KwinSession::start();
    get_position_async(&mut s, KwinEvent::Connected(Ok(())));
    get_position_async(&mut s, KwinEvent::Registered(Ok(())));
    get_position_async(&mut s, KwinEvent::UniqueName(Some(":1.1".to_string())));
    get_position_async(&mut s, KwinEvent::Reserved { req_id: 1, pid: 1, since_epoch_nanos: None });
    get_position_async(&mut s, KwinEvent::ScriptWritten(Ok("f".to_string())));
    let r = answer(get_position_async(&mut s, KwinEvent::Loaded(Ok(-2))));
    assert_eq!(query_msg(r.unwrap_err()), "loadScript returned -2");
}

#[test]
fn plugin_names_differ_across_clocks() {
    assert_ne!(plugin_name(1, 12, Some(3)), plugin_name(1, 1, Some(23)));
    assert_ne!(plugin_name(11, 2, Some(3)), plugin_name(1, 12, Some(3)));
}
