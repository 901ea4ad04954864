//! Cursor position on KDE Plasma (Wayland) via KWin scripting + D-Bus.
//!
//! A temporary JS snippet reads `workspace.cursorPos` and reports back via
//! `callDBus` to a transient service registered on the session bus, under
//! the bus unique name (`:1.xxx`), because scripts loaded via `loadScript` on
//! Plasma 6 cannot reach well-known names. JS numbers arrive as int32.

use vstd::prelude::*;

use crate::error::Error;
use crate::text::{
    decimal, decimal_digits, decimal_i32, decimal_u128, digits_value, is_digit,
    lemma_decimal_digits, lemma_parse_decimal, string_from_chars,
};
use crate::Point;

verus! {

/// Object path of the bridge that the script calls back.
pub const BRIDGE_PATH: &'static str = "/com/mousecoords/KdeBridge";

/// Interface of the bridge that the script calls back.
pub const BRIDGE_IFACE: &'static str = "com.mousecoords.KdeBridge";

/// Seconds to wait for the script's callback.
pub const CALLBACK_TIMEOUT_SECS: u64 = 3;

/// The script text before the bridge's bus name.
pub open spec fn script_head() -> Seq<char> {
    "\n(function() {\n  var p = workspace.cursorPos;\n  var ok = (p && typeof p.x === \"number\" && typeof p.y === \"number\");\n  callDBus(\n    \""@
}

/// The script text between the bridge's bus name and the request id.
pub open spec fn script_middle() -> Seq<char> {
    "\", \"/com/mousecoords/KdeBridge\", \"com.mousecoords.KdeBridge\", \"ReportPointer\",\n    "@
}

/// The script text after the request id.
pub open spec fn script_tail() -> Seq<char> {
    ", ok, ok ? (p.x | 0) : 0, ok ? (p.y | 0) : 0\n  );\n})();\n"@
}

/// The script that reports the cursor of request `req_id` to the bridge at
/// bus name `bridge_addr`.
pub open spec fn script_text(req_id: i32, bridge_addr: Seq<char>) -> Seq<char> {
    script_head() + bridge_addr + script_middle() + decimal(req_id as int) + script_tail()
}

/// The JS snippet that reads `workspace.cursorPos` and calls
/// `ReportPointer(req_id, ok, x, y)` on the bridge at `bridge_addr`.
pub fn pointer_script(req_id: i32, bridge_addr: &str) -> (res: String)
    ensures
        res@ == script_text(req_id, bridge_addr@),
{
    let id = string_from_chars(&decimal_i32(req_id));
    String::from_str(
        "\n(function() {\n  var p = workspace.cursorPos;\n  var ok = (p && typeof p.x === \"number\" && typeof p.y === \"number\");\n  callDBus(\n    \"",
    ).concat(bridge_addr).concat(
        "\", \"/com/mousecoords/KdeBridge\", \"com.mousecoords.KdeBridge\", \"ReportPointer\",\n    ",
    ).concat(id.as_str()).concat(", ok, ok ? (p.x | 0) : 0, ok ? (p.y | 0) : 0\n  );\n})();\n")
}

/// The plugin name of a script: `mousecoords-<pid>-<req_id>-<nanos>`, so that
/// names do not collide across calls and processes; the nanoseconds since the
/// Unix epoch count as 0 when the clock is before it.
pub open spec fn plugin_name_text(pid: u32, req_id: i32, since_epoch_nanos: Option<u128>) -> Seq<
    char,
> {
    let nanos = match since_epoch_nanos {
        Some(n) => n,
        None => 0,
    };
    "mousecoords-"@ + decimal(pid as int) + "-"@ + decimal(req_id as int) + "-"@ + decimal(
        nanos as int,
    )
}

/// The plugin name under which the script is loaded.
pub fn plugin_name(pid: u32, req_id: i32, since_epoch_nanos: Option<u128>) -> (res: String)
    ensures
        res@ == plugin_name_text(pid, req_id, since_epoch_nanos),
{
    let nanos: u128 = match since_epoch_nanos {
        Some(n) => n,
        None => 0,
    };
    let p = string_from_chars(&decimal_u128(pid as u128));
    let r = string_from_chars(&decimal_i32(req_id));
    let n = string_from_chars(&decimal_u128(nanos));
    String::from_str("mousecoords-").concat(p.as_str()).concat("-").concat(r.as_str()).concat(
        "-",
    ).concat(n.as_str())
}

/// The bus name that the script calls back: the connection's unique name.
pub fn bridge_address(unique_name: Option<String>) -> (res: Result<String, Error>)
    ensures
        match unique_name {
            Some(n) => res matches Ok(a) && a@ == n@,
            None => res matches Err(Error::Query(m)) && m@ == "dbus has no unique name"@,
        },
{
    match unique_name {
        Some(n) => Ok(n),
        None => Err(Error::Query(String::from_str("dbus has no unique name"))),
    }
}

/// The object path of a loaded script, `/Scripting/Script<id>`; a negative
/// id means that `loadScript` refused the script.
pub fn script_object_path(script_id: i32) -> (res: Result<String, Error>)
    ensures
        script_id < 0 ==> (res matches Err(Error::Query(m)) && m@ == "loadScript returned "@
            + decimal(script_id as int)),
        script_id >= 0 ==> (res matches Ok(p) && p@ == "/Scripting/Script"@ + decimal(
            script_id as int,
        )),
{
    let id = string_from_chars(&decimal_i32(script_id));
    if script_id < 0 {
        Err(Error::Query(String::from_str("loadScript returned ").concat(id.as_str())))
    } else {
        Ok(String::from_str("/Scripting/Script").concat(id.as_str()))
    }
}

/// What the bridge hands to the waiting request when the script calls
/// `ReportPointer(req_id, ok, x, y)`: the position when `ok`.
pub fn report_pointer(ok: bool, x: i32, y: i32) -> (res: Option<(i32, i32)>)
    ensures
        res == (if ok {
            Some((x, y))
        } else {
            None
        }),
{
    if ok {
        Some((x, y))
    } else {
        None
    }
}

/// How the wait for the script's callback ended.
pub enum CallbackWait {
    /// No callback within `CALLBACK_TIMEOUT_SECS`.
    TimedOut,
    /// The request's channel closed before a callback.
    Closed,
    /// The callback came, with what `report_pointer` made of it.
    Reported(Option<(i32, i32)>),
}

/// The answer once the callback wait is over.
pub open spec fn callback_result_ok(w: CallbackWait, res: Result<Point, Error>) -> bool {
    match w {
        CallbackWait::TimedOut => res matches Err(Error::Query(m)) && m@
            == "timeout waiting for KWin callback"@,
        CallbackWait::Closed => res matches Err(Error::Query(m)) && m@
            == "KWin script exited before callback"@,
        CallbackWait::Reported(Some((x, y))) => res == Ok::<Point, Error>(Point { x, y }),
        CallbackWait::Reported(None) => res matches Err(Error::Query(m)) && m@
            == "KWin returned an invalid cursor"@,
    }
}

/// The answer of the KWin backend once the wait for the callback is over.
pub fn callback_outcome(wait: CallbackWait) -> (res: Result<Point, Error>)
    ensures
        callback_result_ok(wait, res),
{
    match wait {
        CallbackWait::TimedOut => Err(
            Error::Query(String::from_str("timeout waiting for KWin callback")),
        ),
        CallbackWait::Closed => Err(
            Error::Query(String::from_str("KWin script exited before callback")),
        ),
        CallbackWait::Reported(Some((x, y))) => Ok(Point { x, y }),
        CallbackWait::Reported(None) => Err(
            Error::Query(String::from_str("KWin returned an invalid cursor")),
        ),
    }
}

/// The error for a failed D-Bus call: `Query("dbus: <detail>")`.
pub fn dbus_err(detail: &str) -> (res: Error)
    ensures
        res matches Error::Query(m) && m@ == "dbus: "@ + detail@,
{
    Error::Query(String::from_str("dbus: ").concat(detail))
}

/// The error for a failed file operation: `Query("io: <detail>")`.
pub fn io_err(detail: &str) -> (res: Error)
    ensures
        res matches Error::Query(m) && m@ == "io: "@ + detail@,
{
    Error::Query(String::from_str("io: ").concat(detail))
}


/// The nanoseconds that a plugin name carries.
pub open spec fn nanos_or_zero(since_epoch_nanos: Option<u128>) -> u128 {
    match since_epoch_nanos {
        Some(n) => n,
        None => 0,
    }
}

/// The digits of a decimal form of a non-negative number contain no `-`.
proof fn lemma_unsigned_decimal(n: int)
    requires
        n >= 0,
    ensures
        forall|i: int| 0 <= i < decimal(n).len() ==> #[trigger] decimal(n)[i] != '-',
        digits_value(decimal(n)) == n,
        decimal(n).len() > 0,
{
    lemma_decimal_digits(n as nat);
    assert forall|i: int| 0 <= i < decimal(n).len() implies #[trigger] decimal(n)[i] != '-' by {
        assert(is_digit(decimal_digits(n as nat)[i]));
    }
}

/// Plugin names never collide: equal names come from the same process id,
/// request id and clock reading, whatever the clocks read. So two requests
/// with different ids always load under different names.
pub proof fn law_plugin_names_distinct(
    p1: u32,
    r1: i32,
    n1: Option<u128>,
    p2: u32,
    r2: i32,
    n2: Option<u128>,
)
    ensures
        plugin_name_text(p1, r1, n1) == plugin_name_text(p2, r2, n2) ==> (p1 == p2 && r1 == r2
            && nanos_or_zero(n1) == nanos_or_zero(n2)),
{
    reveal_strlit("-");
    let pre = "mousecoords-"@;
    let h = "-"@;
    let dp1 = decimal(p1 as int);
    let dp2 = decimal(p2 as int);
    let dr1 = decimal(r1 as int);
    let dr2 = decimal(r2 as int);
    let dn1 = decimal(nanos_or_zero(n1) as int);
    let dn2 = decimal(nanos_or_zero(n2) as int);
    let a = plugin_name_text(p1, r1, n1);
    let b = plugin_name_text(p2, r2, n2);
    assert(a == pre + dp1 + h + dr1 + h + dn1);
    assert(b == pre + dp2 + h + dr2 + h + dn2);
    lemma_unsigned_decimal(p1 as int);
    lemma_unsigned_decimal(p2 as int);
    lemma_unsigned_decimal(nanos_or_zero(n1) as int);
    lemma_unsigned_decimal(nanos_or_zero(n2) as int);
    if a == b {
        let len = a.len() as int;
        // The clock reading follows the last `-`.
        assert(dn1.len() == dn2.len()) by {
            if dn1.len() < dn2.len() {
                let k = len - dn1.len() - 1;
                assert(a[k] == '-');
                assert(b[k] == dn2[k - (len - dn2.len())]);
            } else if dn2.len() < dn1.len() {
                let k = len - dn2.len() - 1;
                assert(b[k] == '-');
                assert(a[k] == dn1[k - (len - dn1.len())]);
            }
        }
        assert(dn1 == a.subrange(len - dn1.len(), len));
        assert(dn2 == b.subrange(len - dn2.len(), len));
        // The process id ends at the first `-` after the prefix.
        let s = pre.len() as int;
        assert(dp1.len() == dp2.len()) by {
            if dp1.len() < dp2.len() {
                assert(a[s + dp1.len()] == '-');
                assert(b[s + dp1.len()] == dp2[dp1.len() as int]);
            } else if dp2.len() < dp1.len() {
                assert(b[s + dp2.len()] == '-');
                assert(a[s + dp2.len()] == dp1[dp2.len() as int]);
            }
        }
        assert(dp1 == a.subrange(s, s + dp1.len()));
        assert(dp2 == b.subrange(s, s + dp2.len()));
        // The request id is what lies between.
        assert(dr1 == a.subrange(s + dp1.len() + 1, len - dn1.len() - 1));
        assert(dr2 == b.subrange(s + dp2.len() + 1, len - dn2.len() - 1));
        lemma_parse_decimal(r1);
        lemma_parse_decimal(r2);
    }
}

// ---------------------------------------------------------------------------
// The round trip
// ---------------------------------------------------------------------------

/// Where the KWin round trip stands.
pub enum KwinStage {
    /// Connecting to the session bus.
    Connecting,
    /// Serving the bridge at `BRIDGE_PATH`.
    Registering,
    /// Reading the connection's unique name.
    Naming,
    /// Reserving a request id; the bridge answers at this bus name.
    Reserving(String),
    /// Writing the script to a temporary file; it is loaded under this
    /// plugin name.
    Writing(String),
    /// Loading the script under this plugin name.
    Loading(String),
    /// Running the loaded script (plugin name).
    Running(String),
    /// Waiting for the callback.
    Waiting,
    /// The answer has been given.
    Done,
}

/// The KWin round trip.
pub struct KwinSession {
    pub stage: KwinStage,
}

/// Why the script file could not be written.
pub enum ScriptFileFailure {
    /// Creating, writing or flushing the file failed.
    Io(String),
    /// The file's path is not valid Unicode.
    InvalidPath,
}

/// What the outside world did. The `String` of an `Err` describes a failed
/// D-Bus call.
pub enum KwinEvent {
    Connected(Result<(), String>),
    Registered(Result<(), String>),
    UniqueName(Option<String>),
    /// A request id was reserved (its waiter registered), with the process
    /// id and the nanoseconds since the Unix epoch (`None`: clock before it).
    Reserved { req_id: i32, pid: u32, since_epoch_nanos: Option<u128> },
    /// The script file was written; its path.
    ScriptWritten(Result<String, ScriptFileFailure>),
    /// `loadScript` answered this script id.
    Loaded(Result<i32, String>),
    /// The script object was reached and run.
    Ran(Result<(), String>),
    /// The wait for the callback ended.
    Callback(CallbackWait),
}

/// What to do next.
pub enum KwinAction {
    /// Connect to the session bus.
    ConnectSession,
    /// Serve the bridge object at this path.
    RegisterBridge { path: String },
    /// Read the connection's unique name.
    ReadUniqueName,
    /// Take the next request id, register a waiter for it, and report it.
    Reserve,
    /// Write this script to a temporary `.js` file and report its path.
    WriteScript { script: String },
    /// Call `loadScript(file, plugin)`.
    LoadScript { file: String, plugin: String },
    /// Reach the script object at this path and call `run`.
    RunScript { object_path: String },
    /// Wait this long for the callback, then call `unloadScript(plugin)`.
    AwaitCallback { timeout_secs: u64, plugin: String },
    /// The answer.
    Finished(Result<Point, Error>),
}

/// `e` is the error of a failed D-Bus call described by `d`.
pub open spec fn is_dbus_err(e: Error, d: Seq<char>) -> bool {
    e matches Error::Query(m) && m@ == "dbus: "@ + d
}

/// `event` answers the action that the round trip asked for last.
pub open spec fn kwin_expects(stage: KwinStage, event: KwinEvent) -> bool {
    match stage {
        KwinStage::Connecting => event is Connected,
        KwinStage::Registering => event is Registered,
        KwinStage::Naming => event is UniqueName,
        KwinStage::Reserving(_) => event is Reserved,
        KwinStage::Writing(_) => event is ScriptWritten,
        KwinStage::Loading(_) => event is Loaded,
        KwinStage::Running(_) => event is Ran,
        KwinStage::Waiting => event is Callback,
        KwinStage::Done => false,
    }
}

/// One step of the round trip: the stage after `event` and the action.
pub open spec fn kwin_step_ok(old: KwinStage, event: KwinEvent, new: KwinStage, a: KwinAction) -> bool {
    match (old, event) {
        (KwinStage::Connecting, KwinEvent::Connected(Ok(()))) => {
            &&& new == KwinStage::Registering
            &&& a matches KwinAction::RegisterBridge { path } && path@ == BRIDGE_PATH@
        },
        (KwinStage::Registering, KwinEvent::Registered(Ok(()))) => {
            &&& new == KwinStage::Naming
            &&& a == KwinAction::ReadUniqueName
        },
        (KwinStage::Naming, KwinEvent::UniqueName(Some(n))) => {
            &&& new matches KwinStage::Reserving(b) && b@ == n@
            &&& a == KwinAction::Reserve
        },
        (KwinStage::Naming, KwinEvent::UniqueName(None)) => {
            &&& new == KwinStage::Done
            &&& a matches KwinAction::Finished(Err(Error::Query(m))) && m@
                == "dbus has no unique name"@
        },
        (KwinStage::Reserving(b), KwinEvent::Reserved { req_id, pid, since_epoch_nanos }) => {
            &&& new matches KwinStage::Writing(p) && p@ == plugin_name_text(
                pid,
                req_id,
                since_epoch_nanos,
            )
            &&& a matches KwinAction::WriteScript { script } && script@ == script_text(req_id, b@)
        },
        (KwinStage::Writing(p), KwinEvent::ScriptWritten(Ok(f))) => {
            &&& new matches KwinStage::Loading(p2) && p2@ == p@
            &&& a matches KwinAction::LoadScript { file, plugin } && file@ == f@ && plugin@ == p@
        },
        (KwinStage::Writing(_), KwinEvent::ScriptWritten(Err(ScriptFileFailure::Io(d)))) => {
            &&& new == KwinStage::Done
            &&& a matches KwinAction::Finished(Err(Error::Query(m))) && m@ == "io: "@ + d@
        },
        (KwinStage::Writing(_), KwinEvent::ScriptWritten(Err(ScriptFileFailure::InvalidPath))) => {
            &&& new == KwinStage::Done
            &&& a matches KwinAction::Finished(Err(Error::Query(m))) && m@ == "invalid tmp path"@
        },
        (KwinStage::Loading(p), KwinEvent::Loaded(Ok(id))) => if id < 0 {
            &&& new == KwinStage::Done
            &&& a matches KwinAction::Finished(Err(Error::Query(m))) && m@
                == "loadScript returned "@ + decimal(id as int)
        } else {
            &&& new matches KwinStage::Running(p2) && p2@ == p@
            &&& a matches KwinAction::RunScript { object_path } && object_path@
                == "/Scripting/Script"@ + decimal(id as int)
        },
        (KwinStage::Running(p), KwinEvent::Ran(Ok(()))) => {
            &&& new == KwinStage::Waiting
            &&& a matches KwinAction::AwaitCallback { timeout_secs, plugin } && timeout_secs
                == CALLBACK_TIMEOUT_SECS && plugin@ == p@
        },
        (KwinStage::Waiting, KwinEvent::Callback(w)) => {
            &&& new == KwinStage::Done
            &&& a matches KwinAction::Finished(res) && callback_result_ok(w, res)
        },
        (_, KwinEvent::Connected(Err(d))) => {
            &&& new == KwinStage::Done
            &&& a matches KwinAction::Finished(Err(e)) && is_dbus_err(e, d@)
        },
        (_, KwinEvent::Registered(Err(d))) => {
            &&& new == KwinStage::Done
            &&& a matches KwinAction::Finished(Err(e)) && is_dbus_err(e, d@)
        },
        (_, KwinEvent::Loaded(Err(d))) => {
            &&& new == KwinStage::Done
            &&& a matches KwinAction::Finished(Err(e)) && is_dbus_err(e, d@)
        },
        (_, KwinEvent::Ran(Err(d))) => {
            &&& new == KwinStage::Done
            &&& a matches KwinAction::Finished(Err(e)) && is_dbus_err(e, d@)
        },
        _ => false,
    }
}

impl KwinSession {
    /// A new round trip; it starts by connecting to the session bus.
    pub fn start() -> (res: (KwinSession, KwinAction))
        ensures
            res.0.stage == KwinStage::Connecting,
            res.1 == KwinAction::ConnectSession,
    {
        (KwinSession { stage: KwinStage::Connecting }, KwinAction::ConnectSession)
    }
}

fn finish_with(e: Error) -> (res: (KwinStage, KwinAction))
    ensures
        res == (KwinStage::Done, KwinAction::Finished(Err(e))),
{
    (KwinStage::Done, KwinAction::Finished(Err(e)))
}

/// The decisions of the KWin backend: given what the outside world did, the
/// next thing to do. Every failed step ends the round trip with its error;
/// the script reports request `req_id` to the connection's unique name, is
/// loaded under a plugin name unique to the process, request and instant,
/// run, and unloaded after the wait.
pub fn get_position_async(session: &mut KwinSession, event: KwinEvent) -> (a: KwinAction)
    requires
        kwin_expects(old(session).stage, event),
    ensures
        kwin_step_ok(old(session).stage, event, final(session).stage, a),
        a is Finished <==> final(session).stage == KwinStage::Done,
{
    let mut stage = KwinStage::Done;
    std::mem::swap(&mut stage, &mut session.stage);
    let (next, action) = match (stage, event) {
        (KwinStage::Connecting, KwinEvent::Connected(Ok(()))) => (
            KwinStage::Registering,
            KwinAction::RegisterBridge { path: String::from_str(BRIDGE_PATH) },
        ),
        (KwinStage::Registering, KwinEvent::Registered(Ok(()))) => (
            KwinStage::Naming,
            KwinAction::ReadUniqueName,
        ),
        (KwinStage::Naming, KwinEvent::UniqueName(n)) => match bridge_address(n) {
            Ok(b) => (KwinStage::Reserving(b), KwinAction::Reserve),
            Err(e) => finish_with(e),
        },
        (KwinStage::Reserving(b), KwinEvent::Reserved { req_id, pid, since_epoch_nanos }) => {
            let script = pointer_script(req_id, b.as_str());
            (
                KwinStage::Writing(plugin_name(pid, req_id, since_epoch_nanos)),
                KwinAction::WriteScript { script },
            )
        },
        (KwinStage::Writing(p), KwinEvent::ScriptWritten(w)) => match w {
            Ok(f) => {
                let plugin = p.clone();
                (KwinStage::Loading(p), KwinAction::LoadScript { file: f, plugin })
            },
            Err(ScriptFileFailure::Io(d)) => finish_with(io_err(d.as_str())),
            Err(ScriptFileFailure::InvalidPath) => finish_with(
                Error::Query(String::from_str("invalid tmp path")),
            ),
        },
        (KwinStage::Loading(p), KwinEvent::Loaded(Ok(id))) => match script_object_path(id) {
            Ok(object_path) => (KwinStage::Running(p), KwinAction::RunScript { object_path }),
            Err(e) => finish_with(e),
        },
        (KwinStage::Running(p), KwinEvent::Ran(Ok(()))) => (
            KwinStage::Waiting,
            KwinAction::AwaitCallback { timeout_secs: CALLBACK_TIMEOUT_SECS, plugin: p },
        ),
        (KwinStage::Waiting, KwinEvent::Callback(w)) => (
            KwinStage::Done,
            KwinAction::Finished(callback_outcome(w)),
        ),
        (_, KwinEvent::Connected(Err(d))) => finish_with(dbus_err(d.as_str())),
        (_, KwinEvent::Registered(Err(d))) => finish_with(dbus_err(d.as_str())),
        (_, KwinEvent::Loaded(Err(d))) => finish_with(dbus_err(d.as_str())),
        (_, KwinEvent::Ran(Err(d))) => finish_with(dbus_err(d.as_str())),
        _ => {
            assert(false);
            finish_with(Error::Query(String::new()))
        },
    };
    session.stage = next;
    action
}


/// A callback that reports `(x, y)` answers the point with that `x` and that
/// `y`, for every pair of `i32`.
pub proof fn law_callback_reports_point(x: i32, y: i32, res: Result<Point, Error>)
    requires
        callback_result_ok(CallbackWait::Reported(Some((x, y))), res),
    ensures
        res matches Ok(p) && p.x == x && p.y == y,
{
}

/// The script's report `ReportPointer(id, true, x, y)` ends the round trip
/// with the point `(x, y)`.
pub proof fn law_round_trip_answers_report(
    x: i32,
    y: i32,
    new: KwinStage,
    a: KwinAction,
)
    requires
        kwin_step_ok(KwinStage::Waiting, KwinEvent::Callback(CallbackWait::Reported(Some((x, y)))), new, a),
    ensures
        a == KwinAction::Finished(Ok(Point { x, y })),
        new == KwinStage::Done,
{
}


/// The script is built for one request: scripts for different request ids
/// (to the same bridge) differ, so a script never reports another
/// request's id.
pub proof fn law_script_names_its_request(r1: i32, r2: i32, bridge_addr: Seq<char>)
    ensures
        script_text(r1, bridge_addr) == script_text(r2, bridge_addr) ==> r1 == r2,
{
    let pre = script_head() + bridge_addr + script_middle();
    let d1 = decimal(r1 as int);
    let d2 = decimal(r2 as int);
    let t = script_tail();
    let a = script_text(r1, bridge_addr);
    let b = script_text(r2, bridge_addr);
    assert(a == pre + d1 + t);
    assert(b == pre + d2 + t);
    if a == b {
        assert(d1.len() == d2.len());
        assert(d1 == a.subrange(pre.len() as int, (pre.len() + d1.len()) as int));
        assert(d2 == b.subrange(pre.len() as int, (pre.len() + d2.len()) as int));
        lemma_parse_decimal(r1);
        lemma_parse_decimal(r2);
    }
}

/// The object path of a loaded script names its id: different ids give
/// different paths.
pub proof fn law_object_path_names_script(id1: i32, id2: i32)
    requires
        id1 >= 0,
        id2 >= 0,
        "/Scripting/Script"@ + decimal(id1 as int) == "/Scripting/Script"@ + decimal(id2 as int),
    ensures
        id1 == id2,
{
    let pre = "/Scripting/Script"@;
    let a = pre + decimal(id1 as int);
    assert(decimal(id1 as int) == a.subrange(pre.len() as int, a.len() as int));
    assert(decimal(id2 as int) == a.subrange(pre.len() as int, a.len() as int));
    lemma_parse_decimal(id1);
    lemma_parse_decimal(id2);
}


/// When every step succeeds, the round trip runs in order: connect, serve
/// the bridge, read the unique name, reserve an id, write the script, load
/// it, run it, wait for the callback.
pub proof fn law_round_trip_order(
    s1: KwinStage, a1: KwinAction, s2: KwinStage, a2: KwinAction,
    name: String, s3: KwinStage, a3: KwinAction,
    req_id: i32, pid: u32, nanos: Option<u128>, s4: KwinStage, a4: KwinAction,
    file: String, s5: KwinStage, a5: KwinAction,
    id: i32, s6: KwinStage, a6: KwinAction, s7: KwinStage, a7: KwinAction,
)
    requires
        kwin_step_ok(KwinStage::Connecting, KwinEvent::Connected(Ok(())), s1, a1),
        kwin_step_ok(s1, KwinEvent::Registered(Ok(())), s2, a2),
        kwin_step_ok(s2, KwinEvent::UniqueName(Some(name)), s3, a3),
        kwin_step_ok(s3, KwinEvent::Reserved { req_id, pid, since_epoch_nanos: nanos }, s4, a4),
        kwin_step_ok(s4, KwinEvent::ScriptWritten(Ok(file)), s5, a5),
        id >= 0,
        kwin_step_ok(s5, KwinEvent::Loaded(Ok(id)), s6, a6),
        kwin_step_ok(s6, KwinEvent::Ran(Ok(())), s7, a7),
    ensures
        a1 is RegisterBridge,
        a2 is ReadUniqueName,
        a3 is Reserve,
        a4 matches KwinAction::WriteScript { script } && script@ == script_text(req_id, name@),
        a5 matches KwinAction::LoadScript { file: f, plugin } && f@ == file@ && plugin@
            == plugin_name_text(pid, req_id, nanos),
        a6 is RunScript,
        a7 matches KwinAction::AwaitCallback { timeout_secs, plugin } && plugin@
            == plugin_name_text(pid, req_id, nanos),
        s7 == KwinStage::Waiting,
{
}

} // verus!
