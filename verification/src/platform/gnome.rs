//! Cursor position on GNOME Shell (Wayland).
//!
//! Probe order (first success wins):
//! 1. Companion Shell extension exposing `GetPointerPosition() -> (x, y)`,
//!    tried on both bus names (same method shape): `org.wdotool.GnomeShellBridge`
//!    (wdotool extension, GNOME 45-48), then `org.mousecoords.Bridge` (the
//!    extension shipped in `packaging/gnome-extension/`, GNOME 45-50).
//! 2. `org.gnome.Shell.Eval("global.get_pointer()")`, which works when unsafe
//!    mode is enabled; since GNOME 41 `Eval` returns `(false, "")` out of the box.
//!
//! When nothing above is available the answer is a descriptive error instead
//! of a frozen coordinate.

use vstd::prelude::*;

use crate::error::Error;
use crate::text::{
    chars_of, debug_quoted, find_first, find_first_chars, find_last, find_last_chars,
    is_first_index, is_last_index, is_white_space, lemma_trim_plain, split_once,
    split_once_chars, str_debug, string_from_chars, sub_chars, trim, trim_chars,
};
use crate::Point;

verus! {

/// `t` is wrapped in a pair of single or of double quotes (the two may be
/// the same character).
pub open spec fn quote_wrapped(t: Seq<char>) -> bool {
    t.len() > 0 && ((t[0] == '\'' && t.last() == '\'') || (t[0] == '"' && t.last() == '"'))
}

/// The trimmed text, with one pair of wrapping quotes taken off and the
/// inside trimmed again.
pub open spec fn unquoted(s: Seq<char>) -> Seq<char> {
    let t = trim(s);
    if quote_wrapped(t) {
        trim(t.subrange(1, t.len() - 1))
    } else {
        t
    }
}

/// Only what lies between the first `[` and the last `]`, when the first
/// comes before the last; the text unchanged otherwise.
pub open spec fn unbracketed(t: Seq<char>) -> Seq<char> {
    match (find_first(t, '['), find_last(t, ']')) {
        (Some(a), Some(b)) => if a < b {
            t.subrange(a + 1, b)
        } else {
            t
        },
        _ => t,
    }
}

/// The two leading comma-separated fields of a `global.get_pointer()`
/// result, each trimmed: `None` when there is no comma.
pub open spec fn pointer_fields_of(s: Seq<char>) -> Option<(Seq<char>, Seq<char>)> {
    let t = unbracketed(unquoted(s));
    match split_once(t, ',') {
        Some((x, rest)) => {
            let y = match split_once(rest, ',') {
                Some((y, _)) => y,
                None => rest,
            };
            Some((trim(x), trim(y)))
        },
        None => None,
    }
}

/// The inputs on which the quote stripping would take a range that ends
/// before it starts: the trimmed text is one lone quote character.
pub open spec fn lone_quote(s: Seq<char>) -> bool {
    trim(s).len() == 1 && quote_wrapped(trim(s))
}

/// Extracts the x and y fields of the string returned by
/// `global.get_pointer()`.
///
/// Expected forms: `[123, 456, 0]`, `[123.0, 456.0, 0]`, possibly wrapped in
/// extra quotes. The fields are returned as text; turning them into
/// coordinates is a floating-point parse and rounding.
pub fn pointer_fields(s: &str) -> (res: Option<(String, String)>)
    requires
        !lone_quote(s@),
    ensures
        match res {
            Some((x, y)) => pointer_fields_of(s@) == Some((x@, y@)),
            None => pointer_fields_of(s@) is None,
        },
{
    let mut t = trim_chars(&chars_of(s));
    // The result may arrive wrapped in single or double quotes.
    let n = t.len();
    if n > 0 && ((t[0] == '\'' && t[n - 1] == '\'') || (t[0] == '"' && t[n - 1] == '"')) {
        let inner = sub_chars(&t, 1, n - 1);
        t = trim_chars(&inner);
    }
    assert(t@ == unquoted(s@));
    // Keep only the bracketed list if there is surrounding text.
    let ghost before = t@;
    match (find_first_chars(&t, '['), find_last_chars(&t, ']')) {
        (Some(a), Some(b)) => {
            if a < b {
                t = sub_chars(&t, a + 1, b);
            }
        },
        _ => {},
    }
    assert(t@ == unbracketed(before));
    match split_once_chars(&t, ',') {
        Some((x, rest)) => {
            let y = match split_once_chars(&rest, ',') {
                Some((y, _)) => y,
                None => rest,
            };
            let tx = trim_chars(&x);
            let ty = trim_chars(&y);
            Some((string_from_chars(&tx), string_from_chars(&ty)))
        },
        None => None,
    }
}

/// Seconds to wait for a bridge's `GetPointerPosition` before passing on.
pub const BRIDGE_TIMEOUT_SECS: u64 = 2;

/// A GNOME Shell probe, in the order they are tried.
#[derive(Debug, Clone, Copy, PartialEq, Eq, Structural)]
pub enum GnomeProbe {
    /// `GetPointerPosition` on `org.wdotool.GnomeShellBridge`.
    WdotoolBridge,
    /// `GetPointerPosition` on `org.mousecoords.Bridge`.
    MouseCoordsBridge,
    /// `org.gnome.Shell.Eval("global.get_pointer()")`.
    ShellEval,
}

/// What a probe answered.
pub enum GnomeEvent {
    /// Nothing has been tried yet (the session bus is connected).
    Start,
    /// A bridge answered with a position, or failed, timed out or is absent.
    Bridge(Option<(i32, i32)>),
    /// The D-Bus call of `Eval` failed; the text describes the failure.
    EvalFailed(String),
    /// `Eval` answered `(ok, result)`; `parsed` is the position that
    /// `result` denotes, if any.
    EvalAnswered { ok: bool, result: String, parsed: Option<(i32, i32)> },
}

/// What to do next.
pub enum GnomeStep {
    /// Run this probe and report what it answered.
    Probe(GnomeProbe),
    /// The answer.
    Done(Result<Point, Error>),
}

/// The error text when no backend is available.
pub open spec fn no_backend_text() -> Seq<char> {
    "GNOME Wayland: no pointer backend available (tried companion extension bridges org.wdotool.GnomeShellBridge and org.mousecoords.Bridge, then Shell Eval, which returned false). Stock GNOME has no permission-free global-pointer API. Pick one (no X11 session switch needed): (1) install the companion extension from packaging/gnome-extension/ (copy to ~/.local/share/gnome-shell/extensions/, log out/in, `gnome-extensions enable mousecoords@mouse-coords.github.io`); or the wdotool extension (GNOME 45-48); (2) enable unsafe mode for this session via Looking Glass (Alt+F2, `lg`, `global.context.unsafe_mode = true`) and retry — no install needed; (3) use KDE Plasma Wayland (KWin backend) or a GNOME on Xorg session (plain X11). XWayland XQueryPointer is frozen (often the screen center, e.g. x=640 y=400 on 1280x800) and is not used."@
}

/// The probe that follows a bridge that gave no position.
pub open spec fn probe_after(p: GnomeProbe) -> GnomeProbe {
    match p {
        GnomeProbe::WdotoolBridge => GnomeProbe::MouseCoordsBridge,
        _ => GnomeProbe::ShellEval,
    }
}

/// The step that follows `event`, `current` being the probe that produced it.
pub open spec fn gnome_step_ok(current: GnomeProbe, event: GnomeEvent, step: GnomeStep) -> bool {
    match event {
        GnomeEvent::Start => step == GnomeStep::Probe(GnomeProbe::WdotoolBridge),
        GnomeEvent::Bridge(Some((x, y))) => step == GnomeStep::Done(Ok(Point { x, y })),
        GnomeEvent::Bridge(None) => step == GnomeStep::Probe(probe_after(current)),
        GnomeEvent::EvalFailed(d) => step matches GnomeStep::Done(Err(Error::Query(m))) && m@
            == "gnome dbus: "@ + d@,
        GnomeEvent::EvalAnswered { ok, result, parsed } => if !ok {
            step matches GnomeStep::Done(Err(Error::Query(m))) && m@ == no_backend_text()
        } else {
            match parsed {
                Some((x, y)) => step == GnomeStep::Done(Ok(Point { x, y })),
                None => step matches GnomeStep::Done(Err(Error::Query(m))) && m@
                    == "GNOME Shell Eval returned an unparseable pointer: "@ + str_debug(
                    result@,
                ),
            }
        },
    }
}

/// The error for a failed D-Bus call: `Query("gnome dbus: <detail>")`.
pub fn dbus_err(detail: &str) -> (res: Error)
    ensures
        res matches Error::Query(m) && m@ == "gnome dbus: "@ + detail@,
{
    Error::Query(String::from_str("gnome dbus: ").concat(detail))
}

/// The decisions of the GNOME backend: given the probe that ran and what it
/// answered, the next probe or the answer. A bridge that answers ends the
/// search; one that does not passes on to the next probe; `Eval` decides last.
pub fn get_position_async(current: GnomeProbe, event: GnomeEvent) -> (step: GnomeStep)
    requires
        event matches GnomeEvent::Bridge(_) ==> current != GnomeProbe::ShellEval,
    ensures
        gnome_step_ok(current, event, step),
{
    match event {
        GnomeEvent::Start => GnomeStep::Probe(GnomeProbe::WdotoolBridge),
        GnomeEvent::Bridge(Some((x, y))) => GnomeStep::Done(Ok(Point { x, y })),
        GnomeEvent::Bridge(None) => match current {
            GnomeProbe::WdotoolBridge => GnomeStep::Probe(GnomeProbe::MouseCoordsBridge),
            _ => GnomeStep::Probe(GnomeProbe::ShellEval),
        },
        GnomeEvent::EvalFailed(d) => GnomeStep::Done(Err(dbus_err(d.as_str()))),
        GnomeEvent::EvalAnswered { ok, result, parsed } => {
            if !ok {
                return GnomeStep::Done(Err(Error::Query(String::from_str(
                    "GNOME Wayland: no pointer backend available (tried companion extension bridges org.wdotool.GnomeShellBridge and org.mousecoords.Bridge, then Shell Eval, which returned false). Stock GNOME has no permission-free global-pointer API. Pick one (no X11 session switch needed): (1) install the companion extension from packaging/gnome-extension/ (copy to ~/.local/share/gnome-shell/extensions/, log out/in, `gnome-extensions enable mousecoords@mouse-coords.github.io`); or the wdotool extension (GNOME 45-48); (2) enable unsafe mode for this session via Looking Glass (Alt+F2, `lg`, `global.context.unsafe_mode = true`) and retry — no install needed; (3) use KDE Plasma Wayland (KWin backend) or a GNOME on Xorg session (plain X11). XWayland XQueryPointer is frozen (often the screen center, e.g. x=640 y=400 on 1280x800) and is not used.",
                ))));
            }
            match parsed {
                Some((x, y)) => GnomeStep::Done(Ok(Point { x, y })),
                None => {
                    let quoted = debug_quoted(result.as_str());
                    GnomeStep::Done(
                        Err(
                            Error::Query(
                                String::from_str(
                                    "GNOME Shell Eval returned an unparseable pointer: ",
                                ).concat(quoted.as_str()),
                            ),
                        ),
                    )
                },
            }
        },
    }
}


/// One pair of quotes around the result is taken off: quoting a result that
/// is not itself quoted does not change its fields.
pub proof fn law_quotes_ignored(q: char, s: Seq<char>)
    requires
        q == '\'' || q == '"',
        !quote_wrapped(trim(s)),
    ensures
        pointer_fields_of(seq![q] + s + seq![q]) == pointer_fields_of(s),
{
    let w = seq![q] + s + seq![q];
    assert(!is_white_space(w[0]));
    assert(!is_white_space(w.last()));
    lemma_trim_plain(w);
    assert(w.subrange(1, w.len() - 1) == s);
}

/// The probes run in order: the wdotool bridge, then the mouse-coords
/// bridge, then Shell `Eval`; a bridge that gives a position ends the search
/// with that position.
pub proof fn law_probe_order(step1: GnomeStep, step2: GnomeStep, step3: GnomeStep, x: i32, y: i32, p: GnomeProbe, done: GnomeStep)
    requires
        gnome_step_ok(GnomeProbe::WdotoolBridge, GnomeEvent::Start, step1),
        gnome_step_ok(GnomeProbe::WdotoolBridge, GnomeEvent::Bridge(None), step2),
        gnome_step_ok(GnomeProbe::MouseCoordsBridge, GnomeEvent::Bridge(None), step3),
        p != GnomeProbe::ShellEval,
        gnome_step_ok(p, GnomeEvent::Bridge(Some((x, y))), done),
    ensures
        step1 == GnomeStep::Probe(GnomeProbe::WdotoolBridge),
        step2 == GnomeStep::Probe(GnomeProbe::MouseCoordsBridge),
        step3 == GnomeStep::Probe(GnomeProbe::ShellEval),
        done == GnomeStep::Done(Ok(Point { x, y })),
{
}


/// When `Eval` answers ok with a result that reads as `(x, y)`, the answer is
/// the point with that `x` and that `y`, exactly as for a bridge that gives
/// `(x, y)`, for every pair of `i32`.
pub proof fn law_eval_passes_coordinates_through(
    result: String,
    x: i32,
    y: i32,
    bridge: GnomeProbe,
    from_eval: GnomeStep,
    from_bridge: GnomeStep,
)
    requires
        bridge != GnomeProbe::ShellEval,
        gnome_step_ok(
            GnomeProbe::ShellEval,
            GnomeEvent::EvalAnswered { ok: true, result, parsed: Some((x, y)) },
            from_eval,
        ),
        gnome_step_ok(bridge, GnomeEvent::Bridge(Some((x, y))), from_bridge),
    ensures
        from_eval matches GnomeStep::Done(Ok(p)) && p.x == x && p.y == y,
        from_eval == from_bridge,
{
}


/// A plain pointer list `[<x>, <y>, <rest>]` yields its first two fields,
/// trimmed, in order.
pub proof fn law_list_fields(xs: Seq<char>, ys: Seq<char>, zs: Seq<char>)
    requires
        forall|i: int|
            0 <= i < xs.len() ==> #[trigger] xs[i] != ',' && xs[i] != '[' && xs[i] != ']',
        forall|i: int|
            0 <= i < ys.len() ==> #[trigger] ys[i] != ',' && ys[i] != '[' && ys[i] != ']',
        forall|i: int| 0 <= i < zs.len() ==> #[trigger] zs[i] != '[' && zs[i] != ']',
    ensures
        pointer_fields_of(seq!['['] + xs + seq![','] + ys + seq![','] + zs + seq![']'])
            == Some((trim(xs), trim(ys))),
{
    let inner = xs + seq![','] + ys + seq![','] + zs;
    let s = seq!['['] + inner + seq![']'];
    assert(s == seq!['['] + xs + seq![','] + ys + seq![','] + zs + seq![']']);
    assert(!is_white_space(s[0]));
    assert(!is_white_space(s.last()));
    lemma_trim_plain(s);
    assert(!quote_wrapped(s));
    assert(unquoted(s) == s);
    // The first `[` opens the list and the last `]` closes it.
    assert(is_first_index(s, '[', 0));
    assert(find_first(s, '[') == Some(0int)) by {
        let k = choose|k: int| is_first_index(s, '[', k);
        if k > 0 {
            assert(s[0] != '[');
        }
    }
    let e = s.len() - 1;
    assert forall|j: int| 0 < j < e implies s[j] != ']' by {
        assert(s[j] == inner[j - 1]);
        let q = j - 1;
        if q < xs.len() {
            assert(inner[q] == xs[q]);
        } else if q == xs.len() {
        } else if q < xs.len() + 1 + ys.len() {
            assert(inner[q] == ys[q - xs.len() - 1]);
        } else if q == xs.len() + 1 + ys.len() {
        } else {
            assert(inner[q] == zs[q - xs.len() - ys.len() - 2]);
        }
    }
    assert(is_last_index(s, ']', e));
    assert(find_last(s, ']') == Some(e)) by {
        let k = choose|k: int| is_last_index(s, ']', k);
        if k < e {
            assert(s[e] == ']');
        }
    }
    assert(s.subrange(1, e) == inner);
    assert(unbracketed(s) == inner);
    // The first comma ends the x field.
    let cx = xs.len() as int;
    assert forall|j: int| 0 <= j < cx implies inner[j] != ',' by {
        assert(inner[j] == xs[j]);
    }
    assert(is_first_index(inner, ',', cx));
    assert(find_first(inner, ',') == Some(cx)) by {
        let k = choose|k: int| is_first_index(inner, ',', k);
        if k < cx {
            assert(inner[k] == xs[k]);
        }
    }
    assert(inner.take(cx) == xs);
    let rest = inner.skip(cx + 1);
    assert(rest == ys + seq![','] + zs);
    let cy = ys.len() as int;
    assert forall|j: int| 0 <= j < cy implies rest[j] != ',' by {
        assert(rest[j] == ys[j]);
    }
    assert(is_first_index(rest, ',', cy));
    assert(find_first(rest, ',') == Some(cy)) by {
        let k = choose|k: int| is_first_index(rest, ',', k);
        if k < cy {
            assert(rest[k] == ys[k]);
        }
    }
    assert(rest.take(cy) == ys);
}

} // verus!
