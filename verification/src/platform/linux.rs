//! Linux routing: which compositor backend answers for a session.

use vstd::prelude::*;

use crate::error::Error;
use crate::platform::Backend;
use crate::Point;
use crate::text::{
    ascii_lower_chars, ascii_lower_seq, chars_of, contains, contains_chars, eq_ignore_ascii_case,
    eq_ignore_ascii_case_chars, is_blank, trim, trim_chars,
};

verus! {

/// The session variables that decide the Linux backend, as the process
/// environment holds them (`None`: unset, or not valid Unicode).
pub struct SessionEnv {
    /// `XDG_SESSION_TYPE`.
    pub session_type: Option<String>,
    /// `WAYLAND_DISPLAY`.
    pub wayland_display: Option<String>,
    /// `XDG_CURRENT_DESKTOP`.
    pub current_desktop: Option<String>,
    /// `XDG_SESSION_DESKTOP`.
    pub session_desktop: Option<String>,
    /// Whether `HYPRLAND_INSTANCE_SIGNATURE` is set at all (any content).
    pub hyprland_signature_set: bool,
}

pub open spec fn opt_view(o: Option<String>) -> Option<Seq<char>> {
    match o {
        Some(s) => Some(s@),
        None => None,
    }
}

/// Wayland session: `XDG_SESSION_TYPE` decides when it says `wayland` or
/// `x11` (ASCII case ignored); otherwise a non-blank `WAYLAND_DISPLAY`.
pub open spec fn wayland_session(env: SessionEnv) -> bool {
    match opt_view(env.session_type) {
        Some(t) if eq_ignore_ascii_case(t, "wayland"@) => true,
        Some(t) if eq_ignore_ascii_case(t, "x11"@) => false,
        _ => match opt_view(env.wayland_display) {
            Some(d) => !is_blank(d),
            None => false,
        },
    }
}

/// The desktop name: `XDG_CURRENT_DESKTOP`, or `XDG_SESSION_DESKTOP` when
/// the first is unset.
pub open spec fn desktop(env: SessionEnv) -> Option<Seq<char>> {
    match opt_view(env.current_desktop) {
        Some(d) => Some(d),
        None => opt_view(env.session_desktop),
    }
}

/// The desktop name, lower-cased, mentions `word`.
pub open spec fn desktop_mentions(env: SessionEnv, word: Seq<char>) -> bool {
    match desktop(env) {
        Some(d) => contains(ascii_lower_seq(d), word),
        None => false,
    }
}

pub open spec fn kde_desktop(env: SessionEnv) -> bool {
    desktop_mentions(env, "kde"@) || desktop_mentions(env, "plasma"@)
}

pub open spec fn gnome_desktop(env: SessionEnv) -> bool {
    desktop_mentions(env, "gnome"@)
}

/// Hyprland: its instance signature is set, or the desktop name says so.
pub open spec fn hyprland_desktop(env: SessionEnv) -> bool {
    env.hyprland_signature_set || desktop_mentions(env, "hyprland"@)
}

/// The backend that answers on Linux; `None` for a Wayland session whose
/// compositor has no backend.
pub open spec fn linux_backend(env: SessionEnv) -> Option<Backend> {
    if wayland_session(env) {
        if kde_desktop(env) {
            Some(Backend::Kwin)
        } else if gnome_desktop(env) {
            Some(Backend::Gnome)
        } else if hyprland_desktop(env) {
            Some(Backend::Hyprland)
        } else {
            None
        }
    } else {
        Some(Backend::X11)
    }
}

/// The error text for a Wayland session without a backend.
pub open spec fn unsupported_wayland_text() -> Seq<char> {
    "Wayland session without a supported compositor backend (only KDE/KWin, GNOME Shell Eval and Hyprland IPC are attempted). XQueryPointer on XWayland would return a frozen position (often the screen center), so it is not used as a fallback. Use KDE Plasma Wayland, GNOME Wayland, Hyprland, a GNOME on Xorg session, or a compositor-specific API (e.g. Sway IPC)."@
}

/// Whether the session is a Wayland one.
pub fn is_wayland(env: &SessionEnv) -> (res: bool)
    ensures
        res == wayland_session(*env),
{
    // XDG_SESSION_TYPE is authoritative when present. WAYLAND_DISPLAY is a
    // fallback, but must be non-blank (an empty/unset value means X11).
    if let Some(t) = &env.session_type {
        let tc = chars_of(t.as_str());
        if eq_ignore_ascii_case_chars(&tc, &chars_of("wayland")) {
            return true;
        }
        if eq_ignore_ascii_case_chars(&tc, &chars_of("x11")) {
            return false;
        }
    }
    match &env.wayland_display {
        Some(d) => trim_chars(&chars_of(d.as_str())).len() != 0,
        None => false,
    }
}

/// Whether the lower-cased desktop name mentions `word`.
fn desktop_has(env: &SessionEnv, word: &str) -> (res: bool)
    ensures
        res == desktop_mentions(*env, word@),
{
    let d = match &env.current_desktop {
        Some(d) => d,
        None => match &env.session_desktop {
            Some(d) => d,
            None => {
                return false;
            },
        },
    };
    let lower = ascii_lower_chars(&chars_of(d.as_str()));
    contains_chars(&lower, &chars_of(word))
}

/// KDE Plasma desktop.
pub fn is_kde(env: &SessionEnv) -> (res: bool)
    ensures
        res == kde_desktop(*env),
{
    desktop_has(env, "kde") || desktop_has(env, "plasma")
}

/// GNOME desktop.
pub fn is_gnome(env: &SessionEnv) -> (res: bool)
    ensures
        res == gnome_desktop(*env),
{
    desktop_has(env, "gnome")
}

/// Hyprland compositor. The instance signature is only set inside a Hyprland
/// session, so it is the most reliable signal even if `XDG_CURRENT_DESKTOP`
/// was overridden.
pub fn is_hyprland(env: &SessionEnv) -> (res: bool)
    ensures
        res == hyprland_desktop(*env),
{
    env.hyprland_signature_set || desktop_has(env, "hyprland")
}

/// Linux routing:
/// - Wayland + KDE -> KWin scripting (`workspace.cursorPos`, accurate).
/// - Wayland + GNOME -> GNOME Shell (extension bridges, then `Eval`).
/// - Wayland + Hyprland -> Hyprland IPC socket (`cursorpos`).
/// - Wayland + anything else -> error (never X11: `XQueryPointer` on
///   XWayland is frozen, often at the screen center).
/// - Plain X11 (no Wayland) -> X11 (`XQueryPointer`).
pub fn get_position(env: &SessionEnv) -> (res: Result<Backend, Error>)
    ensures
        match linux_backend(*env) {
            Some(b) => res == Ok::<Backend, Error>(b),
            None => res matches Err(Error::Unsupported(m)) && m@ == unsupported_wayland_text(),
        },
{
    if is_wayland(env) {
        if is_kde(env) {
            return Ok(Backend::Kwin);
        }
        if is_gnome(env) {
            return Ok(Backend::Gnome);
        }
        if is_hyprland(env) {
            return Ok(Backend::Hyprland);
        }
        return Err(Error::Unsupported(String::from_str(
            "Wayland session without a supported compositor backend (only KDE/KWin, GNOME Shell Eval and Hyprland IPC are attempted). XQueryPointer on XWayland would return a frozen position (often the screen center), so it is not used as a fallback. Use KDE Plasma Wayland, GNOME Wayland, Hyprland, a GNOME on Xorg session, or a compositor-specific API (e.g. Sway IPC).",
        )));
    }
    Ok(Backend::X11)
}

/// On a Wayland session the frozen X11 position is never used: the answer is
/// a compositor backend or an error.
pub proof fn law_wayland_never_x11(env: SessionEnv)
    requires
        wayland_session(env),
    ensures
        linux_backend(env) != Some(Backend::X11),
{
}

/// Without Wayland, X11 answers.
pub proof fn law_plain_x11(env: SessionEnv)
    requires
        !wayland_session(env),
    ensures
        linux_backend(env) == Some(Backend::X11),
{
}

/// On Wayland, a KDE desktop goes to KWin whatever else the session says.
pub proof fn law_kde_first(env: SessionEnv)
    requires
        wayland_session(env),
        kde_desktop(env),
    ensures
        linux_backend(env) == Some(Backend::Kwin),
{
}


/// The position that `XQueryPointer` on the root window reports: its root
/// coordinates, widened to `i32`.
///
/// On Wayland + XWayland this value is frozen (it only updates while the
/// cursor is over an X11 window), which is why `get_position` never picks
/// X11 on a Wayland session.
pub fn get_position_x11(root_x: i16, root_y: i16) -> (res: Point)
    ensures
        res.x == root_x as i32,
        res.y == root_y as i32,
{
    Point { x: root_x as i32, y: root_y as i32 }
}


/// `XDG_SESSION_TYPE` is authoritative when it names `x11` (in any ASCII
/// case): `WAYLAND_DISPLAY` is then not looked at.
pub proof fn law_session_type_authoritative(env: SessionEnv)
    requires
        env.session_type matches Some(t) && eq_ignore_ascii_case(t@, "x11"@),
        !(env.session_type matches Some(t) && eq_ignore_ascii_case(t@, "wayland"@)),
    ensures
        !wayland_session(env),
        linux_backend(env) == Some(Backend::X11),
{
}


/// Why the X11 query failed.
pub enum X11Failure {
    /// Connecting to the X server failed.
    Connect(String),
    /// Sending `QueryPointer` failed.
    Query(String),
    /// Receiving its reply failed.
    Reply(String),
}

/// The error for a failed X11 query: a failed connection is a connection
/// error; a failed request or reply is a query error.
pub fn x11_error(f: X11Failure) -> (res: Error)
    ensures
        match f {
            X11Failure::Connect(d) => res matches Error::Connection(m) && m@
                == "x11rb::connect: "@ + d@,
            X11Failure::Query(d) => res matches Error::Query(m) && m@ == "query_pointer: "@ + d@,
            X11Failure::Reply(d) => res matches Error::Query(m) && m@ == "reply: "@ + d@,
        },
{
    match f {
        X11Failure::Connect(d) => Error::Connection(
            String::from_str("x11rb::connect: ").concat(d.as_str()),
        ),
        X11Failure::Query(d) => Error::Query(String::from_str("query_pointer: ").concat(d.as_str())),
        X11Failure::Reply(d) => Error::Query(String::from_str("reply: ").concat(d.as_str())),
    }
}


/// A Hyprland desktop name is enough: on a Wayland session whose desktop
/// name (lower-cased) mentions `hyprland` and neither `kde`, `plasma` nor
/// `gnome`, the Hyprland backend answers, whether or not the instance
/// signature was imported into the environment.
pub proof fn law_hyprland_by_desktop_name(env: SessionEnv, d: Seq<char>)
    requires
        wayland_session(env),
        (env.current_desktop matches Some(c) && c@ == d) || (env.current_desktop is None
            && (env.session_desktop matches Some(s) && s@ == d)),
        contains(ascii_lower_seq(d), "hyprland"@),
        !contains(ascii_lower_seq(d), "kde"@),
        !contains(ascii_lower_seq(d), "plasma"@),
        !contains(ascii_lower_seq(d), "gnome"@),
    ensures
        linux_backend(env) == Some(Backend::Hyprland),
        forall|res: Result<Backend, Error>|
            crate::platform::routes_to(crate::platform::HostOs::Linux, env, res) ==> res == Ok::<
                Backend,
                Error,
            >(Backend::Hyprland),
{
}

/// Without `XDG_SESSION_TYPE`, the session is a Wayland one exactly when
/// `WAYLAND_DISPLAY` is set and not blank.
pub proof fn law_wayland_display_fallback(env: SessionEnv)
    requires
        env.session_type is None,
    ensures
        wayland_session(env) <==> (env.wayland_display matches Some(w) && trim(w@).len() > 0),
{
}

/// So, without `XDG_SESSION_TYPE`, a non-blank `WAYLAND_DISPLAY` on a KDE
/// desktop goes to KWin, never to the frozen X11 position.
pub proof fn law_wayland_display_kde_routes_to_kwin(env: SessionEnv)
    requires
        env.session_type is None,
        env.wayland_display matches Some(w) && trim(w@).len() > 0,
        kde_desktop(env),
    ensures
        linux_backend(env) == Some(Backend::Kwin),
        forall|res: Result<Backend, Error>|
            crate::platform::routes_to(crate::platform::HostOs::Linux, env, res) ==> res == Ok::<
                Backend,
                Error,
            >(Backend::Kwin),
{
}


/// On Wayland, a GNOME desktop name (not KDE) goes to the GNOME backend.
pub proof fn law_gnome_by_desktop_name(env: SessionEnv, d: Seq<char>)
    requires
        wayland_session(env),
        (env.current_desktop matches Some(c) && c@ == d) || (env.current_desktop is None
            && (env.session_desktop matches Some(s) && s@ == d)),
        contains(ascii_lower_seq(d), "gnome"@),
        !contains(ascii_lower_seq(d), "kde"@),
        !contains(ascii_lower_seq(d), "plasma"@),
    ensures
        linux_backend(env) == Some(Backend::Gnome),
{
}

/// On Wayland, a desktop that names none of the compositors, with no
/// Hyprland signature, is refused with the `Unsupported` error, never
/// answered.
pub proof fn law_unknown_compositor_refused(env: SessionEnv, res: Result<Backend, Error>)
    requires
        wayland_session(env),
        !env.hyprland_signature_set,
        desktop(env) matches Some(d) ==> (!contains(ascii_lower_seq(d), "kde"@) && !contains(
            ascii_lower_seq(d),
            "plasma"@,
        ) && !contains(ascii_lower_seq(d), "gnome"@) && !contains(
            ascii_lower_seq(d),
            "hyprland"@,
        )),
        crate::platform::routes_to(crate::platform::HostOs::Linux, env, res),
    ensures
        res matches Err(Error::Unsupported(m)) && m@ == unsupported_wayland_text(),
{
}

/// `XDG_SESSION_TYPE=wayland` (any ASCII case) makes a Wayland session,
/// whatever `WAYLAND_DISPLAY` says.
pub proof fn law_session_type_wayland(env: SessionEnv)
    requires
        env.session_type matches Some(t) && eq_ignore_ascii_case(t@, "wayland"@),
    ensures
        wayland_session(env),
{
}


/// On Wayland, a desktop name that mentions `kde` or `plasma` (any ASCII
/// case) goes to KWin.
pub proof fn law_kde_by_desktop_name(env: SessionEnv, d: Seq<char>)
    requires
        wayland_session(env),
        (env.current_desktop matches Some(c) && c@ == d) || (env.current_desktop is None
            && (env.session_desktop matches Some(s) && s@ == d)),
        contains(ascii_lower_seq(d), "kde"@) || contains(ascii_lower_seq(d), "plasma"@),
    ensures
        linux_backend(env) == Some(Backend::Kwin),
{
}

} // verus!
