//! The backends of each platform, and the choice among them.

use vstd::prelude::*;

use crate::error::Error;

pub mod gnome;
pub mod hyprland;
pub mod kwin;
pub mod linux;

use linux::{linux_backend, unsupported_wayland_text, SessionEnv};

verus! {

/// The operating system the crate runs on.
#[derive(Debug, Clone, Copy, PartialEq, Eq, Structural)]
pub enum HostOs {
    Linux,
    Windows,
    MacOs,
    Other,
}

/// The backend that reads the cursor.
#[derive(Debug, Clone, Copy, PartialEq, Eq, Structural)]
pub enum Backend {
    /// `XQueryPointer` on the root window.
    X11,
    /// KWin scripting over D-Bus.
    Kwin,
    /// GNOME Shell extension bridges, then Shell `Eval`.
    Gnome,
    /// Hyprland IPC socket.
    Hyprland,
    /// `GetCursorPos`.
    Windows,
    /// `CGEventCreate` + `CGEventGetLocation`.
    MacOs,
}

/// The backend for an operating system and session; `None` where there is
/// none (an OS without implementation, or an unsupported Wayland compositor).
pub open spec fn backend_for(os: HostOs, env: SessionEnv) -> Option<Backend> {
    match os {
        HostOs::Linux => linux_backend(env),
        HostOs::Windows => Some(Backend::Windows),
        HostOs::MacOs => Some(Backend::MacOs),
        HostOs::Other => None,
    }
}

/// What `get_position` answers for an operating system and session: the
/// backend, or the `Unsupported` error with its text.
pub open spec fn routes_to(os: HostOs, env: SessionEnv, res: Result<Backend, Error>) -> bool {
    match backend_for(os, env) {
        Some(b) => res == Ok::<Backend, Error>(b),
        None => res matches Err(Error::Unsupported(m)) && m@ == (if os == HostOs::Linux {
            unsupported_wayland_text()
        } else {
            "unsupported OS"@
        }),
    }
}

/// The backend that answers on `os` for the session `env`.
pub fn get_position(os: HostOs, env: &SessionEnv) -> (res: Result<Backend, Error>)
    ensures
        routes_to(os, *env, res),
{
    match os {
        HostOs::Linux => linux::get_position(env),
        HostOs::Windows => Ok(Backend::Windows),
        HostOs::MacOs => Ok(Backend::MacOs),
        HostOs::Other => Err(Error::Unsupported(String::from_str("unsupported OS"))),
    }
}


/// Outside Linux the answer depends on the operating system alone: Windows
/// and macOS have their backend, any other system is refused.
pub proof fn law_other_systems(env: SessionEnv, res: Result<Backend, Error>)
    ensures
        routes_to(HostOs::Windows, env, res) ==> res == Ok::<Backend, Error>(Backend::Windows),
        routes_to(HostOs::MacOs, env, res) ==> res == Ok::<Backend, Error>(Backend::MacOs),
        routes_to(HostOs::Other, env, res) ==> (res matches Err(Error::Unsupported(m)) && m@
            == "unsupported OS"@),
{
}

} // verus!
