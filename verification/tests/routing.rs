use mouse_coords::platform::linux::{
    get_position_x11, x11_error, X11Failure, is_gnome, is_hyprland, is_kde, is_wayland,
};
use mouse_coords::{get_position, Backend, Error, HostOs, Mouse, Point, SessionEnv};

fn env(
    session_type: Option<&str>,
    wayland_display: Option<&str>,
    current_desktop: Option<&str>,
    session_desktop: Option<&str>,
    hyprland_signature_set: bool,
) -> SessionEnv {
    SessionEnv {
        session_type: session_type.map(|s| s.to_string()),
        wayland_display: wayland_display.map(|s| s.to_string()),
        current_desktop: current_desktop.map(|s| s.to_string()),
        session_desktop: session_desktop.map(|s| s.to_string()),
        hyprland_signature_set,
    }
}

fn backend(os: HostOs, e: &SessionEnv) -> Option<Backend> {
    get_position(os, e).ok()
}

#[test]
fn wayland_detection() {
    assert!(is_wayland(&env(Some("WayLand"), None, None, None, false)));
    assert!(!is_wayland(&env(Some("X11"), Some("wayland-0"), None, None, false)));
    assert!(is_wayland(&env(Some("tty"), Some("wayland-0"), None, None, false)));
    assert!(!is_wayland(&env(None, Some("  "), None, None, false)));
    assert!(!is_wayland(&env(None, None, None, None, false)));
}

#[test]
fn desktop_detection() {
    assert!(is_kde(&env(None, None, Some("KDE"), None, false)));
    assert!(is_kde(&env(None, None, None, Some("plasmawayland"), false)));
    assert!(!is_kde(&env(None, None, Some(""), Some("KDE"), false)));
    assert!(is_gnome(&env(None, None, Some("ubuntu:GNOME"), None, false)));
    assert!(is_hyprland(&env(None, None, None, None, true)));
    assert!(is_hyprland(&env(None, None, Some("Hyprland"), None, false)));
    assert!(!is_hyprland(&env(None, None, Some("sway"), None, false)));
}

#[test]
fn linux_routing() {
    let linux = HostOs::Linux;
    assert_eq!(backend(linux, &env(Some("x11"), None, Some("KDE"), None, false)), Some(Backend::X11));
    assert_eq!(backend(linux, &env(None, None, None, None, false)), Some(Backend::X11));
    assert_eq!(
        backend(linux, &env(Some("wayland"), None, Some("KDE:GNOME"), None, true)),
        Some(Backend::Kwin)
    );
    assert_eq!(
        backend(linux, &env(Some("wayland"), None, Some("GNOME"), None, true)),
        Some(Backend::Gnome)
    );
    assert_eq!(
        backend(linux, &env(Some("wayland"), None, Some("sway"), None, true)),
        Some(Backend::Hyprland)
    );
    match get_position(linux, &env(Some("wayland"), None, Some("sway"), None, false)) {
        Err(Error::Unsupported(m)) => {
            assert!(m.starts_with("Wayland session without a supported compositor backend"));
            assert!(m.ends_with("(e.g. Sway IPC)."));
        }
        other => panic!("{:?}", other),
    }
}

#[test]
fn other_platforms() {
    let e = env(None, None, None, None, false);
    assert_eq!(backend(HostOs::Windows, &e), Some(Backend::Windows));
    assert_eq!(backend(HostOs::MacOs, &e), Some(Backend::MacOs));
    match get_position(HostOs::Other, &e) {
        Err(Error::Unsupported(m)) => assert_eq!(m, "unsupported OS"),
        other => panic!("{:?}", other),
    }
}

#[test]
fn mouse_alias_agrees() {
    let e = env(Some("wayland"), None, Some("GNOME"), None, false);
    assert_eq!(Mouse::get_mouse_position(HostOs::Linux, &e).ok(), backend(HostOs::Linux, &e));
    let e = env(Some("wayland"), None, None, None, false);
    assert!(Mouse::get_mouse_position(HostOs::Linux, &e).is_err());
}

#[test]
fn x11_root_coordinates() {
    assert_eq!(get_position_x11(-3, 32767), Point { x: -3, y: 32767 });
}

#[test]
fn x11_errors() {
    match x11_error(X11Failure::Connect("no display".to_string())) {
        Error::Connection(m) => assert_eq!(m, "x11rb::connect: no display"),
        other => panic!("{:?}", other),
    }
    match x11_error(X11Failure::Query("gone".to_string())) {
        Error::Query(m) => assert_eq!(m, "query_pointer: gone"),
        other => panic!("{:?}", other),
    }
    match x11_error(X11Failure::Reply("bad".to_string())) {
        Error::Query(m) => assert_eq!(m, "reply: bad"),
        other => panic!("{:?}", other),
    }
}
