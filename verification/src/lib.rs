//! Exact mouse-cursor coordinates: the decisions, parsers and protocol text
//! of every platform backend, verified.

use vstd::prelude::*;

pub mod error;
pub mod platform;
pub mod text;

pub use error::Error;
pub use platform::linux::SessionEnv;
pub use platform::{Backend, HostOs};

use platform::routes_to;

verus! {

/// A global cursor position in pixels, origin (0,0) at the top-left corner
/// of the whole desktop (monitors placed side by side add their offsets).
#[derive(Debug, Clone, Copy, PartialEq, Eq, Structural)]
pub struct Point {
    pub x: i32,
    pub y: i32,
}


/// The backend that gives the global cursor position on `os` for the session
/// `env`, or the error that says why there is none.
pub fn get_position(os: HostOs, env: &SessionEnv) -> (res: Result<Backend, Error>)
    ensures
        routes_to(os, *env, res),
{
    platform::get_position(os, env)
}

/// Object-oriented alias (compatible with the `mouse_position` crate API).
pub struct Mouse;

impl Mouse {
    /// The same answer as `get_position`.
    pub fn get_mouse_position(os: HostOs, env: &SessionEnv) -> (res: Result<Backend, Error>)
        ensures
            routes_to(os, *env, res),
    {
        get_position(os, env)
    }
}

} // verus!
