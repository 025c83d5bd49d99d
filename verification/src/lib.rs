//! Verified core of an X11 window-control library: enumerating top-level
//! windows, resolving their titles with a modern/legacy fallback chain,
//! driving the EWMH focus protocol, and a cancellable active-window monitor
//! that deduplicates focus-change notifications.

pub mod focus;
pub mod monitor;
pub mod title;
pub mod windows;
pub mod xconn;

use vstd::prelude::*;
use vstd::string::StringExecFns;

verus! {

/// The demonstration greeting exposed alongside the window operations.
pub fn greet(name: &str) -> (r: String)
    ensures
        r@ == "Hello, "@ + name@ + "! You've been greeted from Rust!"@,
{
    let s = "Hello, ".to_owned();
    let s = s.concat(name);
    s.concat("! You've been greeted from Rust!")
}

} // verus!
