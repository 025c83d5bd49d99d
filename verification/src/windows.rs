//! Window enumeration: list every top-level window with its resolved
//! title, in the order the server reports them.

use vstd::prelude::*;
use crate::title::choose_title;
use crate::title::property_title;
use crate::xconn::PropertySource;
use crate::xconn::XConn;
use crate::xconn::XError;

verus! {

/// Upper bound, in 32-bit units, on a window-list property fetch; window
/// counts beyond it are silently truncated, an accepted limitation.
pub const WINDOW_LIST_MAX: u32 = 1024;

/// Upper bound, in bytes, on a title property fetch.
pub const TITLE_MAX: u32 = 4096;

/// The identifier of the predefined legacy window-name atom, fixed by the
/// core protocol.
pub const LEGACY_NAME_ATOM: u32 = 39;

/// Resolve `window`'s title: the modern name property first, the legacy
/// name property second, the sentinel last; absent, empty and undecodable
/// data all fall through, never an error.
pub fn title_of<P: PropertySource>(
    c: &XConn,
    source: &P,
    window: u32,
    modern_atom: u32,
) -> (r: String)
    ensures
        r@.len() > 0,
{
    let modern = property_title(source.read_text(c.raw(), window, modern_atom, TITLE_MAX));
    let legacy = property_title(source.read_text(c.raw(), window, LEGACY_NAME_ATOM, TITLE_MAX));
    choose_title(modern, legacy)
}

/// Resolve a title for each listed window, keeping the server's order: the
/// record at `i` pairs `ids[i]` with its non-empty title.
pub fn collect_records<P: PropertySource>(
    c: &XConn,
    source: &P,
    ids: &Vec<u32>,
    modern_atom: u32,
) -> (r: Vec<(u32, String)>)
    ensures
        r@.len() == ids@.len(),
        forall|i: int| 0 <= i < r@.len() ==> (#[trigger] r@[i]).0 == ids@[i],
        forall|i: int| 0 <= i < r@.len() ==> (#[trigger] r@[i]).1@.len() > 0,
{
    let mut out: Vec<(u32, String)> = Vec::new();
    let mut i: usize = 0;
    while i < ids.len()
        invariant
            i <= ids@.len(),
            out@.len() == i,
            forall|j: int| 0 <= j < out@.len() ==> (#[trigger] out@[j]).0 == ids@[j],
            forall|j: int| 0 <= j < out@.len() ==> (#[trigger] out@[j]).1@.len() > 0,
        decreases ids@.len() - i,
    {
        let title = title_of(c, source, ids[i], modern_atom);
        out.push((ids[i], title));
        i = i + 1;
    }
    out
}

/// List all top-level windows with their titles. An unset or unreadable
/// client list yields an empty listing, not an error: only opening the
/// connection and resolving the atoms can fail.
pub fn list_windows<P: PropertySource>(source: &P) -> (r: Result<Vec<(u32, String)>, XError>)
    ensures
        r matches Err(e) ==> e == XError::Connection || e == XError::Resolution,
        r matches Ok(v) ==> forall|i: int| 0 <= i < v@.len() ==> (#[trigger] v@[i]).1@.len() > 0,
{
    let c = match XConn::connect() {
        Ok(c) => c,
        Err(e) => return Err(e),
    };
    let list_atom = match c.intern_atom("_NET_CLIENT_LIST") {
        Ok(a) => a,
        Err(e) => return Err(e),
    };
    let name_atom = match c.intern_atom("_NET_WM_NAME") {
        Ok(a) => a,
        Err(e) => return Err(e),
    };
    let ids = match source.read_window_ids(c.raw(), c.root(), list_atom, WINDOW_LIST_MAX) {
        Some(v) => v,
        None => Vec::new(),
    };
    Ok(collect_records(&c, source, &ids, name_atom))
}

} // verus!
