//! The window focuser: the multi-step EWMH focus protocol against a single
//! target window, specified through the connection's request log.

use vstd::prelude::*;
use crate::xconn::XConn;
use crate::xconn::XError;
use crate::xconn::XRequest;

verus! {

/// The data words of the activation client message: source indication 1
/// ("application"), the current-time timestamp, and no previously active
/// window.
pub open spec fn activation_data() -> Seq<u32> {
    seq![1u32, 0u32, 0u32, 0u32, 0u32]
}

/// The mutating requests queued before the activation atom is resolved:
/// map the window, raise it, give it the input focus.
pub open spec fn focus_prefix(window: u32) -> Seq<XRequest> {
    seq![
        (XRequest::MapWindow { window }),
        (XRequest::RaiseWindow { window }),
        (XRequest::SetFocus { window }),
    ]
}

/// The full fixed sequence of a focus run: the prefix, then the activation
/// client message of type `msg_type`.
pub open spec fn focus_sequence(window: u32, msg_type: u32) -> Seq<XRequest> {
    focus_prefix(window).push(
        (XRequest::ClientMessage { window, msg_type, data: activation_data() }),
    )
}

/// What a focus run may queue after the fixed sequence: nothing, or one
/// pointer warp into the target window.
pub open spec fn warp_tail(window: u32, tail: Seq<XRequest>) -> bool {
    ||| tail.len() == 0
    ||| (tail.len() == 1 && (tail[0] matches XRequest::Warp { window: w, x: _, y: _ }
        && w == window))
}

/// `post` extends `pre` exactly as a completed focus run against `window`
/// does: the fixed sequence for some activation atom, then at most one
/// pointer warp.
pub open spec fn focused_log(pre: Seq<XRequest>, post: Seq<XRequest>, window: u32) -> bool {
    exists|msg_type: u32, tail: Seq<XRequest>|
        post == pre + focus_sequence(window, msg_type) + tail && warp_tail(window, tail)
}

proof fn lemma_focused_log(
    pre: Seq<XRequest>,
    post: Seq<XRequest>,
    window: u32,
    msg_type: u32,
    tail: Seq<XRequest>,
)
    requires
        post == pre + focus_sequence(window, msg_type) + tail,
        warp_tail(window, tail),
    ensures
        focused_log(pre, post, window),
{
}

/// Drive the focus protocol against `window` on an open connection. The
/// window-attributes probe rejects an invalid window before any mutating
/// request is queued; the protocol steps themselves are fire-and-forget
/// (window managers vary in which signal they honour), and only a failure
/// of the final flush is surfaced beyond the probe.
pub fn focus_existing(c: &mut XConn, window: u32) -> (r: Result<(), XError>)
    ensures
        final(c).root_window() == old(c).root_window(),
        r matches Err(e) ==> (e == XError::InvalidWindow || e == XError::Resolution
            || e == XError::Flush),
        r == Err::<(), XError>(XError::InvalidWindow) ==> final(c).log() == old(c).log(),
        r == Err::<(), XError>(XError::Resolution) ==> final(c).log() == old(c).log()
            + focus_prefix(window),
        (r is Ok || r == Err::<(), XError>(XError::Flush)) ==> focused_log(
            old(c).log(),
            final(c).log(),
            window,
        ),
{
    let ghost pre = c.log();
    if !c.window_exists(window) {
        return Err(XError::InvalidWindow);
    }
    c.map_window(window);
    c.raise_window(window);
    c.set_input_focus(window);
    proof {
        assert(c.log() =~= pre + focus_prefix(window));
    }
    let act = match c.intern_atom("_NET_ACTIVE_WINDOW") {
        Ok(a) => a,
        Err(_) => {
            return Err(XError::Resolution);
        },
    };
    c.send_client_message(window, act, 1, 0, 0, 0, 0);
    proof {
        assert(c.log() =~~= pre + focus_sequence(window, act));
    }
    match c.get_geometry(window) {
        Some((w, h)) => {
            // Half of a u16 dimension always fits an i16 coordinate.
            let dx: i16 = (w / 2) as i16;
            let dy: i16 = (h / 2) as i16;
            c.warp_pointer(window, dx, dy);
            proof {
                let tail = seq![(XRequest::Warp { window, x: dx, y: dy })];
                assert(c.log() =~~= pre + focus_sequence(window, act) + tail);
                lemma_focused_log(pre, c.log(), window, act, tail);
            }
        },
        None => {
            proof {
                let tail = Seq::<XRequest>::empty();
                assert(c.log() =~~= pre + focus_sequence(window, act) + tail);
                lemma_focused_log(pre, c.log(), window, act, tail);
            }
        },
    }
    c.flush()
}

/// Open a one-shot connection and focus `window`: the connection is owned
/// by this call alone, so the surfaced error is the only observable
/// outcome; the request-log contract lives on `focus_existing`.
pub fn focus_window(window: u32) -> (r: Result<(), XError>)
    ensures
        r matches Err(e) ==> (e == XError::Connection || e == XError::InvalidWindow
            || e == XError::Resolution || e == XError::Flush),
{
    let mut c = match XConn::connect() {
        Ok(c) => c,
        Err(e) => return Err(e),
    };
    focus_existing(&mut c, window)
}

} // verus!
