//! The trusted boundary to the X server: a connection handle whose
//! specification records every state-changing request it queues, and the
//! property-fetch port that the host backs with the server's property
//! requests.

use vstd::prelude::*;
use xcb::x;
use xcb::Xid;
use xcb::XidNew;

verus! {

/// The errors the X11 operations surface. Everything else (a missing,
/// empty or undecodable property, a failed best-effort request) degrades
/// silently to absent data.
#[derive(Clone, Copy, Debug, PartialEq, Eq, Structural)]
pub enum XError {
    /// The display server could not be reached, or its setup had no screen.
    Connection,
    /// Atom interning failed.
    Resolution,
    /// The target window does not exist or is inaccessible.
    InvalidWindow,
    /// Queued requests could not be confirmed delivered.
    Flush,
}

/// A state-changing request, as the connection's ghost log records it.
/// Reads (property fetches, attribute probes, geometry lookups) are not
/// logged: they change nothing on the server.
pub enum XRequest {
    /// Map the window, making it viewable.
    MapWindow { window: u32 },
    /// Raise the window to the top of the stacking order.
    RaiseWindow { window: u32 },
    /// Give the window the input focus, reverting to pointer-root.
    SetFocus { window: u32 },
    /// A client message of type `msg_type` about `window`, sent through the
    /// root window's event-redirection channel with the five data words.
    ClientMessage { window: u32, msg_type: u32, data: Seq<u32> },
    /// Warp the pointer to `(x, y)` relative to `window`.
    Warp { window: u32, x: i16, y: i16 },
}

#[verifier::external_type_specification]
#[verifier::external_body]
pub struct ExConnection(xcb::Connection);

/// A live session with the display server: the connection itself, the root
/// window of the selected screen, and the ghost log of the mutating
/// requests queued so far.
pub struct XConn {
    conn: xcb::Connection,
    root: u32,
    sent: Ghost<Seq<XRequest>>,
}

impl XConn {
    /// Every mutating request queued on this connection so far, oldest
    /// first.
    pub closed spec fn log(self) -> Seq<XRequest> {
        self.sent@
    }

    /// The root window of the screen selected when the session was opened.
    pub closed spec fn root_window(self) -> u32 {
        self.root
    }

    pub fn root(&self) -> (r: u32)
        ensures
            r == self.root_window(),
    {
        self.root
    }

    /// The raw connection, for the property-fetch port. It offers no
    /// mutating interface: all state-changing requests go through the
    /// logged methods below.
    pub fn raw(&self) -> &xcb::Connection {
        &self.conn
    }

    /// Relies on `xcb::Connection::connect` and `Setup::roots`: opens a
    /// session to the display server named by the environment and selects
    /// the screen the server reported, returning the raw connection and
    /// that screen's root window.
    #[verifier::external_body]
    fn connect_raw() -> (r: Result<(xcb::Connection, u32), XError>)
        ensures
            r matches Err(e) ==> e == XError::Connection,
    {
        let (conn, screen_num) = match xcb::Connection::connect(None) {
            Ok(v) => v,
            Err(_) => return Err(XError::Connection),
        };
        match conn.get_setup().roots().nth(screen_num as usize) {
            Some(screen) => {
                let root = screen.root().resource_id();
                Ok((conn, root))
            },
            None => Err(XError::Connection),
        }
    }

    /// Open a session with an empty request log.
    pub fn connect() -> (r: Result<XConn, XError>)
        ensures
            r matches Ok(c) ==> c.log() == Seq::<XRequest>::empty(),
            r matches Err(e) ==> e == XError::Connection,
    {
        match Self::connect_raw() {
            Ok((conn, root)) => Ok(XConn { conn, root, sent: Ghost(Seq::empty()) }),
            Err(e) => Err(e),
        }
    }

    /// Relies on xcb's `InternAtom` round trip (`send_request` +
    /// `wait_for_reply`): interns the atom named `name`, creating it if
    /// absent; it fails only on a connection-level error.
    #[verifier::external_body]
    pub fn intern_atom(&self, name: &str) -> (r: Result<u32, XError>)
        ensures
            r matches Err(e) ==> e == XError::Resolution,
    {
        let cookie = self.conn.send_request(&x::InternAtom {
            only_if_exists: false,
            name: name.as_bytes(),
        });
        match self.conn.wait_for_reply(cookie) {
            Ok(reply) => Ok(reply.atom().resource_id()),
            Err(_) => Err(XError::Resolution),
        }
    }

    /// Relies on xcb's `GetWindowAttributes` round trip: whether the server
    /// answered the probe for `window` with a reply rather than an error.
    #[verifier::external_body]
    pub fn window_exists(&self, window: u32) -> (r: bool) {
        let cookie = self.conn.send_request(&x::GetWindowAttributes {
            window: x::Window::new(window),
        });
        self.conn.wait_for_reply(cookie).is_ok()
    }

    /// Relies on xcb's `MapWindow` request: queues a request to make the
    /// window viewable. Fire-and-forget: no reply is awaited.
    #[verifier::external_body]
    pub fn map_window(&mut self, window: u32)
        ensures
            final(self).log() == old(self).log().push((XRequest::MapWindow { window })),
            final(self).root_window() == old(self).root_window(),
    {
        let _ = self.conn.send_request(&x::MapWindow { window: x::Window::new(window) });
    }

    /// Relies on xcb's `ConfigureWindow` request with stack mode `Above`:
    /// queues a raise to the top of the stacking order. Fire-and-forget.
    #[verifier::external_body]
    pub fn raise_window(&mut self, window: u32)
        ensures
            final(self).log() == old(self).log().push((XRequest::RaiseWindow { window })),
            final(self).root_window() == old(self).root_window(),
    {
        let _ = self.conn.send_request(&x::ConfigureWindow {
            window: x::Window::new(window),
            value_list: &[x::ConfigWindow::StackMode(x::StackMode::Above)],
        });
    }

    /// Relies on xcb's `SetInputFocus` request with revert-to-pointer-root
    /// and the current-time timestamp. Fire-and-forget.
    #[verifier::external_body]
    pub fn set_input_focus(&mut self, window: u32)
        ensures
            final(self).log() == old(self).log().push((XRequest::SetFocus { window })),
            final(self).root_window() == old(self).root_window(),
    {
        let _ = self.conn.send_request(&x::SetInputFocus {
            revert_to: x::InputFocus::PointerRoot,
            focus: x::Window::new(window),
            time: x::CURRENT_TIME,
        });
    }

    /// Relies on xcb's `SendEvent` request carrying a 32-bit
    /// `ClientMessageEvent`: queues the message about `window`, of type
    /// `msg_type` with data words `d0..d4`, addressed to the root window
    /// with the substructure notify and redirect masks. Fire-and-forget.
    #[verifier::external_body]
    pub fn send_client_message(&mut self, window: u32, msg_type: u32, d0: u32, d1: u32, d2: u32, d3: u32, d4: u32)
        ensures
            final(self).log() == old(self).log().push(
                (XRequest::ClientMessage { window, msg_type, data: seq![d0, d1, d2, d3, d4] }),
            ),
            final(self).root_window() == old(self).root_window(),
    {
        let event = x::ClientMessageEvent::new(
            x::Window::new(window),
            x::Atom::new(msg_type),
            x::ClientMessageData::Data32([d0, d1, d2, d3, d4]),
        );
        let _ = self.conn.send_request(&x::SendEvent {
            propagate: false,
            destination: x::SendEventDest::Window(x::Window::new(self.root)),
            event_mask: x::EventMask::SUBSTRUCTURE_NOTIFY | x::EventMask::SUBSTRUCTURE_REDIRECT,
            event: &event,
        });
    }

    /// Relies on xcb's `GetGeometry` round trip: the window's width and
    /// height, or `None` when the lookup fails.
    #[verifier::external_body]
    pub fn get_geometry(&self, window: u32) -> (r: Option<(u16, u16)>) {
        let cookie = self.conn.send_request(&x::GetGeometry {
            drawable: x::Drawable::Window(x::Window::new(window)),
        });
        match self.conn.wait_for_reply(cookie) {
            Ok(g) => Some((g.width(), g.height())),
            Err(_) => None,
        }
    }

    /// Relies on xcb's `WarpPointer` request: queues a pointer move to
    /// `(dx, dy)` relative to `window`. Fire-and-forget.
    #[verifier::external_body]
    pub fn warp_pointer(&mut self, window: u32, dx: i16, dy: i16)
        ensures
            final(self).log() == old(self).log().push((XRequest::Warp { window, x: dx, y: dy })),
            final(self).root_window() == old(self).root_window(),
    {
        let _ = self.conn.send_request(&x::WarpPointer {
            src_window: x::Window::none(),
            dst_window: x::Window::new(window),
            src_x: 0,
            src_y: 0,
            src_width: 0,
            src_height: 0,
            dst_x: dx,
            dst_y: dy,
        });
    }

    /// Relies on `xcb::Connection::flush`: delivers every queued request to
    /// the server; on failure none of them is guaranteed delivered.
    #[verifier::external_body]
    pub fn flush(&self) -> (r: Result<(), XError>)
        ensures
            r matches Err(e) ==> e == XError::Flush,
    {
        match self.conn.flush() {
            Ok(()) => Ok(()),
            Err(_) => Err(XError::Flush),
        }
    }
}

/// The property-fetch primitive of the session, supplied by the host. A
/// fetch is bounded by `max_units` (32-bit units for window lists, bytes
/// for text) and never fails: an unset property, a failed fetch and absent
/// data all come back as `None`. Nothing is assumed about what a fetch
/// returns: every caller in this crate is verified for all of its answers.
pub trait PropertySource {
    /// Read `property` on `window` as a list of window identifiers.
    fn read_window_ids(
        &self,
        conn: &xcb::Connection,
        window: u32,
        property: u32,
        max_units: u32,
    ) -> Option<Vec<u32>>;

    /// Read `property` on `window` as raw bytes, whatever its type.
    fn read_text(
        &self,
        conn: &xcb::Connection,
        window: u32,
        property: u32,
        max_units: u32,
    ) -> Option<Vec<u8>>;
}

} // verus!
