//! Model of the network fallback transport: a one-shot push over a
//! listening socket.
//!
//! The fallback is fire-and-forget: the pusher binds at the target's
//! announced address, accepts exactly one connection, writes the whole
//! payload and closes.  There is no length prefix — the message boundary
//! is end-of-stream, so a peer owns the message exactly when it has read
//! to the close.  The socket work happens outside this crate; the session
//! here models what travels over one such connection, and the round-trip
//! law says a reader receives the pushed payload byte for byte.

use crate::bytestr::append_bytes;
use vstd::prelude::*;

verus! {

/// One transport session: the bytes written towards the peer so far, and
/// whether the writing side has signalled end-of-stream.
pub struct NetSession {
    pub stream: Vec<u8>,
    pub closed: bool,
}

/// The mathematical shape of a `NetSession`.
pub struct NetSessionModel {
    pub stream: Seq<u8>,
    pub closed: bool,
}

impl View for NetSession {
    type V = NetSessionModel;

    open spec fn view(&self) -> NetSessionModel {
        NetSessionModel { stream: self.stream@, closed: self.closed }
    }
}

/// How a write on a session fails.
#[derive(Clone, Copy, Debug, PartialEq, Eq, Structural)]
pub enum TransferError {
    /// The writing side already signalled end-of-stream.
    StreamClosed,
}

/// The session a one-shot push of `payload` leaves behind: the payload on
/// the wire, end-of-stream signalled.
pub open spec fn spec_net_push(payload: Seq<u8>) -> NetSessionModel {
    NetSessionModel { stream: payload, closed: true }
}

/// The bytes a peer that reads to end-of-stream receives from a session.
pub open spec fn spec_client_observes(s: NetSessionModel) -> Seq<u8> {
    s.stream
}

/// A freshly accepted connection: nothing written, stream open.
pub fn open_session() -> (s: NetSession)
    ensures
        s@.stream.len() == 0,
        !s@.closed,
{
    NetSession { stream: Vec::new(), closed: false }
}

/// Writes the whole payload on an accepted connection.  Separable from
/// [`net_transfer_bind`] so a longer-lived listener can reuse it per
/// connection; it leaves the stream open.
pub fn handle_client(session: &mut NetSession, payload: &Vec<u8>) -> (r: Result<
    (),
    TransferError,
>)
    ensures
        r is Ok <==> !old(session)@.closed,
        r is Ok ==> final(session)@.stream == old(session)@.stream + payload@
            && !final(session)@.closed,
        r is Err ==> *final(session) == *old(session),
        r matches Err(e) ==> e is StreamClosed,
{
    if session.closed {
        return Err(TransferError::StreamClosed);
    }
    append_bytes(&mut session.stream, payload);
    Ok(())
}

/// Signals end-of-stream: the one message this session carries is
/// complete, and a reader's read-to-end now terminates.
pub fn close_session(session: &mut NetSession)
    ensures
        final(session)@.stream == old(session)@.stream,
        final(session)@.closed,
{
    session.closed = true;
}

/// The one-shot push: binds at the sibling's announced address, accepts
/// one connection, writes the whole payload and closes.  Fire-and-forget —
/// no response ever comes back on this path.
pub fn net_transfer_bind(payload: &Vec<u8>, address: &Vec<u8>) -> (s: NetSession)
    ensures
        s@ == spec_net_push(payload@),
{
    let mut s = open_session();
    let r = handle_client(&mut s, payload);
    match r {
        Ok(u) => u,
        Err(e) => {
        },
    };
    close_session(&mut s);
    s
}

/// Reads a finished session to its end-of-stream: the whole message.
pub fn read_to_end(session: &NetSession) -> (r: Vec<u8>)
    requires
        session@.closed,
    ensures
        r@ == spec_client_observes(session@),
{
    crate::bytestr::clone_bytes(&session.stream)
}

/// Round trip of the network fallback: pushing a payload and reading the
/// session back to end-of-stream yields exactly that payload, byte for
/// byte, for every size including zero.
pub proof fn lemma_net_fallback_round_trip(payload: Seq<u8>)
    ensures
        spec_client_observes(spec_net_push(payload)) == payload,
{
}

} // verus!
