//! Decoding of the server's fixed-size event records.
use vstd::prelude::*;

use crate::error::RECORD_LEN;
use crate::xio::{field_at, ByteOrder, ByteSource, ReadError};
use crate::xtypes::{Atom, BOOL, CARD16, CARD32, CARD8};

verus! {

/// The head of an event record.
#[derive(Clone, Copy, PartialEq, Eq, Structural, Debug)]
pub struct EventHeader {
    pub code: CARD8,
    pub detail: CARD8,
    pub sequence_number: CARD16,
}

/// An event record read whole (32 bytes), of which only the head is decoded.
#[derive(Clone, Copy, PartialEq, Eq, Structural, Debug)]
pub struct EventHeaderTest {
    pub code: CARD8,
    pub detail: CARD8,
    pub sequence_number: CARD16,
}

/// `code`, `detail` and `sequence_number` of the event record at the front of `s`.
pub open spec fn event_head_matches(
    code: u8,
    detail: u8,
    sequence_number: u16,
    o: ByteOrder,
    s: Seq<u8>,
) -> bool {
    &&& code == field_at::<u8>(o, s, 0)
    &&& detail == field_at::<u8>(o, s, 1)
    &&& sequence_number == field_at::<u16>(o, s, 2)
}

impl EventHeaderTest {
    /// Reads the next event record whole, if one has arrived: `Ok(None)` when no
    /// bytes are there, an error when only part of a record is.
    pub fn poll(socket: &mut ByteSource) -> (r: Result<Option<Self>, ReadError>)
        ensures
            final(socket).byte_order() == old(socket).byte_order(),
            ({
                let s = old(socket)@;
                let o = old(socket).byte_order();
                match r {
                    Ok(None) => s.len() == 0 && final(socket)@ == s,
                    Ok(Some(h)) => {
                        &&& RECORD_LEN <= s.len()
                        &&& event_head_matches(h.code, h.detail, h.sequence_number, o, s)
                        &&& final(socket)@ == s.skip(RECORD_LEN as int)
                    },
                    Err(e) => {
                        &&& 0 < s.len() < RECORD_LEN
                        &&& e == ReadError::UnexpectedEof
                        &&& final(socket)@ == s
                    },
                }
            }),
    {
        let n = socket.remaining();
        if n == 0 {
            return Ok(None);
        }
        if n < RECORD_LEN {
            return Err(ReadError::UnexpectedEof);
        }
        let h = EventHeaderTest {
            code: socket.peek(0),
            detail: socket.peek(1),
            sequence_number: socket.peek(2),
        };
        socket.skip(RECORD_LEN)?;
        Ok(Some(h))
    }
}

/// A pointer or key event: its head and the fields common to such events.
#[derive(Clone, Copy, Debug)]
pub struct GenericEvent {
    pub header: EventHeader,
    pub time: CARD32,
    pub root: Atom,
    pub event: Atom,
    pub child: Atom,
    pub root_x: CARD16,
    pub root_y: CARD16,
    pub event_x: CARD16,
    pub event_y: CARD16,
    pub state: CARD16,
    pub same_screen: BOOL,
}

/// `e` holds the fields of the event record at the front of `s`.
pub open spec fn generic_event_matches(e: GenericEvent, o: ByteOrder, s: Seq<u8>) -> bool {
    &&& event_head_matches(e.header.code, e.header.detail, e.header.sequence_number, o, s)
    &&& e.time == field_at::<u32>(o, s, 4)
    &&& e.root == field_at::<Atom>(o, s, 8)
    &&& e.event == field_at::<Atom>(o, s, 12)
    &&& e.child == field_at::<Atom>(o, s, 16)
    &&& e.root_x == field_at::<u16>(o, s, 20)
    &&& e.root_y == field_at::<u16>(o, s, 22)
    &&& e.event_x == field_at::<u16>(o, s, 24)
    &&& e.event_y == field_at::<u16>(o, s, 26)
    &&& e.state == field_at::<u16>(o, s, 28)
    &&& e.same_screen == field_at::<u8>(o, s, 30)
}

impl GenericEvent {
    /// Reads one whole event record (its last byte unused), or nothing when the
    /// bytes run short.
    pub fn from_socket(socket: &mut ByteSource) -> (r: Result<Self, ReadError>)
        ensures
            final(socket).byte_order() == old(socket).byte_order(),
            match r {
                Ok(e) => {
                    &&& RECORD_LEN <= old(socket)@.len()
                    &&& generic_event_matches(e, old(socket).byte_order(), old(socket)@)
                    &&& final(socket)@ == old(socket)@.skip(RECORD_LEN as int)
                },
                Err(e) => {
                    &&& RECORD_LEN > old(socket)@.len()
                    &&& e == ReadError::UnexpectedEof
                    &&& final(socket)@ == old(socket)@
                },
            },
    {
        if socket.remaining() < RECORD_LEN {
            return Err(ReadError::UnexpectedEof);
        }
        let e = GenericEvent {
            header: EventHeader {
                code: socket.peek(0),
                detail: socket.peek(1),
                sequence_number: socket.peek(2),
            },
            time: socket.peek(4),
            root: socket.peek(8),
            event: socket.peek(12),
            child: socket.peek(16),
            root_x: socket.peek(20),
            root_y: socket.peek(22),
            event_x: socket.peek(24),
            event_y: socket.peek(26),
            state: socket.peek(28),
            same_screen: socket.peek(30),
        };
        socket.skip(RECORD_LEN)?;
        Ok(e)
    }
}

} // verus!
