//! Decoding of the server's fixed-size error records.
use vstd::prelude::*;

use crate::xio::{field_at, ByteOrder, ByteSource, ReadError};
use crate::xtypes::{CARD16, CARD32, CARD8};

verus! {

/// Bytes in an error or event record.
pub const RECORD_LEN: usize = 32;

/// What every protocol error reports: its sequence number and the request that failed.
#[derive(Clone, Copy, PartialEq, Eq, Structural, Debug)]
pub struct XErrorGeneric {
    pub sequence_number: CARD16,
    pub major: CARD8,
    pub minor: CARD16,
}

/// A protocol error, by kind; kinds that name a bad id or value carry it.
#[derive(Clone, Copy, PartialEq, Eq, Structural, Debug)]
pub enum XErrorKind {
    Request { generic: XErrorGeneric },
    Value { generic: XErrorGeneric, bad_val: CARD32 },
    Window { generic: XErrorGeneric, bad_id: CARD32 },
    Pixmap { generic: XErrorGeneric, bad_id: CARD32 },
    Atom { generic: XErrorGeneric, bad_id: CARD32 },
    Cursor { generic: XErrorGeneric, bad_id: CARD32 },
    Font { generic: XErrorGeneric, bad_id: CARD32 },
    Match { generic: XErrorGeneric },
    Drawable { generic: XErrorGeneric, bad_id: CARD32 },
    Access { generic: XErrorGeneric },
    Alloc { generic: XErrorGeneric },
    ColorMap { generic: XErrorGeneric, bad_id: CARD32 },
    GContext { generic: XErrorGeneric, bad_id: CARD32 },
    IDChoice { generic: XErrorGeneric, bad_id: CARD32 },
    Name { generic: XErrorGeneric },
    Length { generic: XErrorGeneric },
    Implementation { generic: XErrorGeneric },
    /// The record could not be read whole.
    SocketIO(ReadError),
    /// An error code that the core protocol does not define.
    Unknown,
}

/// The fields of an error record (32 bytes on the wire).
#[derive(Clone, Copy, PartialEq, Eq, Structural, Debug)]
pub struct XErrorHeader {
    pub error: CARD8,
    pub code: CARD8,
    pub sequence_number: CARD16,
    pub bad_id_or_value: CARD32,
    pub minor: CARD16,
    pub major: CARD8,
}

pub open spec fn generic_of(h: XErrorHeader) -> XErrorGeneric {
    XErrorGeneric { sequence_number: h.sequence_number, major: h.major, minor: h.minor }
}

/// The error kind that code `h.code` names.
pub open spec fn kind_of(h: XErrorHeader) -> XErrorKind {
    let generic = generic_of(h);
    let bad_id = h.bad_id_or_value;
    if h.code == 1 {
        XErrorKind::Request { generic }
    } else if h.code == 2 {
        XErrorKind::Value { generic, bad_val: bad_id }
    } else if h.code == 3 {
        XErrorKind::Window { generic, bad_id }
    } else if h.code == 4 {
        XErrorKind::Pixmap { generic, bad_id }
    } else if h.code == 5 {
        XErrorKind::Atom { generic, bad_id }
    } else if h.code == 6 {
        XErrorKind::Cursor { generic, bad_id }
    } else if h.code == 7 {
        XErrorKind::Font { generic, bad_id }
    } else if h.code == 8 {
        XErrorKind::Match { generic }
    } else if h.code == 9 {
        XErrorKind::Drawable { generic, bad_id }
    } else if h.code == 10 {
        XErrorKind::Access { generic }
    } else if h.code == 11 {
        XErrorKind::Alloc { generic }
    } else if h.code == 12 {
        XErrorKind::ColorMap { generic, bad_id }
    } else if h.code == 13 {
        XErrorKind::GContext { generic, bad_id }
    } else if h.code == 14 {
        XErrorKind::IDChoice { generic, bad_id }
    } else if h.code == 15 {
        XErrorKind::Name { generic }
    } else if h.code == 16 {
        XErrorKind::Length { generic }
    } else if h.code == 17 {
        XErrorKind::Implementation { generic }
    } else {
        XErrorKind::Unknown
    }
}

/// A record is an error exactly when its first byte is zero.
pub open spec fn outcome_of(h: XErrorHeader) -> Result<(), XErrorKind> {
    if h.error != 0 {
        Ok(())
    } else {
        Err(kind_of(h))
    }
}

pub open spec fn generic_part(k: XErrorKind) -> Option<XErrorGeneric> {
    match k {
        XErrorKind::Request { generic } => Some(generic),
        XErrorKind::Value { generic, .. } => Some(generic),
        XErrorKind::Window { generic, .. } => Some(generic),
        XErrorKind::Pixmap { generic, .. } => Some(generic),
        XErrorKind::Atom { generic, .. } => Some(generic),
        XErrorKind::Cursor { generic, .. } => Some(generic),
        XErrorKind::Font { generic, .. } => Some(generic),
        XErrorKind::Match { generic } => Some(generic),
        XErrorKind::Drawable { generic, .. } => Some(generic),
        XErrorKind::Access { generic } => Some(generic),
        XErrorKind::Alloc { generic } => Some(generic),
        XErrorKind::ColorMap { generic, .. } => Some(generic),
        XErrorKind::GContext { generic, .. } => Some(generic),
        XErrorKind::IDChoice { generic, .. } => Some(generic),
        XErrorKind::Name { generic } => Some(generic),
        XErrorKind::Length { generic } => Some(generic),
        XErrorKind::Implementation { generic } => Some(generic),
        XErrorKind::SocketIO(_) => None,
        XErrorKind::Unknown => None,
    }
}

impl XErrorKind {
    /// The sequence number and request of a protocol error; `None` for the
    /// kinds that are not one.
    pub fn generic(&self) -> (r: Option<XErrorGeneric>)
        ensures
            r == generic_part(*self),
    {
        match self {
            XErrorKind::Request { generic } => Some(*generic),
            XErrorKind::Value { generic, .. } => Some(*generic),
            XErrorKind::Window { generic, .. } => Some(*generic),
            XErrorKind::Pixmap { generic, .. } => Some(*generic),
            XErrorKind::Atom { generic, .. } => Some(*generic),
            XErrorKind::Cursor { generic, .. } => Some(*generic),
            XErrorKind::Font { generic, .. } => Some(*generic),
            XErrorKind::Match { generic } => Some(*generic),
            XErrorKind::Drawable { generic, .. } => Some(*generic),
            XErrorKind::Access { generic } => Some(*generic),
            XErrorKind::Alloc { generic } => Some(*generic),
            XErrorKind::ColorMap { generic, .. } => Some(*generic),
            XErrorKind::GContext { generic, .. } => Some(*generic),
            XErrorKind::IDChoice { generic, .. } => Some(*generic),
            XErrorKind::Name { generic } => Some(*generic),
            XErrorKind::Length { generic } => Some(*generic),
            XErrorKind::Implementation { generic } => Some(*generic),
            XErrorKind::SocketIO(_) => None,
            XErrorKind::Unknown => None,
        }
    }

    /// Classifies a record: `Ok` when it is no error, else the error that its code names.
    pub fn from_header(header: XErrorHeader) -> (r: Result<(), XErrorKind>)
        ensures
            r == outcome_of(header),
    {
        if header.error != 0 {
            return Ok(());
        }
        let generic = XErrorGeneric {
            sequence_number: header.sequence_number,
            major: header.major,
            minor: header.minor,
        };
        let bad_id = header.bad_id_or_value;
        let kind = match header.code {
            1 => XErrorKind::Request { generic },
            2 => XErrorKind::Value { generic, bad_val: bad_id },
            3 => XErrorKind::Window { generic, bad_id },
            4 => XErrorKind::Pixmap { generic, bad_id },
            5 => XErrorKind::Atom { generic, bad_id },
            6 => XErrorKind::Cursor { generic, bad_id },
            7 => XErrorKind::Font { generic, bad_id },
            8 => XErrorKind::Match { generic },
            9 => XErrorKind::Drawable { generic, bad_id },
            10 => XErrorKind::Access { generic },
            11 => XErrorKind::Alloc { generic },
            12 => XErrorKind::ColorMap { generic, bad_id },
            13 => XErrorKind::GContext { generic, bad_id },
            14 => XErrorKind::IDChoice { generic, bad_id },
            15 => XErrorKind::Name { generic },
            16 => XErrorKind::Length { generic },
            17 => XErrorKind::Implementation { generic },
            _ => XErrorKind::Unknown,
        };
        Err(kind)
    }
}

/// The error record at the front of `s`.
pub open spec fn error_header_at(o: ByteOrder, s: Seq<u8>) -> XErrorHeader {
    XErrorHeader {
        error: field_at::<u8>(o, s, 0),
        code: field_at::<u8>(o, s, 1),
        sequence_number: field_at::<u16>(o, s, 2),
        bad_id_or_value: field_at::<u32>(o, s, 4),
        minor: field_at::<u16>(o, s, 8),
        major: field_at::<u8>(o, s, 10),
    }
}

impl XErrorHeader {
    /// Reads one 32-byte record, or nothing when the bytes run short.
    pub fn from_socket(socket: &mut ByteSource) -> (r: Result<Self, ReadError>)
        ensures
            final(socket).byte_order() == old(socket).byte_order(),
            match r {
                Ok(h) => {
                    &&& RECORD_LEN <= old(socket)@.len()
                    &&& h == error_header_at(old(socket).byte_order(), old(socket)@)
                    &&& final(socket)@ == old(socket)@.skip(RECORD_LEN as int)
                },
                Err(e) => {
                    &&& RECORD_LEN > old(socket)@.len()
                    &&& e == ReadError::UnexpectedEof
                    &&& final(socket)@ == old(socket)@
                },
            },
    {
        if socket.remaining() < RECORD_LEN {
            return Err(ReadError::UnexpectedEof);
        }
        let h = XErrorHeader {
            error: socket.peek(0),
            code: socket.peek(1),
            sequence_number: socket.peek(2),
            bad_id_or_value: socket.peek(4),
            minor: socket.peek(8),
            major: socket.peek(10),
        };
        socket.skip(RECORD_LEN)?;
        Ok(h)
    }
}

/// Looks for an error record among the bytes that have arrived. No bytes at
/// all means that nothing has arrived yet, which is no error.
pub fn check_for_error(sock: &mut ByteSource) -> (r: Result<(), XErrorKind>)
    ensures
        final(sock).byte_order() == old(sock).byte_order(),
        ({
            let s = old(sock)@;
            let o = old(sock).byte_order();
            if s.len() == 0 {
                r == Ok::<(), XErrorKind>(()) && final(sock)@ == s
            } else if s.len() < RECORD_LEN {
                r == Err::<(), XErrorKind>(XErrorKind::SocketIO(ReadError::UnexpectedEof))
            } else {
                &&& final(sock)@ == s.skip(RECORD_LEN as int)
                &&& r == outcome_of(error_header_at(o, s))
            }
        }),
{
    if sock.remaining() == 0 {
        return Ok(());
    }
    match XErrorHeader::from_socket(sock) {
        Ok(h) => XErrorKind::from_header(h),
        Err(e) => Err(XErrorKind::SocketIO(e)),
    }
}

} // verus!
