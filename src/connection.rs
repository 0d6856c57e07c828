//! The connection handshake: the setup request, and the server's answer to it.
use vstd::prelude::*;
use vstd::string::StringSliceAdditionalSpecFns;

use crate::xio::{
    ascii_text, field_at, flush_read, pad, read_ascii_string, read_padding, read_primitive,
    write_padding, write_primitive, ByteOrder, ByteSink, ByteSource, ReadError, encode,
};
use crate::xtypes::{
    format_matches, screen_fits, screen_matches, XFormat, XScreen, CARD16, CARD32, CARD8,
    FORMAT_LEN,
};

verus! {

/// The byte that announces `order` at the head of the setup request.
pub open spec fn order_marker(order: ByteOrder) -> u8 {
    match order {
        ByteOrder::LittleEndian => 0x6cu8,
        ByteOrder::BigEndian => 0x42u8,
    }
}

/// The byte that announces `order` at the head of the setup request:
/// `'l'` for little-endian, `'B'` for big-endian.
pub fn byte_order_marker(order: ByteOrder) -> (r: u8)
    ensures
        r == order_marker(order),
{
    match order {
        ByteOrder::LittleEndian => 0x6c,
        ByteOrder::BigEndian => 0x42,
    }
}

/// First byte of the server's answer to the setup request.
#[derive(Clone, Copy, PartialEq, Eq, Structural, Debug)]
pub enum ConnectionStatus {
    Failed,
    Accepted,
    AuthenticationNeeded,
}

pub open spec fn status_of(code: u8) -> Option<ConnectionStatus> {
    if code == 0 {
        Some(ConnectionStatus::Failed)
    } else if code == 1 {
        Some(ConnectionStatus::Accepted)
    } else if code == 2 {
        Some(ConnectionStatus::AuthenticationNeeded)
    } else {
        None
    }
}

impl ConnectionStatus {
    /// The status with wire code `status_code`, or `None` for a code the
    /// protocol does not define.
    pub fn from_code(status_code: u8) -> (r: Option<ConnectionStatus>)
        ensures
            r == status_of(status_code),
    {
        match status_code {
            0 => Some(ConnectionStatus::Failed),
            1 => Some(ConnectionStatus::Accepted),
            2 => Some(ConnectionStatus::AuthenticationNeeded),
            _ => None,
        }
    }
}

/// Bytes of an accepted setup reply, after its status byte and before the vendor name.
pub const ACCEPTED_HEADER_LEN: usize = 39;

/// What the server told about itself when it accepted the connection.
#[derive(Clone, Debug)]
pub struct ConnectionAcceptedInfo {
    pub unused_1: CARD8,
    pub major: CARD16,
    pub minor: CARD16,
    pub additional_data: CARD16,
    pub release_number: CARD32,
    pub resource_id_base: CARD32,
    pub resource_id_mask: CARD32,
    pub motion_buffer_size: CARD32,
    pub vendor_len: CARD16,
    pub max_req_len: CARD16,
    pub number_of_screens: CARD8,
    pub number_for_formats_in_pixmap_formats: CARD8,
    pub image_byte_order: CARD8,
    pub bitmap_format_bit_order: CARD8,
    pub bitmap_format_scaline_unit: CARD8,
    pub bitmap_format_scaline_pad: CARD8,
    pub min_keycode: CARD8,
    pub max_keycode: CARD8,
    pub unused_2: CARD32,
    pub vendor: String,
    pub formats: Vec<XFormat>,
    pub list_of_screen: Vec<XScreen>,
}

/// Offset of the pixmap formats in an accepted reply `s` (status byte excluded).
pub open spec fn formats_offset(o: ByteOrder, s: Seq<u8>) -> int {
    let vl = field_at::<u16>(o, s, 23) as nat;
    ACCEPTED_HEADER_LEN + vl + pad(vl)
}

/// Offset of the first screen in an accepted reply `s` (status byte excluded).
pub open spec fn screen_offset(o: ByteOrder, s: Seq<u8>) -> int {
    formats_offset(o, s) + FORMAT_LEN * field_at::<u8>(o, s, 28)
}

/// `s` holds a whole accepted reply: its head, vendor name, formats and first screen.
pub open spec fn accepted_fits(o: ByteOrder, s: Seq<u8>) -> bool {
    &&& ACCEPTED_HEADER_LEN <= s.len()
    &&& screen_offset(o, s) <= s.len()
    &&& screen_fits(o, s.skip(screen_offset(o, s)), field_at::<u8>(o, s, 28) as nat)
}

/// `info` is the accepted reply `s`; its first screen has as many depths as there are formats.
pub open spec fn accepted_matches(info: ConnectionAcceptedInfo, o: ByteOrder, s: Seq<u8>) -> bool {
    let nf = field_at::<u8>(o, s, 28);
    let vl = field_at::<u16>(o, s, 23);
    &&& info.unused_1 == field_at::<u8>(o, s, 0)
    &&& info.major == field_at::<u16>(o, s, 1)
    &&& info.minor == field_at::<u16>(o, s, 3)
    &&& info.additional_data == field_at::<u16>(o, s, 5)
    &&& info.release_number == field_at::<u32>(o, s, 7)
    &&& info.resource_id_base == field_at::<u32>(o, s, 11)
    &&& info.resource_id_mask == field_at::<u32>(o, s, 15)
    &&& info.motion_buffer_size == field_at::<u32>(o, s, 19)
    &&& info.vendor_len == vl
    &&& info.max_req_len == field_at::<u16>(o, s, 25)
    &&& info.number_of_screens == field_at::<u8>(o, s, 27)
    &&& info.number_for_formats_in_pixmap_formats == nf
    &&& info.image_byte_order == field_at::<u8>(o, s, 29)
    &&& info.bitmap_format_bit_order == field_at::<u8>(o, s, 30)
    &&& info.bitmap_format_scaline_unit == field_at::<u8>(o, s, 31)
    &&& info.bitmap_format_scaline_pad == field_at::<u8>(o, s, 32)
    &&& info.min_keycode == field_at::<u8>(o, s, 33)
    &&& info.max_keycode == field_at::<u8>(o, s, 34)
    &&& info.unused_2 == field_at::<u32>(o, s, 35)
    &&& info.vendor@ == ascii_text(
        s.subrange(ACCEPTED_HEADER_LEN as int, ACCEPTED_HEADER_LEN + vl),
    )
    &&& info.formats@.len() == nf
    &&& forall|i: int|
        0 <= i < nf ==> format_matches(
            #[trigger] info.formats@[i],
            o,
            s.skip(formats_offset(o, s) + FORMAT_LEN * i),
        )
    &&& info.list_of_screen@.len() == 1
    &&& screen_matches(info.list_of_screen@[0], o, s.skip(screen_offset(o, s)), nf as nat)
}

/// Length of an accepted reply `s` after its status byte, as its head declares:
/// seven bytes of head, then `additional_data` words.
pub open spec fn accepted_len(o: ByteOrder, s: Seq<u8>) -> int {
    7 + 4 * field_at::<u16>(o, s, 5)
}

/// `s` begins with a whole accepted reply (status byte excluded) whose
/// declared length covers all it describes.
pub open spec fn accepted_reply_ok(o: ByteOrder, s: Seq<u8>) -> bool {
    &&& 7 <= s.len()
    &&& accepted_len(o, s) <= s.len()
    &&& accepted_fits(o, s.take(accepted_len(o, s)))
}

impl ConnectionAcceptedInfo {
    /// Parses an accepted setup reply whose status byte has been read, and
    /// consumes exactly the bytes that its head declares.
    pub fn from_socket(socket: &mut ByteSource) -> (r: Result<Self, ReadError>)
        ensures
            final(socket).byte_order() == old(socket).byte_order(),
            ({
                let o = old(socket).byte_order();
                let s = old(socket)@;
                match r {
                    Ok(info) => {
                        &&& accepted_reply_ok(o, s)
                        &&& accepted_matches(info, o, s.take(accepted_len(o, s)))
                        &&& final(socket)@ == s.skip(accepted_len(o, s))
                    },
                    Err(e) => {
                        &&& !accepted_reply_ok(o, s)
                        &&& e == ReadError::UnexpectedEof
                    },
                }
            }),
    {
        if socket.remaining() < 7 {
            return Err(ReadError::UnexpectedEof);
        }
        let additional_data: u16 = socket.peek(5);
        let len = 7 + 4 * (additional_data as usize);
        let body = socket.read_bytes(len)?;
        let mut reply = ByteSource::new(socket.order(), body);
        Self::from_reply_body(&mut reply)
    }

    /// Parses the body of an accepted setup reply, alone in `socket`, then
    /// drains what is left of it.
    fn from_reply_body(socket: &mut ByteSource) -> (r: Result<Self, ReadError>)
        ensures
            final(socket).byte_order() == old(socket).byte_order(),
            match r {
                Ok(info) => {
                    &&& accepted_fits(old(socket).byte_order(), old(socket)@)
                    &&& accepted_matches(info, old(socket).byte_order(), old(socket)@)
                    &&& final(socket)@ == Seq::<u8>::empty()
                },
                Err(e) => {
                    &&& !accepted_fits(old(socket).byte_order(), old(socket)@)
                    &&& e == ReadError::UnexpectedEof
                },
            },
    {
        let ghost s = socket@;
        let ghost o = socket.byte_order();
        if socket.remaining() < ACCEPTED_HEADER_LEN {
            return Err(ReadError::UnexpectedEof);
        }
        let unused_1: u8 = socket.peek(0);
        let major: u16 = socket.peek(1);
        let minor: u16 = socket.peek(3);
        let additional_data: u16 = socket.peek(5);
        let release_number: u32 = socket.peek(7);
        let resource_id_base: u32 = socket.peek(11);
        let resource_id_mask: u32 = socket.peek(15);
        let motion_buffer_size: u32 = socket.peek(19);
        let vendor_len: u16 = socket.peek(23);
        let max_req_len: u16 = socket.peek(25);
        let number_of_screens: u8 = socket.peek(27);
        let number_for_formats_in_pixmap_formats: u8 = socket.peek(28);
        let image_byte_order: u8 = socket.peek(29);
        let bitmap_format_bit_order: u8 = socket.peek(30);
        let bitmap_format_scaline_unit: u8 = socket.peek(31);
        let bitmap_format_scaline_pad: u8 = socket.peek(32);
        let min_keycode: u8 = socket.peek(33);
        let max_keycode: u8 = socket.peek(34);
        let unused_2: u32 = socket.peek(35);
        socket.skip(ACCEPTED_HEADER_LEN)?;
        let vendor = read_ascii_string(socket, vendor_len as usize)?;
        proof {
            assert(s.skip(ACCEPTED_HEADER_LEN as int).take(vendor_len as int) =~= s.subrange(
                ACCEPTED_HEADER_LEN as int,
                ACCEPTED_HEADER_LEN + vendor_len,
            ));
        }
        let _padding = read_padding(socket, vendor_len as usize)?;
        proof {
            assert(socket@ =~= s.skip(formats_offset(o, s)));
        }
        let nf = number_for_formats_in_pixmap_formats;
        let mut formats: Vec<XFormat> = Vec::new();
        let mut i: u8 = 0;
        while i < nf
            invariant
                i <= nf,
                s == old(socket)@,
                o == old(socket).byte_order(),
                nf == field_at::<u8>(o, s, 28),
                ACCEPTED_HEADER_LEN <= formats_offset(o, s),
                formats_offset(o, s) + FORMAT_LEN * i <= s.len(),
                socket.byte_order() == o,
                socket@ == s.skip(formats_offset(o, s) + FORMAT_LEN * i),
                formats@.len() == i,
                forall|k: int|
                    0 <= k < i ==> format_matches(
                        #[trigger] formats@[k],
                        o,
                        s.skip(formats_offset(o, s) + FORMAT_LEN * k),
                    ),
            decreases nf - i,
        {
            let f = match XFormat::from_socket(socket) {
                Ok(f) => f,
                Err(e) => {
                    return Err(e);
                },
            };
            formats.push(f);
            proof {
                assert(socket@ =~= s.skip(formats_offset(o, s) + FORMAT_LEN * (i + 1)));
            }
            i = i + 1;
        }
        let screen = XScreen::from_socket(socket, nf as usize)?;
        let mut list_of_screen: Vec<XScreen> = Vec::new();
        list_of_screen.push(screen);
        flush_read(socket);
        Ok(
            ConnectionAcceptedInfo {
                unused_1,
                major,
                minor,
                additional_data,
                release_number,
                resource_id_base,
                resource_id_mask,
                motion_buffer_size,
                vendor_len,
                max_req_len,
                number_of_screens,
                number_for_formats_in_pixmap_formats,
                image_byte_order,
                bitmap_format_bit_order,
                bitmap_format_scaline_unit,
                bitmap_format_scaline_pad,
                min_keycode,
                max_keycode,
                unused_2,
                vendor,
                formats,
                list_of_screen,
            },
        )
    }
}


/// Why the server refused the connection, and the protocol version it speaks.
#[derive(Clone, Debug)]
pub struct RefusedInfo {
    pub reason: String,
    pub major: CARD16,
    pub minor: CARD16,
}

/// Ways in which a connection attempt ends without a context.
#[derive(Clone, Debug)]
pub enum ConnectionErr {
    /// The server refused the connection.
    ConnectionRefused(RefusedInfo),
    /// The server asks for authentication, which this client does not perform.
    AuthenticationRequired,
    /// The reply's status byte is none that the protocol defines.
    UnrecognizedStatus(u8),
    /// The reply ended before its structure did.
    SocketErr(ReadError),
}

pub type ConnectionResult<T> = Result<T, ConnectionErr>;

/// The fields of a refusal, before they are read.
#[derive(Clone, Debug)]
pub struct ConnectionResponse {
    pub reason_failed_length: u8,
    pub protocol_major: CARD16,
    pub protocol_minor: CARD16,
    pub additional_data: CARD16,
    pub reason: String,
}

impl ConnectionResponse {
    pub fn new() -> (r: ConnectionResponse)
        ensures
            r.reason_failed_length == 0,
            r.protocol_major == 0,
            r.protocol_minor == 0,
            r.additional_data == 0,
            r.reason@ == Seq::<char>::empty(),
    {
        ConnectionResponse {
            reason_failed_length: 0,
            protocol_major: 0,
            protocol_minor: 0,
            additional_data: 0,
            reason: String::new(),
        }
    }
}

/// Bytes at the head of every setup reply, whatever its status.
pub const REPLY_HEAD_LEN: usize = 8;

/// Total length of the setup reply whose first eight bytes are in `head`: the
/// head gives the length of the rest in four-byte units.
pub fn setup_reply_len(head: &ByteSource) -> (r: usize)
    requires
        REPLY_HEAD_LEN <= head@.len(),
    ensures
        r == REPLY_HEAD_LEN + 4 * field_at::<u16>(head.byte_order(), head@, 6),
{
    let units: u16 = head.peek(6);
    REPLY_HEAD_LEN + 4 * (units as usize)
}

/// Authentication offered in the setup request.
pub enum AuthProtocol<'a> {
    Custom { auth_protocol_name: &'a str, auth_protocol_data: &'a str },
    NoAuth,
}

impl<'a> AuthProtocol<'a> {
    pub open spec fn spec_name(&self) -> Seq<u8> {
        match self {
            AuthProtocol::Custom { auth_protocol_name, .. } => auth_protocol_name.spec_bytes(),
            AuthProtocol::NoAuth => Seq::empty(),
        }
    }

    pub open spec fn spec_data(&self) -> Seq<u8> {
        match self {
            AuthProtocol::Custom { auth_protocol_data, .. } => auth_protocol_data.spec_bytes(),
            AuthProtocol::NoAuth => Seq::empty(),
        }
    }

    /// Name of the authentication protocol; empty for none.
    pub fn name(&self) -> (r: &'a [u8])
        ensures
            r@ == self.spec_name(),
    {
        match self {
            AuthProtocol::Custom { auth_protocol_name, .. } => auth_protocol_name.as_bytes(),
            AuthProtocol::NoAuth => {
                let e: &[u8] = &[];
                assert(e@ =~= Seq::<u8>::empty());
                e
            },
        }
    }

    /// Data of the authentication protocol; empty for none.
    pub fn data(&self) -> (r: &'a [u8])
        ensures
            r@ == self.spec_data(),
    {
        match self {
            AuthProtocol::Custom { auth_protocol_data, .. } => auth_protocol_data.as_bytes(),
            AuthProtocol::NoAuth => {
                let e: &[u8] = &[];
                assert(e@ =~= Seq::<u8>::empty());
                e
            },
        }
    }
}

/// The setup request: byte order, protocol version and authentication.
pub struct RequestConnection<'a> {
    pub order: ByteOrder,
    pub major: CARD16,
    pub minor: CARD16,
    pub protocol_name: &'a [u8],
    pub protocol_data: &'a [u8],
}

/// `n` zero bytes.
pub open spec fn zeros(n: nat) -> Seq<u8> {
    Seq::new(n, |_i: int| 0u8)
}

/// The bytes of a setup request, in the order that the request announces.
pub open spec fn setup_request_bytes(
    order: ByteOrder,
    major: u16,
    minor: u16,
    name: Seq<u8>,
    data: Seq<u8>,
) -> Seq<u8> {
    seq![order_marker(order), 0u8] + encode(order, major) + encode(order, minor) + encode(
        order,
        name.len() as u16,
    ) + encode(order, data.len() as u16) + encode(order, 0u16) + name + zeros(pad(name.len()))
        + data + zeros(pad(data.len()))
}

/// What the reply `s` to a setup request comes to, status byte included.
pub open spec fn refusal_fits(o: ByteOrder, s: Seq<u8>) -> bool {
    let rl = s[1] as nat;
    REPLY_HEAD_LEN + rl + pad(rl) <= s.len()
}

/// `r` is what the setup reply `s` (status byte first) comes to, and `rest`
/// is what is left of `s` once it has been read.
pub open spec fn response_matches(
    r: Result<ConnectionAcceptedInfo, ConnectionErr>,
    o: ByteOrder,
    s: Seq<u8>,
    rest: Seq<u8>,
) -> bool {
    match r {
        Ok(info) => {
            let body = s.skip(1);
            &&& 1 <= s.len()
            &&& s[0] == 1
            &&& accepted_reply_ok(o, body)
            &&& accepted_matches(info, o, body.take(accepted_len(o, body)))
            &&& rest == body.skip(accepted_len(o, body))
        },
        Err(ConnectionErr::ConnectionRefused(ri)) => {
            let rl = s[1] as nat;
            &&& 1 <= s.len()
            &&& s[0] == 0
            &&& refusal_fits(o, s)
            &&& ri.reason@ == ascii_text(s.subrange(8, 8 + rl as int))
            &&& ri.major == field_at::<u16>(o, s, 2)
            &&& ri.minor == field_at::<u16>(o, s, 4)
            &&& rest == s.skip(REPLY_HEAD_LEN + rl + pad(rl))
        },
        Err(ConnectionErr::AuthenticationRequired) => {
            1 <= s.len() && s[0] == 2 && rest == s.skip(1)
        },
        Err(ConnectionErr::UnrecognizedStatus(c)) => {
            1 <= s.len() && s[0] > 2 && c == s[0] && rest == s.skip(1)
        },
        Err(ConnectionErr::SocketErr(e)) => {
            &&& e == ReadError::UnexpectedEof
            &&& (s.len() == 0 || (s[0] == 0 && !refusal_fits(o, s)) || (s[0] == 1
                && !accepted_reply_ok(o, s.skip(1))))
        },
    }
}

impl<'a> RequestConnection<'a> {
    pub fn new(order: ByteOrder, major: u16, minor: u16, protocol_kind: AuthProtocol<'a>) -> (r:
        Self)
        ensures
            r.order == order,
            r.major == major,
            r.minor == minor,
            r.protocol_name@ == protocol_kind.spec_name(),
            r.protocol_data@ == protocol_kind.spec_data(),
    {
        RequestConnection {
            order,
            major,
            minor,
            protocol_name: protocol_kind.name(),
            protocol_data: protocol_kind.data(),
        }
    }

    /// Writes the setup request: byte-order marker, version, the lengths of the
    /// authentication name and data, then each of them padded to four bytes.
    pub fn write_to(&self, out: &mut ByteSink)
        requires
            old(out).byte_order() == self.order,
            self.protocol_name@.len() <= u16::MAX,
            self.protocol_data@.len() <= u16::MAX,
        ensures
            final(out).byte_order() == old(out).byte_order(),
            final(out)@ == old(out)@ + setup_request_bytes(
                self.order,
                self.major,
                self.minor,
                self.protocol_name@,
                self.protocol_data@,
            ),
    {
        let marker = byte_order_marker(self.order);
        write_primitive(out, marker);
        write_primitive(out, 0u8);
        write_primitive(out, self.major);
        write_primitive(out, self.minor);
        write_primitive(out, self.protocol_name.len() as u16);
        write_primitive(out, self.protocol_data.len() as u16);
        write_primitive(out, 0u16);
        out.write_bytes(self.protocol_name);
        write_padding(self.protocol_name.len(), out);
        out.write_bytes(self.protocol_data);
        write_padding(self.protocol_data.len(), out);
        assert(out@ =~= old(out)@ + setup_request_bytes(
            self.order,
            self.major,
            self.minor,
            self.protocol_name@,
            self.protocol_data@,
        ));
    }

    /// Reads the server's reply to the setup request, status byte first.
    pub fn read_response(&self, socket: &mut ByteSource) -> (r: Result<
        ConnectionAcceptedInfo,
        ConnectionErr,
    >)
        ensures
            final(socket).byte_order() == old(socket).byte_order(),
            response_matches(r, old(socket).byte_order(), old(socket)@, final(socket)@),
    {
        let ghost s = socket@;
        let code: u8 = match read_primitive(socket) {
            Ok(c) => c,
            Err(e) => {
                return Err(ConnectionErr::SocketErr(e));
            },
        };
        match ConnectionStatus::from_code(code) {
            Some(ConnectionStatus::Failed) => {
                if socket.remaining() < REPLY_HEAD_LEN - 1 {
                    return Err(ConnectionErr::SocketErr(ReadError::UnexpectedEof));
                }
                let length_of_reason: u8 = socket.peek(0);
                let major: u16 = socket.peek(1);
                let minor: u16 = socket.peek(3);
                proof {
                    assert(socket@ =~= s.skip(1));
                    assert(field_at::<u16>(socket.byte_order(), socket@, 1) == field_at::<u16>(
                        socket.byte_order(),
                        s,
                        2,
                    )) by {
                        assert(socket@.subrange(1, 3) =~= s.subrange(2, 4));
                    }
                    assert(field_at::<u16>(socket.byte_order(), socket@, 3) == field_at::<u16>(
                        socket.byte_order(),
                        s,
                        4,
                    )) by {
                        assert(socket@.subrange(3, 5) =~= s.subrange(4, 6));
                    }
                    assert(socket@.subrange(0, 1) =~= seq![s[1]]);
                }
                let _ = socket.skip(REPLY_HEAD_LEN - 1);
                proof {
                    assert(socket@ =~= s.skip(8));
                    assert(length_of_reason == s[1]);
                }
                let reason = match read_ascii_string(socket, length_of_reason as usize) {
                    Ok(t) => t,
                    Err(e) => {
                        return Err(ConnectionErr::SocketErr(e));
                    },
                };
                proof {
                    assert(s.skip(8).take(length_of_reason as int) =~= s.subrange(
                        8,
                        8 + length_of_reason,
                    ));
                }
                let ghost after_reason = socket@;
                proof {
                    assert(after_reason =~= s.skip(8 + length_of_reason));
                }
                match read_padding(socket, length_of_reason as usize) {
                    Ok(_) => {},
                    Err(e) => {
                        return Err(ConnectionErr::SocketErr(e));
                    },
                }
                proof {
                    assert(socket@ =~= s.skip(
                        REPLY_HEAD_LEN + length_of_reason + pad(length_of_reason as nat),
                    ));
                }
                Err(ConnectionErr::ConnectionRefused(RefusedInfo { reason, major, minor }))
            },
            Some(ConnectionStatus::Accepted) => {
                proof {
                    assert(socket@ =~= s.skip(1));
                }
                match ConnectionAcceptedInfo::from_socket(socket) {
                    Ok(info) => Ok(info),
                    Err(e) => Err(ConnectionErr::SocketErr(e)),
                }
            },
            Some(ConnectionStatus::AuthenticationNeeded) => Err(
                ConnectionErr::AuthenticationRequired,
            ),
            None => Err(ConnectionErr::UnrecognizedStatus(code)),
        }
    }

    /// Completes the connection from the server's reply to this request
    /// (which `write_to` wrote): an accepted reply gives a fresh context.
    pub fn connect(self, reply: &mut ByteSource) -> (r: ConnectionResult<XContext>)
        ensures
            final(reply).byte_order() == old(reply).byte_order(),
            match r {
                Ok(ctx) => {
                    &&& response_matches(
                        Ok(ctx.spec_info()),
                        old(reply).byte_order(),
                        old(reply)@,
                        final(reply)@,
                    )
                    &&& ctx.next_counter() == 0
                },
                Err(e) => response_matches(
                    Err(e),
                    old(reply).byte_order(),
                    old(reply)@,
                    final(reply)@,
                ),
            },
    {
        let info = self.read_response(reply)?;
        Ok(XContext { id_count: 0, info })
    }
}

/// A connection's state after the handshake: what the server told, and the
/// counter from which resource ids are made.
pub struct XContext {
    id_count: CARD32,
    info: ConnectionAcceptedInfo,
}

/// `after` is `before` once it has handed out `id`.
pub open spec fn allocation(before: XContext, after: XContext, id: u32) -> bool {
    &&& before.next_counter() < u32::MAX
    &&& id == before.next_counter() | before.spec_info().resource_id_base
    &&& after.next_counter() == before.next_counter() + 1
    &&& after.spec_info() == before.spec_info()
}

impl XContext {
    #[verifier::type_invariant]
    closed spec fn inv(self) -> bool {
        self.info.list_of_screen@.len() == 1
    }

    /// The counter of the next resource id.
    pub closed spec fn next_counter(&self) -> u32 {
        self.id_count
    }

    pub closed spec fn spec_info(&self) -> ConnectionAcceptedInfo {
        self.info
    }

    pub fn info(&self) -> (r: &ConnectionAcceptedInfo)
        ensures
            *r == self.spec_info(),
    {
        &self.info
    }

    /// Number of resource ids handed out so far.
    pub fn id_count(&self) -> (r: u32)
        ensures
            r == self.next_counter(),
    {
        self.id_count
    }

    /// The next resource id: the counter merged into the server's id base.
    pub fn gen_id(&mut self) -> (r: CARD32)
        requires
            old(self).next_counter() < u32::MAX,
        ensures
            allocation(*old(self), *final(self), r),
    {
        proof {
            use_type_invariant(&*self);
        }
        let id = self.id_count | self.info.resource_id_base;
        self.id_count = self.id_count + 1;
        id
    }

    /// The root window of the screen that the server described.
    pub fn root(&self) -> (r: crate::xtypes::Atom)
        ensures
            r == self.spec_info().list_of_screen@[0].root,
    {
        proof {
            use_type_invariant(self);
        }
        self.info.list_of_screen[0].root
    }
}

/// A context that has handed out fewer than `u32::MAX - 1` ids has room for
/// the next one after this one.
pub proof fn lemma_room_for_next(a: XContext, b: XContext, id: u32)
    requires
        allocation(a, b, id),
        a.next_counter() < u32::MAX - 1,
    ensures
        b.next_counter() < u32::MAX,
        b.spec_info() == a.spec_info(),
{
}

/// Two allocations in a row from one context: the counters strictly increase,
/// and both ids are merged into the same resource-id base.
pub proof fn lemma_consecutive_allocations(
    a: XContext,
    b: XContext,
    c: XContext,
    id1: u32,
    id2: u32,
)
    requires
        allocation(a, b, id1),
        allocation(b, c, id2),
    ensures
        a.next_counter() < b.next_counter() < c.next_counter(),
        id1 == a.next_counter() | a.spec_info().resource_id_base,
        id2 == b.next_counter() | a.spec_info().resource_id_base,
        c.spec_info().resource_id_base == a.spec_info().resource_id_base,
{
}

} // verus!
