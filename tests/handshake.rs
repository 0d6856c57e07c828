use xproto::{
    setup_reply_len, AuthProtocol, ByteOrder, ByteSink, ByteSource, ConnectionErr,
    ConnectionStatus, ReadError, RequestConnection,
};

struct Le(Vec<u8>);

impl Le {
    fn u8(mut self, v: u8) -> Self {
        self.0.push(v);
        self
    }
    fn u16(mut self, v: u16) -> Self {
        self.0.extend_from_slice(&v.to_le_bytes());
        self
    }
    fn u32(mut self, v: u32) -> Self {
        self.0.extend_from_slice(&v.to_le_bytes());
        self
    }
    fn bytes(mut self, b: &[u8]) -> Self {
        self.0.extend_from_slice(b);
        self
    }
}

/// Screen record with no depths.
fn screen(b: Le, root: u32) -> Le {
    b.u32(root)
        .u32(0x20)
        .u32(0xffffff)
        .u32(0)
        .u32(0)
        .u16(1920)
        .u16(1080)
        .u16(508)
        .u16(285)
        .u16(1)
        .u16(1)
        .u32(0x21)
        .u8(0)
        .u8(0)
        .u8(24)
        .u8(0)
}

/// An accepted reply: vendor "ACME", `formats` pixmap formats, one screen.
fn accepted(formats: &[[u8; 3]], depths: &Le, tail: &[u8]) -> Vec<u8> {
    let body_len = 32 + 4 + 8 * formats.len() + 40 + depths.0.len() + tail.len();
    let mut b = Le(vec![])
        .u8(1)
        .u8(0)
        .u16(11)
        .u16(0)
        .u16((body_len / 4) as u16)
        .u32(0)
        .u32(0x00400000)
        .u32(0x001fffff)
        .u32(256)
        .u16(4)
        .u16(65535)
        .u8(1)
        .u8(formats.len() as u8)
        .u8(0)
        .u8(0)
        .u8(32)
        .u8(32)
        .u8(8)
        .u8(255)
        .u32(0)
        .bytes(b"ACME");
    for f in formats {
        b = b.bytes(f).bytes(&[0, 0, 0, 0, 0]);
    }
    b = screen(b, 0x1e0);
    b.bytes(&depths.0).bytes(tail).0
}

fn request() -> RequestConnection<'static> {
    RequestConnection::new(ByteOrder::LittleEndian, 11, 0, AuthProtocol::NoAuth)
}

#[test]
fn accepted_handshake_parses() {
    let mut src = ByteSource::new(ByteOrder::LittleEndian, accepted(&[], &Le(vec![]), &[]));
    let info = request().read_response(&mut src).ok().unwrap();
    assert_eq!(info.vendor, "ACME");
    assert_eq!(info.major, 11);
    assert_eq!(info.resource_id_base, 0x00400000);
    assert_eq!(info.resource_id_mask, 0x001fffff);
    assert_eq!(info.max_req_len, 65535);
    assert!(info.formats.is_empty());
    assert_eq!(info.list_of_screen.len(), 1);
    assert_eq!(info.list_of_screen[0].root.value(), 0x1e0);
    assert_eq!(info.list_of_screen[0].width_pixels, 1920);
    assert!(info.list_of_screen[0].depth_list.is_empty());
    assert_eq!(src.remaining(), 0);
}

#[test]
fn accepted_handshake_drains_rest() {
    let mut src =
        ByteSource::new(ByteOrder::LittleEndian, accepted(&[], &Le(vec![]), &[9, 9, 9, 9]));
    let info = request().read_response(&mut src).ok().unwrap();
    assert_eq!(info.vendor, "ACME");
    assert_eq!(src.remaining(), 0);
}

#[test]
fn accepted_handshake_with_depths() {
    // As many depths are read as there are pixmap formats.
    let depths = Le(vec![])
        .u8(24)
        .u8(0)
        .u16(1)
        .u32(0)
        .u32(0x21)
        .u8(4)
        .u8(8)
        .u16(256)
        .u32(0xff0000)
        .u32(0x00ff00)
        .u32(0x0000ff)
        .u32(0)
        .u8(1)
        .u8(0)
        .u16(0)
        .u32(0);
    let mut src =
        ByteSource::new(ByteOrder::LittleEndian, accepted(&[[24, 32, 32], [1, 1, 32]], &depths, &[]));
    let info = request().read_response(&mut src).ok().unwrap();
    assert_eq!(info.formats.len(), 2);
    assert_eq!(info.formats[0].bits_per_pixel, 32);
    assert_eq!(info.formats[1].depth, 1);
    let d = &info.list_of_screen[0].depth_list;
    assert_eq!(d.len(), 2);
    assert_eq!(d[0].depth, 24);
    assert_eq!(d[0].visuals.len(), 1);
    assert_eq!(d[0].visuals[0].visual_id.value(), 0x21);
    assert_eq!(d[0].visuals[0].class, xproto::XClass::TrueColor);
    assert_eq!(d[0].visuals[0].red_mask, 0xff0000);
    assert_eq!(d[1].depth, 1);
    assert!(d[1].visuals.is_empty());
    assert_eq!(src.remaining(), 0);
}

#[test]
fn truncated_accepted_reply_is_socket_error() {
    let mut bytes = accepted(&[], &Le(vec![]), &[]);
    bytes.truncate(bytes.len() - 1);
    let mut src = ByteSource::new(ByteOrder::LittleEndian, bytes);
    match request().read_response(&mut src) {
        Err(ConnectionErr::SocketErr(e)) => assert_eq!(e, ReadError::UnexpectedEof),
        _ => panic!("expected a socket error"),
    }
}

#[test]
fn refused_handshake() {
    let bytes = Le(vec![]).u8(0).u8(3).u16(11).u16(0).u16(1).bytes(b"bad").u8(0).0;
    let mut src = ByteSource::new(ByteOrder::LittleEndian, bytes);
    match request().read_response(&mut src) {
        Err(ConnectionErr::ConnectionRefused(info)) => {
            assert_eq!(info.reason, "bad");
            assert_eq!(info.major, 11);
            assert_eq!(info.minor, 0);
        }
        _ => panic!("expected a refusal"),
    }
    assert_eq!(src.remaining(), 0);
}

#[test]
fn authentication_and_unknown_status() {
    let mut src = ByteSource::new(ByteOrder::LittleEndian, vec![2, 0, 0, 0, 0, 0, 0, 0]);
    assert!(matches!(
        request().read_response(&mut src),
        Err(ConnectionErr::AuthenticationRequired)
    ));
    let mut src = ByteSource::new(ByteOrder::LittleEndian, vec![7, 0, 0, 0, 0, 0, 0, 0]);
    assert!(matches!(
        request().read_response(&mut src),
        Err(ConnectionErr::UnrecognizedStatus(7))
    ));
    let mut src = ByteSource::new(ByteOrder::LittleEndian, vec![]);
    assert!(matches!(
        request().read_response(&mut src),
        Err(ConnectionErr::SocketErr(ReadError::UnexpectedEof))
    ));
}

#[test]
fn status_codes() {
    assert_eq!(ConnectionStatus::from_code(0), Some(ConnectionStatus::Failed));
    assert_eq!(ConnectionStatus::from_code(1), Some(ConnectionStatus::Accepted));
    assert_eq!(ConnectionStatus::from_code(2), Some(ConnectionStatus::AuthenticationNeeded));
    assert_eq!(ConnectionStatus::from_code(3), None);
}

#[test]
fn setup_request_bytes() {
    let mut sink = ByteSink::new(ByteOrder::LittleEndian);
    request().write_to(&mut sink);
    assert_eq!(sink.into_bytes(), vec![0x6c, 0, 11, 0, 0, 0, 0, 0, 0, 0, 0, 0]);

    let auth = AuthProtocol::Custom { auth_protocol_name: "AB", auth_protocol_data: "xyzwv" };
    assert_eq!(auth.name(), b"AB");
    assert_eq!(auth.data(), b"xyzwv");
    let req = RequestConnection::new(ByteOrder::BigEndian, 11, 0, auth);
    let mut sink = ByteSink::new(ByteOrder::BigEndian);
    req.write_to(&mut sink);
    assert_eq!(
        sink.into_bytes(),
        vec![
            0x42, 0, 0, 11, 0, 0, 0, 2, 0, 5, 0, 0, b'A', b'B', 0, 0, b'x', b'y', b'z', b'w',
            b'v', 0, 0, 0
        ]
    );
}

#[test]
fn reply_length_from_head() {
    let head = ByteSource::new(ByteOrder::LittleEndian, vec![1, 0, 11, 0, 0, 0, 19, 0]);
    assert_eq!(setup_reply_len(&head), 84);
}

#[test]
fn consecutive_ids_increase() {
    let mut src = ByteSource::new(ByteOrder::LittleEndian, accepted(&[], &Le(vec![]), &[]));
    let mut ctx = request().connect(&mut src).ok().unwrap();
    assert_eq!(ctx.id_count(), 0);
    let a = ctx.gen_id();
    let b = ctx.gen_id();
    assert_eq!(a, 0x00400000);
    assert_eq!(b, 0x00400001);
    assert_eq!(ctx.id_count(), 2);
    assert_eq!(ctx.info().resource_id_base, 0x00400000);
}

#[test]
fn window_setup_requests() {
    let mut src = ByteSource::new(ByteOrder::LittleEndian, accepted(&[], &Le(vec![]), &[]));
    let mut ctx = request().connect(&mut src).ok().unwrap();
    let builder = ctx
        .create_window()
        .with_width(512)
        .with_height(512)
        .with_pos((128, 128))
        .with_title("My X Window =)");
    let mut out = ByteSink::new(ByteOrder::LittleEndian);
    let window = builder.build(&mut out);
    assert_eq!(window.id().value(), 0x00400000);
    assert_eq!(window.parent().value(), 0x1e0);
    assert_eq!(ctx.id_count(), 1);
    let b = out.into_bytes();
    assert_eq!(
        &b[0..32],
        &[
            1, 0, 8, 0, 0, 0, 0x40, 0, 0xe0, 1, 0, 0, 128, 0, 128, 0, 0, 2, 0, 2, 0, 0, 0, 0, 0,
            0, 0, 0, 0, 0, 0, 0
        ]
    );
    assert_eq!(&b[32..40], &[8, 0, 2, 0, 0, 0, 0x40, 0]);
    assert_eq!(&b[40..48], &[35, 6, 2, 0, 0, 0, 0, 0]);
    assert_eq!(&b[48..52], &[18, 0, 10, 0]);
    assert_eq!(&b[72..86], b"My X Window =)");
    assert_eq!(&b[86..88], &[0, 0]);
    assert_eq!(b[88], 28);
    assert_eq!(b[112], 33);
    assert_eq!(b.len(), 128);
}

#[test]
fn window_attributes_follow_head() {
    let mut src = ByteSource::new(ByteOrder::LittleEndian, accepted(&[], &Le(vec![]), &[]));
    let mut ctx = request().connect(&mut src).ok().unwrap();
    let mut value = xproto::WindowValue::empty();
    value.value_mask = xproto::value_masks::BACKGROUND_PIXEL | xproto::value_masks::EVENT_MASK;
    value.background_pixel = 0x00ffffff;
    value.event_mask = 0x00008001;
    let builder = ctx.create_window().with_value(value).with_visual(0x21).with_parent(xproto::Atom::new(7));
    let mut out = ByteSink::new(ByteOrder::LittleEndian);
    builder.write_create_window(&mut out);
    let b = out.into_bytes();
    assert_eq!(b.len(), 40);
    assert_eq!(&b[2..4], &[10, 0]);
    assert_eq!(&b[8..12], &[7, 0, 0, 0]);
    assert_eq!(&b[24..28], &[0x21, 0, 0, 0]);
    assert_eq!(&b[28..32], &[0x02, 0x08, 0, 0]);
    assert_eq!(&b[32..36], &[0xff, 0xff, 0xff, 0]);
    assert_eq!(&b[36..40], &[0x01, 0x80, 0, 0]);
}

#[test]
fn accepted_handshake_leaves_next_message() {
    let mut bytes = accepted(&[], &Le(vec![]), &[]);
    bytes.extend_from_slice(&[0, 3, 1, 0]);
    let mut src = ByteSource::new(ByteOrder::LittleEndian, bytes);
    let info = request().read_response(&mut src).ok().unwrap();
    assert_eq!(info.vendor, "ACME");
    assert_eq!(src.remaining(), 4);
}

#[test]
fn refusal_consumes_reason_and_padding() {
    let bytes = Le(vec![]).u8(0).u8(3).u16(11).u16(0).u16(1).bytes(b"bad").u8(0).u8(42).0;
    let mut src = ByteSource::new(ByteOrder::LittleEndian, bytes);
    match request().connect(&mut src) {
        Err(ConnectionErr::ConnectionRefused(info)) => {
            assert_eq!(info.reason, "bad");
            assert_eq!(info.major, 11);
        }
        _ => panic!("expected a refusal"),
    }
    assert_eq!(src.remaining(), 1);
}

#[test]
fn value_mask_sent_as_given() {
    let mut src = ByteSource::new(ByteOrder::LittleEndian, accepted(&[], &Le(vec![]), &[]));
    let mut ctx = request().connect(&mut src).ok().unwrap();
    let mut value = xproto::WindowValue::empty();
    value.value_mask = 0x8000;
    let mut out = ByteSink::new(ByteOrder::LittleEndian);
    ctx.create_window().with_value(value).write_create_window(&mut out);
    let b = out.into_bytes();
    assert_eq!(b.len(), 32);
    assert_eq!(&b[28..32], &[0, 0x80, 0, 0]);
}
