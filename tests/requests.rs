use xproto::events::{EventHeaderTest, GenericEvent};
use xproto::property::data_units;
use xproto::{
    allow_events, change_property, change_property_request_len, check_for_error, grab_button,
    grab_key, grab_keyboard, map_window, read_grab_reply, ungrab_keyboard, Atom, ByteOrder,
    ByteSink, ByteSource, EventMode, GrabErr, PropertyFormat, PropertyMode, ReadError,
    SynchKind, Timestamp, WindowValue, XErrorGeneric, XErrorHeader, XErrorKind,
};

fn sink() -> ByteSink {
    ByteSink::new(ByteOrder::LittleEndian)
}

#[test]
pub fn event_size() {
    let mut src = ByteSource::new(ByteOrder::LittleEndian, vec![0u8; 40]);
    let before = src.remaining();
    GenericEvent::from_socket(&mut src).ok().unwrap();
    assert_eq!(32, before - src.remaining());
}

#[test]
fn generic_event_fields() {
    let mut b = vec![2u8, 38, 5, 0, 0x10, 0, 0, 0];
    b.extend_from_slice(&[0xe0, 1, 0, 0]);
    b.extend_from_slice(&[0, 0, 0x40, 0]);
    b.extend_from_slice(&[0, 0, 0, 0]);
    b.extend_from_slice(&[10, 0, 20, 0, 3, 0, 4, 0, 0, 0, 1, 0]);
    let mut src = ByteSource::new(ByteOrder::LittleEndian, b);
    let e = GenericEvent::from_socket(&mut src).ok().unwrap();
    assert_eq!(e.header.code, 2);
    assert_eq!(e.header.detail, 38);
    assert_eq!(e.header.sequence_number, 5);
    assert_eq!(e.time, 0x10);
    assert_eq!(e.root.value(), 0x1e0);
    assert_eq!(e.event.value(), 0x400000);
    assert_eq!(e.root_x, 10);
    assert_eq!(e.event_y, 4);
    assert_eq!(e.same_screen, 1);
}

#[test]
fn event_poll() {
    let mut src = ByteSource::new(ByteOrder::LittleEndian, vec![]);
    assert_eq!(EventHeaderTest::poll(&mut src), Ok(None));
    let mut src = ByteSource::new(ByteOrder::LittleEndian, vec![12u8; 10]);
    assert_eq!(EventHeaderTest::poll(&mut src), Err(ReadError::UnexpectedEof));
    let mut b = vec![12u8, 0, 7, 0];
    b.resize(32, 0);
    let mut src = ByteSource::new(ByteOrder::LittleEndian, b);
    let h = EventHeaderTest::poll(&mut src).unwrap().unwrap();
    assert_eq!((h.code, h.detail, h.sequence_number), (12, 0, 7));
    assert_eq!(src.remaining(), 0);
}

#[test]
fn change_property_sizing() {
    let mut s = sink();
    change_property(
        &mut s,
        PropertyMode::Replace,
        Atom::new(39),
        Atom::new(31),
        0x400001,
        PropertyFormat::Bytes,
        b"hello",
    );
    let b = s.into_bytes();
    assert_eq!(change_property_request_len(5), 8);
    assert_eq!(b.len(), 32);
    assert_eq!(&b[0..4], &[18, 0, 8, 0]);
    assert_eq!(&b[4..8], &[1, 0, 0x40, 0]);
    assert_eq!(&b[8..12], &[39, 0, 0, 0]);
    assert_eq!(&b[12..16], &[31, 0, 0, 0]);
    assert_eq!(&b[16..20], &[8, 0, 0, 0]);
    assert_eq!(&b[20..24], &[5, 0, 0, 0]);
    assert_eq!(&b[24..29], b"hello");
    assert_eq!(&b[29..32], &[0, 0, 0]);
}

#[test]
fn property_lengths() {
    assert_eq!(change_property_request_len(0), 6);
    assert_eq!(change_property_request_len(4), 7);
    assert_eq!(change_property_request_len(9), 9);
    assert_eq!(data_units(8, PropertyFormat::Bytes), 8);
    assert_eq!(data_units(8, PropertyFormat::Shorts), 4);
    assert_eq!(data_units(8, PropertyFormat::Word), 2);
    let mut s = sink();
    change_property(
        &mut s,
        PropertyMode::Append,
        Atom::new(1),
        Atom::new(2),
        3,
        PropertyFormat::Word,
        &[1, 2, 3, 4, 5, 6, 7, 8],
    );
    let b = s.into_bytes();
    assert_eq!(b[1], 2);
    assert_eq!(&b[2..4], &[8, 0]);
    assert_eq!(b[16], 32);
    assert_eq!(&b[20..24], &[2, 0, 0, 0]);
    assert_eq!(b.len(), 32);
}

fn header(error: u8, code: u8, bad: u32) -> XErrorHeader {
    XErrorHeader {
        error,
        code,
        sequence_number: 9,
        bad_id_or_value: bad,
        minor: 0,
        major: 1,
    }
}

#[test]
fn error_classification() {
    let generic = XErrorGeneric { sequence_number: 9, major: 1, minor: 0 };
    assert_eq!(
        XErrorKind::from_header(header(0, 3, 0x42)),
        Err(XErrorKind::Window { generic, bad_id: 0x42 })
    );
    assert_eq!(XErrorKind::from_header(header(0, 99, 0x42)), Err(XErrorKind::Unknown));
    assert_eq!(
        XErrorKind::from_header(header(0, 2, 7)),
        Err(XErrorKind::Value { generic, bad_val: 7 })
    );
    assert_eq!(XErrorKind::from_header(header(0, 8, 7)), Err(XErrorKind::Match { generic }));
    assert_eq!(
        XErrorKind::from_header(header(0, 17, 7)),
        Err(XErrorKind::Implementation { generic })
    );
    assert_eq!(XErrorKind::from_header(header(1, 3, 0x42)), Ok(()));
    assert_eq!(XErrorKind::Window { generic, bad_id: 1 }.generic(), Some(generic));
    assert_eq!(XErrorKind::Unknown.generic(), None);
}

#[test]
fn check_for_error_reads_records() {
    let mut src = ByteSource::new(ByteOrder::LittleEndian, vec![]);
    assert_eq!(check_for_error(&mut src), Ok(()));
    let mut src = ByteSource::new(ByteOrder::LittleEndian, vec![0, 3, 4]);
    assert_eq!(
        check_for_error(&mut src),
        Err(XErrorKind::SocketIO(ReadError::UnexpectedEof))
    );
    let mut rec = vec![0u8, 3, 9, 0, 0x42, 0, 0, 0, 0, 0, 1];
    rec.resize(32, 0);
    let mut src = ByteSource::new(ByteOrder::LittleEndian, rec);
    let generic = XErrorGeneric { sequence_number: 9, major: 1, minor: 0 };
    assert_eq!(check_for_error(&mut src), Err(XErrorKind::Window { generic, bad_id: 0x42 }));
    assert_eq!(src.remaining(), 0);
}

#[test]
fn fixed_requests() {
    let mut s = sink();
    map_window(&mut s, 0x400001);
    assert_eq!(s.into_bytes(), vec![8, 0, 2, 0, 1, 0, 0x40, 0]);

    let mut s = sink();
    ungrab_keyboard(&mut s, Timestamp::current_time());
    assert_eq!(s.into_bytes(), vec![32, 0, 2, 0, 0, 0, 0, 0]);

    let mut s = sink();
    allow_events(&mut s, EventMode::AsyncBoth, Timestamp::new(5));
    assert_eq!(s.into_bytes(), vec![35, 6, 2, 0, 5, 0, 0, 0]);

    let mut s = sink();
    grab_keyboard(
        &mut s,
        true,
        Atom::new(0x20),
        Timestamp::current_time(),
        SynchKind::Synchronous,
        SynchKind::Asynchronous,
    );
    assert_eq!(s.into_bytes(), vec![31, 1, 4, 0, 0x20, 0, 0, 0, 0, 0, 0, 0, 0, 1, 0, 0]);

    let mut s = sink();
    grab_button(
        &mut s,
        false,
        Atom::new(0x20),
        4,
        SynchKind::Asynchronous,
        SynchKind::Asynchronous,
        Atom::new(0),
        Atom::new(0),
        1,
        None,
    );
    assert_eq!(
        s.into_bytes(),
        vec![28, 0, 6, 0, 0x20, 0, 0, 0, 4, 0, 1, 1, 0, 0, 0, 0, 0, 0, 0, 0, 1, 0, 0, 0x80]
    );

    let mut s = sink();
    grab_key(
        &mut s,
        false,
        Atom::new(0x20),
        Some(4),
        38,
        SynchKind::Asynchronous,
        SynchKind::Synchronous,
    );
    assert_eq!(s.into_bytes(), vec![33, 0, 4, 0, 0x20, 0, 0, 0, 4, 0, 38, 1, 0, 0, 0, 0]);
}

fn reply(r: u8, status: u8) -> ByteSource {
    let mut b = vec![r, status];
    b.resize(32, 0);
    ByteSource::new(ByteOrder::LittleEndian, b)
}

#[test]
fn grab_replies() {
    assert_eq!(read_grab_reply(&mut reply(1, 0)), Ok(()));
    assert_eq!(read_grab_reply(&mut reply(1, 1)), Err(GrabErr::AlreadyGrabbed));
    assert_eq!(read_grab_reply(&mut reply(1, 2)), Err(GrabErr::InvalidTime));
    assert_eq!(read_grab_reply(&mut reply(1, 3)), Err(GrabErr::NotViewable));
    assert_eq!(read_grab_reply(&mut reply(1, 4)), Err(GrabErr::Frozen));
    assert_eq!(read_grab_reply(&mut reply(1, 5)), Err(GrabErr::InvalidStatus));
    assert_eq!(read_grab_reply(&mut reply(0, 0)), Err(GrabErr::InvalidReplyHeader));
    let mut short = ByteSource::new(ByteOrder::LittleEndian, vec![1, 0]);
    assert_eq!(read_grab_reply(&mut short), Err(GrabErr::IO(ReadError::UnexpectedEof)));
}

#[test]
fn window_value_words() {
    let mut v = WindowValue::empty();
    v.value_mask = xproto::value_masks::BACKGROUND_PIXEL | xproto::value_masks::EVENT_MASK;
    v.background_pixel = 0xffffff;
    v.event_mask = 0x8001;
    v.border_pixel = 5;
    assert_eq!(v.present_words(), vec![0xffffff, 0x8001]);
    assert_eq!(v.attribute(3), 5);
}
