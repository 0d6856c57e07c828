use xproto::xio::{
    flush_read, padding_len, read_ascii_string, read_padding, read_primitive, read_primitive_list,
    write_padding, write_primitive, write_primitive_alt,
};
use xproto::{Atom, ByteOrder, ByteSink, ByteSource, ReadError, Timestamp, XClass};

#[test]
pub fn read_test() {
    let mut buffer = ByteSource::new(
        ByteOrder::LittleEndian,
        vec![0x11, 0x22, 0x33, 0x44, 0xaa, 0xbb, 0xcc, 0xdd],
    );
    assert_eq!(read_primitive::<u32>(&mut buffer).unwrap(), 0x44332211);
    assert_eq!(read_primitive::<u32>(&mut buffer).unwrap(), 0xddccbbaa);

    assert_eq!(
        read_primitive::<u32>(&mut buffer).ok(),
        None,
        "buffer out of bytes so io error is expected"
    );
}

fn encoded<T: xproto::HasBytes>(order: ByteOrder, x: T) -> Vec<u8> {
    let mut sink = ByteSink::new(order);
    write_primitive(&mut sink, x);
    sink.into_bytes()
}

#[test]
fn little_endian_layout() {
    assert_eq!(encoded(ByteOrder::LittleEndian, 0x1234u16), vec![0x34, 0x12]);
    assert_eq!(encoded(ByteOrder::LittleEndian, 0x11223344u32), vec![0x44, 0x33, 0x22, 0x11]);
    assert_eq!(encoded(ByteOrder::LittleEndian, -2i16), vec![0xfe, 0xff]);
}

#[test]
fn big_endian_layout() {
    assert_eq!(encoded(ByteOrder::BigEndian, 0x1234u16), vec![0x12, 0x34]);
    assert_eq!(encoded(ByteOrder::BigEndian, 0x11223344u32), vec![0x11, 0x22, 0x33, 0x44]);
    assert_eq!(
        encoded(ByteOrder::BigEndian, 0x0102030405060708u64),
        vec![1, 2, 3, 4, 5, 6, 7, 8]
    );
}

#[test]
fn alt_order_ignores_sink_order() {
    let mut sink = ByteSink::new(ByteOrder::LittleEndian);
    write_primitive_alt(&mut sink, 0xABCDu16, ByteOrder::BigEndian);
    write_primitive(&mut sink, 0xABCDu16);
    assert_eq!(sink.into_bytes(), vec![0xAB, 0xCD, 0xCD, 0xAB]);
}

fn round_trip<T: xproto::HasBytes + Copy + PartialEq + std::fmt::Debug>(x: T) {
    for order in [ByteOrder::LittleEndian, ByteOrder::BigEndian] {
        let mut src = ByteSource::new(order, encoded(order, x));
        assert_eq!(read_primitive::<T>(&mut src).unwrap(), x);
        assert_eq!(src.remaining(), 0);
    }
}

#[test]
fn round_trip_every_width() {
    round_trip(0xA5u8);
    round_trip(0xBEEFu16);
    round_trip(0xDEADBEEFu32);
    round_trip(0x0123456789ABCDEFu64);
    round_trip(0x0123456789ABCDEF_FEDCBA9876543210u128);
    round_trip(-100i8);
    round_trip(-12345i16);
    round_trip(i32::MIN);
    round_trip(-1i64);
    round_trip(i128::MIN + 7);
}

#[test]
fn padding_values() {
    assert_eq!(padding_len(0), 0);
    assert_eq!(padding_len(1), 3);
    assert_eq!(padding_len(2), 2);
    assert_eq!(padding_len(3), 1);
    assert_eq!(padding_len(4), 0);
    assert_eq!(padding_len(5), 3);
    for n in 0..64usize {
        let p = padding_len(n);
        assert!(p < 4);
        assert_eq!((n + p) % 4, 0);
    }
}

#[test]
fn write_and_read_padding() {
    let mut sink = ByteSink::new(ByteOrder::LittleEndian);
    assert_eq!(write_padding(5, &mut sink), 3);
    assert_eq!(sink.as_slice(), &[0u8, 0, 0][..]);
    let mut src = ByteSource::new(ByteOrder::LittleEndian, vec![0, 0, 9]);
    assert_eq!(read_padding(&mut src, 6), Ok(2));
    assert_eq!(src.remaining(), 1);
    assert_eq!(read_padding(&mut src, 5), Err(ReadError::UnexpectedEof));
    assert_eq!(src.remaining(), 1);
}

#[test]
fn ascii_string_one_char_per_byte() {
    let mut src = ByteSource::new(ByteOrder::LittleEndian, vec![b'A', b'C', b'M', b'E', 0xE9, 1]);
    let s = read_ascii_string(&mut src, 5).unwrap();
    assert_eq!(s, "ACME\u{e9}");
    assert_eq!(src.remaining(), 1);
    assert_eq!(read_ascii_string(&mut src, 2), Err(ReadError::UnexpectedEof));
}

#[test]
fn primitive_list_in_order() {
    let mut src = ByteSource::new(ByteOrder::BigEndian, vec![0, 1, 0, 2, 0, 3, 7]);
    let v = read_primitive_list::<u16>(&mut src, 3).unwrap();
    assert_eq!(v, vec![1, 2, 3]);
    assert_eq!(src.remaining(), 1);
    assert_eq!(read_primitive_list::<u16>(&mut src, 1), Err(ReadError::UnexpectedEof));
}

#[test]
fn flush_read_drains() {
    let mut src = ByteSource::new(ByteOrder::LittleEndian, vec![1, 2, 3]);
    flush_read(&mut src);
    assert_eq!(src.remaining(), 0);
}

#[test]
fn atom_masks_reserved_bits() {
    assert_eq!(Atom::new(0xFFFFFFFF).value(), 0x1FFFFFFF);
    assert_eq!(Atom::from(0xE0000042u32).value(), 0x42);
    assert_eq!(Atom::new(0x1234).value(), 0x1234);
    let mut src = ByteSource::new(ByteOrder::LittleEndian, vec![0xff, 0xff, 0xff, 0xff]);
    assert_eq!(read_primitive::<Atom>(&mut src).unwrap().value(), 0x1FFFFFFF);
}

#[test]
fn timestamp_current_is_zero() {
    assert_eq!(Timestamp::current_time().data(), 0);
    assert_eq!(Timestamp::new(77).data(), 77);
}

#[test]
fn class_codes() {
    assert_eq!(XClass::from_class_code(0), XClass::StaticGray);
    assert_eq!(XClass::from_class_code(4), XClass::TrueColor);
    assert_eq!(XClass::from_class_code(5), XClass::DirectColor);
    assert_eq!(XClass::from_class_code(6), XClass::Unknown);
}
