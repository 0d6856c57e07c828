//! Byte codec: fixed-width integers in a chosen byte order, alignment padding,
//! and byte sources and sinks over in-memory buffers.
use vstd::prelude::*;

verus! {

/// Byte order of every multi-byte field on the wire.
#[derive(Clone, Copy, PartialEq, Eq, Structural, Debug)]
pub enum ByteOrder {
    LittleEndian,
    BigEndian,
}

/// A fixed-width value with a byte encoding in both orders.
pub trait HasBytes: Sized {
    /// Number of bytes in the encoding.
    spec fn width() -> nat;

    spec fn le_bytes(&self) -> Seq<u8>;

    spec fn be_bytes(&self) -> Seq<u8>;

    spec fn decode_le(s: Seq<u8>) -> Self;

    spec fn decode_be(s: Seq<u8>) -> Self;

    /// Values that the encoding represents faithfully.
    spec fn wf(&self) -> bool;

    fn byte_width() -> (r: usize)
        ensures
            r == Self::width(),
    ;

    fn as_bytes_le(&self) -> (r: Vec<u8>)
        ensures
            r@ == self.le_bytes(),
    ;

    fn as_bytes_be(&self) -> (r: Vec<u8>)
        ensures
            r@ == self.be_bytes(),
    ;

    fn from_bytes_le(b: &[u8]) -> (r: Self)
        requires
            b@.len() == Self::width(),
        ensures
            r == Self::decode_le(b@),
    ;

    fn from_bytes_be(b: &[u8]) -> (r: Self)
        requires
            b@.len() == Self::width(),
        ensures
            r == Self::decode_be(b@),
    ;

    /// Decoding an encoding gives the value back, in either order.
    proof fn lemma_round_trip(&self)
        requires
            self.wf(),
        ensures
            self.le_bytes().len() == Self::width(),
            self.be_bytes().len() == Self::width(),
            Self::decode_le(self.le_bytes()) == *self,
            Self::decode_be(self.be_bytes()) == *self,
    ;
}

/// The encoding of `x` in `order`.
pub open spec fn encode<T: HasBytes>(order: ByteOrder, x: T) -> Seq<u8> {
    match order {
        ByteOrder::LittleEndian => x.le_bytes(),
        ByteOrder::BigEndian => x.be_bytes(),
    }
}

/// The value whose encoding in `order` is `s`.
pub open spec fn decode<T: HasBytes>(order: ByteOrder, s: Seq<u8>) -> T {
    match order {
        ByteOrder::LittleEndian => T::decode_le(s),
        ByteOrder::BigEndian => T::decode_be(s),
    }
}

/// Decoding what was encoded, in either byte order, gives the value back.
pub proof fn lemma_decode_encode<T: HasBytes>(order: ByteOrder, x: T)
    requires
        x.wf(),
    ensures
        encode(order, x).len() == T::width(),
        decode::<T>(order, encode(order, x)) == x,
{
    x.lemma_round_trip();
}

impl HasBytes for u8 {
    open spec fn width() -> nat {
        1
    }

    open spec fn le_bytes(&self) -> Seq<u8> {
        seq![*self]
    }

    open spec fn be_bytes(&self) -> Seq<u8> {
        seq![*self]
    }

    open spec fn decode_le(s: Seq<u8>) -> u8 {
        s[0]
    }

    open spec fn decode_be(s: Seq<u8>) -> u8 {
        s[0]
    }

    open spec fn wf(&self) -> bool {
        true
    }

    fn byte_width() -> (r: usize) {
        1
    }

    fn as_bytes_le(&self) -> (r: Vec<u8>) {
        let r = vec![*self];
        assert(r@ =~= seq![*self]);
        r
    }

    fn as_bytes_be(&self) -> (r: Vec<u8>) {
        let r = vec![*self];
        assert(r@ =~= seq![*self]);
        r
    }

    fn from_bytes_le(b: &[u8]) -> (r: u8) {
        b[0]
    }

    fn from_bytes_be(b: &[u8]) -> (r: u8) {
        b[0]
    }

    proof fn lemma_round_trip(&self) {
    }
}

/// Low byte first.
pub open spec fn u16_le(x: u16) -> Seq<u8> {
    seq![(x & 0xff) as u8, ((x >> 8u16) & 0xff) as u8]
}

pub open spec fn u16_of_le(s: Seq<u8>) -> u16 {
    (s[0] as u16) | ((s[1] as u16) << 8u16)
}

proof fn lemma_u16_bits(x: u16)
    ensures
        (((x & 0xff) as u8) as u16) | (((((x >> 8u16) & 0xff) as u8) as u16) << 8u16) == x,
{
    assert((((x & 0xff) as u8) as u16) | (((((x >> 8u16) & 0xff) as u8) as u16) << 8u16) == x)
        by (bit_vector);
}

impl HasBytes for u16 {
    open spec fn width() -> nat {
        2
    }

    open spec fn le_bytes(&self) -> Seq<u8> {
        u16_le(*self)
    }

    open spec fn be_bytes(&self) -> Seq<u8> {
        u16_le(*self).reverse()
    }

    open spec fn decode_le(s: Seq<u8>) -> u16 {
        u16_of_le(s)
    }

    open spec fn decode_be(s: Seq<u8>) -> u16 {
        u16_of_le(s.reverse())
    }

    open spec fn wf(&self) -> bool {
        true
    }

    fn byte_width() -> (r: usize) {
        2
    }

    fn as_bytes_le(&self) -> (r: Vec<u8>) {
        let x = *self;
        let r = vec![(x & 0xff) as u8, ((x >> 8u16) & 0xff) as u8];
        assert(r@ =~= u16_le(x));
        r
    }

    fn as_bytes_be(&self) -> (r: Vec<u8>) {
        let x = *self;
        let r = vec![((x >> 8u16) & 0xff) as u8, (x & 0xff) as u8];
        assert(r@ =~= u16_le(x).reverse());
        r
    }

    fn from_bytes_le(b: &[u8]) -> (r: u16) {
        (b[0] as u16) | ((b[1] as u16) << 8u16)
    }

    fn from_bytes_be(b: &[u8]) -> (r: u16) {
        proof {
            assert(b@.reverse()[0] == b@[1]);
            assert(b@.reverse()[1] == b@[0]);
        }
        (b[1] as u16) | ((b[0] as u16) << 8u16)
    }

    proof fn lemma_round_trip(&self) {
        lemma_u16_bits(*self);
        assert(u16_le(*self).reverse().reverse() =~= u16_le(*self));
    }
}

/// Low byte first.
pub open spec fn u32_le(x: u32) -> Seq<u8> {
    seq![
        (x & 0xff) as u8,
        ((x >> 8u32) & 0xff) as u8,
        ((x >> 16u32) & 0xff) as u8,
        ((x >> 24u32) & 0xff) as u8,
    ]
}

pub open spec fn u32_of_le(s: Seq<u8>) -> u32 {
    (s[0] as u32) | ((s[1] as u32) << 8u32) | ((s[2] as u32) << 16u32) | ((s[3] as u32) << 24u32)
}

proof fn lemma_u32_bits(x: u32)
    ensures
        (((x & 0xff) as u8) as u32)
            | (((((x >> 8u32) & 0xff) as u8) as u32) << 8u32)
            | (((((x >> 16u32) & 0xff) as u8) as u32) << 16u32)
            | (((((x >> 24u32) & 0xff) as u8) as u32) << 24u32) == x,
{
    assert((((x & 0xff) as u8) as u32)
        | (((((x >> 8u32) & 0xff) as u8) as u32) << 8u32)
        | (((((x >> 16u32) & 0xff) as u8) as u32) << 16u32)
        | (((((x >> 24u32) & 0xff) as u8) as u32) << 24u32) == x) by (bit_vector);
}

impl HasBytes for u32 {
    open spec fn width() -> nat {
        4
    }

    open spec fn le_bytes(&self) -> Seq<u8> {
        u32_le(*self)
    }

    open spec fn be_bytes(&self) -> Seq<u8> {
        u32_le(*self).reverse()
    }

    open spec fn decode_le(s: Seq<u8>) -> u32 {
        u32_of_le(s)
    }

    open spec fn decode_be(s: Seq<u8>) -> u32 {
        u32_of_le(s.reverse())
    }

    open spec fn wf(&self) -> bool {
        true
    }

    fn byte_width() -> (r: usize) {
        4
    }

    fn as_bytes_le(&self) -> (r: Vec<u8>) {
        let x = *self;
        let r = vec![
            (x & 0xff) as u8,
            ((x >> 8u32) & 0xff) as u8,
            ((x >> 16u32) & 0xff) as u8,
            ((x >> 24u32) & 0xff) as u8,
        ];
        assert(r@ =~= u32_le(x));
        r
    }

    fn as_bytes_be(&self) -> (r: Vec<u8>) {
        let x = *self;
        let r = vec![
            ((x >> 24u32) & 0xff) as u8,
            ((x >> 16u32) & 0xff) as u8,
            ((x >> 8u32) & 0xff) as u8,
            (x & 0xff) as u8,
        ];
        assert(r@ =~= u32_le(x).reverse());
        r
    }

    fn from_bytes_le(b: &[u8]) -> (r: u32) {
        (b[0] as u32)
            | ((b[1] as u32) << 8u32)
            | ((b[2] as u32) << 16u32)
            | ((b[3] as u32) << 24u32)
    }

    fn from_bytes_be(b: &[u8]) -> (r: u32) {
        proof {
            assert(b@.reverse()[0] == b@[3]);
            assert(b@.reverse()[1] == b@[2]);
            assert(b@.reverse()[2] == b@[1]);
            assert(b@.reverse()[3] == b@[0]);
        }
        (b[3] as u32)
            | ((b[2] as u32) << 8u32)
            | ((b[1] as u32) << 16u32)
            | ((b[0] as u32) << 24u32)
    }

    proof fn lemma_round_trip(&self) {
        lemma_u32_bits(*self);
        assert(u32_le(*self).reverse().reverse() =~= u32_le(*self));
    }
}

/// Low byte first.
pub open spec fn u64_le(x: u64) -> Seq<u8> {
    seq![
        (x & 0xff) as u8,
        ((x >> 8u64) & 0xff) as u8,
        ((x >> 16u64) & 0xff) as u8,
        ((x >> 24u64) & 0xff) as u8,
        ((x >> 32u64) & 0xff) as u8,
        ((x >> 40u64) & 0xff) as u8,
        ((x >> 48u64) & 0xff) as u8,
        ((x >> 56u64) & 0xff) as u8,
    ]
}

pub open spec fn u64_of_le(s: Seq<u8>) -> u64 {
    (s[0] as u64)
        | ((s[1] as u64) << 8u64)
        | ((s[2] as u64) << 16u64)
        | ((s[3] as u64) << 24u64)
        | ((s[4] as u64) << 32u64)
        | ((s[5] as u64) << 40u64)
        | ((s[6] as u64) << 48u64)
        | ((s[7] as u64) << 56u64)
}

proof fn lemma_u64_bits(x: u64)
    ensures
        (((x & 0xff) as u8) as u64)
            | (((((x >> 8u64) & 0xff) as u8) as u64) << 8u64)
            | (((((x >> 16u64) & 0xff) as u8) as u64) << 16u64)
            | (((((x >> 24u64) & 0xff) as u8) as u64) << 24u64)
            | (((((x >> 32u64) & 0xff) as u8) as u64) << 32u64)
            | (((((x >> 40u64) & 0xff) as u8) as u64) << 40u64)
            | (((((x >> 48u64) & 0xff) as u8) as u64) << 48u64)
            | (((((x >> 56u64) & 0xff) as u8) as u64) << 56u64) == x,
{
    assert((((x & 0xff) as u8) as u64)
        | (((((x >> 8u64) & 0xff) as u8) as u64) << 8u64)
        | (((((x >> 16u64) & 0xff) as u8) as u64) << 16u64)
        | (((((x >> 24u64) & 0xff) as u8) as u64) << 24u64)
        | (((((x >> 32u64) & 0xff) as u8) as u64) << 32u64)
        | (((((x >> 40u64) & 0xff) as u8) as u64) << 40u64)
        | (((((x >> 48u64) & 0xff) as u8) as u64) << 48u64)
        | (((((x >> 56u64) & 0xff) as u8) as u64) << 56u64) == x) by (bit_vector);
}

impl HasBytes for u64 {
    open spec fn width() -> nat {
        8
    }

    open spec fn le_bytes(&self) -> Seq<u8> {
        u64_le(*self)
    }

    open spec fn be_bytes(&self) -> Seq<u8> {
        u64_le(*self).reverse()
    }

    open spec fn decode_le(s: Seq<u8>) -> u64 {
        u64_of_le(s)
    }

    open spec fn decode_be(s: Seq<u8>) -> u64 {
        u64_of_le(s.reverse())
    }

    open spec fn wf(&self) -> bool {
        true
    }

    fn byte_width() -> (r: usize) {
        8
    }

    fn as_bytes_le(&self) -> (r: Vec<u8>) {
        let x = *self;
        let r = vec![
            (x & 0xff) as u8,
            ((x >> 8u64) & 0xff) as u8,
            ((x >> 16u64) & 0xff) as u8,
            ((x >> 24u64) & 0xff) as u8,
            ((x >> 32u64) & 0xff) as u8,
            ((x >> 40u64) & 0xff) as u8,
            ((x >> 48u64) & 0xff) as u8,
            ((x >> 56u64) & 0xff) as u8,
        ];
        assert(r@ =~= u64_le(x));
        r
    }

    fn as_bytes_be(&self) -> (r: Vec<u8>) {
        let x = *self;
        let r = vec![
            ((x >> 56u64) & 0xff) as u8,
            ((x >> 48u64) & 0xff) as u8,
            ((x >> 40u64) & 0xff) as u8,
            ((x >> 32u64) & 0xff) as u8,
            ((x >> 24u64) & 0xff) as u8,
            ((x >> 16u64) & 0xff) as u8,
            ((x >> 8u64) & 0xff) as u8,
            (x & 0xff) as u8,
        ];
        assert(r@ =~= u64_le(x).reverse());
        r
    }

    fn from_bytes_le(b: &[u8]) -> (r: u64) {
        (b[0] as u64)
            | ((b[1] as u64) << 8u64)
            | ((b[2] as u64) << 16u64)
            | ((b[3] as u64) << 24u64)
            | ((b[4] as u64) << 32u64)
            | ((b[5] as u64) << 40u64)
            | ((b[6] as u64) << 48u64)
            | ((b[7] as u64) << 56u64)
    }

    fn from_bytes_be(b: &[u8]) -> (r: u64) {
        proof {
            assert(b@.reverse()[0] == b@[7]);
            assert(b@.reverse()[1] == b@[6]);
            assert(b@.reverse()[2] == b@[5]);
            assert(b@.reverse()[3] == b@[4]);
            assert(b@.reverse()[4] == b@[3]);
            assert(b@.reverse()[5] == b@[2]);
            assert(b@.reverse()[6] == b@[1]);
            assert(b@.reverse()[7] == b@[0]);
        }
        (b[7] as u64)
            | ((b[6] as u64) << 8u64)
            | ((b[5] as u64) << 16u64)
            | ((b[4] as u64) << 24u64)
            | ((b[3] as u64) << 32u64)
            | ((b[2] as u64) << 40u64)
            | ((b[1] as u64) << 48u64)
            | ((b[0] as u64) << 56u64)
    }

    proof fn lemma_round_trip(&self) {
        lemma_u64_bits(*self);
        assert(u64_le(*self).reverse().reverse() =~= u64_le(*self));
    }
}

impl HasBytes for i8 {
    open spec fn width() -> nat {
        1
    }

    open spec fn le_bytes(&self) -> Seq<u8> {
        seq![*self as u8]
    }

    open spec fn be_bytes(&self) -> Seq<u8> {
        seq![*self as u8]
    }

    open spec fn decode_le(s: Seq<u8>) -> i8 {
        s[0] as i8
    }

    open spec fn decode_be(s: Seq<u8>) -> i8 {
        s[0] as i8
    }

    open spec fn wf(&self) -> bool {
        true
    }

    fn byte_width() -> (r: usize) {
        1
    }

    fn as_bytes_le(&self) -> (r: Vec<u8>) {
        let r = vec![*self as u8];
        assert(r@ =~= seq![*self as u8]);
        r
    }

    fn as_bytes_be(&self) -> (r: Vec<u8>) {
        let r = vec![*self as u8];
        assert(r@ =~= seq![*self as u8]);
        r
    }

    fn from_bytes_le(b: &[u8]) -> (r: i8) {
        b[0] as i8
    }

    fn from_bytes_be(b: &[u8]) -> (r: i8) {
        b[0] as i8
    }

    proof fn lemma_round_trip(&self) {
        let x = *self;
        assert(((x as u8) as i8) == x) by (bit_vector);
    }
}

/// Two's complement, through the unsigned type of the same width.
impl HasBytes for i16 {
    open spec fn width() -> nat {
        2
    }

    open spec fn le_bytes(&self) -> Seq<u8> {
        u16_le(*self as u16)
    }

    open spec fn be_bytes(&self) -> Seq<u8> {
        u16_le(*self as u16).reverse()
    }

    open spec fn decode_le(s: Seq<u8>) -> i16 {
        u16_of_le(s) as i16
    }

    open spec fn decode_be(s: Seq<u8>) -> i16 {
        u16_of_le(s.reverse()) as i16
    }

    open spec fn wf(&self) -> bool {
        true
    }

    fn byte_width() -> (r: usize) {
        2
    }

    fn as_bytes_le(&self) -> (r: Vec<u8>) {
        (*self as u16).as_bytes_le()
    }

    fn as_bytes_be(&self) -> (r: Vec<u8>) {
        (*self as u16).as_bytes_be()
    }

    fn from_bytes_le(b: &[u8]) -> (r: i16) {
        u16::from_bytes_le(b) as i16
    }

    fn from_bytes_be(b: &[u8]) -> (r: i16) {
        u16::from_bytes_be(b) as i16
    }

    proof fn lemma_round_trip(&self) {
        let x = *self;
        (x as u16).lemma_round_trip();
        assert(((x as u16) as i16) == x) by (bit_vector);
    }
}

/// Two's complement, through the unsigned type of the same width.
impl HasBytes for i32 {
    open spec fn width() -> nat {
        4
    }

    open spec fn le_bytes(&self) -> Seq<u8> {
        u32_le(*self as u32)
    }

    open spec fn be_bytes(&self) -> Seq<u8> {
        u32_le(*self as u32).reverse()
    }

    open spec fn decode_le(s: Seq<u8>) -> i32 {
        u32_of_le(s) as i32
    }

    open spec fn decode_be(s: Seq<u8>) -> i32 {
        u32_of_le(s.reverse()) as i32
    }

    open spec fn wf(&self) -> bool {
        true
    }

    fn byte_width() -> (r: usize) {
        4
    }

    fn as_bytes_le(&self) -> (r: Vec<u8>) {
        (*self as u32).as_bytes_le()
    }

    fn as_bytes_be(&self) -> (r: Vec<u8>) {
        (*self as u32).as_bytes_be()
    }

    fn from_bytes_le(b: &[u8]) -> (r: i32) {
        u32::from_bytes_le(b) as i32
    }

    fn from_bytes_be(b: &[u8]) -> (r: i32) {
        u32::from_bytes_be(b) as i32
    }

    proof fn lemma_round_trip(&self) {
        let x = *self;
        (x as u32).lemma_round_trip();
        assert(((x as u32) as i32) == x) by (bit_vector);
    }
}

/// Two's complement, through the unsigned type of the same width.
impl HasBytes for i64 {
    open spec fn width() -> nat {
        8
    }

    open spec fn le_bytes(&self) -> Seq<u8> {
        u64_le(*self as u64)
    }

    open spec fn be_bytes(&self) -> Seq<u8> {
        u64_le(*self as u64).reverse()
    }

    open spec fn decode_le(s: Seq<u8>) -> i64 {
        u64_of_le(s) as i64
    }

    open spec fn decode_be(s: Seq<u8>) -> i64 {
        u64_of_le(s.reverse()) as i64
    }

    open spec fn wf(&self) -> bool {
        true
    }

    fn byte_width() -> (r: usize) {
        8
    }

    fn as_bytes_le(&self) -> (r: Vec<u8>) {
        (*self as u64).as_bytes_le()
    }

    fn as_bytes_be(&self) -> (r: Vec<u8>) {
        (*self as u64).as_bytes_be()
    }

    fn from_bytes_le(b: &[u8]) -> (r: i64) {
        u64::from_bytes_le(b) as i64
    }

    fn from_bytes_be(b: &[u8]) -> (r: i64) {
        u64::from_bytes_be(b) as i64
    }

    proof fn lemma_round_trip(&self) {
        let x = *self;
        (x as u64).lemma_round_trip();
        assert(((x as u64) as i64) == x) by (bit_vector);
    }
}

/// Low byte first.
pub open spec fn u128_le(x: u128) -> Seq<u8> {
    seq![
        (x & 0xff) as u8,
        ((x >> 8u128) & 0xff) as u8,
        ((x >> 16u128) & 0xff) as u8,
        ((x >> 24u128) & 0xff) as u8,
        ((x >> 32u128) & 0xff) as u8,
        ((x >> 40u128) & 0xff) as u8,
        ((x >> 48u128) & 0xff) as u8,
        ((x >> 56u128) & 0xff) as u8,
        ((x >> 64u128) & 0xff) as u8,
        ((x >> 72u128) & 0xff) as u8,
        ((x >> 80u128) & 0xff) as u8,
        ((x >> 88u128) & 0xff) as u8,
        ((x >> 96u128) & 0xff) as u8,
        ((x >> 104u128) & 0xff) as u8,
        ((x >> 112u128) & 0xff) as u8,
        ((x >> 120u128) & 0xff) as u8,
    ]
}

pub open spec fn u128_of_le(s: Seq<u8>) -> u128 {
    (s[0] as u128)
        | ((s[1] as u128) << 8u128)
        | ((s[2] as u128) << 16u128)
        | ((s[3] as u128) << 24u128)
        | ((s[4] as u128) << 32u128)
        | ((s[5] as u128) << 40u128)
        | ((s[6] as u128) << 48u128)
        | ((s[7] as u128) << 56u128)
        | ((s[8] as u128) << 64u128)
        | ((s[9] as u128) << 72u128)
        | ((s[10] as u128) << 80u128)
        | ((s[11] as u128) << 88u128)
        | ((s[12] as u128) << 96u128)
        | ((s[13] as u128) << 104u128)
        | ((s[14] as u128) << 112u128)
        | ((s[15] as u128) << 120u128)
}

proof fn lemma_u128_bits(x: u128)
    ensures
        (((x & 0xff) as u8) as u128)
            | (((((x >> 8u128) & 0xff) as u8) as u128) << 8u128)
            | (((((x >> 16u128) & 0xff) as u8) as u128) << 16u128)
            | (((((x >> 24u128) & 0xff) as u8) as u128) << 24u128)
            | (((((x >> 32u128) & 0xff) as u8) as u128) << 32u128)
            | (((((x >> 40u128) & 0xff) as u8) as u128) << 40u128)
            | (((((x >> 48u128) & 0xff) as u8) as u128) << 48u128)
            | (((((x >> 56u128) & 0xff) as u8) as u128) << 56u128)
            | (((((x >> 64u128) & 0xff) as u8) as u128) << 64u128)
            | (((((x >> 72u128) & 0xff) as u8) as u128) << 72u128)
            | (((((x >> 80u128) & 0xff) as u8) as u128) << 80u128)
            | (((((x >> 88u128) & 0xff) as u8) as u128) << 88u128)
            | (((((x >> 96u128) & 0xff) as u8) as u128) << 96u128)
            | (((((x >> 104u128) & 0xff) as u8) as u128) << 104u128)
            | (((((x >> 112u128) & 0xff) as u8) as u128) << 112u128)
            | (((((x >> 120u128) & 0xff) as u8) as u128) << 120u128) == x,
{
    assert((((x & 0xff) as u8) as u128)
        | (((((x >> 8u128) & 0xff) as u8) as u128) << 8u128)
        | (((((x >> 16u128) & 0xff) as u8) as u128) << 16u128)
        | (((((x >> 24u128) & 0xff) as u8) as u128) << 24u128)
        | (((((x >> 32u128) & 0xff) as u8) as u128) << 32u128)
        | (((((x >> 40u128) & 0xff) as u8) as u128) << 40u128)
        | (((((x >> 48u128) & 0xff) as u8) as u128) << 48u128)
        | (((((x >> 56u128) & 0xff) as u8) as u128) << 56u128)
        | (((((x >> 64u128) & 0xff) as u8) as u128) << 64u128)
        | (((((x >> 72u128) & 0xff) as u8) as u128) << 72u128)
        | (((((x >> 80u128) & 0xff) as u8) as u128) << 80u128)
        | (((((x >> 88u128) & 0xff) as u8) as u128) << 88u128)
        | (((((x >> 96u128) & 0xff) as u8) as u128) << 96u128)
        | (((((x >> 104u128) & 0xff) as u8) as u128) << 104u128)
        | (((((x >> 112u128) & 0xff) as u8) as u128) << 112u128)
        | (((((x >> 120u128) & 0xff) as u8) as u128) << 120u128) == x) by (bit_vector);
}

impl HasBytes for u128 {
    open spec fn width() -> nat {
        16
    }

    open spec fn le_bytes(&self) -> Seq<u8> {
        u128_le(*self)
    }

    open spec fn be_bytes(&self) -> Seq<u8> {
        u128_le(*self).reverse()
    }

    open spec fn decode_le(s: Seq<u8>) -> u128 {
        u128_of_le(s)
    }

    open spec fn decode_be(s: Seq<u8>) -> u128 {
        u128_of_le(s.reverse())
    }

    open spec fn wf(&self) -> bool {
        true
    }

    fn byte_width() -> (r: usize) {
        16
    }

    fn as_bytes_le(&self) -> (r: Vec<u8>) {
        let x = *self;
        let r = vec![
            (x & 0xff) as u8,
            ((x >> 8u128) & 0xff) as u8,
            ((x >> 16u128) & 0xff) as u8,
            ((x >> 24u128) & 0xff) as u8,
            ((x >> 32u128) & 0xff) as u8,
            ((x >> 40u128) & 0xff) as u8,
            ((x >> 48u128) & 0xff) as u8,
            ((x >> 56u128) & 0xff) as u8,
            ((x >> 64u128) & 0xff) as u8,
            ((x >> 72u128) & 0xff) as u8,
            ((x >> 80u128) & 0xff) as u8,
            ((x >> 88u128) & 0xff) as u8,
            ((x >> 96u128) & 0xff) as u8,
            ((x >> 104u128) & 0xff) as u8,
            ((x >> 112u128) & 0xff) as u8,
            ((x >> 120u128) & 0xff) as u8,
        ];
        assert(r@ =~= u128_le(x));
        r
    }

    fn as_bytes_be(&self) -> (r: Vec<u8>) {
        let x = *self;
        let r = vec![
            ((x >> 120u128) & 0xff) as u8,
            ((x >> 112u128) & 0xff) as u8,
            ((x >> 104u128) & 0xff) as u8,
            ((x >> 96u128) & 0xff) as u8,
            ((x >> 88u128) & 0xff) as u8,
            ((x >> 80u128) & 0xff) as u8,
            ((x >> 72u128) & 0xff) as u8,
            ((x >> 64u128) & 0xff) as u8,
            ((x >> 56u128) & 0xff) as u8,
            ((x >> 48u128) & 0xff) as u8,
            ((x >> 40u128) & 0xff) as u8,
            ((x >> 32u128) & 0xff) as u8,
            ((x >> 24u128) & 0xff) as u8,
            ((x >> 16u128) & 0xff) as u8,
            ((x >> 8u128) & 0xff) as u8,
            (x & 0xff) as u8,
        ];
        assert(r@ =~= u128_le(x).reverse());
        r
    }

    fn from_bytes_le(b: &[u8]) -> (r: u128) {
        (b[0] as u128)
            | ((b[1] as u128) << 8u128)
            | ((b[2] as u128) << 16u128)
            | ((b[3] as u128) << 24u128)
            | ((b[4] as u128) << 32u128)
            | ((b[5] as u128) << 40u128)
            | ((b[6] as u128) << 48u128)
            | ((b[7] as u128) << 56u128)
            | ((b[8] as u128) << 64u128)
            | ((b[9] as u128) << 72u128)
            | ((b[10] as u128) << 80u128)
            | ((b[11] as u128) << 88u128)
            | ((b[12] as u128) << 96u128)
            | ((b[13] as u128) << 104u128)
            | ((b[14] as u128) << 112u128)
            | ((b[15] as u128) << 120u128)
    }

    fn from_bytes_be(b: &[u8]) -> (r: u128) {
        proof {
            assert(b@.reverse()[0] == b@[15]);
            assert(b@.reverse()[1] == b@[14]);
            assert(b@.reverse()[2] == b@[13]);
            assert(b@.reverse()[3] == b@[12]);
            assert(b@.reverse()[4] == b@[11]);
            assert(b@.reverse()[5] == b@[10]);
            assert(b@.reverse()[6] == b@[9]);
            assert(b@.reverse()[7] == b@[8]);
            assert(b@.reverse()[8] == b@[7]);
            assert(b@.reverse()[9] == b@[6]);
            assert(b@.reverse()[10] == b@[5]);
            assert(b@.reverse()[11] == b@[4]);
            assert(b@.reverse()[12] == b@[3]);
            assert(b@.reverse()[13] == b@[2]);
            assert(b@.reverse()[14] == b@[1]);
            assert(b@.reverse()[15] == b@[0]);
        }
        (b[15] as u128)
            | ((b[14] as u128) << 8u128)
            | ((b[13] as u128) << 16u128)
            | ((b[12] as u128) << 24u128)
            | ((b[11] as u128) << 32u128)
            | ((b[10] as u128) << 40u128)
            | ((b[9] as u128) << 48u128)
            | ((b[8] as u128) << 56u128)
            | ((b[7] as u128) << 64u128)
            | ((b[6] as u128) << 72u128)
            | ((b[5] as u128) << 80u128)
            | ((b[4] as u128) << 88u128)
            | ((b[3] as u128) << 96u128)
            | ((b[2] as u128) << 104u128)
            | ((b[1] as u128) << 112u128)
            | ((b[0] as u128) << 120u128)
    }

    proof fn lemma_round_trip(&self) {
        lemma_u128_bits(*self);
        assert(u128_le(*self).reverse().reverse() =~= u128_le(*self));
    }
}

/// Two's complement, through the unsigned type of the same width.
impl HasBytes for i128 {
    open spec fn width() -> nat {
        16
    }

    open spec fn le_bytes(&self) -> Seq<u8> {
        u128_le(*self as u128)
    }

    open spec fn be_bytes(&self) -> Seq<u8> {
        u128_le(*self as u128).reverse()
    }

    open spec fn decode_le(s: Seq<u8>) -> i128 {
        u128_of_le(s) as i128
    }

    open spec fn decode_be(s: Seq<u8>) -> i128 {
        u128_of_le(s.reverse()) as i128
    }

    open spec fn wf(&self) -> bool {
        true
    }

    fn byte_width() -> (r: usize) {
        16
    }

    fn as_bytes_le(&self) -> (r: Vec<u8>) {
        (*self as u128).as_bytes_le()
    }

    fn as_bytes_be(&self) -> (r: Vec<u8>) {
        (*self as u128).as_bytes_be()
    }

    fn from_bytes_le(b: &[u8]) -> (r: i128) {
        u128::from_bytes_le(b) as i128
    }

    fn from_bytes_be(b: &[u8]) -> (r: i128) {
        u128::from_bytes_be(b) as i128
    }

    proof fn lemma_round_trip(&self) {
        let x = *self;
        (x as u128).lemma_round_trip();
        assert(((x as u128) as i128) == x) by (bit_vector);
    }
}

/// The value of `T` encoded in `order` at offset `off` of `s`.
pub open spec fn field_at<T: HasBytes>(order: ByteOrder, s: Seq<u8>, off: int) -> T {
    decode::<T>(order, s.subrange(off, off + T::width()))
}

/// Failure to read a value from a byte source.
#[derive(Clone, Copy, PartialEq, Eq, Structural, Debug)]
pub enum ReadError {
    /// Fewer bytes were available than the value needs.
    UnexpectedEof,
}

/// Bytes waiting to be read, decoded in one byte order.
pub struct ByteSource {
    order: ByteOrder,
    data: Vec<u8>,
    pos: usize,
}

impl View for ByteSource {
    type V = Seq<u8>;

    /// The bytes not yet read.
    closed spec fn view(&self) -> Seq<u8> {
        self.data@.subrange(self.pos as int, self.data@.len() as int)
    }
}

impl ByteSource {
    #[verifier::type_invariant]
    closed spec fn inv(self) -> bool {
        self.pos <= self.data.len()
    }

    pub closed spec fn byte_order(&self) -> ByteOrder {
        self.order
    }

    pub fn new(order: ByteOrder, data: Vec<u8>) -> (r: ByteSource)
        ensures
            r@ == data@,
            r.byte_order() == order,
    {
        let r = ByteSource { order, data, pos: 0 };
        assert(r@ =~= r.data@);
        r
    }

    pub fn order(&self) -> (r: ByteOrder)
        ensures
            r == self.byte_order(),
    {
        self.order
    }

    /// Number of bytes not yet read.
    pub fn remaining(&self) -> (r: usize)
        ensures
            r == self@.len(),
    {
        proof {
            use_type_invariant(self);
        }
        self.data.len() - self.pos
    }

    /// Reads exactly `n` bytes, or nothing when fewer are available.
    pub fn read_bytes(&mut self, n: usize) -> (r: Result<Vec<u8>, ReadError>)
        ensures
            final(self).byte_order() == old(self).byte_order(),
            match r {
                Ok(v) => {
                    &&& n <= old(self)@.len()
                    &&& v@ == old(self)@.take(n as int)
                    &&& final(self)@ == old(self)@.skip(n as int)
                },
                Err(e) => {
                    &&& n > old(self)@.len()
                    &&& e == ReadError::UnexpectedEof
                    &&& final(self)@ == old(self)@
                },
            },
    {
        proof {
            use_type_invariant(&*self);
        }
        if n > self.data.len() - self.pos {
            return Err(ReadError::UnexpectedEof);
        }
        let ghost before = self@;
        let mut v: Vec<u8> = Vec::new();
        let mut i: usize = 0;
        while i < n
            invariant
                i <= n,
                self.pos + n <= self.data.len(),
                before == self.data@.subrange(self.pos as int, self.data@.len() as int),
                v@ == before.take(i as int),
            decreases n - i,
        {
            v.push(self.data[self.pos + i]);
            i = i + 1;
            assert(v@ =~= before.take(i as int));
        }
        self.pos = self.pos + n;
        assert(self@ =~= before.skip(n as int));
        Ok(v)
    }

    /// Decodes the value of `T` that starts `off` bytes ahead, without reading it.
    pub fn peek<T: HasBytes>(&self, off: usize) -> (r: T)
        requires
            off + T::width() <= self@.len(),
        ensures
            r == field_at::<T>(self.byte_order(), self@, off as int),
    {
        proof {
            use_type_invariant(self);
        }
        let w = T::byte_width();
        let ghost part = self@.subrange(off as int, off + w);
        let mut v: Vec<u8> = Vec::new();
        let mut i: usize = 0;
        while i < w
            invariant
                i <= w,
                w == T::width(),
                self.pos + off + w <= self.data.len(),
                self@ == self.data@.subrange(self.pos as int, self.data@.len() as int),
                part == self@.subrange(off as int, off + w),
                v@ == part.take(i as int),
            decreases w - i,
        {
            v.push(self.data[self.pos + off + i]);
            i = i + 1;
            assert(v@ =~= part.take(i as int));
        }
        assert(v@ =~= part);
        match self.order {
            ByteOrder::LittleEndian => T::from_bytes_le(v.as_slice()),
            ByteOrder::BigEndian => T::from_bytes_be(v.as_slice()),
        }
    }

    /// Discards exactly `n` bytes, or nothing when fewer are available.
    pub fn skip(&mut self, n: usize) -> (r: Result<(), ReadError>)
        ensures
            final(self).byte_order() == old(self).byte_order(),
            match r {
                Ok(()) => {
                    &&& n <= old(self)@.len()
                    &&& final(self)@ == old(self)@.skip(n as int)
                },
                Err(e) => {
                    &&& n > old(self)@.len()
                    &&& e == ReadError::UnexpectedEof
                    &&& final(self)@ == old(self)@
                },
            },
    {
        proof {
            use_type_invariant(&*self);
        }
        if n > self.data.len() - self.pos {
            return Err(ReadError::UnexpectedEof);
        }
        let ghost before = self@;
        self.pos = self.pos + n;
        assert(self@ =~= before.skip(n as int));
        Ok(())
    }

    /// Reads every byte that is left.
    pub fn read_to_end(&mut self) -> (r: Vec<u8>)
        ensures
            final(self).byte_order() == old(self).byte_order(),
            r@ == old(self)@,
            final(self)@ == Seq::<u8>::empty(),
    {
        let n = self.remaining();
        match self.read_bytes(n) {
            Ok(v) => {
                assert(old(self)@.take(n as int) =~= old(self)@);
                assert(self@ =~= Seq::<u8>::empty());
                v
            },
            Err(_) => Vec::new(),
        }
    }
}

/// Bytes written so far, encoded in one byte order.
pub struct ByteSink {
    order: ByteOrder,
    data: Vec<u8>,
}

impl View for ByteSink {
    type V = Seq<u8>;

    closed spec fn view(&self) -> Seq<u8> {
        self.data@
    }
}

impl ByteSink {
    pub closed spec fn byte_order(&self) -> ByteOrder {
        self.order
    }

    pub fn new(order: ByteOrder) -> (r: ByteSink)
        ensures
            r@ == Seq::<u8>::empty(),
            r.byte_order() == order,
    {
        ByteSink { order, data: Vec::new() }
    }

    pub fn order(&self) -> (r: ByteOrder)
        ensures
            r == self.byte_order(),
    {
        self.order
    }

    pub fn len(&self) -> (r: usize)
        ensures
            r == self@.len(),
    {
        self.data.len()
    }

    pub fn as_slice(&self) -> (r: &[u8])
        ensures
            r@ == self@,
    {
        self.data.as_slice()
    }

    pub fn into_bytes(self) -> (r: Vec<u8>)
        ensures
            r@ == self@,
    {
        self.data
    }

    /// Appends raw bytes with no padding.
    pub fn write_bytes(&mut self, bytes: &[u8])
        ensures
            final(self).byte_order() == old(self).byte_order(),
            final(self)@ == old(self)@ + bytes@,
    {
        let mut i: usize = 0;
        while i < bytes.len()
            invariant
                i <= bytes@.len(),
                self.order == old(self).order,
                self.data@ == old(self).data@ + bytes@.take(i as int),
            decreases bytes.len() - i,
        {
            self.data.push(bytes[i]);
            i = i + 1;
            assert(self.data@ =~= old(self).data@ + bytes@.take(i as int));
        }
        assert(bytes@.take(i as int) =~= bytes@);
    }
}

/// Writes `prim` in the sink's byte order, with no padding.
pub fn write_primitive<T: HasBytes>(file: &mut ByteSink, prim: T)
    ensures
        final(file).byte_order() == old(file).byte_order(),
        final(file)@ == old(file)@ + encode(old(file).byte_order(), prim),
{
    let order = file.order();
    write_primitive_alt(file, prim, order);
}

/// Writes `prim` in the given byte order, whatever the sink's own.
pub fn write_primitive_alt<T: HasBytes>(file: &mut ByteSink, prim: T, order: ByteOrder)
    ensures
        final(file).byte_order() == old(file).byte_order(),
        final(file)@ == old(file)@ + encode(order, prim),
{
    let bytes = match order {
        ByteOrder::LittleEndian => prim.as_bytes_le(),
        ByteOrder::BigEndian => prim.as_bytes_be(),
    };
    file.write_bytes(bytes.as_slice());
}

/// Reads one value of `T` in the source's byte order.
pub fn read_primitive<T: HasBytes>(file: &mut ByteSource) -> (r: Result<T, ReadError>)
    ensures
        final(file).byte_order() == old(file).byte_order(),
        match r {
            Ok(v) => {
                &&& T::width() <= old(file)@.len()
                &&& v == decode::<T>(old(file).byte_order(), old(file)@.take(T::width() as int))
                &&& final(file)@ == old(file)@.skip(T::width() as int)
            },
            Err(e) => {
                &&& T::width() > old(file)@.len()
                &&& e == ReadError::UnexpectedEof
                &&& final(file)@ == old(file)@
            },
        },
{
    let w = T::byte_width();
    let bytes = file.read_bytes(w)?;
    match file.order() {
        ByteOrder::LittleEndian => Ok(T::from_bytes_le(bytes.as_slice())),
        ByteOrder::BigEndian => Ok(T::from_bytes_be(bytes.as_slice())),
    }
}

/// The `i`-th of consecutive values of `T` encoded at the front of `s`.
pub open spec fn element_at<T: HasBytes>(order: ByteOrder, s: Seq<u8>, i: int) -> T {
    decode::<T>(order, s.subrange(i * T::width(), (i + 1) * T::width()))
}

/// Reads `len` consecutive values of `T`; reads nothing when the bytes run short.
pub fn read_primitive_list<T: HasBytes>(socket: &mut ByteSource, len: usize) -> (r: Result<
    Vec<T>,
    ReadError,
>)
    ensures
        final(socket).byte_order() == old(socket).byte_order(),
        match r {
            Ok(v) => {
                &&& len * T::width() <= old(socket)@.len()
                &&& v@.len() == len
                &&& forall|i: int|
                    0 <= i < len ==> #[trigger] v@[i] == element_at::<T>(
                        old(socket).byte_order(),
                        old(socket)@,
                        i,
                    )
                &&& final(socket)@ == old(socket)@.skip(len * T::width())
            },
            Err(e) => {
                &&& len * T::width() > old(socket)@.len()
                &&& e == ReadError::UnexpectedEof
                &&& final(socket)@ == old(socket)@
            },
        },
{
    let w = T::byte_width();
    let avail = socket.remaining();
    if w > 0 && len > avail / w {
        proof {
            assert(len * w > avail) by (nonlinear_arith)
                requires
                    w > 0,
                    len > avail / w,
            ;
        }
        return Err(ReadError::UnexpectedEof);
    }
    proof {
        if w > 0 {
            assert(len * w <= avail) by (nonlinear_arith)
                requires
                    w > 0,
                    len <= avail / w,
            ;
        } else {
            assert(len * w == 0) by (nonlinear_arith)
                requires
                    w == 0,
            ;
        }
    }
    let ghost start = socket@;
    let ghost order = socket.byte_order();
    let mut v: Vec<T> = Vec::new();
    let mut i: usize = 0;
    while i < len
        invariant
            i <= len,
            len * w <= start.len(),
            w == T::width(),
            socket.byte_order() == order,
            socket@ == start.skip(i * w),
            v@.len() == i,
            forall|k: int| 0 <= k < i ==> #[trigger] v@[k] == element_at::<T>(order, start, k),
        decreases len - i,
    {
        proof {
            assert((i + 1) * w <= len * w) by (nonlinear_arith)
                requires
                    i < len,
            ;
            assert((i + 1) * w == i * w + w) by (nonlinear_arith);
        }
        let x = match read_primitive::<T>(socket) {
            Ok(x) => x,
            Err(e) => {
                return Err(e);
            },
        };
        proof {
            assert(start.skip(i * w).take(w as int) =~= start.subrange(i * w, (i + 1) * w));
            assert(socket@ =~= start.skip((i + 1) * w));
        }
        v.push(x);
        i = i + 1;
    }
    Ok(v)
}

/// Number of zero bytes that bring a field of `n` bytes to a multiple of four.
pub open spec fn pad(n: nat) -> nat {
    ((4 - n % 4) % 4) as nat
}

/// Padding is under four bytes and completes a multiple of four.
pub proof fn lemma_padding(n: nat)
    ensures
        0 <= pad(n) < 4,
        (n + pad(n)) % 4 == 0,
{
}

/// The padding after a field of `n` bytes.
pub fn padding_len(n: usize) -> (r: usize)
    ensures
        r == pad(n as nat),
{
    (4 - n % 4) % 4
}

/// Writes the zero bytes that align a field of `n` bytes; returns how many.
pub fn write_padding(n: usize, out: &mut ByteSink) -> (r: usize)
    ensures
        r == pad(n as nat),
        final(out).byte_order() == old(out).byte_order(),
        final(out)@ == old(out)@ + Seq::new(r as nat, |_i: int| 0u8),
{
    let padding = padding_len(n);
    let mut i: usize = 0;
    while i < padding
        invariant
            i <= padding,
            out.byte_order() == old(out).byte_order(),
            out@ == old(out)@ + Seq::new(i as nat, |_i: int| 0u8),
        decreases padding - i,
    {
        write_primitive(out, 0u8);
        i = i + 1;
        assert(out@ =~= old(out)@ + Seq::new(i as nat, |_i: int| 0u8));
    }
    padding
}

/// Skips the padding that follows a field of `n` bytes; returns how many bytes it held.
pub fn read_padding(socket: &mut ByteSource, n: usize) -> (r: Result<usize, ReadError>)
    ensures
        final(socket).byte_order() == old(socket).byte_order(),
        match r {
            Ok(p) => {
                &&& p == pad(n as nat)
                &&& p <= old(socket)@.len()
                &&& final(socket)@ == old(socket)@.skip(p as int)
            },
            Err(e) => {
                &&& pad(n as nat) > old(socket)@.len()
                &&& e == ReadError::UnexpectedEof
                &&& final(socket)@ == old(socket)@
            },
        },
{
    let padding = padding_len(n);
    let _skipped = socket.read_bytes(padding)?;
    Ok(padding)
}

/// Discards what is left of a message, so that the next read starts at a message boundary.
pub fn flush_read(file: &mut ByteSource)
    ensures
        final(file).byte_order() == old(file).byte_order(),
        final(file)@ == Seq::<u8>::empty(),
{
    let _rest = file.read_to_end();
}

/// The text whose characters are the bytes of `s`, one each.
pub open spec fn ascii_text(s: Seq<u8>) -> Seq<char> {
    s.map_values(|b: u8| b as char)
}

/// Relies on String::push: appends one character at the end.
#[verifier::external_body]
fn push_char(s: &mut String, c: char)
    ensures
        final(s)@ == old(s)@.push(c),
{
    s.push(c)
}

/// Reads `string_len` bytes as one character each; reads nothing when they run short.
pub fn read_ascii_string(socket: &mut ByteSource, string_len: usize) -> (r: Result<
    String,
    ReadError,
>)
    ensures
        final(socket).byte_order() == old(socket).byte_order(),
        match r {
            Ok(s) => {
                &&& string_len <= old(socket)@.len()
                &&& s@ == ascii_text(old(socket)@.take(string_len as int))
                &&& final(socket)@ == old(socket)@.skip(string_len as int)
            },
            Err(e) => {
                &&& string_len > old(socket)@.len()
                &&& e == ReadError::UnexpectedEof
                &&& final(socket)@ == old(socket)@
            },
        },
{
    let bytes = socket.read_bytes(string_len)?;
    let mut s = String::new();
    let mut i: usize = 0;
    while i < bytes.len()
        invariant
            i <= bytes@.len(),
            s@ == ascii_text(bytes@.take(i as int)),
        decreases bytes.len() - i,
    {
        push_char(&mut s, bytes[i] as char);
        i = i + 1;
        assert(s@ =~= ascii_text(bytes@.take(i as int)));
    }
    assert(bytes@.take(i as int) =~= bytes@);
    Ok(s)
}

} // verus!
