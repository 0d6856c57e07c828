//! Protocol value types and the nested screen / depth / visual records of the
//! setup reply.
use vstd::prelude::*;

use crate::xio::{field_at, ByteOrder, ByteSource, HasBytes, ReadError};

verus! {

pub type INT8 = i8;

pub type INT16 = i16;

pub type INT32 = i32;

pub type CARD8 = u8;

pub type CARD16 = u16;

pub type CARD32 = u32;

pub type BOOL = CARD8;

pub type WINDOW = Atom;

/// The 29 bits of a 32-bit word that an atom keeps.
pub const ATOM_MASK: u32 = 0x1FFFFFFF;

/// A 29-bit identifier: window ids, property names, type names.
#[derive(Clone, Copy, PartialEq, Eq, Structural, Debug)]
pub struct Atom(u32);

impl View for Atom {
    type V = u32;

    closed spec fn view(&self) -> u32 {
        self.0
    }
}

impl Atom {
    /// The value an atom holds never uses the three reserved high bits.
    pub open spec fn wf(&self) -> bool {
        self@ & ATOM_MASK == self@
    }

    pub fn value(&self) -> (r: u32)
        ensures
            r == self@,
    {
        self.0
    }

    /// The atom made from `v`.
    pub closed spec fn spec_new(v: u32) -> Atom {
        Atom(v & ATOM_MASK)
    }

    /// The atom made from `v`, with its reserved bits cleared.
    pub fn new(v: u32) -> (r: Atom)
        ensures
            r == Atom::spec_new(v),
            r@ == v & ATOM_MASK,
            r.wf(),
    {
        let r = Atom(v & ATOM_MASK);
        assert(v & ATOM_MASK & ATOM_MASK == v & ATOM_MASK) by (bit_vector);
        r
    }
}

impl From<u32> for Atom {
    fn from(v: u32) -> (r: Atom)
        ensures
            r == Atom::spec_new(v),
            r@ == v & ATOM_MASK,
    {
        Atom::new(v)
    }
}

impl vstd::std_specs::convert::FromSpecImpl<u32> for Atom {
    open spec fn obeys_from_spec() -> bool {
        true
    }

    open spec fn from_spec(v: u32) -> Atom {
        Atom::spec_new(v)
    }
}

/// An atom from any value: the value it holds is `v & ATOM_MASK`, and masking
/// again changes nothing.
pub proof fn lemma_atom_mask(v: u32)
    ensures
        Atom::spec_new(v)@ == v & ATOM_MASK,
        (v & ATOM_MASK) & ATOM_MASK == v & ATOM_MASK,
        (v & ATOM_MASK) <= ATOM_MASK,
        v <= ATOM_MASK ==> v & ATOM_MASK == v,
{
    assert((v & ATOM_MASK) & ATOM_MASK == v & ATOM_MASK) by (bit_vector);
    assert((v & ATOM_MASK) <= ATOM_MASK) by (bit_vector);
    assert(v <= ATOM_MASK ==> v & ATOM_MASK == v) by (bit_vector);
}

/// An atom goes on the wire as its 32-bit value; reading one clears the
/// reserved bits.
impl HasBytes for Atom {
    open spec fn width() -> nat {
        4
    }

    open spec fn le_bytes(&self) -> Seq<u8> {
        self@.le_bytes()
    }

    open spec fn be_bytes(&self) -> Seq<u8> {
        self@.be_bytes()
    }

    closed spec fn decode_le(s: Seq<u8>) -> Atom {
        Atom(u32::decode_le(s) & ATOM_MASK)
    }

    closed spec fn decode_be(s: Seq<u8>) -> Atom {
        Atom(u32::decode_be(s) & ATOM_MASK)
    }

    open spec fn wf(&self) -> bool {
        self@ & ATOM_MASK == self@
    }

    fn byte_width() -> (r: usize) {
        4
    }

    fn as_bytes_le(&self) -> (r: Vec<u8>) {
        self.0.as_bytes_le()
    }

    fn as_bytes_be(&self) -> (r: Vec<u8>) {
        self.0.as_bytes_be()
    }

    fn from_bytes_le(b: &[u8]) -> (r: Atom) {
        Atom::new(u32::from_bytes_le(b))
    }

    fn from_bytes_be(b: &[u8]) -> (r: Atom) {
        Atom::new(u32::from_bytes_be(b))
    }

    proof fn lemma_round_trip(&self) {
        self.0.lemma_round_trip();
    }
}

/// What a decoded atom holds: the decoded word with its reserved bits cleared.
pub proof fn lemma_atom_decode(order: ByteOrder, s: Seq<u8>, off: int)
    ensures
        field_at::<Atom>(order, s, off)@ == field_at::<u32>(order, s, off) & ATOM_MASK,
{
}

/// Server time in milliseconds; zero stands for "the current time".
#[derive(Clone, Copy, PartialEq, Eq, Structural, Debug)]
pub struct Timestamp(CARD32);

impl View for Timestamp {
    type V = u32;

    closed spec fn view(&self) -> u32 {
        self.0
    }
}

impl Timestamp {
    /// The "current time" sentinel.
    pub closed spec fn spec_current() -> Timestamp {
        Timestamp(0)
    }

    pub fn current_time() -> (r: Timestamp)
        ensures
            r == Timestamp::spec_current(),
            r@ == 0,
    {
        Timestamp(0)
    }

    pub fn new(millis: CARD32) -> (r: Timestamp)
        ensures
            r@ == millis,
    {
        Timestamp(millis)
    }

    pub fn data(&self) -> (r: CARD32)
        ensures
            r == self@,
    {
        self.0
    }
}

/// Class of a visual type.
#[derive(Clone, Copy, PartialEq, Eq, Structural, Debug)]
pub enum XClass {
    StaticGray,
    GrayScale,
    StaticColor,
    PseudoColor,
    TrueColor,
    DirectColor,
    /// A code outside the protocol's six.
    Unknown,
}

pub open spec fn class_of(code: u8) -> XClass {
    if code == 0 {
        XClass::StaticGray
    } else if code == 1 {
        XClass::GrayScale
    } else if code == 2 {
        XClass::StaticColor
    } else if code == 3 {
        XClass::PseudoColor
    } else if code == 4 {
        XClass::TrueColor
    } else if code == 5 {
        XClass::DirectColor
    } else {
        XClass::Unknown
    }
}

impl XClass {
    /// The class with wire code `code`; an unrecognised code gives `Unknown`.
    pub fn from_class_code(code: CARD8) -> (r: XClass)
        ensures
            r == class_of(code),
    {
        match code {
            0 => XClass::StaticGray,
            1 => XClass::GrayScale,
            2 => XClass::StaticColor,
            3 => XClass::PseudoColor,
            4 => XClass::TrueColor,
            5 => XClass::DirectColor,
            _ => XClass::Unknown,
        }
    }
}

/// A visual type as it stands on the wire (24 bytes).
#[derive(Clone, Copy, Debug)]
pub struct XVisualTypeIntermediate {
    pub visual_id: Atom,
    pub class: CARD8,
    pub bits_per_rgb_value: CARD8,
    pub colormap_entries: CARD16,
    pub red_mask: CARD32,
    pub green_mask: CARD32,
    pub blue_mask: CARD32,
    pub unused: CARD32,
}

/// Bytes in a visual type record.
pub const VISUAL_LEN: usize = 24;

/// `v` holds the fields of the visual type record at the front of `s`.
pub open spec fn visual_raw_matches(v: XVisualTypeIntermediate, o: ByteOrder, s: Seq<u8>) -> bool {
    &&& v.visual_id == field_at::<Atom>(o, s, 0)
    &&& v.class == field_at::<u8>(o, s, 4)
    &&& v.bits_per_rgb_value == field_at::<u8>(o, s, 5)
    &&& v.colormap_entries == field_at::<u16>(o, s, 6)
    &&& v.red_mask == field_at::<u32>(o, s, 8)
    &&& v.green_mask == field_at::<u32>(o, s, 12)
    &&& v.blue_mask == field_at::<u32>(o, s, 16)
    &&& v.unused == field_at::<u32>(o, s, 20)
}

impl XVisualTypeIntermediate {
    /// Reads one visual type record, or nothing when the bytes run short.
    pub fn from_socket(socket: &mut ByteSource) -> (r: Result<Self, ReadError>)
        ensures
            final(socket).byte_order() == old(socket).byte_order(),
            match r {
                Ok(v) => {
                    &&& VISUAL_LEN <= old(socket)@.len()
                    &&& visual_raw_matches(v, old(socket).byte_order(), old(socket)@)
                    &&& final(socket)@ == old(socket)@.skip(VISUAL_LEN as int)
                },
                Err(e) => {
                    &&& VISUAL_LEN > old(socket)@.len()
                    &&& e == ReadError::UnexpectedEof
                    &&& final(socket)@ == old(socket)@
                },
            },
    {
        if socket.remaining() < VISUAL_LEN {
            return Err(ReadError::UnexpectedEof);
        }
        let v = XVisualTypeIntermediate {
            visual_id: socket.peek(0),
            class: socket.peek(4),
            bits_per_rgb_value: socket.peek(5),
            colormap_entries: socket.peek(6),
            red_mask: socket.peek(8),
            green_mask: socket.peek(12),
            blue_mask: socket.peek(16),
            unused: socket.peek(20),
        };
        socket.skip(VISUAL_LEN)?;
        Ok(v)
    }
}

/// A visual type, its class decoded.
#[derive(Clone, Copy, Debug)]
pub struct XVisualType {
    pub visual_id: Atom,
    pub class: XClass,
    pub bits_per_rgb_value: CARD8,
    pub colormap_entries: CARD16,
    pub red_mask: CARD32,
    pub green_mask: CARD32,
    pub blue_mask: CARD32,
}

/// `v` is the visual type that the wire record `w` describes.
pub open spec fn visual_of(v: XVisualType, w: XVisualTypeIntermediate) -> bool {
    &&& v.visual_id == w.visual_id
    &&& v.class == class_of(w.class)
    &&& v.bits_per_rgb_value == w.bits_per_rgb_value
    &&& v.colormap_entries == w.colormap_entries
    &&& v.red_mask == w.red_mask
    &&& v.green_mask == w.green_mask
    &&& v.blue_mask == w.blue_mask
}

/// `v` is the visual type of the record at the front of `s`.
pub open spec fn visual_matches(v: XVisualType, o: ByteOrder, s: Seq<u8>) -> bool {
    &&& v.visual_id == field_at::<Atom>(o, s, 0)
    &&& v.class == class_of(field_at::<u8>(o, s, 4))
    &&& v.bits_per_rgb_value == field_at::<u8>(o, s, 5)
    &&& v.colormap_entries == field_at::<u16>(o, s, 6)
    &&& v.red_mask == field_at::<u32>(o, s, 8)
    &&& v.green_mask == field_at::<u32>(o, s, 12)
    &&& v.blue_mask == field_at::<u32>(o, s, 16)
}

impl XVisualType {
    pub fn from_intermediate(inter: XVisualTypeIntermediate) -> (r: XVisualType)
        ensures
            visual_of(r, inter),
    {
        XVisualType {
            visual_id: inter.visual_id,
            class: XClass::from_class_code(inter.class),
            bits_per_rgb_value: inter.bits_per_rgb_value,
            colormap_entries: inter.colormap_entries,
            red_mask: inter.red_mask,
            green_mask: inter.green_mask,
            blue_mask: inter.blue_mask,
        }
    }
}


/// Bytes in a pixmap format record.
pub const FORMAT_LEN: usize = 8;

/// A pixmap format: depth, bits per pixel and scanline padding.
#[derive(Clone, Copy, Debug)]
pub struct XFormat {
    pub depth: CARD8,
    pub bits_per_pixel: CARD8,
    pub scanline_pad: CARD8,
}

/// `f` holds the fields of the pixmap format record at the front of `s`.
pub open spec fn format_matches(f: XFormat, o: ByteOrder, s: Seq<u8>) -> bool {
    &&& f.depth == field_at::<u8>(o, s, 0)
    &&& f.bits_per_pixel == field_at::<u8>(o, s, 1)
    &&& f.scanline_pad == field_at::<u8>(o, s, 2)
}

impl XFormat {
    /// Reads one pixmap format record (its five unused bytes included), or
    /// nothing when the bytes run short.
    pub fn from_socket(socket: &mut ByteSource) -> (r: Result<Self, ReadError>)
        ensures
            final(socket).byte_order() == old(socket).byte_order(),
            match r {
                Ok(f) => {
                    &&& FORMAT_LEN <= old(socket)@.len()
                    &&& format_matches(f, old(socket).byte_order(), old(socket)@)
                    &&& final(socket)@ == old(socket)@.skip(FORMAT_LEN as int)
                },
                Err(e) => {
                    &&& FORMAT_LEN > old(socket)@.len()
                    &&& e == ReadError::UnexpectedEof
                    &&& final(socket)@ == old(socket)@
                },
            },
    {
        if socket.remaining() < FORMAT_LEN {
            return Err(ReadError::UnexpectedEof);
        }
        let f = XFormat {
            depth: socket.peek(0),
            bits_per_pixel: socket.peek(1),
            scanline_pad: socket.peek(2),
        };
        socket.skip(FORMAT_LEN)?;
        Ok(f)
    }
}

/// Bytes in a depth record before its visual types.
pub const DEPTH_HEADER_LEN: usize = 8;

/// A depth and the visual types that it supports.
#[derive(Clone, Debug)]
pub struct XDepth {
    pub depth: CARD8,
    pub unused_0: CARD8,
    pub number_of_visual_types: CARD16,
    pub unused_1: CARD32,
    pub visuals: Vec<XVisualType>,
}

/// Length in bytes of the depth record at the front of `s`.
pub open spec fn depth_len(o: ByteOrder, s: Seq<u8>) -> int {
    DEPTH_HEADER_LEN + VISUAL_LEN * field_at::<u16>(o, s, 2)
}

/// `s` begins with a whole depth record.
pub open spec fn depth_fits(o: ByteOrder, s: Seq<u8>) -> bool {
    &&& DEPTH_HEADER_LEN <= s.len()
    &&& depth_len(o, s) <= s.len()
}

/// `d` is the depth record at the front of `s`.
pub open spec fn depth_matches(d: XDepth, o: ByteOrder, s: Seq<u8>) -> bool {
    &&& d.depth == field_at::<u8>(o, s, 0)
    &&& d.unused_0 == field_at::<u8>(o, s, 1)
    &&& d.number_of_visual_types == field_at::<u16>(o, s, 2)
    &&& d.unused_1 == field_at::<u32>(o, s, 4)
    &&& d.visuals@.len() == d.number_of_visual_types
    &&& forall|i: int|
        0 <= i < d.visuals@.len() ==> visual_matches(
            #[trigger] d.visuals@[i],
            o,
            s.skip(DEPTH_HEADER_LEN + VISUAL_LEN * i),
        )
}

impl XDepth {
    /// Reads one depth record with its visual types.
    pub fn from_socket(socket: &mut ByteSource) -> (r: Result<Self, ReadError>)
        ensures
            final(socket).byte_order() == old(socket).byte_order(),
            match r {
                Ok(d) => {
                    &&& depth_fits(old(socket).byte_order(), old(socket)@)
                    &&& depth_matches(d, old(socket).byte_order(), old(socket)@)
                    &&& final(socket)@ == old(socket)@.skip(
                        depth_len(old(socket).byte_order(), old(socket)@),
                    )
                },
                Err(e) => {
                    &&& !depth_fits(old(socket).byte_order(), old(socket)@)
                    &&& e == ReadError::UnexpectedEof
                },
            },
    {
        let ghost s = socket@;
        let ghost o = socket.byte_order();
        if socket.remaining() < DEPTH_HEADER_LEN {
            return Err(ReadError::UnexpectedEof);
        }
        let depth: u8 = socket.peek(0);
        let unused_0: u8 = socket.peek(1);
        let number_of_visual_types: u16 = socket.peek(2);
        let unused_1: u32 = socket.peek(4);
        socket.skip(DEPTH_HEADER_LEN)?;
        let mut visuals: Vec<XVisualType> = Vec::new();
        let mut i: usize = 0;
        while i < number_of_visual_types as usize
            invariant
                i <= number_of_visual_types,
                s == old(socket)@,
                o == old(socket).byte_order(),
                number_of_visual_types == field_at::<u16>(o, s, 2),
                DEPTH_HEADER_LEN + VISUAL_LEN * i <= s.len(),
                socket.byte_order() == o,
                socket@ == s.skip(DEPTH_HEADER_LEN + VISUAL_LEN * i),
                visuals@.len() == i,
                forall|k: int|
                    0 <= k < i ==> visual_matches(
                        #[trigger] visuals@[k],
                        o,
                        s.skip(DEPTH_HEADER_LEN + VISUAL_LEN * k),
                    ),
            decreases number_of_visual_types - i,
        {
            let w = match XVisualTypeIntermediate::from_socket(socket) {
                Ok(w) => w,
                Err(e) => {
                    return Err(e);
                },
            };
            let v = XVisualType::from_intermediate(w);
            visuals.push(v);
            proof {
                assert(socket@ =~= s.skip(DEPTH_HEADER_LEN + VISUAL_LEN * (i + 1)));
            }
            i = i + 1;
        }
        Ok(XDepth { depth, unused_0, number_of_visual_types, unused_1, visuals })
    }
}

/// Bytes in a screen record before its depths.
pub const SCREEN_HEADER_LEN: usize = 40;

/// A screen: its root window, its geometry and the depths it allows.
#[derive(Clone, Debug)]
pub struct XScreen {
    pub root: Atom,
    pub default_colormap: CARD32,
    pub white_pixel: CARD32,
    pub black_pixel: CARD32,
    pub current_input_masks: CARD32,
    pub width_pixels: CARD16,
    pub height_pixels: CARD16,
    pub width_in_millimeters: CARD16,
    pub height_in_millimeters: CARD16,
    pub min_installed_maps: CARD16,
    pub max_installed_maps: CARD16,
    pub root_visual: Atom,
    pub backing_stores: CARD8,
    pub save_unders: BOOL,
    pub root_depth: CARD8,
    pub number_of_depths_in_allowed_depths: CARD8,
    pub depth_list: Vec<XDepth>,
}

/// Offset in `s` of the `i`-th depth record of a screen record.
pub open spec fn depth_offset(o: ByteOrder, s: Seq<u8>, i: nat) -> int
    decreases i,
{
    if i == 0 {
        SCREEN_HEADER_LEN as int
    } else {
        let p = depth_offset(o, s, (i - 1) as nat);
        p + depth_len(o, s.skip(p))
    }
}

/// The `i`-th depth record of the screen record in `s` is whole.
pub open spec fn depth_fits_at(o: ByteOrder, s: Seq<u8>, i: int) -> bool {
    depth_fits(o, s.skip(depth_offset(o, s, i as nat)))
}

/// `s` begins with a whole screen record of `n` depths.
pub open spec fn screen_fits(o: ByteOrder, s: Seq<u8>, n: nat) -> bool {
    &&& SCREEN_HEADER_LEN <= s.len()
    &&& forall|i: int| 0 <= i < n ==> #[trigger] depth_fits_at(o, s, i)
}

/// `sc` holds the fields of the screen record at the front of `s`, with `n` depths.
pub open spec fn screen_matches(sc: XScreen, o: ByteOrder, s: Seq<u8>, n: nat) -> bool {
    &&& sc.root == field_at::<Atom>(o, s, 0)
    &&& sc.default_colormap == field_at::<u32>(o, s, 4)
    &&& sc.white_pixel == field_at::<u32>(o, s, 8)
    &&& sc.black_pixel == field_at::<u32>(o, s, 12)
    &&& sc.current_input_masks == field_at::<u32>(o, s, 16)
    &&& sc.width_pixels == field_at::<u16>(o, s, 20)
    &&& sc.height_pixels == field_at::<u16>(o, s, 22)
    &&& sc.width_in_millimeters == field_at::<u16>(o, s, 24)
    &&& sc.height_in_millimeters == field_at::<u16>(o, s, 26)
    &&& sc.min_installed_maps == field_at::<u16>(o, s, 28)
    &&& sc.max_installed_maps == field_at::<u16>(o, s, 30)
    &&& sc.root_visual == field_at::<Atom>(o, s, 32)
    &&& sc.backing_stores == field_at::<u8>(o, s, 36)
    &&& sc.save_unders == field_at::<u8>(o, s, 37)
    &&& sc.root_depth == field_at::<u8>(o, s, 38)
    &&& sc.number_of_depths_in_allowed_depths == field_at::<u8>(o, s, 39)
    &&& sc.depth_list@.len() == n
    &&& forall|i: int|
        0 <= i < n ==> depth_matches(
            #[trigger] sc.depth_list@[i],
            o,
            s.skip(depth_offset(o, s, i as nat)),
        )
}

impl XScreen {
    /// Reads one screen record followed by `number_of_depths` depth records.
    pub fn from_socket(socket: &mut ByteSource, number_of_depths: usize) -> (r: Result<
        Self,
        ReadError,
    >)
        ensures
            final(socket).byte_order() == old(socket).byte_order(),
            match r {
                Ok(sc) => {
                    &&& screen_fits(old(socket).byte_order(), old(socket)@, number_of_depths as nat)
                    &&& screen_matches(
                        sc,
                        old(socket).byte_order(),
                        old(socket)@,
                        number_of_depths as nat,
                    )
                    &&& final(socket)@ == old(socket)@.skip(
                        depth_offset(
                            old(socket).byte_order(),
                            old(socket)@,
                            number_of_depths as nat,
                        ),
                    )
                },
                Err(e) => {
                    &&& !screen_fits(
                        old(socket).byte_order(),
                        old(socket)@,
                        number_of_depths as nat,
                    )
                    &&& e == ReadError::UnexpectedEof
                },
            },
    {
        let ghost s = socket@;
        let ghost o = socket.byte_order();
        if socket.remaining() < SCREEN_HEADER_LEN {
            return Err(ReadError::UnexpectedEof);
        }
        let root: Atom = socket.peek(0);
        let default_colormap: u32 = socket.peek(4);
        let white_pixel: u32 = socket.peek(8);
        let black_pixel: u32 = socket.peek(12);
        let current_input_masks: u32 = socket.peek(16);
        let width_pixels: u16 = socket.peek(20);
        let height_pixels: u16 = socket.peek(22);
        let width_in_millimeters: u16 = socket.peek(24);
        let height_in_millimeters: u16 = socket.peek(26);
        let min_installed_maps: u16 = socket.peek(28);
        let max_installed_maps: u16 = socket.peek(30);
        let root_visual: Atom = socket.peek(32);
        let backing_stores: u8 = socket.peek(36);
        let save_unders: u8 = socket.peek(37);
        let root_depth: u8 = socket.peek(38);
        let number_of_depths_in_allowed_depths: u8 = socket.peek(39);
        socket.skip(SCREEN_HEADER_LEN)?;
        let mut depth_list: Vec<XDepth> = Vec::new();
        let mut i: usize = 0;
        while i < number_of_depths
            invariant
                i <= number_of_depths,
                s == old(socket)@,
                o == old(socket).byte_order(),
                SCREEN_HEADER_LEN <= s.len(),
                SCREEN_HEADER_LEN <= depth_offset(o, s, i as nat) <= s.len(),
                socket.byte_order() == o,
                socket@ == s.skip(depth_offset(o, s, i as nat)),
                depth_list@.len() == i,
                forall|k: int| 0 <= k < i ==> #[trigger] depth_fits_at(o, s, k),
                forall|k: int|
                    0 <= k < i ==> depth_matches(
                        #[trigger] depth_list@[k],
                        o,
                        s.skip(depth_offset(o, s, k as nat)),
                    ),
            decreases number_of_depths - i,
        {
            let d = match XDepth::from_socket(socket) {
                Ok(d) => d,
                Err(e) => {
                    assert(!depth_fits_at(o, s, i as int));
                    return Err(e);
                },
            };
            proof {
                let p = depth_offset(o, s, i as nat);
                assert(s.skip(p).len() == s.len() - p);
                assert(depth_offset(o, s, (i + 1) as nat) == p + depth_len(o, s.skip(p)));
                assert(socket@ =~= s.skip(depth_offset(o, s, (i + 1) as nat)));
                assert(depth_fits_at(o, s, i as int));
            }
            depth_list.push(d);
            i = i + 1;
        }
        Ok(
            XScreen {
                root,
                default_colormap,
                white_pixel,
                black_pixel,
                current_input_masks,
                width_pixels,
                height_pixels,
                width_in_millimeters,
                height_in_millimeters,
                min_installed_maps,
                max_installed_maps,
                root_visual,
                backing_stores,
                save_unders,
                root_depth,
                number_of_depths_in_allowed_depths,
                depth_list,
            },
        )
    }
}

} // verus!
