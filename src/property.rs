//! The ChangeProperty request.
use vstd::prelude::*;

use crate::connection::zeros;
use crate::requests::request_head;
use crate::xconsts::opcodes;
use crate::xio::{encode, pad, padding_len, write_padding, write_primitive, ByteOrder, ByteSink};
use crate::xtypes::{Atom, CARD32};

verus! {

/// How new property data combines with the old.
#[derive(Clone, Copy, PartialEq, Eq, Structural, Debug)]
pub enum PropertyMode {
    Replace,
    Prepend,
    Append,
}

impl PropertyMode {
    pub open spec fn spec_code(&self) -> u8 {
        match self {
            PropertyMode::Replace => 0,
            PropertyMode::Prepend => 1,
            PropertyMode::Append => 2,
        }
    }

    pub fn code(&self) -> (r: u8)
        ensures
            r == self.spec_code(),
    {
        match self {
            PropertyMode::Replace => 0,
            PropertyMode::Prepend => 1,
            PropertyMode::Append => 2,
        }
    }
}

/// Width of one unit of property data: 8, 16 or 32 bits.
#[derive(Clone, Copy, PartialEq, Eq, Structural, Debug)]
pub enum PropertyFormat {
    Bytes,
    Shorts,
    Word,
}

impl PropertyFormat {
    pub open spec fn spec_bits(&self) -> u8 {
        match self {
            PropertyFormat::Bytes => 8,
            PropertyFormat::Shorts => 16,
            PropertyFormat::Word => 32,
        }
    }

    /// `log2(bits) - 3`: the shift from a length in bytes to one in units.
    pub open spec fn spec_shift(&self) -> u32 {
        match self {
            PropertyFormat::Bytes => 0,
            PropertyFormat::Shorts => 1,
            PropertyFormat::Word => 2,
        }
    }

    pub fn bits(&self) -> (r: u8)
        ensures
            r == self.spec_bits(),
    {
        match self {
            PropertyFormat::Bytes => 8,
            PropertyFormat::Shorts => 16,
            PropertyFormat::Word => 32,
        }
    }

    pub fn shift(&self) -> (r: u32)
        ensures
            r == self.spec_shift(),
    {
        match self {
            PropertyFormat::Bytes => 0,
            PropertyFormat::Shorts => 1,
            PropertyFormat::Word => 2,
        }
    }
}

/// Largest number of data bytes whose request length fits in sixteen bits.
pub const MAX_PROPERTY_BYTES: usize = 262116;

/// Length in words of a ChangeProperty request with `n` data bytes:
/// six words of head, then the data rounded up to whole words.
pub open spec fn property_request_words(n: nat) -> nat {
    6 + (n + 3) / 4
}

/// Number of units of `format` in `n` bytes.
pub open spec fn format_units(n: nat, format: PropertyFormat) -> nat {
    if format.spec_shift() == 0 {
        n
    } else if format.spec_shift() == 1 {
        n / 2
    } else {
        n / 4
    }
}

/// Request length, in words, of a ChangeProperty request with `n` data bytes.
pub fn change_property_request_len(n: usize) -> (r: u16)
    requires
        n <= MAX_PROPERTY_BYTES,
    ensures
        r == property_request_words(n as nat),
        r == 6 + (n + pad(n as nat)) / 4,
{
    let padding = padding_len(n);
    (6 + (n + padding) / 4) as u16
}

/// Length in units of `format` of `n` data bytes.
pub fn data_units(n: usize, format: PropertyFormat) -> (r: u32)
    requires
        n <= MAX_PROPERTY_BYTES,
    ensures
        r == format_units(n as nat, format),
{
    let m = n as u32;
    let shift = format.shift();
    let r = m >> shift;
    proof {
        if shift == 1 {
            assert(m >> 1u32 == m / 2) by (bit_vector);
        } else if shift == 2 {
            assert(m >> 2u32 == m / 4) by (bit_vector);
        } else {
            assert(m >> 0u32 == m) by (bit_vector);
        }
    }
    r
}

/// The 24 bytes of a ChangeProperty request that precede its data.
pub open spec fn change_property_head(
    o: ByteOrder,
    mode: PropertyMode,
    property: Atom,
    ptype: Atom,
    window_id: u32,
    format: PropertyFormat,
    n: nat,
) -> Seq<u8> {
    request_head(o, opcodes::CHANGE_PROPERTY, mode.spec_code(), property_request_words(n) as u16)
        + encode(o, window_id) + encode(o, property) + encode(o, ptype) + seq![
        format.spec_bits(),
        0u8,
        0u8,
        0u8,
    ] + encode(o, format_units(n, format) as u32)
}

pub open spec fn change_property_bytes(
    o: ByteOrder,
    mode: PropertyMode,
    property: Atom,
    ptype: Atom,
    window_id: u32,
    format: PropertyFormat,
    data: Seq<u8>,
) -> Seq<u8> {
    change_property_head(o, mode, property, ptype, window_id, format, data.len()) + data + zeros(
        pad(data.len()),
    )
}

fn write_change_property_head(
    socket: &mut ByteSink,
    mode: PropertyMode,
    property: Atom,
    ptype: Atom,
    window_id: CARD32,
    format: PropertyFormat,
    n: usize,
)
    requires
        n <= MAX_PROPERTY_BYTES,
    ensures
        final(socket).byte_order() == old(socket).byte_order(),
        final(socket)@ == old(socket)@ + change_property_head(
            old(socket).byte_order(),
            mode,
            property,
            ptype,
            window_id,
            format,
            n as nat,
        ),
{
    let request_len = change_property_request_len(n);
    let units = data_units(n, format);
    write_primitive(socket, opcodes::CHANGE_PROPERTY);
    write_primitive(socket, mode.code());
    write_primitive(socket, request_len);
    write_primitive(socket, window_id);
    write_primitive(socket, property);
    write_primitive(socket, ptype);
    write_primitive(socket, format.bits());
    write_primitive(socket, 0u8);
    write_primitive(socket, 0u8);
    write_primitive(socket, 0u8);
    write_primitive(socket, units);
    assert(socket@ =~= old(socket)@ + change_property_head(
        old(socket).byte_order(),
        mode,
        property,
        ptype,
        window_id,
        format,
        n as nat,
    ));
}

/// Writes a ChangeProperty request: head, data length in units of `format`,
/// the data, then padding to a whole word.
pub fn change_property(
    socket: &mut ByteSink,
    mode: PropertyMode,
    property: Atom,
    ptype: Atom,
    window_id: CARD32,
    format: PropertyFormat,
    data: &[u8],
)
    requires
        data@.len() <= MAX_PROPERTY_BYTES,
    ensures
        final(socket).byte_order() == old(socket).byte_order(),
        final(socket)@ == old(socket)@ + change_property_bytes(
            old(socket).byte_order(),
            mode,
            property,
            ptype,
            window_id,
            format,
            data@,
        ),
{
    let n = data.len();
    write_change_property_head(socket, mode, property, ptype, window_id, format, n);
    socket.write_bytes(data);
    let p = write_padding(n, socket);
    assert(zeros(p as nat) =~= Seq::new(p as nat, |_i: int| 0u8));
    assert(socket@ =~= old(socket)@ + change_property_bytes(
        old(socket).byte_order(),
        mode,
        property,
        ptype,
        window_id,
        format,
        data@,
    ));
}

} // verus!
