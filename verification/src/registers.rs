//! Byte-level codec of register values for the vendor control-transfer
//! protocol: a register value travels as 1, 2 or 4 little-endian bytes,
//! fixed by the access width.

use crate::aub::DataWidth;
use crate::usb::UsbError;
use vstd::prelude::*;

verus! {

/// Whether `value` is representable in one access of width `w`.
pub open spec fn fits_width(value: u32, w: DataWidth) -> bool {
    match w {
        DataWidth::Unset => false,
        DataWidth::Byte => value < 0x100,
        DataWidth::Half => value < 0x10000,
        DataWidth::Word => true,
    }
}

/// The little-endian wire bytes of `value` at width `w`.
pub open spec fn spec_encode_register(value: u32, w: DataWidth) -> Seq<u8> {
    match w {
        DataWidth::Unset => Seq::empty(),
        DataWidth::Byte => seq![(value & 0xFF) as u8],
        DataWidth::Half => seq![(value & 0xFF) as u8, ((value >> 8) & 0xFF) as u8],
        DataWidth::Word => seq![
            (value & 0xFF) as u8,
            ((value >> 8) & 0xFF) as u8,
            ((value >> 16) & 0xFF) as u8,
            ((value >> 24) & 0xFF) as u8,
        ],
    }
}

/// The value carried by little-endian wire bytes of length 1, 2 or 4; any
/// other length decodes to 0.
pub open spec fn spec_decode_register(bytes: Seq<u8>) -> u32 {
    if bytes.len() == 1 {
        bytes[0] as u32
    } else if bytes.len() == 2 {
        (bytes[0] as u32) | ((bytes[1] as u32) << 8)
    } else if bytes.len() == 4 {
        (bytes[0] as u32) | ((bytes[1] as u32) << 8) | ((bytes[2] as u32) << 16) | ((
        bytes[3] as u32) << 24)
    } else {
        0u32
    }
}

/// Encode `value` for the wire at width `w`.
pub fn encode_register_value(value: u32, w: DataWidth) -> (r: Vec<u8>)
    ensures
        r@ == spec_encode_register(value, w),
        r@.len() == w.spec_nbytes(),
{
    let mut out: Vec<u8> = Vec::new();
    match w {
        DataWidth::Unset => {},
        DataWidth::Byte => {
            out.push((value & 0xFF) as u8);
        },
        DataWidth::Half => {
            out.push((value & 0xFF) as u8);
            out.push(((value >> 8) & 0xFF) as u8);
        },
        DataWidth::Word => {
            out.push((value & 0xFF) as u8);
            out.push(((value >> 8) & 0xFF) as u8);
            out.push(((value >> 16) & 0xFF) as u8);
            out.push(((value >> 24) & 0xFF) as u8);
        },
    }
    proof {
        assert(out@ =~= spec_encode_register(value, w));
    }
    out
}

/// Decode register bytes received from the wire.
pub fn decode_register_value(bytes: &Vec<u8>) -> (r: u32)
    ensures
        r == spec_decode_register(bytes@),
{
    if bytes.len() == 1 {
        bytes[0] as u32
    } else if bytes.len() == 2 {
        (bytes[0] as u32) | ((bytes[1] as u32) << 8)
    } else if bytes.len() == 4 {
        (bytes[0] as u32) | ((bytes[1] as u32) << 8) | ((bytes[2] as u32) << 16) | ((
        bytes[3] as u32) << 24)
    } else {
        0u32
    }
}

/// Settle the device's answer to a register read: an answer of exactly the
/// access width decodes to the register value, an answer of any other
/// length is a protocol error.
pub fn settle_register_read(data: &Vec<u8>, w: DataWidth) -> (r: Result<u32, UsbError>)
    ensures
        data@.len() == w.spec_nbytes() ==> r == Ok::<u32, UsbError>(spec_decode_register(data@)),
        data@.len() != w.spec_nbytes() ==> r == Err::<u32, UsbError>(UsbError::Protocol),
{
    if data.len() != w.nbytes() {
        return Err(UsbError::Protocol);
    }
    Ok(decode_register_value(data))
}

/// A decoded register value fits the width whose byte count the wire bytes
/// have.
pub proof fn lemma_decode_register_fits(bytes: Seq<u8>)
    ensures
        bytes.len() == 1 ==> spec_decode_register(bytes) < 0x100,
        bytes.len() == 2 ==> spec_decode_register(bytes) < 0x10000,
{
    if bytes.len() == 1 {
        let b0 = bytes[0];
        assert((b0 as u32) < 0x100) by (bit_vector);
    } else if bytes.len() == 2 {
        let b0 = bytes[0];
        let b1 = bytes[1];
        assert(((b0 as u32) | ((b1 as u32) << 8)) < 0x10000) by (bit_vector);
    }
}

/// Round trip of the register codec: a value that fits its access width is
/// recovered exactly from the bytes that encode it.
pub proof fn lemma_register_round_trip(value: u32, w: DataWidth)
    requires
        fits_width(value, w),
    ensures
        spec_decode_register(spec_encode_register(value, w)) == value,
{
    match w {
        DataWidth::Unset => {},
        DataWidth::Byte => {
            assert(((value & 0xFF) as u8) as u32 == value) by (bit_vector)
                requires
                    value < 0x100,
            ;
        },
        DataWidth::Half => {
            assert((((value & 0xFF) as u8) as u32) | (((((value >> 8) & 0xFF) as u8) as u32) << 8)
                == value) by (bit_vector)
                requires
                    value < 0x10000,
            ;
        },
        DataWidth::Word => {
            assert((((value & 0xFF) as u8) as u32) | (((((value >> 8) & 0xFF) as u8) as u32) << 8)
                | (((((value >> 16) & 0xFF) as u8) as u32) << 16) | (((((value >> 24)
                & 0xFF) as u8) as u32) << 24) == value) by (bit_vector);
        },
    }
}

} // verus!
