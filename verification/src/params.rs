//! The parameter record shared between host and device.
//!
//! The record is the sole state that drives rendering.  Its 64-bit
//! floating-point fields (zoom factor and viewport center) are carried
//! as their binary64 interchange bit patterns, so the record itself is
//! plain integer data and its binary layout can be stated exactly.  The
//! device reads the raw byte range positionally, so the encoding fixes
//! field order, widths, and the alignment padding word by contract.

use vstd::prelude::*;
use vstd::bytes::*;
use vstd::slice::slice_subrange;

verus! {

/// Bit pattern of the binary64 value `1.0`, the initial zoom factor.
pub const ZOOM_ONE_BITS: u64 = 0x3FF0_0000_0000_0000;

/// Bit pattern of the binary64 value `-0.5`, the initial real part of the
/// viewport center.
pub const MIDDLE_X_START_BITS: u64 = 0xBFE0_0000_0000_0000;

/// Bit pattern of the binary64 value `0.0`, the initial imaginary part of
/// the viewport center.
pub const MIDDLE_Y_START_BITS: u64 = 0x0000_0000_0000_0000;

/// Packed size of the encoded record: four 32-bit words (the fourth is
/// alignment padding) followed by three 64-bit words.
pub const RECORD_BYTES: usize = 40;

/// Push-constant capacity guaranteed by the device configuration; the
/// encoded record must fit in it.
pub const PUSH_CONSTANT_BUDGET: usize = 128;

/// The parameter record.  One instance exists for the lifetime of the
/// process; the navigation controller mutates it and every frame copies
/// it wholesale into the push-constant channel.
///
/// `zoom_bits`, `middle_x_bits` and `middle_y_bits` hold binary64 bit
/// patterns; the embedder converts to and from its floating-point
/// values at the boundary.
#[derive(Clone, Copy, Debug, PartialEq, Eq, Structural)]
pub struct Params {
    /// Output surface width in pixels.
    pub width: u32,
    /// Output surface height in pixels.
    pub height: u32,
    /// Escape-time iteration bound.
    pub iterations: u32,
    /// Scale factor of the viewing window (binary64 bits); smaller means
    /// more magnified.
    pub zoom_bits: u64,
    /// Real part of the viewport center (binary64 bits).
    pub middle_x_bits: u64,
    /// Imaginary part of the viewport center (binary64 bits).
    pub middle_y_bits: u64,
}

impl Params {
    /// A fresh record: the given surface size and iteration bound, unit
    /// zoom, and the viewport centered at `-0.5 + 0i`.
    pub fn new(width: u32, height: u32, iterations: u32) -> (p: Params)
        ensures
            p == (Params {
                width,
                height,
                iterations,
                zoom_bits: ZOOM_ONE_BITS,
                middle_x_bits: MIDDLE_X_START_BITS,
                middle_y_bits: MIDDLE_Y_START_BITS,
            }),
    {
        Params {
            width,
            height,
            iterations,
            zoom_bits: ZOOM_ONE_BITS,
            middle_x_bits: MIDDLE_X_START_BITS,
            middle_y_bits: MIDDLE_Y_START_BITS,
        }
    }

    /// Encode the record into its fixed 40-byte little-endian layout.
    pub fn encode(&self) -> (out: Vec<u8>)
        ensures
            out@ == spec_encode(*self),
            out@.len() == RECORD_BYTES,
    {
        proof {
            lemma_auto_spec_u32_to_from_le_bytes();
            lemma_auto_spec_u64_to_from_le_bytes();
        }
        let mut out = u32_to_le_bytes(self.width);
        let mut piece = u32_to_le_bytes(self.height);
        out.append(&mut piece);
        let mut piece = u32_to_le_bytes(self.iterations);
        out.append(&mut piece);
        let mut piece = u32_to_le_bytes(0);
        out.append(&mut piece);
        let mut piece = u64_to_le_bytes(self.zoom_bits);
        out.append(&mut piece);
        let mut piece = u64_to_le_bytes(self.middle_x_bits);
        out.append(&mut piece);
        let mut piece = u64_to_le_bytes(self.middle_y_bits);
        out.append(&mut piece);
        out
    }

    /// Decode a record from its 40-byte layout.  Returns `None` exactly
    /// when the byte range does not have the record's size; the padding
    /// word is ignored, as the device side never reads it.
    pub fn decode(bytes: &[u8]) -> (r: Option<Params>)
        ensures
            r is Some <==> bytes@.len() == RECORD_BYTES,
            bytes@.len() == RECORD_BYTES ==> r == Some(spec_decode(bytes@)),
    {
        if bytes.len() != RECORD_BYTES {
            return None;
        }
        let width = u32_from_le_bytes(slice_subrange(bytes, 0, 4));
        let height = u32_from_le_bytes(slice_subrange(bytes, 4, 8));
        let iterations = u32_from_le_bytes(slice_subrange(bytes, 8, 12));
        let zoom_bits = u64_from_le_bytes(slice_subrange(bytes, 16, 24));
        let middle_x_bits = u64_from_le_bytes(slice_subrange(bytes, 24, 32));
        let middle_y_bits = u64_from_le_bytes(slice_subrange(bytes, 32, 40));
        Some(Params { width, height, iterations, zoom_bits, middle_x_bits, middle_y_bits })
    }
}

/// The record's binary layout: every field in order, little-endian, with
/// a zero padding word between `iterations` and `zoom_bits` that aligns
/// the first 64-bit field on an 8-byte boundary.
pub open spec fn spec_encode(p: Params) -> Seq<u8> {
    spec_u32_to_le_bytes(p.width) + spec_u32_to_le_bytes(p.height)
        + spec_u32_to_le_bytes(p.iterations) + spec_u32_to_le_bytes(0u32)
        + spec_u64_to_le_bytes(p.zoom_bits) + spec_u64_to_le_bytes(p.middle_x_bits)
        + spec_u64_to_le_bytes(p.middle_y_bits)
}

/// The device side's positional reading of a 40-byte record.
pub open spec fn spec_decode(s: Seq<u8>) -> Params {
    Params {
        width: spec_u32_from_le_bytes(s.subrange(0, 4)),
        height: spec_u32_from_le_bytes(s.subrange(4, 8)),
        iterations: spec_u32_from_le_bytes(s.subrange(8, 12)),
        zoom_bits: spec_u64_from_le_bytes(s.subrange(16, 24)),
        middle_x_bits: spec_u64_from_le_bytes(s.subrange(24, 32)),
        middle_y_bits: spec_u64_from_le_bytes(s.subrange(32, 40)),
    }
}

/// The cross-boundary contract: decoding an encoded record reproduces
/// every field bit for bit, and the record fits the push-constant budget.
pub proof fn lemma_record_round_trip(p: Params)
    ensures
        spec_encode(p).len() == RECORD_BYTES,
        RECORD_BYTES <= PUSH_CONSTANT_BUDGET,
        spec_decode(spec_encode(p)) == p,
{
    lemma_auto_spec_u32_to_from_le_bytes();
    lemma_auto_spec_u64_to_from_le_bytes();
    let s = spec_encode(p);
    assert(s.subrange(0, 4) =~= spec_u32_to_le_bytes(p.width));
    assert(s.subrange(4, 8) =~= spec_u32_to_le_bytes(p.height));
    assert(s.subrange(8, 12) =~= spec_u32_to_le_bytes(p.iterations));
    assert(s.subrange(16, 24) =~= spec_u64_to_le_bytes(p.zoom_bits));
    assert(s.subrange(24, 32) =~= spec_u64_to_le_bytes(p.middle_x_bits));
    assert(s.subrange(32, 40) =~= spec_u64_to_le_bytes(p.middle_y_bits));
}

} // verus!
