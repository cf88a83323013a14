//! The disk identifier: a 128-bit GUID and its mixed-endian byte encoding.
//!
//! GPT stores the disk GUID in the mixed-endian form of the EFI
//! specification: the first three UUID fields are little-endian, the final
//! eight bytes are kept verbatim.

use crate::extract::bytes_at;
use vstd::bytes::{
    lemma_auto_spec_u16_to_from_le_bytes, lemma_auto_spec_u32_to_from_le_bytes,
    spec_u16_from_le_bytes, spec_u16_to_le_bytes, spec_u32_from_le_bytes, spec_u32_to_le_bytes,
    u16_from_le_bytes, u16_to_le_bytes, u32_from_le_bytes, u32_to_le_bytes,
};
use vstd::prelude::*;

verus! {

broadcast use vstd::array::group_array_axioms;

/// A 128-bit disk identifier, held as the four canonical UUID fields:
/// a 32-bit field, two 16-bit fields, and eight trailing bytes
/// (clock sequence and node) kept in their on-disk order.
#[derive(Clone, Copy, Debug, PartialEq, Eq)]
pub struct DiskGuid {
    pub d1: u32,
    pub d2: u16,
    pub d3: u16,
    pub d4: [u8; 8],
}

/// `g` is the GUID that the 16 mixed-endian bytes `b` encode: the first
/// three fields are read little-endian, the last eight bytes verbatim.
pub open spec fn guid_matches_bytes(g: DiskGuid, b: Seq<u8>) -> bool {
    &&& b.len() == 16
    &&& g.d1 == spec_u32_from_le_bytes(b.subrange(0, 4))
    &&& g.d2 == spec_u16_from_le_bytes(b.subrange(4, 6))
    &&& g.d3 == spec_u16_from_le_bytes(b.subrange(6, 8))
    &&& g.d4@ == b.subrange(8, 16)
}

/// The 16-byte mixed-endian encoding of `g`.
pub open spec fn spec_guid_encode(g: DiskGuid) -> Seq<u8> {
    spec_u32_to_le_bytes(g.d1) + spec_u16_to_le_bytes(g.d2) + spec_u16_to_le_bytes(g.d3) + g.d4@
}

impl DiskGuid {
    /// Decodes a GUID from its 16-byte mixed-endian form.
    pub fn from_mixed_endian_bytes(b: &[u8]) -> (g: DiskGuid)
        requires
            b@.len() == 16,
        ensures
            guid_matches_bytes(g, b@),
    {
        let d1 = u32_from_le_bytes(&b[0..4]);
        let d2 = u16_from_le_bytes(&b[4..6]);
        let d3 = u16_from_le_bytes(&b[6..8]);
        let d4: [u8; 8] = bytes_at(b, 8);
        DiskGuid { d1, d2, d3, d4 }
    }

    /// Encodes the GUID back into its 16-byte mixed-endian form.
    pub fn to_mixed_endian_bytes(&self) -> (r: [u8; 16])
        ensures
            r@ == spec_guid_encode(*self),
            guid_matches_bytes(*self, r@),
    {
        proof {
            lemma_auto_spec_u32_to_from_le_bytes();
            lemma_auto_spec_u16_to_from_le_bytes();
        }
        let b1 = u32_to_le_bytes(self.d1);
        let b2 = u16_to_le_bytes(self.d2);
        let b3 = u16_to_le_bytes(self.d3);
        let mut r = [0u8; 16];
        r[0] = b1[0];
        r[1] = b1[1];
        r[2] = b1[2];
        r[3] = b1[3];
        r[4] = b2[0];
        r[5] = b2[1];
        r[6] = b3[0];
        r[7] = b3[1];
        r[8] = self.d4[0];
        r[9] = self.d4[1];
        r[10] = self.d4[2];
        r[11] = self.d4[3];
        r[12] = self.d4[4];
        r[13] = self.d4[5];
        r[14] = self.d4[6];
        r[15] = self.d4[7];
        proof {
            assert(r@ =~= spec_guid_encode(*self));
            lemma_guid_round_trip(*self);
        }
        r
    }
}

/// Decoding inverts encoding: the mixed-endian bytes of a GUID decode back
/// to that very GUID.
pub proof fn lemma_guid_round_trip(g: DiskGuid)
    ensures
        guid_matches_bytes(g, spec_guid_encode(g)),
{
    lemma_auto_spec_u32_to_from_le_bytes();
    lemma_auto_spec_u16_to_from_le_bytes();
    let b = spec_guid_encode(g);
    assert(b.subrange(0, 4) =~= spec_u32_to_le_bytes(g.d1));
    assert(b.subrange(4, 6) =~= spec_u16_to_le_bytes(g.d2));
    assert(b.subrange(6, 8) =~= spec_u16_to_le_bytes(g.d3));
    assert(b.subrange(8, 16) =~= g.d4@);
}

/// The 16 mixed-endian bytes determine the GUID: two GUIDs that both match
/// the same bytes are equal in every field.
pub proof fn lemma_guid_decode_unique(g1: DiskGuid, g2: DiskGuid, b: Seq<u8>)
    requires
        guid_matches_bytes(g1, b),
        guid_matches_bytes(g2, b),
    ensures
        g1 == g2,
{
    assert(g1.d4 == g2.d4);
}

/// The GUID determines the 16 mixed-endian bytes: any bytes a GUID matches
/// are exactly its encoding.
pub proof fn lemma_guid_encode_unique(g: DiskGuid, b: Seq<u8>)
    requires
        guid_matches_bytes(g, b),
    ensures
        b == spec_guid_encode(g),
{
    lemma_auto_spec_u32_to_from_le_bytes();
    lemma_auto_spec_u16_to_from_le_bytes();
    assert(spec_u32_to_le_bytes(g.d1) =~= b.subrange(0, 4));
    assert(spec_u16_to_le_bytes(g.d2) =~= b.subrange(4, 6));
    assert(spec_u16_to_le_bytes(g.d3) =~= b.subrange(6, 8));
    assert(b =~= spec_guid_encode(g));
}

} // verus!
