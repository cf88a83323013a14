//! The primary GPT header: its on-disk layout and the decoder.
//!
//! The header occupies one region of fixed layout that begins at absolute
//! byte offset 512 of the disk image (block 0 holds the protective MBR).
//! Every field below the signature is kept as its raw bytes in on-disk
//! order; only the disk GUID is reconstructed, from its mixed-endian form.

use crate::extract::bytes_at;
use crate::guid::{guid_matches_bytes, DiskGuid};
use vstd::bytes::{spec_u32_from_le_bytes, spec_u64_from_le_bytes, u32_from_le_bytes, u64_from_le_bytes};
use vstd::prelude::*;

verus! {

broadcast use vstd::array::group_array_axioms;

/// Absolute byte offset of the primary GPT header in the image.
pub const HEADER_OFFSET: usize = 512;

/// Length of the signature field, the first field of the header.
pub const SIGNATURE_LEN: usize = 8;

/// Offset one past the signature field.
pub const SIGNATURE_END: usize = HEADER_OFFSET + SIGNATURE_LEN;

/// Total length of the decoded header region, signature included.
pub const HEADER_REGION_LEN: usize = 92;

/// Least source length from which a full header can be decoded.
pub const MIN_SOURCE_LEN: usize = HEADER_OFFSET + HEADER_REGION_LEN;

/// Why a decode failed.
#[derive(Clone, Copy, Debug, PartialEq, Eq, Structural)]
pub enum GptError {
    /// The byte source could not be opened at all.
    SourceUnavailable,
    /// A read could not supply the exact byte count a field requires:
    /// the source ends before the header region does.
    TruncatedRead,
    /// The first eight bytes of the header region are not "EFI PART".
    InvalidSignature,
    /// The sixteen GUID bytes could not be composed into a well-formed
    /// 128-bit identifier.
    InvalidDiskIdentifier,
}

/// The decoded primary GPT header. Each field holds the raw bytes of the
/// on-disk layout, except `disk_guid`, which holds the reconstructed
/// 128-bit identifier.
#[derive(Clone, Debug, PartialEq, Eq)]
pub struct Header {
    /// "EFI PART"
    pub signature: [u8; 8],
    /// GPT revision, little-endian.
    pub revision: [u8; 4],
    /// Header size in bytes, little-endian.
    pub header_size_le: [u8; 4],
    /// CRC32 of the header; not verified here.
    pub crc32: [u8; 4],
    /// Reserved, zero on a well-formed disk; not enforced here.
    pub reserved: [u8; 4],
    /// LBA of this header.
    pub current_lba: [u8; 8],
    /// LBA of the backup header.
    pub backup_lba: [u8; 8],
    /// First usable LBA for partitions.
    pub first_usable: [u8; 8],
    /// Last usable LBA for partitions.
    pub last_usable: [u8; 8],
    /// The disk identifier, decoded from its mixed-endian form.
    pub disk_guid: DiskGuid,
    /// LBA where the partition entry array begins.
    pub start_lba: [u8; 8],
    /// Count of partition entries, little-endian.
    pub num_parts: [u8; 4],
    /// Size of one partition entry, little-endian; usually 128.
    pub part_size: [u8; 4],
    /// CRC32 of the partition entry array; not verified here.
    pub crc32_parts: [u8; 4],
}

impl Header {
    /// The header size field as a little-endian integer.
    pub fn header_size(&self) -> (n: u32)
        ensures
            n == spec_u32_from_le_bytes(self.header_size_le@),
    {
        u32_from_le_bytes(self.header_size_le.as_slice())
    }

    /// The LBA of this header as a little-endian integer.
    pub fn current_lba_value(&self) -> (n: u64)
        ensures
            n == spec_u64_from_le_bytes(self.current_lba@),
    {
        u64_from_le_bytes(self.current_lba.as_slice())
    }

    /// The LBA of the backup header as a little-endian integer.
    pub fn backup_lba_value(&self) -> (n: u64)
        ensures
            n == spec_u64_from_le_bytes(self.backup_lba@),
    {
        u64_from_le_bytes(self.backup_lba.as_slice())
    }

    /// The first usable LBA for partitions as a little-endian integer.
    pub fn first_usable_lba(&self) -> (n: u64)
        ensures
            n == spec_u64_from_le_bytes(self.first_usable@),
    {
        u64_from_le_bytes(self.first_usable.as_slice())
    }

    /// The last usable LBA for partitions as a little-endian integer.
    pub fn last_usable_lba(&self) -> (n: u64)
        ensures
            n == spec_u64_from_le_bytes(self.last_usable@),
    {
        u64_from_le_bytes(self.last_usable.as_slice())
    }

    /// The LBA where the partition entry array begins, little-endian.
    pub fn partition_array_start_lba(&self) -> (n: u64)
        ensures
            n == spec_u64_from_le_bytes(self.start_lba@),
    {
        u64_from_le_bytes(self.start_lba.as_slice())
    }

    /// The count of partition entries as a little-endian integer.
    pub fn num_partition_entries(&self) -> (n: u32)
        ensures
            n == spec_u32_from_le_bytes(self.num_parts@),
    {
        u32_from_le_bytes(self.num_parts.as_slice())
    }

    /// The size of one partition entry as a little-endian integer.
    pub fn partition_entry_size(&self) -> (n: u32)
        ensures
            n == spec_u32_from_le_bytes(self.part_size@),
    {
        u32_from_le_bytes(self.part_size.as_slice())
    }
}

/// The eight ASCII bytes of "EFI PART".
pub open spec fn spec_signature() -> Seq<u8> {
    seq![0x45u8, 0x46u8, 0x49u8, 0x20u8, 0x50u8, 0x41u8, 0x52u8, 0x54u8]
}

/// The signature bytes at their offset equal "EFI PART".
pub open spec fn signature_ok(s: Seq<u8>) -> bool
    recommends
        s.len() >= SIGNATURE_END,
{
    s.subrange(HEADER_OFFSET as int, SIGNATURE_END as int) == spec_signature()
}

/// `h` is the header that the image bytes `s` hold: every field's raw
/// bytes equal the bytes of `s` at the field's on-disk offset, and the
/// disk GUID matches its sixteen bytes under the mixed-endian rule.
pub open spec fn header_matches(h: Header, s: Seq<u8>) -> bool {
    &&& s.len() >= MIN_SOURCE_LEN
    &&& h.signature@ == s.subrange(512, 520)
    &&& h.revision@ == s.subrange(520, 524)
    &&& h.header_size_le@ == s.subrange(524, 528)
    &&& h.crc32@ == s.subrange(528, 532)
    &&& h.reserved@ == s.subrange(532, 536)
    &&& h.current_lba@ == s.subrange(536, 544)
    &&& h.backup_lba@ == s.subrange(544, 552)
    &&& h.first_usable@ == s.subrange(552, 560)
    &&& h.last_usable@ == s.subrange(560, 568)
    &&& guid_matches_bytes(h.disk_guid, s.subrange(568, 584))
    &&& h.start_lba@ == s.subrange(584, 592)
    &&& h.num_parts@ == s.subrange(592, 596)
    &&& h.part_size@ == s.subrange(596, 600)
    &&& h.crc32_parts@ == s.subrange(600, 604)
}

/// The signature verdict is decided from the eight signature bytes alone:
/// two sources that agree on bytes 512..520 and both reach past the
/// signature pass or fail the signature check together, however the rest
/// of their bytes differ.
pub proof fn lemma_signature_check_is_local(s1: Seq<u8>, s2: Seq<u8>)
    requires
        s1.len() >= SIGNATURE_END,
        s2.len() >= SIGNATURE_END,
        s1.subrange(512, 520) == s2.subrange(512, 520),
    ensures
        signature_ok(s1) == signature_ok(s2),
{
}

/// The source bytes determine the decoded header: two headers that both
/// match the same source agree on every field, the disk GUID included.
pub proof fn lemma_header_unique(h1: Header, h2: Header, s: Seq<u8>)
    requires
        header_matches(h1, s),
        header_matches(h2, s),
    ensures
        h1 == h2,
{
    crate::guid::lemma_guid_decode_unique(h1.disk_guid, h2.disk_guid, s.subrange(568, 584));
    assert(h1.signature == h2.signature);
    assert(h1.revision == h2.revision);
    assert(h1.header_size_le == h2.header_size_le);
    assert(h1.crc32 == h2.crc32);
    assert(h1.reserved == h2.reserved);
    assert(h1.current_lba == h2.current_lba);
    assert(h1.backup_lba == h2.backup_lba);
    assert(h1.first_usable == h2.first_usable);
    assert(h1.last_usable == h2.last_usable);
    assert(h1.start_lba == h2.start_lba);
    assert(h1.num_parts == h2.num_parts);
    assert(h1.part_size == h2.part_size);
    assert(h1.crc32_parts == h2.crc32_parts);
}

/// True exactly when the eight bytes of `sig` read "EFI PART".
fn signature_matches(sig: &[u8; 8]) -> (ok: bool)
    ensures
        ok == (sig@ == spec_signature()),
{
    let ok = sig[0] == 0x45 && sig[1] == 0x46 && sig[2] == 0x49 && sig[3] == 0x20
        && sig[4] == 0x50 && sig[5] == 0x41 && sig[6] == 0x52 && sig[7] == 0x54;
    proof {
        if ok {
            assert(sig@ =~= spec_signature());
        }
    }
    ok
}

/// Reconstructs the disk GUID from its sixteen mixed-endian bytes.
///
/// Sixteen bytes always compose into a well-formed identifier, so the
/// result is always `Ok`; the error type is kept so that callers see the
/// same failure taxonomy as the decoder itself.
pub fn parse_uuid(bytes: &[u8; 16]) -> (r: Result<DiskGuid, GptError>)
    ensures
        r matches Ok(g) && guid_matches_bytes(g, bytes@),
{
    Ok(DiskGuid::from_mixed_endian_bytes(bytes.as_slice()))
}

/// Decodes the primary GPT header from the raw bytes of a disk image.
///
/// `source` holds the image from its first byte; the header region is
/// expected at offset 512. The decode is total: exactly one of the three
/// outcomes below occurs, and no partial header is ever returned.
///
/// - Too short for the signature: `TruncatedRead`.
/// - Signature readable but not "EFI PART": `InvalidSignature`,
///   whatever else the source holds.
/// - Signature valid but the region ends before offset 604:
///   `TruncatedRead`.
/// - Otherwise `Ok`, with every field taken byte-for-byte from its
///   offset and the disk GUID reconstructed mixed-endian.
pub fn read_header(source: &[u8]) -> (r: Result<Header, GptError>)
    ensures
        match r {
            Ok(h) => source@.len() >= MIN_SOURCE_LEN && signature_ok(source@)
                && header_matches(h, source@),
            Err(GptError::TruncatedRead) => source@.len() < MIN_SOURCE_LEN
                && (source@.len() < SIGNATURE_END || signature_ok(source@)),
            Err(GptError::InvalidSignature) => source@.len() >= SIGNATURE_END
                && !signature_ok(source@),
            Err(_) => false,
        },
{
    if source.len() < SIGNATURE_END {
        return Err(GptError::TruncatedRead);
    }
    let signature: [u8; 8] = bytes_at(source, HEADER_OFFSET);
    if !signature_matches(&signature) {
        return Err(GptError::InvalidSignature);
    }
    if source.len() < MIN_SOURCE_LEN {
        return Err(GptError::TruncatedRead);
    }

    let revision: [u8; 4] = bytes_at(source, 520);
    let header_size_le: [u8; 4] = bytes_at(source, 524);
    let crc32: [u8; 4] = bytes_at(source, 528);
    let reserved: [u8; 4] = bytes_at(source, 532);
    let current_lba: [u8; 8] = bytes_at(source, 536);
    let backup_lba: [u8; 8] = bytes_at(source, 544);
    let first_usable: [u8; 8] = bytes_at(source, 552);
    let last_usable: [u8; 8] = bytes_at(source, 560);
    let guid_bytes: [u8; 16] = bytes_at(source, 568);
    let start_lba: [u8; 8] = bytes_at(source, 584);
    let num_parts: [u8; 4] = bytes_at(source, 592);
    let part_size: [u8; 4] = bytes_at(source, 596);
    let crc32_parts: [u8; 4] = bytes_at(source, 600);

    let disk_guid = match parse_uuid(&guid_bytes) {
        Ok(g) => g,
        Err(e) => {
            return Err(e);
        },
    };

    Ok(Header {
        signature,
        revision,
        header_size_le,
        crc32,
        reserved,
        current_lba,
        backup_lba,
        first_usable,
        last_usable,
        disk_guid,
        start_lba,
        num_parts,
        part_size,
        crc32_parts,
    })
}

} // verus!
