use gpt_header::gpt::{parse_uuid, read_header, GptError};
use gpt_header::guid::DiskGuid;

/// The sixteen mixed-endian GUID bytes of the sample disk.
const GUID_BYTES: [u8; 16] = [
    0x10, 0xB3, 0xE0, 0x4B, 0x0A, 0x7A, 0x42, 0x44, 0xB1, 0xF9, 0x63, 0x40, 0xA8, 0xA1, 0xF0,
    0xDE,
];

/// A zero-filled block 0 followed by a well-formed 92-byte header region.
fn build_image() -> Vec<u8> {
    let mut img = vec![0u8; 512];
    img.extend_from_slice(b"EFI PART"); // signature, 512..520
    img.extend_from_slice(&[0x00, 0x00, 0x01, 0x00]); // revision, 520..524
    img.extend_from_slice(&[0x5C, 0x00, 0x00, 0x00]); // header size, 524..528
    img.extend_from_slice(&[0x11, 0x22, 0x33, 0x44]); // header crc32, 528..532
    img.extend_from_slice(&[0x00, 0x00, 0x00, 0x00]); // reserved, 532..536
    img.extend_from_slice(&[0x01, 0, 0, 0, 0, 0, 0, 0]); // current lba, 536..544
    img.extend_from_slice(&[0xFF, 0xEE, 0, 0, 0, 0, 0, 0]); // backup lba, 544..552
    img.extend_from_slice(&[0x22, 0, 0, 0, 0, 0, 0, 0]); // first usable, 552..560
    img.extend_from_slice(&[0xDD, 0xCC, 0, 0, 0, 0, 0, 0]); // last usable, 560..568
    img.extend_from_slice(&GUID_BYTES); // disk guid, 568..584
    img.extend_from_slice(&[0x02, 0, 0, 0, 0, 0, 0, 0]); // entry array lba, 584..592
    img.extend_from_slice(&[0x80, 0x00, 0x00, 0x00]); // entry count, 592..596
    img.extend_from_slice(&[0x80, 0x00, 0x00, 0x00]); // entry size, 596..600
    img.extend_from_slice(&[0x55, 0x66, 0x77, 0x88]); // array crc32, 600..604
    assert_eq!(img.len(), 604);
    img
}

#[test]
fn decodes_every_field_byte_for_byte() {
    let img = build_image();
    let h = read_header(&img).expect("a well-formed header must decode");
    assert_eq!(&h.signature, b"EFI PART");
    assert_eq!(h.revision, [0x00, 0x00, 0x01, 0x00]);
    assert_eq!(h.header_size_le, [0x5C, 0x00, 0x00, 0x00]);
    assert_eq!(h.crc32, [0x11, 0x22, 0x33, 0x44]);
    assert_eq!(h.reserved, [0x00, 0x00, 0x00, 0x00]);
    assert_eq!(h.current_lba, [0x01, 0, 0, 0, 0, 0, 0, 0]);
    assert_eq!(h.backup_lba, [0xFF, 0xEE, 0, 0, 0, 0, 0, 0]);
    assert_eq!(h.first_usable, [0x22, 0, 0, 0, 0, 0, 0, 0]);
    assert_eq!(h.last_usable, [0xDD, 0xCC, 0, 0, 0, 0, 0, 0]);
    assert_eq!(h.start_lba, [0x02, 0, 0, 0, 0, 0, 0, 0]);
    assert_eq!(h.num_parts, [0x80, 0x00, 0x00, 0x00]);
    assert_eq!(h.part_size, [0x80, 0x00, 0x00, 0x00]);
    assert_eq!(h.crc32_parts, [0x55, 0x66, 0x77, 0x88]);
}

#[test]
fn accessors_interpret_little_endian_fields() {
    let img = build_image();
    let h = read_header(&img).expect("a well-formed header must decode");
    assert_eq!(h.header_size(), 92);
    assert_eq!(h.current_lba_value(), 1);
    assert_eq!(h.backup_lba_value(), 0xEEFF);
    assert_eq!(h.first_usable_lba(), 0x22);
    assert_eq!(h.last_usable_lba(), 0xCCDD);
    assert_eq!(h.partition_array_start_lba(), 2);
    assert_eq!(h.num_partition_entries(), 128);
    assert_eq!(h.partition_entry_size(), 128);
}

#[test]
fn decodes_sample_disk_guid() {
    let img = build_image();
    let h = read_header(&img).expect("a well-formed header must decode");
    assert_eq!(h.disk_guid.d1, 0x4BE0B310);
    assert_eq!(h.disk_guid.d2, 0x7A0A);
    assert_eq!(h.disk_guid.d3, 0x4442);
    assert_eq!(h.disk_guid.d4, [0xB1, 0xF9, 0x63, 0x40, 0xA8, 0xA1, 0xF0, 0xDE]);
    assert_eq!(
        h.disk_guid.hyphenated_string(),
        "4be0b310-7a0a-4442-b1f9-6340a8a1f0de"
    );
}

#[test]
fn guid_text_agrees_with_uuid_crate() {
    let img = build_image();
    let g = read_header(&img).unwrap().disk_guid;
    let u = uuid::Uuid::from_fields(g.d1, g.d2, g.d3, &g.d4);
    assert_eq!(g.hyphenated_string(), u.hyphenated().to_string());
    let parsed = uuid::Uuid::parse_str("4be0b310-7a0a-4442-b1f9-6340a8a1f0de").unwrap();
    assert_eq!(u, parsed);
}

#[test]
fn rejects_all_zero_signature() {
    let mut img = build_image();
    img[512..520].copy_from_slice(&[0u8; 8]);
    assert_eq!(read_header(&img), Err(GptError::InvalidSignature));
}

#[test]
fn rejects_all_ff_signature() {
    let mut img = build_image();
    img[512..520].copy_from_slice(&[0xFFu8; 8]);
    assert_eq!(read_header(&img), Err(GptError::InvalidSignature));
}

#[test]
fn rejects_arbitrary_signature() {
    let mut img = build_image();
    img[512..520].copy_from_slice(&[0x13, 0x37, 0xC0, 0xDE, 0x00, 0x45, 0x46, 0x49]);
    assert_eq!(read_header(&img), Err(GptError::InvalidSignature));
}

#[test]
fn rejects_single_byte_signature_corruption() {
    let mut img = build_image();
    img[512..520].copy_from_slice(b"XFI PART");
    assert_eq!(read_header(&img), Err(GptError::InvalidSignature));
}

#[test]
fn short_sources_are_truncated_reads() {
    for len in [0usize, 1, 100, 511, 512, 519, 520, 560, 603] {
        let mut img = build_image();
        img.truncate(len);
        assert_eq!(
            read_header(&img),
            Err(GptError::TruncatedRead),
            "length {len}"
        );
    }
}

#[test]
fn exactly_560_bytes_is_a_truncated_read() {
    let mut img = build_image();
    img.truncate(560);
    assert_eq!(img.len(), 512 + 48);
    assert_eq!(read_header(&img), Err(GptError::TruncatedRead));
}

#[test]
fn longer_source_still_decodes() {
    let mut img = build_image();
    img.extend_from_slice(&[0xAB; 128]);
    let h = read_header(&img).expect("trailing bytes must not matter");
    assert_eq!(&h.signature, b"EFI PART");
}

#[test]
fn guid_round_trips_nil() {
    let g = DiskGuid { d1: 0, d2: 0, d3: 0, d4: [0; 8] };
    let bytes = g.to_mixed_endian_bytes();
    assert_eq!(bytes, [0u8; 16]);
    assert_eq!(parse_uuid(&bytes), Ok(g));
    assert_eq!(
        g.hyphenated_string(),
        "00000000-0000-0000-0000-000000000000"
    );
}

#[test]
fn guid_round_trips_all_ones() {
    let g = DiskGuid { d1: u32::MAX, d2: u16::MAX, d3: u16::MAX, d4: [0xFF; 8] };
    let bytes = g.to_mixed_endian_bytes();
    assert_eq!(bytes, [0xFFu8; 16]);
    assert_eq!(parse_uuid(&bytes), Ok(g));
    assert_eq!(
        g.hyphenated_string(),
        "ffffffff-ffff-ffff-ffff-ffffffffffff"
    );
}

#[test]
fn guid_round_trips_pseudo_random() {
    // A simple linear congruential sequence stands in for random draws.
    let mut state: u64 = 0x2545F4914F6CDD1D;
    let mut next = move || {
        state = state.wrapping_mul(6364136223846793005).wrapping_add(1442695040888963407);
        state
    };
    for _ in 0..16 {
        let a = next();
        let b = next();
        let g = DiskGuid {
            d1: (a >> 32) as u32,
            d2: (a >> 16) as u16,
            d3: a as u16,
            d4: b.to_le_bytes(),
        };
        let bytes = g.to_mixed_endian_bytes();
        assert_eq!(parse_uuid(&bytes), Ok(g));
        let u = uuid::Uuid::from_fields(g.d1, g.d2, g.d3, &g.d4);
        assert_eq!(g.hyphenated_string(), u.hyphenated().to_string());
    }
}

#[test]
fn guid_bytes_round_trip_from_the_wire() {
    let g = parse_uuid(&GUID_BYTES).unwrap();
    assert_eq!(g.to_mixed_endian_bytes(), GUID_BYTES);
}
