use benfs_header::header::BenHeader;
use benfs_header::header::BEN_VERSION;
use benfs_header::header::PADDING_LEN;
use benfs_header::header::X_BLOCK_SIZE;

#[test]
fn benheader_size_test() {
    assert_eq!(BenHeader::default().to_bytes().len(), X_BLOCK_SIZE);
}

#[test]
fn format_is_valid() {
    assert!(BenHeader::new(123, 4, 5).valid());
    assert!(BenHeader::new(0, 0, 0).valid());
    assert!(BenHeader::new(u64::MAX, u64::MAX, u64::MAX).valid());
}

#[test]
fn blank_is_invalid() {
    let h = BenHeader::default();
    assert!(!h.valid());
    assert_eq!(h.benfs_signature, vec![0u8; 8]);
    assert_eq!(h.benfs_version, 0);
    assert_eq!(h.benfs_uuid, vec![0u8; 16]);
    assert_eq!(h.benfs_size, 0);
    assert_eq!(h.benfs_root, 0);
    assert_eq!(h.benfs_free, 0);
    assert_eq!(h.benfs_padding, vec![0u8; PADDING_LEN]);
}

#[test]
fn serialized_length_every_path() {
    assert_eq!(BenHeader::default().to_bytes().len(), X_BLOCK_SIZE);
    assert_eq!(BenHeader::new(9, 8, 7).to_bytes().len(), X_BLOCK_SIZE);
    let mut loaded = BenHeader::default();
    loaded.load_bytes(&BenHeader::new(9, 8, 7).to_bytes());
    assert_eq!(loaded.to_bytes().len(), X_BLOCK_SIZE);
}

#[test]
fn round_trip_reproduces_fields() {
    let orig = BenHeader::new(77, 10, 20);
    let bytes = orig.to_bytes();
    let mut fresh = BenHeader::default();
    fresh.load_bytes(&bytes);
    assert_eq!(fresh.benfs_signature, orig.benfs_signature);
    assert_eq!(fresh.benfs_version, orig.benfs_version);
    assert_eq!(fresh.benfs_uuid, orig.benfs_uuid);
    assert_eq!(fresh.benfs_size, orig.benfs_size);
    assert_eq!(fresh.benfs_root, orig.benfs_root);
    assert_eq!(fresh.benfs_free, orig.benfs_free);
    assert_eq!(fresh.benfs_padding, orig.benfs_padding);
    assert_eq!(fresh.valid(), orig.valid());
    assert!(fresh.valid());
    assert_eq!(fresh.to_bytes(), bytes);
}

#[test]
fn root_update_keeps_everything_else() {
    let mut h = BenHeader::new(4096, 10, 3);
    let sig = h.benfs_signature.clone();
    let version = h.benfs_version;
    let uuid = h.benfs_uuid.clone();
    let size = h.benfs_size;
    let free = h.benfs_free;
    h.set_root_block(20);
    assert_eq!(h.benfs_root, 20);
    assert_eq!(h.benfs_signature, sig);
    assert_eq!(h.benfs_version, version);
    assert_eq!(h.benfs_uuid, uuid);
    assert_eq!(h.benfs_size, size);
    assert_eq!(h.benfs_free, free);
    assert!(h.valid());
}

#[test]
fn free_update_keeps_everything_else() {
    let mut h = BenHeader::new(4096, 1, 3);
    let root = h.benfs_root;
    let uuid = h.benfs_uuid.clone();
    h.set_free_block(9);
    assert_eq!(h.benfs_free, 9);
    assert_eq!(h.benfs_root, root);
    assert_eq!(h.benfs_uuid, uuid);
    assert!(h.valid());
}

#[test]
fn size_update_keeps_everything_else() {
    let mut h = BenHeader::new(4096, 1, 3);
    let root = h.benfs_root;
    let free = h.benfs_free;
    h.set_total_size(8192);
    assert_eq!(h.benfs_size, 8192);
    assert_eq!(h.benfs_root, root);
    assert_eq!(h.benfs_free, free);
    assert!(h.valid());
}

#[test]
fn corrupt_signature_byte_invalidates() {
    let orig = BenHeader::new(500, 1, 2);
    for i in 0..8 {
        let mut bytes = orig.to_bytes();
        bytes[i] = bytes[i].wrapping_add(1);
        let mut loaded = BenHeader::default();
        loaded.load_bytes(&bytes);
        assert!(!loaded.valid());
    }
}

#[test]
fn corrupt_version_invalidates() {
    let orig = BenHeader::new(500, 1, 2);
    let mut bytes = orig.to_bytes();
    bytes[8] = bytes[8].wrapping_add(1);
    let mut loaded = BenHeader::default();
    loaded.load_bytes(&bytes);
    assert!(!loaded.valid());
}

#[test]
fn two_formats_differ_in_volume_id() {
    let a = BenHeader::new(1000, 1, 2);
    let b = BenHeader::new(1000, 1, 2);
    assert_ne!(a.benfs_uuid, b.benfs_uuid);
}

#[test]
fn format_scenario() {
    let h = BenHeader::new(1_048_576, 1, 2);
    assert_eq!(h.to_bytes().len(), 4096);
    assert!(h.valid());
    assert_eq!(h.benfs_size, 1_048_576);
    assert_eq!(h.benfs_root, 1);
    assert_eq!(h.benfs_free, 2);
    assert_ne!(h.benfs_uuid, vec![0u8; 16]);
}

#[test]
fn exact_layout_of_bytes() {
    let mut h = BenHeader::new(0x0102030405060708, 0x1122334455667788, 0x00000000000000ff);
    h.benfs_uuid = (1..=16).collect();
    let b = h.to_bytes();
    assert_eq!(b.len(), 4096);
    assert_eq!(&b[0..8], b"benFS1.0");
    assert_eq!(&b[8..16], &[BEN_VERSION as u8, 0, 0, 0, 0, 0, 0, 0]);
    assert_eq!(&b[16..32], &[1, 2, 3, 4, 5, 6, 7, 8, 9, 10, 11, 12, 13, 14, 15, 16]);
    assert_eq!(&b[32..40], &[0x08, 0x07, 0x06, 0x05, 0x04, 0x03, 0x02, 0x01]);
    assert_eq!(&b[40..48], &[0x88, 0x77, 0x66, 0x55, 0x44, 0x33, 0x22, 0x11]);
    assert_eq!(&b[48..56], &[0xff, 0, 0, 0, 0, 0, 0, 0]);
    assert!(b[56..].iter().all(|&x| x == 0));
}

#[test]
fn load_decodes_fields_little_endian() {
    let mut bytes = vec![0u8; X_BLOCK_SIZE];
    bytes[0..8].copy_from_slice(b"benFS1.0");
    bytes[8] = BEN_VERSION as u8;
    bytes[16] = 0xaa;
    bytes[31] = 0xbb;
    bytes[32] = 0x01;
    bytes[33] = 0x02;
    bytes[40] = 0x05;
    bytes[48] = 0x09;
    bytes[49] = 0x00;
    bytes[55] = 0x80;
    let mut h = BenHeader::default();
    h.load_bytes(&bytes);
    assert!(h.valid());
    assert_eq!(h.benfs_uuid[0], 0xaa);
    assert_eq!(h.benfs_uuid[15], 0xbb);
    assert_eq!(h.benfs_size, 0x0201);
    assert_eq!(h.benfs_root, 0x05);
    assert_eq!(h.benfs_free, 0x8000000000000009);
    assert_eq!(h.benfs_padding, vec![0u8; PADDING_LEN]);
}

#[test]
fn fresh_volume_id_is_random_version_four() {
    let h = BenHeader::new(1, 1, 1);
    assert_eq!(h.benfs_uuid.len(), 16);
    assert_eq!(h.benfs_uuid[6] & 0xf0, 0x40);
    assert_eq!(h.benfs_uuid[8] & 0xc0, 0x80);
}
