use ndsdump::ARM9Bootcode;
use ndsdump::NDSCartridgeHeader;
use ndsdump::NdsError;
use ndsdump::bios_get_crc16;
use ndsdump::bootcode::secure_area_encrypted;
use ndsdump::bootcode::secure_area_present;
use ndsdump::check_secure_area_crc;
use ndsdump::load_encr_data;
use ndsdump::try_check_secure_area_crc;

fn sample_header_bytes() -> Vec<u8> {
    let mut b = vec![0u8; 64];
    // Title "HELLOWORLD  " at offset 0.
    b[..12].copy_from_slice(b"HELLOWORLD  ");
    // Game code 0x12345678, little endian, at offset 12.
    b[12..16].copy_from_slice(&[0x78, 0x56, 0x34, 0x12]);
    // Maker code 0xABCD at offset 16.
    b[16..18].copy_from_slice(&[0xCD, 0xAB]);
    b[18] = 0x02; // unit code
    b[19] = 0x03; // encryption seed select
    b[20] = 0x09; // device capacity
    b[21..29].copy_from_slice(&[1, 2, 3, 4, 5, 6, 7, 8]);
    b[29] = 0x40; // region
    b[30] = 0x07; // rom version
    b[31] = 0x04; // autostart
    // ARM9 offset 0x4000 at byte offset 32.
    b[32..36].copy_from_slice(&[0x00, 0x40, 0x00, 0x00]);
    // ARM9 entry 0x02000800 at byte offset 36.
    b[36..40].copy_from_slice(&[0x00, 0x08, 0x00, 0x02]);
    // ARM9 RAM address 0x02000000 at byte offset 40.
    b[40..44].copy_from_slice(&[0x00, 0x00, 0x00, 0x02]);
    // ARM9 size 0x000200 words at byte offset 44.
    b[44..48].copy_from_slice(&[0x00, 0x02, 0x00, 0x00]);
    b
}

#[test]
fn header_decode_exact_fields() {
    let b = sample_header_bytes();
    let h = NDSCartridgeHeader::parse_nds(&b).unwrap();
    assert_eq!(h.gametitle, b"HELLOWORLD  ".to_vec());
    assert_eq!(h.gamecode, 0x12345678);
    assert_eq!(h.makercode, 0xABCD);
    assert_eq!(h.unitcode, 0x02);
    assert_eq!(h.encrseedsel, 0x03);
    assert_eq!(h.devicecaps, 0x09);
    assert_eq!(h.res0, vec![1, 2, 3, 4, 5, 6, 7, 8]);
    assert_eq!(h.ndsregion, 0x40);
    assert_eq!(h.romversion, 0x07);
    assert_eq!(h.autostart, 0x04);
    assert_eq!(h.arm9off, 0x4000);
    assert_eq!(h.arm9entry, 0x02000800);
    assert_eq!(h.arm9raddr, 0x02000000);
    assert_eq!(h.arm9size, 0x200);
}

#[test]
fn header_truncated_rejected() {
    let b = vec![0u8; 47];
    assert!(matches!(NDSCartridgeHeader::parse_nds(&b), Err(NdsError::TruncatedInput)));
    let b2 = vec![0u8; 48];
    assert!(NDSCartridgeHeader::parse_nds(&b2).is_ok());
}

#[test]
fn title_keycode_from_gamecode() {
    let b = sample_header_bytes();
    let h = NDSCartridgeHeader::parse_nds(&b).unwrap();
    let tk = h.title_keycode();
    assert_eq!(tk, vec![0x12345678, 0x091A2B3C, 0x2468ACF0]);
}

#[test]
fn key_table_loads_little_endian_words() {
    let mut bytes = vec![0u8; 4168];
    bytes[0..4].copy_from_slice(&[0xEF, 0xBE, 0xAD, 0xDE]);
    bytes[4164..4168].copy_from_slice(&[0x01, 0x00, 0x00, 0x80]);
    let t = load_encr_data(&bytes).unwrap();
    assert_eq!(t.len(), 1042);
    assert_eq!(t[0], 0xDEADBEEF);
    assert_eq!(t[1], 0);
    assert_eq!(t[1041], 0x80000001);
}

#[test]
fn key_table_truncated_rejected() {
    let bytes = vec![0u8; 4167];
    assert!(matches!(load_encr_data(&bytes), Err(NdsError::TruncatedInput)));
}

#[test]
fn secure_area_offset_classification() {
    assert!(!secure_area_present(0x3000));
    assert!(secure_area_present(0x4000));
    assert!(secure_area_present(0x7FFF));
    assert!(!secure_area_present(0x8000));
    assert!(!secure_area_present(0));
}

#[test]
fn secure_area_sentinel_classification() {
    assert!(!secure_area_encrypted(0xE7FFDEFFE7FFDEFF));
    assert!(secure_area_encrypted(0xE7FFDEFFE7FFDEFE));
    assert!(secure_area_encrypted(0));
}

fn header_with_offset(arm9off: u32, arm9size: u32) -> NDSCartridgeHeader {
    let mut b = sample_header_bytes();
    b[32..36].copy_from_slice(&arm9off.to_le_bytes());
    b[44..48].copy_from_slice(&arm9size.to_le_bytes());
    NDSCartridgeHeader::parse_nds(&b).unwrap()
}

#[test]
fn bootcode_flags_for_decrypted_area() {
    let hdr = header_with_offset(0x4000, 4);
    let words = vec![0xE7FFDEFFE7FFDEFF, 1, 2, 3, 4, 5];
    let bc = ARM9Bootcode::new(words, &hdr).unwrap();
    assert_eq!(bc.raw_data, vec![0xE7FFDEFFE7FFDEFF, 1, 2, 3]);
    assert!(bc.secure_area_present);
    assert!(!bc.secure_area_encrypted);
}

#[test]
fn bootcode_flags_for_encrypted_area() {
    let hdr = header_with_offset(0x4000, 2);
    let words = vec![0xDEADBEEF00C0FFEE, 7];
    let bc = ARM9Bootcode::new(words, &hdr).unwrap();
    assert_eq!(bc.raw_data, vec![0xDEADBEEF00C0FFEE, 7]);
    assert!(bc.secure_area_present);
    assert!(bc.secure_area_encrypted);
}

#[test]
fn bootcode_unsupported_offset_rejected() {
    let hdr = header_with_offset(0x3000, 2);
    let words = vec![0u64; 8];
    assert!(matches!(ARM9Bootcode::new(words, &hdr), Err(NdsError::UnsupportedLayout)));
}

#[test]
fn bootcode_truncated_rejected() {
    let hdr = header_with_offset(0x4000, 9);
    let words = vec![0u64; 8];
    assert!(matches!(ARM9Bootcode::new(words, &hdr), Err(NdsError::TruncatedInput)));
}

#[test]
fn crc16_known_vector() {
    // The boot-ROM convention (reflected 0xA001, initial 0xFFFF, no final
    // XOR) over "123456789" has the well-known check value 0x4B37.
    assert_eq!(bios_get_crc16(b"123456789"), 0x4B37);
    assert_eq!(bios_get_crc16(b""), 0xFFFF);
}

#[test]
fn secure_area_crc_match_and_mismatch() {
    let mut area = vec![0u8; 0x7F0];
    for (i, b) in area.iter_mut().enumerate() {
        *b = (i % 251) as u8;
    }
    let good = bios_get_crc16(&area);
    let (ok, recomputed) = check_secure_area_crc(&good, &area);
    assert!(ok);
    assert_eq!(recomputed, good);
    let bad = good ^ 1;
    let (ok2, recomputed2) = check_secure_area_crc(&bad, &area);
    assert!(!ok2);
    assert_eq!(recomputed2, good);
}

#[test]
fn crc_length_precondition() {
    let crc: u16 = 0;
    assert!(try_check_secure_area_crc(&crc, &vec![0u8; 0x7EF]).is_none());
    assert!(try_check_secure_area_crc(&crc, &vec![0u8; 0x7F1]).is_none());
    assert!(try_check_secure_area_crc(&crc, &vec![0u8; 0]).is_none());
    assert!(try_check_secure_area_crc(&crc, &vec![0u8; 0x7F0]).is_some());
}
