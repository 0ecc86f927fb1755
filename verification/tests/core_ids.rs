use ashfall::crc32::crc32;
use ashfall::form_id::{FormID, FormIDSync};
use ashfall::id::NetworkID;

#[test]
fn network_id_newtype() {
    let n = NetworkID::new(42);
    assert_eq!(n.as_u64(), 42);
    assert!(!n.is_null());
    assert!(NetworkID::null().is_null());
    assert_eq!(NetworkID::default(), NetworkID::null());
    assert_eq!(NetworkID::from(7u64), NetworkID::new(7));
    assert_eq!(u64::from(NetworkID::new(7)), 7);
    assert_eq!(n.to_display_string(), "42");
}

#[test]
fn network_id_equality_and_hash() {
    assert_eq!(NetworkID::new(1), NetworkID::new(1));
    assert_ne!(NetworkID::new(1), NetworkID::new(2));
}

#[test]
fn network_id_display_large_and_zero() {
    assert_eq!(NetworkID::new(0).to_display_string(), "0");
    assert_eq!(NetworkID::new(u64::MAX).to_display_string(), "18446744073709551615");
    assert_eq!(NetworkID::new(1000).to_display_string(), "1000");
}

#[test]
fn form_id_parts() {
    let f = FormID::new(0x01AB_CDEF);
    assert_eq!(f.mod_index(), 0x01);
    assert_eq!(f.object_id(), 0xAB_CDEF);
    assert_eq!(f.as_u32(), 0x01AB_CDEF);
    assert!(!f.is_null());
    assert!(FormID::null().is_null());
    assert_eq!(FormID::default(), FormID::null());
}

#[test]
fn form_id_conversions_and_display() {
    assert_eq!(FormID::from(0x12_3456), FormID::new(0x12_3456));
    assert_eq!(u32::from(FormID::new(0x77)), 0x77);
    assert_eq!(FormID::new(0x0A0B0C0D).to_display_string(), "0A0B0C0D");
}

#[test]
fn form_id_display_pads_and_uppercases() {
    assert_eq!(FormID::new(0).to_display_string(), "00000000");
    assert_eq!(FormID::new(0xFFFF_FFFF).to_display_string(), "FFFFFFFF");
    assert_eq!(FormID::new(0x00ab_cdef).to_display_string(), "00ABCDEF");
}

#[test]
fn test_form_id_mod_index() {
    assert_eq!(FormID::new(0x01001234).mod_index(), 1);
    assert_eq!(FormID::new(0x00001234).mod_index(), 0);
    assert_eq!(FormID::new(0xFF001234).mod_index(), 255);
}

#[test]
fn test_form_id_object_id() {
    assert_eq!(FormID::new(0x01001234).object_id(), 0x001234);
    assert_eq!(FormID::new(0x02FFFFFF).object_id(), 0x00FFFFFF);
}

#[test]
fn test_form_id_null() {
    assert!(FormID::null().is_null());
    assert!(!FormID::new(1).is_null());
}

#[test]
fn test_crc32_standard_vector() {
    assert_eq!(crc32(b"123456789"), 0xCBF4_3926);
    assert_eq!(crc32(b""), 0);
}

#[test]
fn crc32_streaming_matches_one_shot() {
    let data: Vec<u8> = (0..3000u32).map(|i| (i % 251) as u8).collect();
    // The zlib value of a single 'a'.
    assert_eq!(crc32(b"a"), 0xE8B7_BE43);
    assert_ne!(crc32(&data[..1500]), crc32(&data));
}

#[test]
fn form_id_sync_new() {
    let s = FormIDSync::new(FormID::new(1), [0.0f32.to_bits(); 3], [0.0f32.to_bits(); 3], 1.0f32.to_bits(), 0x01);
    assert_eq!(s.flags, 0x01);
    assert_eq!(s.form_id, FormID::new(1));
    assert_eq!(f32::from_bits(s.scale), 1.0);
}
