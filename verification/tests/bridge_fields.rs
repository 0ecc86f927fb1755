use ashfall::bridge::hooks::memory::{safe_write16, safe_write32, safe_write8, safe_write_buf};
use ashfall::bridge::hooks::{encode_event_frame, event_size, is_game_process};
use ashfall::bridge::network::PIPE_OP_EVENT;
use ashfall::bridge::hooks::is_fnv;
use ashfall::bridge::hooks::memory::MemoryImage;
use ashfall::bridge::hooks::vtable::{
    get_cell_from_obj, get_combat_target_from_obj, get_enabled_from_obj, get_parent_cell_from_obj,
    get_ref_id, get_scale_from_obj, read_field_u32, read_field_u8, set_enabled_flags, set_lock_flags,
    write_field_u32, write_field_u8, UNIT_SCALE_BITS,
};

const OBJ: usize = 0x1000;

fn object(size: usize) -> MemoryImage {
    MemoryImage::new(OBJ, vec![0u8; size])
}

#[test]
fn test_read_field_u32() {
    let mut img = object(32);
    assert!(write_field_u32(&mut img, OBJ, 0x0C, 0xDEADBEEF));
    assert_eq!(read_field_u32(&img, OBJ, 0x0C), Some(0xDEADBEEF));
    assert_eq!(get_ref_id(&img, OBJ), 0xDEADBEEF);
    assert_eq!(read_field_u32(&img, OBJ, 30), None, "straddles the end");
}

#[test]
fn field_getters_null_defaults() {
    let img = object(16);
    assert_eq!(get_cell_from_obj(&img, is_fnv(), 0), 0);
    assert!(get_enabled_from_obj(&img, is_fnv(), 0));
    assert_eq!(get_parent_cell_from_obj(&img, is_fnv(), 0), 0);
    assert_eq!(get_combat_target_from_obj(&img, is_fnv(), 0), 0);
    assert_eq!(get_scale_from_obj(&img, is_fnv(), 0), UNIT_SCALE_BITS);
    assert_eq!(f32::from_bits(UNIT_SCALE_BITS), 1.0);
}

#[test]
fn test_get_cell_from_obj() {
    // A cell at 0x2000 with form id 0xCAFE, and an object pointing at it.
    let mut bytes = vec![0u8; 0x1100];
    bytes[0x1000 + 0x0C..0x1000 + 0x10].copy_from_slice(&0xCAFEu32.to_le_bytes());
    let mut img = MemoryImage::new(OBJ, bytes);
    assert!(write_field_u32(&mut img, OBJ, 0x3C, 0x2000));
    assert_eq!(get_cell_from_obj(&img, is_fnv(), OBJ), 0xCAFE);
    // Null cell pointer → 0
    assert!(write_field_u32(&mut img, OBJ, 0x3C, 0));
    assert_eq!(get_cell_from_obj(&img, is_fnv(), OBJ), 0);
}

#[test]
fn test_get_enabled_from_obj_fo3_offset() {
    let mut img = object(128);
    write_field_u32(&mut img, OBJ, 0x50, 0x02);
    assert!(!get_enabled_from_obj(&img, is_fnv(), OBJ));
    write_field_u32(&mut img, OBJ, 0x50, 0x00);
    assert!(get_enabled_from_obj(&img, is_fnv(), OBJ));
}

#[test]
fn test_set_enabled_roundtrip() {
    let mut img = object(128);
    assert!(get_enabled_from_obj(&img, is_fnv(), OBJ));
    set_enabled_flags(&mut img, is_fnv(), OBJ, false);
    assert!(!get_enabled_from_obj(&img, is_fnv(), OBJ));
    assert_eq!(read_field_u32(&img, OBJ, 0x50), Some(0x02));
    set_enabled_flags(&mut img, is_fnv(), OBJ, true);
    assert!(get_enabled_from_obj(&img, is_fnv(), OBJ));
}

#[test]
fn enabled_flag_keeps_other_bits() {
    let mut img = object(128);
    write_field_u32(&mut img, OBJ, 0x50, 0xF0);
    set_enabled_flags(&mut img, is_fnv(), OBJ, false);
    assert_eq!(read_field_u32(&img, OBJ, 0x50), Some(0xF2));
    set_enabled_flags(&mut img, is_fnv(), OBJ, true);
    assert_eq!(read_field_u32(&img, OBJ, 0x50), Some(0xF0));
    // New Vegas keeps the flags four bytes later.
    set_enabled_flags(&mut img, true, OBJ, false);
    assert_eq!(read_field_u32(&img, OBJ, 0x54), Some(0x02));
}

#[test]
fn test_set_parent_cell_roundtrip() {
    let mut img = object(128);
    write_field_u32(&mut img, OBJ, 0x3C, 0);
    assert_eq!(get_parent_cell_from_obj(&img, is_fnv(), OBJ), 0);
    write_field_u32(&mut img, OBJ, 0x3C, 0x1234);
    assert_eq!(get_parent_cell_from_obj(&img, is_fnv(), OBJ), 0x1234);
}

#[test]
fn test_set_lock_roundtrip() {
    let mut img = object(64);
    write_field_u8(&mut img, OBJ, 0x0A, 0);
    assert_eq!(read_field_u8(&img, OBJ, 0x0A).unwrap() & 0x01, 0);
    set_lock_flags(&mut img, OBJ, true);
    assert_eq!(read_field_u8(&img, OBJ, 0x0A).unwrap() & 0x01, 1);
    set_lock_flags(&mut img, OBJ, false);
    assert_eq!(read_field_u8(&img, OBJ, 0x0A).unwrap() & 0x01, 0);
}

#[test]
fn test_scale_roundtrip() {
    let mut img = object(128);
    write_field_u32(&mut img, OBJ, 0x38, 1.0f32.to_bits());
    assert_eq!(f32::from_bits(get_scale_from_obj(&img, is_fnv(), OBJ)), 1.0);
    write_field_u32(&mut img, OBJ, 0x38, 2.5f32.to_bits());
    assert_eq!(f32::from_bits(get_scale_from_obj(&img, is_fnv(), OBJ)), 2.5);
}

#[test]
fn test_get_parent_cell_from_obj_fo3_offset() {
    let mut img = object(128);
    write_field_u32(&mut img, OBJ, 0x3C, 0x1234);
    assert_eq!(get_parent_cell_from_obj(&img, is_fnv(), OBJ), 0x1234);
    let mut img2 = object(128);
    write_field_u32(&mut img2, OBJ, 0x28, 0xDEADBEEF);
    assert_eq!(get_parent_cell_from_obj(&img2, is_fnv(), OBJ), 0, "0x28 is rotZ, not a cell");
}

#[test]
fn test_get_combat_target_from_obj_fo3_offset() {
    let mut img = object(0x600);
    write_field_u32(&mut img, OBJ, 0x4E0, 0x5555);
    assert_eq!(get_combat_target_from_obj(&img, is_fnv(), OBJ), 0x5555);
    write_field_u32(&mut img, OBJ, 0x430, 0x7777);
    assert_eq!(get_combat_target_from_obj(&img, true, OBJ), 0x7777);
}

#[test]
fn event_frames_carry_type_and_record() {
    let record: Vec<u8> = (0u8..32).collect();
    let f = encode_event_frame(1, Some(&record)).unwrap();
    assert_eq!(f[0], PIPE_OP_EVENT);
    assert_eq!(&f[1..5], &1u32.to_le_bytes());
    assert_eq!(&f[5..], &record[..8], "activate records are 8 bytes");
    assert_eq!(encode_event_frame(0, Some(&record)).unwrap().len(), 5 + 24);
    assert_eq!(event_size(2), Some(16));
    assert_eq!(event_size(4), Some(12));
    assert_eq!(event_size(5), Some(1));
    assert_eq!(encode_event_frame(9, Some(&record)), None, "unknown type");
    assert_eq!(encode_event_frame(1, None), None, "no record");
    assert!(is_game_process("C:\\Games\\Fallout 3\\Fallout3.exe"));
    assert!(is_game_process("Z:/steam/FalloutNV.EXE"));
    assert!(!is_game_process("C:\\wine\\harness.exe"));
    assert!(!is_game_process("C:\\Games\\"));
}

#[test]
fn test_lookup_form_by_id_null_on_bogus() {
    assert_eq!(ashfall::bridge::hooks::lookup_form_by_id(0), 0);
}

#[test]
fn test_read_field_f32_chain() {
    let mut img = object(64);
    for (i, v) in [1.0f32, 2.0, 3.0].iter().enumerate() {
        assert!(write_field_u32(&mut img, OBJ, 0x2C + 4 * i, v.to_bits()));
    }
    let read = |off: usize| f32::from_bits(read_field_u32(&img, OBJ, off).unwrap());
    assert_eq!((read(0x2C), read(0x30), read(0x34)), (1.0, 2.0, 3.0));
}

#[test]
fn test_safe_write8_readback() {
    let mut img = MemoryImage::new(OBJ, vec![0xA5; 8]);
    safe_write8(&mut img, OBJ, 0x42);
    safe_write8(&mut img, OBJ + 1, 0x7B);
    assert_eq!(img.read(OBJ, 3), Some(vec![0x42, 0x7B, 0xA5]));
}

#[test]
fn test_safe_write32() {
    let mut img = object(8);
    safe_write32(&mut img, OBJ, 0xDEADBEEF);
    assert_eq!(read_field_u32(&img, OBJ, 0), Some(0xDEADBEEF));
    assert_eq!(read_field_u32(&img, OBJ, 4), Some(0));
}

#[test]
fn safe_write_buf_and_16() {
    let mut img = object(6);
    safe_write_buf(&mut img, OBJ, &[0x11, 0x22, 0x33, 0x44]);
    assert_eq!(img.read(OBJ, 6), Some(vec![0x11, 0x22, 0x33, 0x44, 0, 0]));
    safe_write16(&mut img, OBJ + 4, 0xBEEF);
    assert_eq!(img.read(OBJ + 4, 2), Some(vec![0xEF, 0xBE]));
}
