use screensaver_battle_autosplitter::layout::{
    offset_address, pair_offset, pointer_size_supported, root_path_at, PointerSize,
};
use screensaver_battle_autosplitter::memory::{
    is_battle_manager_name, native_alive_from, non_null_pointer, validate_battle_values, BattleValues,
    ReadResponse,
};

#[test]
fn null_pointer_is_dropped() {
    assert_eq!(non_null_pointer(Some(0)), None);
    assert_eq!(non_null_pointer(None), None);
    assert_eq!(non_null_pointer(Some(0x1234)), Some(0x1234));
}

#[test]
fn native_alive_from_cached_pointer() {
    assert_eq!(native_alive_from(Some(0x10)), Some(true));
    assert_eq!(native_alive_from(Some(0)), Some(false));
    assert_eq!(native_alive_from(None), None);
}

#[test]
fn battle_values_bounds() {
    assert_eq!(
        validate_battle_values(0, 0, 0),
        Some(BattleValues { stage_num: 0, start_flg: 0, finish_flg: 0 })
    );
    assert_eq!(
        validate_battle_values(20, 1, 1),
        Some(BattleValues { stage_num: 20, start_flg: 1, finish_flg: 1 })
    );
    assert_eq!(validate_battle_values(21, 0, 0), None);
    assert_eq!(validate_battle_values(-1, 0, 0), None);
    assert_eq!(validate_battle_values(5, 2, 0), None);
    assert_eq!(validate_battle_values(5, 0, 255), None);
}

#[test]
fn manager_name() {
    assert!(is_battle_manager_name(&ReadResponse::Bytes(b"BattleManager\0".to_vec())));
    assert!(!is_battle_manager_name(&ReadResponse::Bytes(b"BattleManagerX".to_vec())));
    assert!(!is_battle_manager_name(&ReadResponse::Bytes(b"BattleManager".to_vec())));
    assert!(!is_battle_manager_name(&ReadResponse::Bytes(b"battleManager\0".to_vec())));
    assert!(!is_battle_manager_name(&ReadResponse::Failed));
    assert!(!is_battle_manager_name(&ReadResponse::Pointer(0x42)));
}

#[test]
fn addresses_wrap() {
    assert_eq!(offset_address(0x1000, 0xE8), 0x10E8);
    assert_eq!(offset_address(u64::MAX, 0x10), 0xF);
}

#[test]
fn component_slots_are_sixteen_bytes_apart() {
    assert_eq!(pair_offset(0), 0x08);
    assert_eq!(pair_offset(1), 0x18);
    assert_eq!(pair_offset(15), 0xF8);
}

#[test]
fn root_paths_in_order() {
    assert_eq!(root_path_at(0), (0xE8, 0x00));
    assert_eq!(root_path_at(1), (0xE8, 0x08));
    assert_eq!(root_path_at(2), (0xF0, 0x00));
    assert_eq!(root_path_at(3), (0xF0, 0x08));
}

#[test]
fn only_64_bit_processes() {
    assert!(pointer_size_supported(PointerSize::Bit64));
    assert!(!pointer_size_supported(PointerSize::Bit32));
    assert!(!pointer_size_supported(PointerSize::Bit16));
}
