use livesplit_auto_splitting::environment::{
    tick_duration_nanos, update_paths, Environment, TrapError, DEFAULT_TICK_RATE_NANOS,
};
use livesplit_auto_splitting::memory::{Bitness, MemoryImage};
use livesplit_auto_splitting::pointer::PointerValue;
use livesplit_auto_splitting::process::{ImageTarget, MemoryReader};

fn target_with_u32_leaf(leaf: u32) -> ImageTarget {
    // Module `game.exe` at 0x400000; *(u64*)0x400100 = 0x500000;
    // *(u32*)0x500020 = leaf.
    let mut img = MemoryImage::new();
    img.add_region(0x400100, 0x50_0000u64.to_le_bytes().to_vec());
    img.add_region(0x500020, leaf.to_le_bytes().to_vec());
    ImageTarget {
        image: img,
        modules: vec![(String::from("game.exe"), 0x40_0000)],
        bitness: Bitness::Bits64,
    }
}

fn configured_env() -> Environment {
    let mut env = Environment::new();
    env.set_process_name(String::from("game.exe"));
    let id = env
        .push_pointer_path(String::from("game.exe"), 2)
        .expect("u32 is a valid pointer kind");
    assert_eq!(id, 0);
    env.push_offset(0, 0x100).unwrap();
    env.push_offset(0, 0x20).unwrap();
    env
}

#[test]
fn connect_and_first_tick_seeds_both_slots() {
    let mut env = configured_env();
    let target = target_with_u32_leaf(7);
    let reader = MemoryReader::Image(&target);
    update_paths(&mut env.pointer_paths, &reader, true).unwrap();
    assert_eq!(env.pointer_paths[0].current, PointerValue::U32(7));
    assert_eq!(env.pointer_paths[0].old_value, PointerValue::U32(7));

    let rate = tick_duration_nanos(30);
    env.set_tick_rate_nanos(rate);
    assert_eq!(env.tick_rate_nanos, 33_333_333);
}

#[test]
fn steady_tick_rotates_old_and_current() {
    let mut env = configured_env();
    let first = target_with_u32_leaf(7);
    let reader = MemoryReader::Image(&first);
    update_paths(&mut env.pointer_paths, &reader, true).unwrap();

    let second = target_with_u32_leaf(9);
    let reader = MemoryReader::Image(&second);
    update_paths(&mut env.pointer_paths, &reader, false).unwrap();
    assert_eq!(env.pointer_paths[0].current, PointerValue::U32(9));
    assert_eq!(env.pointer_paths[0].old_value, PointerValue::U32(7));
}

#[test]
fn update_fails_when_the_leaf_vanishes() {
    let mut env = configured_env();
    let first = target_with_u32_leaf(7);
    let reader = MemoryReader::Image(&first);
    update_paths(&mut env.pointer_paths, &reader, true).unwrap();

    // The target went away: an empty image fails the whole update.
    let gone = ImageTarget {
        image: MemoryImage::new(),
        modules: vec![(String::from("game.exe"), 0x40_0000)],
        bitness: Bitness::Bits64,
    };
    let reader = MemoryReader::Image(&gone);
    assert!(update_paths(&mut env.pointer_paths, &reader, false).is_err());
}

#[test]
fn update_fails_without_the_module() {
    let mut env = configured_env();
    let mut target = target_with_u32_leaf(7);
    target.modules.clear();
    let reader = MemoryReader::Image(&target);
    assert!(update_paths(&mut env.pointer_paths, &reader, true).is_err());
}

#[test]
fn absolute_path_starts_at_base_zero() {
    let mut env = Environment::new();
    env.push_pointer_path(String::new(), 0).unwrap();
    env.push_offset(0, 0x1000).unwrap();
    let mut img = MemoryImage::new();
    img.add_region(0x1000, vec![0x2A]);
    let target = ImageTarget { image: img, modules: vec![], bitness: Bitness::Bits64 };
    let reader = MemoryReader::Image(&target);
    update_paths(&mut env.pointer_paths, &reader, true).unwrap();
    assert_eq!(env.pointer_paths[0].current, PointerValue::U8(0x2A));
}

#[test]
fn path_ids_are_insertion_indices_and_stay_valid() {
    let mut env = Environment::new();
    assert_eq!(env.push_pointer_path(String::new(), 0).unwrap(), 0);
    assert_eq!(env.push_pointer_path(String::new(), 3).unwrap(), 1);
    assert_eq!(env.push_pointer_path(String::new(), 9).unwrap(), 2);
    assert_eq!(env.get_u8(0, true).unwrap(), 0);
    assert_eq!(env.get_u64(1, false).unwrap(), 0);
    assert_eq!(env.get_f64(2, true).unwrap(), 0);
}

#[test]
fn unknown_pointer_type_is_rejected() {
    let mut env = Environment::new();
    assert_eq!(
        env.push_pointer_path(String::new(), 11),
        Err(TrapError::InvalidPointerType)
    );
    assert_eq!(
        env.push_pointer_path(String::new(), 200),
        Err(TrapError::InvalidPointerType)
    );
    assert_eq!(env.pointer_paths.len(), 0);
}

#[test]
fn unknown_path_ids_are_rejected() {
    let mut env = Environment::new();
    assert_eq!(env.push_offset(0, 4), Err(TrapError::InvalidPointerPathId));
    env.push_pointer_path(String::new(), 2).unwrap();
    assert_eq!(env.push_offset(1, 4), Err(TrapError::InvalidPointerPathId));
    assert_eq!(env.get_u32(1, true), Err(TrapError::InvalidPointerPathId));
}

#[test]
fn mismatched_kind_traps_and_leaves_the_runtime_usable() {
    // A path declared i16 refuses a u32 read with a type mismatch, and
    // the registry stays usable afterwards.
    let mut env = Environment::new();
    let id = env.push_pointer_path(String::new(), 5).unwrap();
    assert_eq!(id, 0);
    assert_eq!(env.get_u32(0, true), Err(TrapError::TypeMismatch));
    assert_eq!(env.get_i16(0, true), Ok(0));
    assert_eq!(env.get_i16(0, false), Ok(0));
}

#[test]
fn sixty_ticks_per_second_rounds_to_the_nearest_nanosecond() {
    assert_eq!(tick_duration_nanos(60), 16_666_667);
    assert_eq!(tick_duration_nanos(60), DEFAULT_TICK_RATE_NANOS);
    assert_eq!(tick_duration_nanos(30), 33_333_333);
    assert_eq!(tick_duration_nanos(1), 1_000_000_000);
    assert_eq!(tick_duration_nanos(3), 333_333_333);
}

#[test]
fn probing_calls_never_trap_while_unhooked() {
    let env = Environment::new();
    assert_eq!(env.scan_signature("DE AD"), 0);
    let mut buf = vec![0u8; 4];
    assert!(!env.read_into_buf(0x1234, &mut buf));
    assert_eq!(buf, vec![0u8; 4]);
}

#[test]
fn typed_getters_widen_by_kind() {
    let mut env = configured_env();
    let target = target_with_u32_leaf(0xDEAD_BEEF);
    let reader = MemoryReader::Image(&target);
    update_paths(&mut env.pointer_paths, &reader, true).unwrap();
    assert_eq!(env.get_u32(0, true), Ok(0xDEAD_BEEF));
    assert_eq!(env.get_u8(0, true), Err(TrapError::TypeMismatch));
    assert_eq!(env.get_i32(0, true), Err(TrapError::TypeMismatch));
}

#[test]
fn signed_and_float_leaves_decode_by_declared_kind() {
    let mut env = Environment::new();
    env.push_pointer_path(String::new(), 5).unwrap();
    env.push_offset(0, 0x10).unwrap();
    env.push_pointer_path(String::new(), 8).unwrap();
    env.push_offset(1, 0x20).unwrap();

    let mut img = MemoryImage::new();
    img.add_region(0x10, (-2i16).to_le_bytes().to_vec());
    img.add_region(0x20, 2.5f32.to_bits().to_le_bytes().to_vec());
    let target = ImageTarget { image: img, modules: vec![], bitness: Bitness::Bits64 };
    let reader = MemoryReader::Image(&target);
    update_paths(&mut env.pointer_paths, &reader, true).unwrap();

    assert_eq!(env.get_i16(0, true), Ok(-2));
    assert_eq!(env.get_f32(1, true), Ok(2.5f32.to_bits()));
    assert_eq!(f32::from_bits(env.get_f32(1, true).unwrap()), 2.5);
}

#[test]
fn chains_follow_every_intermediate_pointer() {
    // base 0x1000: +0x8 -> pointer to 0x2000; +0x10 -> pointer to
    // 0x3000; +0x4 -> the u16 leaf.
    let mut env = Environment::new();
    env.push_pointer_path(String::from("lib.so"), 1).unwrap();
    env.push_offset(0, 0x8).unwrap();
    env.push_offset(0, 0x10).unwrap();
    env.push_offset(0, 0x4).unwrap();

    let mut img = MemoryImage::new();
    img.add_region(0x1008, 0x2000u64.to_le_bytes().to_vec());
    img.add_region(0x2010, 0x3000u64.to_le_bytes().to_vec());
    img.add_region(0x3004, 0xBEEFu16.to_le_bytes().to_vec());
    let target = ImageTarget {
        image: img,
        modules: vec![(String::from("lib.so"), 0x1000)],
        bitness: Bitness::Bits64,
    };
    let reader = MemoryReader::Image(&target);
    update_paths(&mut env.pointer_paths, &reader, true).unwrap();
    assert_eq!(env.get_u16(0, true), Ok(0xBEEF));
}

#[test]
fn a_path_without_offsets_resolves_to_its_base() {
    let mut env = Environment::new();
    env.push_pointer_path(String::from("lib.so"), 0).unwrap();
    let mut img = MemoryImage::new();
    img.add_region(0x1000, vec![0x77]);
    let target = ImageTarget {
        image: img,
        modules: vec![(String::from("lib.so"), 0x1000)],
        bitness: Bitness::Bits64,
    };
    let reader = MemoryReader::Image(&target);
    update_paths(&mut env.pointer_paths, &reader, true).unwrap();
    assert_eq!(env.pointer_paths[0].current, PointerValue::U8(0x77));
}

#[test]
fn thirty_two_bit_walks_wrap_at_the_pointer_width() {
    let mut env = Environment::new();
    env.push_pointer_path(String::new(), 0).unwrap();
    env.push_offset(0, -1).unwrap();
    let mut img = MemoryImage::new();
    img.add_region(0xFFFF_FFFF, vec![0x55]);
    let target = ImageTarget { image: img, modules: vec![], bitness: Bitness::Bits32 };
    let reader = MemoryReader::Image(&target);
    update_paths(&mut env.pointer_paths, &reader, true).unwrap();
    assert_eq!(env.pointer_paths[0].current, PointerValue::U8(0x55));
}
