use eos_rs::ids::{ItemId, MonsterTypeId, ITEM_NOTHING};
use eos_rs::moves::{FaintReason, Move, MoveId, MAX_PP_CEILING};

fn garbage() -> Move {
    Move { flags0: 0xFA, flags2: 0xBEEF, id: MoveId::new(77), pp: 200, ginseng: 9 }
}

#[test]
fn init_sets_id_pp_and_boost() {
    let mut m = garbage();
    m.init(MoveId::new(8), 25);
    assert_eq!(m.id(), MoveId::new(8));
    assert_eq!(m.id().id(), 8);
    assert_eq!(m.pp, 25);
    assert_eq!(m.get_max_pp(25), 25);
    assert_eq!(m.ginseng, 0);
    assert!(m.f_exists());
    assert!(m.f_enabled_for_ai());
    assert_eq!(m.flags0, 0x05);
    assert_eq!(m.flags2, 0);
}

#[test]
fn init_caps_pp_at_ceiling() {
    let mut m = garbage();
    m.init(MoveId::new(300), 120);
    assert_eq!(m.id(), MoveId::new(300));
    assert_eq!(m.pp, 99);
    assert_eq!(m.get_max_pp(120), 99);
    assert_eq!(m.ginseng, 0);
    let mut n = garbage();
    n.init(MoveId::new(1), 99);
    assert_eq!(n.pp, MAX_PP_CEILING);
    let mut z = garbage();
    z.init(MoveId::new(1), 0);
    assert_eq!(z.pp, 0);
}

#[test]
fn max_pp_is_capped() {
    let m = garbage();
    assert_eq!(m.get_max_pp(0), 0);
    assert_eq!(m.get_max_pp(98), 98);
    assert_eq!(m.get_max_pp(99), 99);
    assert_eq!(m.get_max_pp(100), 99);
    assert_eq!(m.get_max_pp(255), 99);
}

#[test]
fn flags_read_their_bits() {
    let mut m = garbage();
    m.flags0 = 0x04;
    assert!(!m.f_exists());
    assert!(m.f_enabled_for_ai());
    m.flags0 = 0x01;
    assert!(m.f_exists());
    assert!(!m.f_enabled_for_ai());
}

#[test]
fn move_id_converts_to_raw() {
    let id = MoveId::new(0x22B);
    assert_eq!(id.id(), 0x22B);
    assert_eq!(u32::from(id), 0x22B);
    let raw: u32 = id.into();
    assert_eq!(raw, 0x22B);
}

#[test]
fn faint_reason_without_item_is_the_move() {
    let id = MoveId::new(42);
    assert_eq!(id.get_faint_reason(ItemId::new(ITEM_NOTHING), true), FaintReason::Move(id));
    assert_eq!(id.get_faint_reason(ItemId::new(0), false), FaintReason::Move(id));
}

#[test]
fn faint_reason_with_item() {
    let id = MoveId::new(42);
    assert_eq!(id.get_faint_reason(ItemId::new(0x150), true), FaintReason::OrbItem);
    assert_eq!(id.get_faint_reason(ItemId::new(0x150), false), FaintReason::NonOrbItem);
}

#[test]
fn other_ids_keep_their_codes() {
    assert_eq!(ItemId::new(12).id(), 12);
    assert_eq!(MonsterTypeId::new(17).id(), 17);
}
