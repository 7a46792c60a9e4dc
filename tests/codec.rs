use eos_rs::codec::{MoveAiCondition, MoveCategory, MoveRange, MoveTarget};

const TARGETS: [MoveTarget; 8] = [
    MoveTarget::Enemies,
    MoveTarget::Party,
    MoveTarget::All,
    MoveTarget::User,
    MoveTarget::EnemiesAfterCharging,
    MoveTarget::AllExceptUser,
    MoveTarget::Teammates,
    MoveTarget::Special,
];

const RANGES: [MoveRange; 11] = [
    MoveRange::Front,
    MoveRange::FrontAndSides,
    MoveRange::Nearby,
    MoveRange::Room,
    MoveRange::Front2,
    MoveRange::Front10,
    MoveRange::Floor,
    MoveRange::User,
    MoveRange::FrontWithCornerCutting,
    MoveRange::Front2WithCornerCutting,
    MoveRange::Special,
];

const AI_CONDITIONS: [MoveAiCondition; 7] = [
    MoveAiCondition::NoCondition,
    MoveAiCondition::Random,
    MoveAiCondition::Hp25,
    MoveAiCondition::Status,
    MoveAiCondition::Asleep,
    MoveAiCondition::GhostType,
    MoveAiCondition::Hp25OrStatus,
];

const CATEGORIES: [MoveCategory; 3] = [MoveCategory::Physical, MoveCategory::Special, MoveCategory::Status];

#[test]
fn move_target_enemies_round_trip() {
    assert_eq!(MoveTarget::Enemies.to_raw(), 0);
    assert_eq!(MoveTarget::from_raw(0), Some(MoveTarget::Enemies));
    assert_eq!(MoveTarget::from_raw(0).unwrap().to_raw(), 0);
    assert_eq!(MoveTarget::from_raw(255), None);
}

#[test]
fn target_codes_round_trip() {
    for t in TARGETS {
        assert_eq!(MoveTarget::from_raw(t.to_raw()), Some(t));
    }
    let codes: Vec<u32> = TARGETS.iter().map(|t| t.to_raw()).collect();
    assert_eq!(codes, vec![0, 1, 2, 3, 4, 5, 6, 15]);
}

#[test]
fn range_codes_round_trip() {
    for r in RANGES {
        assert_eq!(MoveRange::from_raw(r.to_raw()), Some(r));
    }
    let codes: Vec<u32> = RANGES.iter().map(|r| r.to_raw()).collect();
    assert_eq!(codes, vec![0, 1, 2, 3, 4, 5, 6, 7, 8, 9, 15]);
}

#[test]
fn ai_condition_codes_round_trip() {
    for a in AI_CONDITIONS {
        assert_eq!(MoveAiCondition::from_raw(a.to_raw()), Some(a));
    }
    let codes: Vec<u32> = AI_CONDITIONS.iter().map(|a| a.to_raw()).collect();
    assert_eq!(codes, vec![0, 1, 2, 3, 4, 5, 6]);
}

#[test]
fn category_codes_round_trip() {
    for c in CATEGORIES {
        assert_eq!(MoveCategory::from_raw(c.to_raw()), Some(c));
    }
    let codes: Vec<u32> = CATEGORIES.iter().map(|c| c.to_raw()).collect();
    assert_eq!(codes, vec![0, 1, 2]);
}

#[test]
fn unknown_codes_decode_to_none() {
    for c in [7u32, 8, 14, 16, 255, 256, u32::MAX] {
        assert_eq!(MoveTarget::from_raw(c), None);
    }
    for c in [10u32, 11, 14, 16, 255, u32::MAX] {
        assert_eq!(MoveRange::from_raw(c), None);
    }
    for c in [7u32, 8, 15, 255, u32::MAX] {
        assert_eq!(MoveAiCondition::from_raw(c), None);
    }
    for c in [3u32, 4, 255, u32::MAX] {
        assert_eq!(MoveCategory::from_raw(c), None);
    }
}

#[test]
fn every_small_code_decodes_to_its_own_variant_or_none() {
    for c in 0u32..64 {
        if let Some(t) = MoveTarget::from_raw(c) {
            assert_eq!(t.to_raw(), c);
        }
        if let Some(r) = MoveRange::from_raw(c) {
            assert_eq!(r.to_raw(), c);
        }
        if let Some(a) = MoveAiCondition::from_raw(c) {
            assert_eq!(a.to_raw(), c);
        }
        if let Some(k) = MoveCategory::from_raw(c) {
            assert_eq!(k.to_raw(), c);
        }
    }
}
