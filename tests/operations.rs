use zai::errors::ZaiError;
use zai::instructions::PremiumItemType;
use zai::player::Player;
use zai::processor::{
    change_default_class, create_player, equip_premium_item, increase_player_level,
    modify_player_xp, rolls_chest, xp_required,
};
use zai::pubkey::Pubkey;

fn owner() -> Pubkey {
    Pubkey([1u8; 32])
}

fn authority() -> Pubkey {
    Pubkey([9u8; 32])
}

fn fresh() -> Player {
    create_player(&owner(), 101, 101, 1_000).unwrap()
}

// The owner's low eight key bytes are 0x0101010101010101, which is 3 mod 10:
// slot 7 wins a chest and slot 8 does not.
const WINNING_SLOT: u64 = 7;
const LOSING_SLOT: u64 = 8;

#[test]
fn create_sets_initial_state() {
    let p = create_player(&owner(), 102, 44, 1_234).unwrap();
    assert_eq!(p.player_id, owner());
    assert_eq!((p.level, p.xp, p.chests), (1, 0, 0));
    assert_eq!((p.active_class, p.active_weapon, p.joined), (102, 44, 1_234));
}

#[test]
fn create_rejects_non_default_class() {
    for class in [0u8, 100, 104, 255] {
        assert_eq!(create_player(&owner(), class, 101, 0), Err(ZaiError::InvalidClass));
    }
}

#[test]
fn change_class_moves_weapon_too() {
    let mut p = fresh();
    p.active_weapon = 77;
    assert_eq!(change_default_class(&mut p, &owner(), 103), Ok(()));
    assert_eq!((p.active_class, p.active_weapon), (103, 103));
}

#[test]
fn change_class_rejects_same_class() {
    let mut p = fresh();
    let before = p;
    assert_eq!(change_default_class(&mut p, &owner(), 101), Err(ZaiError::ClassChangeToSameNotAllowed));
    assert_eq!(p, before);
    p.active_class = 200;
    assert_eq!(change_default_class(&mut p, &owner(), 200), Err(ZaiError::ClassChangeToSameNotAllowed));
}

#[test]
fn change_class_rejects_invalid_class() {
    let mut p = fresh();
    let before = p;
    assert_eq!(change_default_class(&mut p, &owner(), 104), Err(ZaiError::InvalidClass));
    assert_eq!(p, before);
}

#[test]
fn change_class_requires_owner() {
    let mut p = fresh();
    let before = p;
    assert_eq!(change_default_class(&mut p, &authority(), 102), Err(ZaiError::Unauthorized));
    assert_eq!(p, before);
}

#[test]
fn modify_xp_adds_signed_change() {
    let mut p = fresh();
    assert_eq!(modify_player_xp(&mut p, &authority(), &authority(), 500), Ok(()));
    assert_eq!(p.xp, 500);
    assert_eq!(modify_player_xp(&mut p, &authority(), &authority(), -200), Ok(()));
    assert_eq!(p.xp, 300);
}

#[test]
fn modify_xp_requires_authority() {
    let mut p = fresh();
    p.xp = 10;
    assert_eq!(modify_player_xp(&mut p, &owner(), &authority(), 5), Err(ZaiError::Unauthorized));
    assert_eq!(p.xp, 10);
}

#[test]
fn modify_xp_overflow_leaves_xp() {
    let mut p = fresh();
    p.xp = i64::MAX - 1;
    assert_eq!(modify_player_xp(&mut p, &authority(), &authority(), 2), Err(ZaiError::XpOverflow));
    assert_eq!(p.xp, i64::MAX - 1);
    p.xp = i64::MIN;
    assert_eq!(modify_player_xp(&mut p, &authority(), &authority(), -1), Err(ZaiError::XpOverflow));
    assert_eq!(p.xp, i64::MIN);
    assert_eq!(modify_player_xp(&mut p, &authority(), &authority(), i64::MAX), Err(ZaiError::XpOverflow));
    assert_eq!(p.xp, i64::MIN);
}

#[test]
fn modify_xp_cannot_go_negative() {
    let mut p = fresh();
    assert_eq!(modify_player_xp(&mut p, &authority(), &authority(), -1), Err(ZaiError::XpOverflow));
    assert_eq!(p.xp, 0);
    p.xp = 10;
    assert_eq!(modify_player_xp(&mut p, &authority(), &authority(), -11), Err(ZaiError::XpOverflow));
    assert_eq!(p.xp, 10);
    assert_eq!(modify_player_xp(&mut p, &authority(), &authority(), -10), Ok(()));
    assert_eq!(p.xp, 0);
}

#[test]
fn level_one_threshold_is_4490() {
    assert_eq!(xp_required(1), 4490);
    assert_eq!(xp_required(0), 4250);
    assert_eq!(xp_required(99), 984288);
}

#[test]
fn xp_table_matches_float_formula() {
    for level in 0u8..100 {
        let expected = (4250.0 * f64::exp(0.055 * (level as f64))).round() as i64;
        assert_eq!(xp_required(level), expected, "level {}", level);
    }
}

#[test]
fn xp_table_strictly_increases() {
    for level in 0u8..99 {
        assert!(xp_required(level) < xp_required(level + 1));
    }
}

#[test]
fn level_up_from_one_with_5000_xp() {
    let mut p = fresh();
    p.xp = 5000;
    assert_eq!(increase_player_level(&mut p, &owner(), LOSING_SLOT), Ok(()));
    assert_eq!(p.level, 2);
    assert_eq!(p.xp, 510);
    assert_eq!(p.chests, 0);
}

#[test]
fn level_up_may_award_chest() {
    assert!(rolls_chest(WINNING_SLOT, &owner()));
    assert!(!rolls_chest(LOSING_SLOT, &owner()));
    let mut p = fresh();
    p.xp = 4490;
    assert_eq!(increase_player_level(&mut p, &owner(), WINNING_SLOT), Ok(()));
    assert_eq!((p.level, p.xp, p.chests), (2, 0, 1));
}

#[test]
fn chest_roll_wraps_slot() {
    let slot = u64::MAX - 2;
    // The sum wraps to 0x0101010101010101 - 3, a multiple of ten.
    assert!(rolls_chest(slot, &owner()));
    assert!(!rolls_chest(slot - 1, &owner()));
}

#[test]
fn chest_count_saturates() {
    let mut p = fresh();
    p.xp = 5000;
    p.chests = u16::MAX;
    assert_eq!(increase_player_level(&mut p, &owner(), WINNING_SLOT), Ok(()));
    assert_eq!(p.chests, u16::MAX);
}

#[test]
fn level_up_needs_enough_xp() {
    let mut p = fresh();
    p.xp = 4489;
    let before = p;
    assert_eq!(increase_player_level(&mut p, &owner(), WINNING_SLOT), Err(ZaiError::NotEnoughXp));
    assert_eq!(p, before);
    assert_eq!(increase_player_level(&mut p, &authority(), WINNING_SLOT), Err(ZaiError::NotEnoughXp));
}

#[test]
fn level_up_at_cap_rejected() {
    let mut p = fresh();
    p.level = 100;
    p.xp = i64::MAX;
    let before = p;
    assert_eq!(increase_player_level(&mut p, &owner(), 0), Err(ZaiError::LevelCapReached));
    assert_eq!(increase_player_level(&mut p, &authority(), 0), Err(ZaiError::LevelCapReached));
    assert_eq!(p, before);
}

#[test]
fn level_up_to_cap() {
    let mut p = fresh();
    p.level = 99;
    p.xp = 984288;
    assert_eq!(increase_player_level(&mut p, &owner(), LOSING_SLOT), Ok(()));
    assert_eq!((p.level, p.xp), (100, 0));
}

#[test]
fn level_up_requires_owner() {
    let mut p = fresh();
    p.xp = 10_000;
    let before = p;
    assert_eq!(increase_player_level(&mut p, &authority(), LOSING_SLOT), Err(ZaiError::Unauthorized));
    assert_eq!(p, before);
}

#[test]
fn equip_premium_class_and_weapon() {
    let mut p = fresh();
    assert_eq!(equip_premium_item(&mut p, &authority(), &authority(), PremiumItemType::Class, 150), Ok(()));
    assert_eq!((p.active_class, p.active_weapon), (150, 101));
    assert_eq!(equip_premium_item(&mut p, &authority(), &authority(), PremiumItemType::Weapon, 151), Ok(()));
    assert_eq!((p.active_class, p.active_weapon), (150, 151));
}

#[test]
fn equip_default_item_rejected() {
    let mut p = fresh();
    let before = p;
    for id in [101u8, 102, 103] {
        assert_eq!(
            equip_premium_item(&mut p, &authority(), &authority(), PremiumItemType::Class, id),
            Err(ZaiError::InvalidPremiumClass)
        );
        assert_eq!(
            equip_premium_item(&mut p, &authority(), &authority(), PremiumItemType::Weapon, id),
            Err(ZaiError::InvalidPremiumWeapon)
        );
        assert!(equip_premium_item(&mut p, &owner(), &authority(), PremiumItemType::Weapon, id).is_err());
    }
    assert_eq!(p, before);
}

#[test]
fn equip_requires_authority() {
    let mut p = fresh();
    let before = p;
    assert_eq!(
        equip_premium_item(&mut p, &owner(), &authority(), PremiumItemType::Class, 150),
        Err(ZaiError::Unauthorized)
    );
    assert_eq!(p, before);
}

#[test]
fn error_codes() {
    assert_eq!(ZaiError::InvalidClass.code(), 6000);
    assert_eq!(ZaiError::InvalidPremiumWeapon.code(), 6008);
    assert_eq!(ZaiError::from_code(6004), Some(ZaiError::XpOverflow));
    assert_eq!(ZaiError::from_code(5999), None);
    assert_eq!(ZaiError::from_code(6009), None);
    assert_eq!(ZaiError::NotEnoughXp.message(), "Player does not have enough XP to level up.");
}
