//! The five operations on a player record, each a pure step from the record
//! before to the record after, or to an error that leaves the record as it was.
use vstd::prelude::*;
use crate::codec::{read_u64, u64_from_le};
use crate::errors::ZaiError;
use crate::instructions::PremiumItemType;
use crate::player::{is_default_class, is_default_id, Player};
use crate::pubkey::Pubkey;

verus! {

/// XP needed to leave each level below the cap: entry `l` is
/// `round(4250 * e^(0.055 * l))`, computed in IEEE-754 double precision and
/// rounded half away from zero. No entry lies within 0.004 of a tie.
pub open spec fn xp_curve() -> Seq<i64> {
    seq![
        4250, 4490, 4744, 5012, 5296, 5595, 5912, 6246, 6599, 6972,
        7366, 7783, 8223, 8688, 9179, 9698, 10246, 10826, 11438, 12084,
        12768, 13490, 14252, 15058, 15910, 16809, 17759, 18764, 19825, 20945,
        22130, 23381, 24703, 26100, 27575, 29134, 30782, 32522, 34361, 36304,
        38356, 40525, 42816, 45237, 47795, 50497, 53352, 56369, 59556, 62923,
        66481, 70240, 74211, 78407, 82841, 87525, 92473, 97702, 103226, 109062,
        115229, 121744, 128627, 135900, 143584, 151702, 160279, 169342, 178916, 189033,
        199721, 211013, 222944, 235549, 248867, 262938, 277805, 293512, 310107, 327641,
        346166, 365739, 386418, 408266, 431350, 455738, 481506, 508731, 537495, 567885,
        599994, 633918, 669760, 707628, 747638, 789910, 834572, 881759, 931614, 984288,
    ]
}

/// XP required to leave `level`.
pub open spec fn xp_threshold(level: u8) -> i64
    recommends
        level < Player::LEVEL_CAP,
{
    xp_curve()[level as int]
}

/// XP required to leave `level`, which must be below the cap.
pub fn xp_required(level: u8) -> (r: i64)
    requires
        level < Player::LEVEL_CAP,
    ensures
        r == xp_threshold(level),
{
    let table: [i64; 100] = [
        4250, 4490, 4744, 5012, 5296, 5595, 5912, 6246, 6599, 6972,
        7366, 7783, 8223, 8688, 9179, 9698, 10246, 10826, 11438, 12084,
        12768, 13490, 14252, 15058, 15910, 16809, 17759, 18764, 19825, 20945,
        22130, 23381, 24703, 26100, 27575, 29134, 30782, 32522, 34361, 36304,
        38356, 40525, 42816, 45237, 47795, 50497, 53352, 56369, 59556, 62923,
        66481, 70240, 74211, 78407, 82841, 87525, 92473, 97702, 103226, 109062,
        115229, 121744, 128627, 135900, 143584, 151702, 160279, 169342, 178916, 189033,
        199721, 211013, 222944, 235549, 248867, 262938, 277805, 293512, 310107, 327641,
        346166, 365739, 386418, 408266, 431350, 455738, 481506, 508731, 537495, 567885,
        599994, 633918, 669760, 707628, 747638, 789910, 834572, 881759, 931614, 984288,
    ];
    assert(table@ == xp_curve());
    table[level as usize]
}

/// The reward seed: the host's slot plus the owner's first eight key bytes
/// read as a little-endian integer, wrapping at 2^64.
pub open spec fn chest_seed(slot: u64, owner: Pubkey) -> u64 {
    ((slot + u64_from_le(owner@.subrange(0, 8))) % 0x1_0000_0000_0000_0000) as u64
}

/// Whether a level-up at `slot` wins a chest: one seed in ten does. Anyone who
/// knows the slot can predict it; it is no source of secure randomness.
pub open spec fn wins_chest(slot: u64, owner: Pubkey) -> bool {
    chest_seed(slot, owner) % 10 == 0
}

pub fn rolls_chest(slot: u64, owner: &Pubkey) -> (r: bool)
    ensures
        r == wins_chest(slot, *owner),
{
    let key = owner.to_bytes();
    let low = read_u64(key.as_slice(), 0);
    let seed = slot.wrapping_add(low);
    seed % 10 == 0
}

/// The outcome of creating a record for `signer`.
pub open spec fn create_player_result(
    signer: Pubkey,
    active_class: u8,
    active_weapon: u8,
    joined: i64,
) -> Result<Player, ZaiError> {
    if !is_default_class(active_class) {
        Err(ZaiError::InvalidClass)
    } else {
        Ok(
            Player {
                player_id: signer,
                level: 1,
                xp: 0,
                chests: 0,
                active_class,
                active_weapon,
                joined,
            },
        )
    }
}

/// The outcome of the owner `signer` switching `p` to a default class.
pub open spec fn change_default_class_result(p: Player, signer: Pubkey, new_class: u8) -> Result<
    Player,
    ZaiError,
> {
    if signer@ != p.player_id@ {
        Err(ZaiError::Unauthorized)
    } else if p.active_class == new_class {
        Err(ZaiError::ClassChangeToSameNotAllowed)
    } else if !is_default_class(new_class) {
        Err(ZaiError::InvalidClass)
    } else {
        Ok(Player { active_class: new_class, active_weapon: new_class, ..p })
    }
}

/// Whether `xp + change` fits in a signed 64-bit integer.
pub open spec fn xp_change_fits(xp: i64, change: i64) -> bool {
    i64::MIN <= xp + change <= i64::MAX
}

/// The outcome of `signer` adding `xp_change` to the XP of `p`. A sum that
/// leaves the signed 64-bit range, or that falls below zero, is refused.
pub open spec fn modify_player_xp_result(
    p: Player,
    signer: Pubkey,
    authority: Pubkey,
    xp_change: i64,
) -> Result<Player, ZaiError> {
    if signer@ != authority@ {
        Err(ZaiError::Unauthorized)
    } else if !xp_change_fits(p.xp, xp_change) || p.xp + xp_change < 0 {
        Err(ZaiError::XpOverflow)
    } else {
        Ok(Player { xp: (p.xp + xp_change) as i64, ..p })
    }
}

/// The chest count after a level-up at `slot`; a count already at its
/// maximum stays there.
pub open spec fn chests_after_level_up(p: Player, slot: u64) -> u16 {
    if wins_chest(slot, p.player_id) && p.chests < u16::MAX {
        (p.chests + 1) as u16
    } else {
        p.chests
    }
}

/// The outcome of `signer` raising `p` one level at host slot `slot`. The
/// record's own state is checked before the signer.
pub open spec fn increase_player_level_result(p: Player, signer: Pubkey, slot: u64) -> Result<
    Player,
    ZaiError,
> {
    if p.level >= Player::LEVEL_CAP {
        Err(ZaiError::LevelCapReached)
    } else if p.xp < xp_threshold(p.level) {
        Err(ZaiError::NotEnoughXp)
    } else if signer@ != p.player_id@ {
        Err(ZaiError::Unauthorized)
    } else {
        Ok(
            Player {
                level: (p.level + 1) as u8,
                xp: (p.xp - xp_threshold(p.level)) as i64,
                chests: chests_after_level_up(p, slot),
                ..p
            },
        )
    }
}

/// The outcome of `signer` equipping premium item `item_id` in a slot of `p`.
pub open spec fn equip_premium_item_result(
    p: Player,
    signer: Pubkey,
    authority: Pubkey,
    item_type: PremiumItemType,
    item_id: u8,
) -> Result<Player, ZaiError> {
    if signer@ != authority@ {
        Err(ZaiError::Unauthorized)
    } else {
        match item_type {
            PremiumItemType::Class => if is_default_class(item_id) {
                Err(ZaiError::InvalidPremiumClass)
            } else {
                Ok(Player { active_class: item_id, ..p })
            },
            PremiumItemType::Weapon => if is_default_class(item_id) {
                Err(ZaiError::InvalidPremiumWeapon)
            } else {
                Ok(Player { active_weapon: item_id, ..p })
            },
        }
    }
}

/// `after` and `r` are what an operation with `outcome` leaves: the new
/// record on success, and on failure the error with the record untouched.
pub open spec fn applied(
    before: Player,
    after: Player,
    r: Result<(), ZaiError>,
    outcome: Result<Player, ZaiError>,
) -> bool {
    match outcome {
        Ok(p) => r is Ok && after == p,
        Err(e) => r == Err::<(), ZaiError>(e) && after == before,
    }
}

/// Creates the record of `signer`, who chose a default class, at time
/// `joined`.
pub fn create_player(signer: &Pubkey, active_class: u8, active_weapon: u8, joined: i64) -> (r:
    Result<Player, ZaiError>)
    ensures
        r == create_player_result(*signer, active_class, active_weapon, joined),
{
    if !is_default_id(active_class) {
        return Err(ZaiError::InvalidClass);
    }
    Ok(
        Player {
            player_id: *signer,
            level: 1,
            xp: 0,
            chests: 0,
            active_class,
            active_weapon,
            joined,
        },
    )
}

/// The owner switches to another default class; the weapon follows the class.
pub fn change_default_class(player: &mut Player, signer: &Pubkey, new_class: u8) -> (r: Result<
    (),
    ZaiError,
>)
    ensures
        applied(*old(player), *final(player), r, change_default_class_result(*old(player), *signer, new_class)),
{
    if *signer != player.player_id {
        return Err(ZaiError::Unauthorized);
    }
    if player.active_class == new_class {
        return Err(ZaiError::ClassChangeToSameNotAllowed);
    }
    if !is_default_id(new_class) {
        return Err(ZaiError::InvalidClass);
    }
    player.active_class = new_class;
    player.active_weapon = new_class;
    Ok(())
}

/// The authority adds `xp_change`, which may be negative, to the player's XP;
/// the XP may not become negative.
pub fn modify_player_xp(player: &mut Player, signer: &Pubkey, authority: &Pubkey, xp_change: i64) -> (r:
    Result<(), ZaiError>)
    ensures
        applied(*old(player), *final(player), r, modify_player_xp_result(*old(player), *signer, *authority, xp_change)),
{
    if *signer != *authority {
        return Err(ZaiError::Unauthorized);
    }
    match player.xp.checked_add(xp_change) {
        Some(xp) => {
            if xp < 0 {
                return Err(ZaiError::XpOverflow);
            }
            player.xp = xp;
            Ok(())
        },
        None => Err(ZaiError::XpOverflow),
    }
}

/// The owner spends the XP that the current level requires to reach the next
/// one, and may win a chest.
pub fn increase_player_level(player: &mut Player, signer: &Pubkey, slot: u64) -> (r: Result<
    (),
    ZaiError,
>)
    ensures
        applied(*old(player), *final(player), r, increase_player_level_result(*old(player), *signer, slot)),
{
    if player.level >= Player::LEVEL_CAP {
        return Err(ZaiError::LevelCapReached);
    }
    let required = xp_required(player.level);
    if player.xp < required {
        return Err(ZaiError::NotEnoughXp);
    }
    if *signer != player.player_id {
        return Err(ZaiError::Unauthorized);
    }
    assert(xp_curve()[player.level as int] >= 0);
    player.level = player.level + 1;
    player.xp = player.xp - required;
    if rolls_chest(slot, &player.player_id) {
        player.chests = player.chests.saturating_add(1);
    }
    Ok(())
}

/// The authority puts a premium, non-default item in the class or the weapon
/// slot.
pub fn equip_premium_item(
    player: &mut Player,
    signer: &Pubkey,
    authority: &Pubkey,
    item_type: PremiumItemType,
    item_id: u8,
) -> (r: Result<(), ZaiError>)
    ensures
        applied(
            *old(player),
            *final(player),
            r,
            equip_premium_item_result(*old(player), *signer, *authority, item_type, item_id),
        ),
{
    if *signer != *authority {
        return Err(ZaiError::Unauthorized);
    }
    match item_type {
        PremiumItemType::Class => {
            if is_default_id(item_id) {
                return Err(ZaiError::InvalidPremiumClass);
            }
            player.active_class = item_id;
        },
        PremiumItemType::Weapon => {
            if is_default_id(item_id) {
                return Err(ZaiError::InvalidPremiumWeapon);
            }
            player.active_weapon = item_id;
        },
    }
    Ok(())
}

} // verus!
