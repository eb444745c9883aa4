//! Properties that hold across the codec, the operations and the router.
use vstd::prelude::*;
use crate::codec::{frame_error, lemma_i64_le, DISCM_LEN};
use crate::errors::{CodecError, ProcessError, ZaiError};
use crate::instructions::{
    decode_ix, equip_premium_item_error, ix_error, lemma_discms_distinct, lemma_ix_encoding_shape,
    lemma_ix_prefix_unique, ChangeDefaultClassIxData, CreatePlayerIxData, EquipPremiumItemIxData,
    ModifyPlayerXpIxData, PremiumItemType, ZaiProgramIx, CHANGE_DEFAULT_CLASS_IX_DISCM,
    CHANGE_DEFAULT_CLASS_IX_LEN, CREATE_PLAYER_IX_DISCM, CREATE_PLAYER_IX_LEN,
    EQUIP_PREMIUM_ITEM_IX_DISCM, EQUIP_PREMIUM_ITEM_IX_LEN, INCREASE_PLAYER_LEVEL_IX_DISCM,
    MODIFY_PLAYER_XP_IX_DISCM, MODIFY_PLAYER_XP_IX_LEN,
};
use crate::player::{
    is_default_class, lemma_encoding_injective, lemma_encoding_len, player_error, Player,
    PLAYER_ENCODED_LEN,
};
use crate::processor::{
    applied, change_default_class_result, create_player_result, equip_premium_item_result,
    increase_player_level_result, modify_player_xp_result, xp_change_fits, xp_curve, xp_threshold,
};
use crate::pubkey::Pubkey;
use crate::router::{process_result, Clock};
use crate::accounts::AccountMeta;

verus! {

/// A record survives encoding and decoding: its encoding frames without
/// error, and the only record whose encoding starts those bytes is itself.
pub proof fn player_round_trip(p: Player, q: Player)
    requires
        q.encoding() == p.encoding().subrange(0, PLAYER_ENCODED_LEN as int),
    ensures
        player_error(p.encoding()) is None,
        q == p,
{
    lemma_encoding_len(p);
    assert(p.encoding().subrange(0, PLAYER_ENCODED_LEN as int) =~= p.encoding());
    lemma_encoding_injective(p, q);
}

/// An instruction survives encoding and decoding: its encoding decodes
/// without error, and the only instruction whose encoding starts those bytes
/// is itself.
pub proof fn instruction_round_trip(ix: ZaiProgramIx, jx: ZaiProgramIx)
    requires
        jx.encoding().len() <= ix.encoding().len(),
        jx.encoding() == ix.encoding().subrange(0, jx.encoding().len() as int),
    ensures
        ix_error(ix.encoding()) is None,
        jx == ix,
        decode_ix(ix.encoding()) == ix,
{
    let s = ix.encoding();
    lemma_discms_distinct();
    lemma_ix_encoding_shape(ix);
    assert(s.subrange(0, s.len() as int) =~= s);
    lemma_ix_prefix_unique(s, ix, jx);
    crate::instructions::lemma_decode_ix(s, ix);
    if let ZaiProgramIx::EquipPremiumItem(a) = ix {
        assert(s[8] == a.item_type.tag());
    }
}

/// Each instruction payload type survives encoding and decoding.
pub proof fn payload_round_trips(
    c: CreatePlayerIxData,
    c2: CreatePlayerIxData,
    d: ChangeDefaultClassIxData,
    d2: ChangeDefaultClassIxData,
    m: ModifyPlayerXpIxData,
    m2: ModifyPlayerXpIxData,
    e: EquipPremiumItemIxData,
    e2: EquipPremiumItemIxData,
)
    requires
        c2.encoding() == c.encoding().subrange(0, CREATE_PLAYER_IX_LEN as int),
        d2.encoding() == d.encoding().subrange(0, CHANGE_DEFAULT_CLASS_IX_LEN as int),
        m2.encoding() == m.encoding().subrange(0, MODIFY_PLAYER_XP_IX_LEN as int),
        e2.encoding() == e.encoding().subrange(0, EQUIP_PREMIUM_ITEM_IX_LEN as int),
    ensures
        frame_error(c.encoding(), CREATE_PLAYER_IX_DISCM@, CREATE_PLAYER_IX_LEN as nat) is None,
        c2 == c,
        frame_error(d.encoding(), CHANGE_DEFAULT_CLASS_IX_DISCM@, CHANGE_DEFAULT_CLASS_IX_LEN as nat) is None,
        d2 == d,
        frame_error(m.encoding(), MODIFY_PLAYER_XP_IX_DISCM@, MODIFY_PLAYER_XP_IX_LEN as nat) is None,
        m2 == m,
        equip_premium_item_error(e.encoding()) is None,
        e2 == e,
{
    instruction_round_trip(ZaiProgramIx::CreatePlayer(c.0), ZaiProgramIx::CreatePlayer(c2.0));
    instruction_round_trip(
        ZaiProgramIx::ChangeDefaultClass(d.0),
        ZaiProgramIx::ChangeDefaultClass(d2.0),
    );
    lemma_i64_le(m.0.xp_change);
    lemma_i64_le(m2.0.xp_change);
    instruction_round_trip(ZaiProgramIx::ModifyPlayerXp(m.0), ZaiProgramIx::ModifyPlayerXp(m2.0));
    instruction_round_trip(ZaiProgramIx::EquipPremiumItem(e.0), ZaiProgramIx::EquipPremiumItem(e2.0));
    assert(c.encoding().subrange(0, DISCM_LEN as int) =~= CREATE_PLAYER_IX_DISCM@);
    assert(d.encoding().subrange(0, DISCM_LEN as int) =~= CHANGE_DEFAULT_CLASS_IX_DISCM@);
    assert(m.encoding().subrange(0, DISCM_LEN as int) =~= MODIFY_PLAYER_XP_IX_DISCM@);
    assert(e.encoding().subrange(0, DISCM_LEN as int) =~= EQUIP_PREMIUM_ITEM_IX_DISCM@);
}

/// Creating a record with a class outside the defaults fails with
/// `InvalidClass`, whoever signs; so does the owner switching to such a class
/// from a different one.
pub proof fn non_default_class_rejected(
    signer: Pubkey,
    class: u8,
    weapon: u8,
    joined: i64,
    p: Player,
)
    requires
        !is_default_class(class),
    ensures
        create_player_result(signer, class, weapon, joined) == Err::<Player, ZaiError>(
            ZaiError::InvalidClass,
        ),
        p.active_class != class ==> change_default_class_result(p, p.player_id, class) == Err::<
            Player,
            ZaiError,
        >(ZaiError::InvalidClass),
{
}

/// The owner switching to the class already active fails with
/// `ClassChangeToSameNotAllowed`, whether or not that class is a default one.
pub proof fn same_class_change_rejected(p: Player)
    ensures
        change_default_class_result(p, p.player_id, p.active_class) == Err::<Player, ZaiError>(
            ZaiError::ClassChangeToSameNotAllowed,
        ),
{
}

/// An XP change signed by anyone but the authority fails with `Unauthorized`
/// and leaves the XP as it was.
pub proof fn xp_change_needs_authority(
    p: Player,
    after: Player,
    r: Result<(), ZaiError>,
    signer: Pubkey,
    authority: Pubkey,
    xp_change: i64,
)
    requires
        signer@ != authority@,
        applied(p, after, r, modify_player_xp_result(p, signer, authority, xp_change)),
    ensures
        r == Err::<(), ZaiError>(ZaiError::Unauthorized),
        after.xp == p.xp,
{
}

/// An authorized XP change whose sum leaves the signed 64-bit range, or falls
/// below zero, fails with `XpOverflow` and leaves the XP as it was.
pub proof fn xp_overflow_rejected(
    p: Player,
    after: Player,
    r: Result<(), ZaiError>,
    authority: Pubkey,
    xp_change: i64,
)
    requires
        !xp_change_fits(p.xp, xp_change) || p.xp + xp_change < 0,
        applied(p, after, r, modify_player_xp_result(p, authority, authority, xp_change)),
    ensures
        r == Err::<(), ZaiError>(ZaiError::XpOverflow),
        after.xp == p.xp,
{
}

/// A record at the level cap cannot level up, whoever signs.
pub proof fn level_cap_rejected(p: Player, signer: Pubkey, slot: u64)
    requires
        p.level >= Player::LEVEL_CAP,
    ensures
        increase_player_level_result(p, signer, slot) == Err::<Player, ZaiError>(
            ZaiError::LevelCapReached,
        ),
{
}

/// Below the cap, a level-up with less XP than the level requires fails with
/// `NotEnoughXp`, whoever signs; with enough XP the owner's level-up raises
/// the level by one and spends exactly the required XP, leaving the rest of
/// the record but the chest count as it was.
pub proof fn level_up_spends_threshold(p: Player, signer: Pubkey, slot: u64)
    requires
        p.level < Player::LEVEL_CAP,
    ensures
        p.xp < xp_threshold(p.level) ==> increase_player_level_result(p, signer, slot) == Err::<
            Player,
            ZaiError,
        >(ZaiError::NotEnoughXp),
        p.xp >= xp_threshold(p.level) ==> (increase_player_level_result(p, p.player_id, slot) matches Ok(q)
            && q.level == p.level + 1 && q.xp == p.xp - xp_threshold(p.level) && q.player_id == p.player_id
            && q.active_class == p.active_class && q.active_weapon == p.active_weapon && q.joined == p.joined
            && (q.chests == p.chests || q.chests == p.chests + 1)),
{
    assert(xp_curve()[p.level as int] >= 0);
}

/// A default identifier can never be equipped as a premium item: the attempt
/// fails whoever signs, and with the authority's signature it fails with the
/// error of the slot.
pub proof fn default_item_never_premium(
    p: Player,
    signer: Pubkey,
    authority: Pubkey,
    item_type: PremiumItemType,
    item_id: u8,
)
    requires
        is_default_class(item_id),
    ensures
        equip_premium_item_result(p, signer, authority, item_type, item_id) is Err,
        equip_premium_item_result(p, authority, authority, item_type, item_id) == Err::<
            Player,
            ZaiError,
        >(
            match item_type {
                PremiumItemType::Class => ZaiError::InvalidPremiumClass,
                PremiumItemType::Weapon => ZaiError::InvalidPremiumWeapon,
            },
        ),
{
}

/// A payload whose discriminator names no instruction is refused with
/// `UnknownInstruction`, whatever the accounts and the record, so no record
/// is written.
pub proof fn unknown_instruction_rejected(
    program_id: Pubkey,
    authority: Pubkey,
    accounts: Seq<AccountMeta>,
    record_owner: Pubkey,
    record: Seq<u8>,
    clock: Clock,
    data: Seq<u8>,
)
    requires
        data.len() >= DISCM_LEN,
        data.subrange(0, DISCM_LEN as int) != CREATE_PLAYER_IX_DISCM@,
        data.subrange(0, DISCM_LEN as int) != CHANGE_DEFAULT_CLASS_IX_DISCM@,
        data.subrange(0, DISCM_LEN as int) != MODIFY_PLAYER_XP_IX_DISCM@,
        data.subrange(0, DISCM_LEN as int) != INCREASE_PLAYER_LEVEL_IX_DISCM@,
        data.subrange(0, DISCM_LEN as int) != EQUIP_PREMIUM_ITEM_IX_DISCM@,
    ensures
        process_result(program_id, authority, accounts, record_owner, record, clock, data) == Err::<
            Seq<u8>,
            ProcessError,
        >(ProcessError::Codec(CodecError::UnknownInstruction)),
{
}

/// Creation yields a well-formed record and every successful operation keeps
/// a record well-formed; none changes the owner; a level-up keeps the XP
/// non-negative when it was, and an XP change never leaves it negative; a default-class change leaves a default class
/// with the weapon matching it.
pub proof fn record_invariants_kept(
    p: Player,
    signer: Pubkey,
    authority: Pubkey,
    new_class: u8,
    xp_change: i64,
    slot: u64,
    item_type: PremiumItemType,
    item_id: u8,
)
    ensures
        create_player_result(signer, new_class, item_id, p.joined) matches Ok(q) ==> q.wf(),
        change_default_class_result(p, signer, new_class) matches Ok(q) ==> q.player_id == p.player_id
            && (p.wf() ==> q.wf()),
        modify_player_xp_result(p, signer, authority, xp_change) matches Ok(q) ==> q.player_id
            == p.player_id && (p.wf() ==> q.wf()) && q.xp >= 0,
        equip_premium_item_result(p, signer, authority, item_type, item_id) matches Ok(q)
            ==> q.player_id == p.player_id && (p.wf() ==> q.wf()),
        increase_player_level_result(p, signer, slot) matches Ok(q) ==> q.player_id == p.player_id
            && q.level <= Player::LEVEL_CAP && (p.wf() ==> q.wf()) && (p.xp >= 0 ==> q.xp >= 0),
        change_default_class_result(p, signer, new_class) matches Ok(q) ==> is_default_class(
            q.active_class,
        ) && q.active_weapon == q.active_class,
{
    if p.level < Player::LEVEL_CAP {
        assert(xp_curve()[p.level as int] >= 0);
    }
}

/// The XP required per level strictly increases with the level.
pub proof fn xp_curve_increasing(i: int, j: int)
    requires
        0 <= i < j < Player::LEVEL_CAP,
    ensures
        xp_curve()[i] < xp_curve()[j],
    decreases j - i,
{
    assert(forall|k: int| 0 <= k < 99 ==> #[trigger] xp_curve()[k] < xp_curve()[k + 1]);
    if i + 1 < j {
        xp_curve_increasing(i + 1, j);
    }
}

} // verus!
