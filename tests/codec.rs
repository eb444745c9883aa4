use zai::errors::CodecError;
use zai::instructions::{
    ChangeDefaultClassIxArgs, ChangeDefaultClassIxData, CreatePlayerIxArgs, CreatePlayerIxData,
    EquipPremiumItemIxArgs, EquipPremiumItemIxData, IncreasePlayerLevelIxData,
    ModifyPlayerXpIxArgs, ModifyPlayerXpIxData, PremiumItemType, ZaiProgramIx,
    CHANGE_DEFAULT_CLASS_IX_DISCM, CREATE_PLAYER_IX_DISCM, EQUIP_PREMIUM_ITEM_IX_DISCM,
    INCREASE_PLAYER_LEVEL_IX_DISCM, MODIFY_PLAYER_XP_IX_DISCM,
};
use zai::player::{Player, PlayerAccount, PLAYER_ACCOUNT_DISCM, PLAYER_ENCODED_LEN};
use zai::pubkey::Pubkey;

fn sample_player() -> Player {
    let mut key = [0u8; 32];
    for (i, b) in key.iter_mut().enumerate() {
        *b = i as u8 + 1;
    }
    Player {
        player_id: Pubkey(key),
        level: 7,
        xp: -1234567890123,
        chests: 0x1234,
        active_class: 102,
        active_weapon: 55,
        joined: 1_700_000_000,
    }
}

#[test]
fn player_record_layout() {
    let p = sample_player();
    let bytes = PlayerAccount(p).try_to_vec().unwrap();
    assert_eq!(bytes.len(), PLAYER_ENCODED_LEN);
    assert_eq!(&bytes[0..8], &PLAYER_ACCOUNT_DISCM);
    assert_eq!(&bytes[8..40], &p.player_id.0);
    assert_eq!(bytes[40], 7);
    assert_eq!(&bytes[41..49], &(-1234567890123i64).to_le_bytes());
    assert_eq!(&bytes[49..51], &[0x34, 0x12]);
    assert_eq!(bytes[51], 102);
    assert_eq!(bytes[52], 55);
    assert_eq!(&bytes[53..61], &1_700_000_000i64.to_le_bytes());
}

#[test]
fn player_fields_match_borsh() {
    let p = sample_player();
    let bytes = PlayerAccount(p).try_to_vec().unwrap();
    let fields = (p.player_id.0, p.level, p.xp, p.chests, p.active_class, p.active_weapon, p.joined);
    assert_eq!(bytes[8..].to_vec(), borsh::to_vec(&fields).unwrap());
}

#[test]
fn player_round_trip_with_padding() {
    let p = sample_player();
    let mut bytes = PlayerAccount(p).try_to_vec().unwrap();
    bytes.extend_from_slice(&[0, 0, 0]);
    assert_eq!(bytes.len(), Player::LEN);
    let back = PlayerAccount::deserialize(&bytes).unwrap();
    assert_eq!(back.0, p);
}

#[test]
fn player_serialize_appends() {
    let p = sample_player();
    let mut out = vec![9u8, 9];
    PlayerAccount(p).serialize(&mut out).unwrap();
    assert_eq!(out.len(), 2 + PLAYER_ENCODED_LEN);
    assert_eq!(&out[0..2], &[9, 9]);
    assert_eq!(&out[2..10], &PLAYER_ACCOUNT_DISCM);
}

#[test]
fn player_decode_errors() {
    let bytes = PlayerAccount(sample_player()).try_to_vec().unwrap();
    assert_eq!(PlayerAccount::deserialize(&bytes[..5]), Err(CodecError::TruncatedInput));
    assert_eq!(PlayerAccount::deserialize(&bytes[..60]), Err(CodecError::TruncatedInput));
    let mut wrong = bytes.clone();
    wrong[3] ^= 1;
    assert_eq!(PlayerAccount::deserialize(&wrong), Err(CodecError::DiscriminatorMismatch));
    let mut short_wrong = bytes[..20].to_vec();
    short_wrong[0] ^= 1;
    assert_eq!(PlayerAccount::deserialize(&short_wrong), Err(CodecError::DiscriminatorMismatch));
    assert_eq!(PlayerAccount::deserialize(&[]), Err(CodecError::TruncatedInput));
}

#[test]
fn create_player_payload() {
    let d = CreatePlayerIxData::from(CreatePlayerIxArgs { active_class: 101, active_weapon: 103 });
    let bytes = d.try_to_vec().unwrap();
    let mut expected = CREATE_PLAYER_IX_DISCM.to_vec();
    expected.extend_from_slice(&[101, 103]);
    assert_eq!(bytes, expected);
    assert_eq!(CreatePlayerIxData::deserialize(&bytes), Ok(d));
    assert_eq!(CreatePlayerIxData::deserialize(&bytes[..9]), Err(CodecError::TruncatedInput));
}

#[test]
fn change_default_class_payload() {
    let d = ChangeDefaultClassIxData::from(ChangeDefaultClassIxArgs { new_class: 102 });
    let bytes = d.try_to_vec().unwrap();
    let mut expected = CHANGE_DEFAULT_CLASS_IX_DISCM.to_vec();
    expected.push(102);
    assert_eq!(bytes, expected);
    assert_eq!(ChangeDefaultClassIxData::deserialize(&bytes), Ok(d));
    assert_eq!(
        ChangeDefaultClassIxData::deserialize(&CREATE_PLAYER_IX_DISCM),
        Err(CodecError::DiscriminatorMismatch)
    );
}

#[test]
fn modify_player_xp_payload_matches_borsh() {
    let d = ModifyPlayerXpIxData::from(ModifyPlayerXpIxArgs { xp_change: -42 });
    let bytes = d.try_to_vec().unwrap();
    assert_eq!(&bytes[..8], &MODIFY_PLAYER_XP_IX_DISCM);
    assert_eq!(bytes[8..].to_vec(), borsh::to_vec(&-42i64).unwrap());
    assert_eq!(ModifyPlayerXpIxData::deserialize(&bytes), Ok(d));
    assert_eq!(ModifyPlayerXpIxData::deserialize(&bytes[..15]), Err(CodecError::TruncatedInput));
}

#[test]
fn increase_player_level_payload() {
    let bytes = IncreasePlayerLevelIxData.try_to_vec().unwrap();
    assert_eq!(bytes, INCREASE_PLAYER_LEVEL_IX_DISCM.to_vec());
    assert_eq!(IncreasePlayerLevelIxData::deserialize(&bytes), Ok(IncreasePlayerLevelIxData));
    assert_eq!(IncreasePlayerLevelIxData::deserialize(&bytes[..7]), Err(CodecError::TruncatedInput));
}

#[test]
fn equip_premium_item_payload() {
    let d = EquipPremiumItemIxData::from(EquipPremiumItemIxArgs {
        item_type: PremiumItemType::Weapon,
        item_id: 7,
    });
    let bytes = d.try_to_vec().unwrap();
    let mut expected = EQUIP_PREMIUM_ITEM_IX_DISCM.to_vec();
    expected.extend_from_slice(&[1, 7]);
    assert_eq!(bytes, expected);
    assert_eq!(EquipPremiumItemIxData::deserialize(&bytes), Ok(d));
    let mut bad_tag = bytes.clone();
    bad_tag[8] = 2;
    assert_eq!(EquipPremiumItemIxData::deserialize(&bad_tag), Err(CodecError::InvalidVariant));
}

#[test]
fn instruction_round_trips() {
    let all = [
        ZaiProgramIx::CreatePlayer(CreatePlayerIxArgs { active_class: 103, active_weapon: 101 }),
        ZaiProgramIx::ChangeDefaultClass(ChangeDefaultClassIxArgs { new_class: 101 }),
        ZaiProgramIx::ModifyPlayerXp(ModifyPlayerXpIxArgs { xp_change: i64::MIN }),
        ZaiProgramIx::IncreasePlayerLevel,
        ZaiProgramIx::EquipPremiumItem(EquipPremiumItemIxArgs {
            item_type: PremiumItemType::Class,
            item_id: 200,
        }),
    ];
    for ix in all {
        let bytes = ix.try_to_vec().unwrap();
        assert_eq!(ZaiProgramIx::deserialize(&bytes), Ok(ix));
        let mut padded = bytes.clone();
        padded.push(77);
        assert_eq!(ZaiProgramIx::deserialize(&padded), Ok(ix));
    }
}

#[test]
fn instruction_decode_errors() {
    assert_eq!(ZaiProgramIx::deserialize(&[1, 2, 3]), Err(CodecError::TruncatedInput));
    assert_eq!(ZaiProgramIx::deserialize(&[0u8; 8]), Err(CodecError::UnknownInstruction));
    assert_eq!(ZaiProgramIx::deserialize(&PLAYER_ACCOUNT_DISCM), Err(CodecError::UnknownInstruction));
    assert_eq!(ZaiProgramIx::deserialize(&MODIFY_PLAYER_XP_IX_DISCM), Err(CodecError::TruncatedInput));
    let mut bad = EQUIP_PREMIUM_ITEM_IX_DISCM.to_vec();
    bad.extend_from_slice(&[9, 1]);
    assert_eq!(ZaiProgramIx::deserialize(&bad), Err(CodecError::InvalidVariant));
}
