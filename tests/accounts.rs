use zai::accounts::{
    change_default_class_ix, create_player_ix_with_program_id, create_player_verify_account_keys,
    create_player_verify_account_privileges, create_player_verify_signer_privileges,
    create_player_verify_writable_privileges, equip_premium_item_ix,
    equip_premium_item_verify_account_privileges, increase_player_level_ix,
    modify_player_xp_ix, modify_player_xp_verify_account_keys, AccountMeta,
    ChangeDefaultClassKeys, CreatePlayerAccounts, CreatePlayerKeys, EquipPremiumItemAccounts,
    EquipPremiumItemKeys, IncreasePlayerLevelKeys, ModifyPlayerXpAccounts, ModifyPlayerXpKeys,
};
use zai::errors::AccountError;
use zai::instructions::{
    ChangeDefaultClassIxArgs, CreatePlayerIxArgs, EquipPremiumItemIxArgs, ModifyPlayerXpIxArgs,
    PremiumItemType, CHANGE_DEFAULT_CLASS_IX_DISCM, CREATE_PLAYER_IX_DISCM,
    INCREASE_PLAYER_LEVEL_IX_DISCM,
};
use zai::pubkey::{program_id, Pubkey};

fn meta(k: u8, is_signer: bool, is_writable: bool) -> AccountMeta {
    AccountMeta { pubkey: Pubkey([k; 32]), is_signer, is_writable }
}

#[test]
fn create_player_instruction() {
    let keys = CreatePlayerKeys::from_pubkeys([Pubkey([1; 32]), Pubkey([2; 32]), Pubkey([0; 32])]);
    let ix = create_player_ix_with_program_id(Pubkey([7; 32]), keys, CreatePlayerIxArgs {
        active_class: 101,
        active_weapon: 102,
    })
    .unwrap();
    assert_eq!(ix.program_id, Pubkey([7; 32]));
    assert_eq!(ix.accounts, vec![meta(1, false, true), meta(2, true, true), meta(0, false, false)]);
    let mut data = CREATE_PLAYER_IX_DISCM.to_vec();
    data.extend_from_slice(&[101, 102]);
    assert_eq!(ix.data, data);
}

#[test]
fn other_instructions_use_program_id() {
    let ix = change_default_class_ix(
        ChangeDefaultClassKeys { player_account: Pubkey([1; 32]), signer: Pubkey([2; 32]) },
        ChangeDefaultClassIxArgs { new_class: 103 },
    )
    .unwrap();
    assert_eq!(ix.program_id, program_id());
    assert_eq!(ix.accounts, vec![meta(1, false, true), meta(2, true, true)]);
    assert_eq!(&ix.data[..8], &CHANGE_DEFAULT_CLASS_IX_DISCM);
    assert_eq!(ix.data[8], 103);

    let ix = modify_player_xp_ix(
        ModifyPlayerXpKeys { player_account: Pubkey([1; 32]), admin: Pubkey([9; 32]) },
        ModifyPlayerXpIxArgs { xp_change: 5 },
    )
    .unwrap();
    assert_eq!(ix.accounts, vec![meta(1, false, true), meta(9, true, false)]);
    assert_eq!(ix.data.len(), 16);

    let ix = increase_player_level_ix(IncreasePlayerLevelKeys {
        player_account: Pubkey([1; 32]),
        signer: Pubkey([2; 32]),
    })
    .unwrap();
    assert_eq!(ix.data, INCREASE_PLAYER_LEVEL_IX_DISCM.to_vec());

    let ix = equip_premium_item_ix(
        EquipPremiumItemKeys { player_account: Pubkey([1; 32]), admin: Pubkey([9; 32]) },
        EquipPremiumItemIxArgs { item_type: PremiumItemType::Class, item_id: 150 },
    )
    .unwrap();
    assert_eq!(ix.accounts, vec![meta(1, false, true), meta(9, true, false)]);
    assert_eq!(&ix.data[8..], &[0, 150]);
}

#[test]
fn verify_keys_reports_first_mismatch() {
    let accounts = CreatePlayerAccounts {
        player_account: meta(1, false, true),
        signer: meta(2, true, true),
        system_program: meta(0, false, false),
    };
    let keys = CreatePlayerKeys::from_accounts(&accounts);
    assert_eq!(create_player_verify_account_keys(&accounts, &keys), Ok(()));
    let wrong = CreatePlayerKeys { signer: Pubkey([5; 32]), system_program: Pubkey([6; 32]), ..keys };
    assert_eq!(
        create_player_verify_account_keys(&accounts, &wrong),
        Err((Pubkey([2; 32]), Pubkey([5; 32])))
    );
    let accounts = ModifyPlayerXpAccounts { player_account: meta(1, false, true), admin: meta(9, true, false) };
    let keys = ModifyPlayerXpKeys { player_account: Pubkey([8; 32]), admin: Pubkey([9; 32]) };
    assert_eq!(
        modify_player_xp_verify_account_keys(&accounts, &keys),
        Err((Pubkey([1; 32]), Pubkey([8; 32])))
    );
}

#[test]
fn verify_privileges() {
    let good = CreatePlayerAccounts {
        player_account: meta(1, false, true),
        signer: meta(2, true, true),
        system_program: meta(0, false, false),
    };
    assert_eq!(create_player_verify_account_privileges(&good), Ok(()));
    let read_only = CreatePlayerAccounts { signer: meta(2, true, false), ..good };
    assert_eq!(
        create_player_verify_writable_privileges(&read_only),
        Err((meta(2, true, false), AccountError::NotWritable))
    );
    let unsigned = CreatePlayerAccounts { signer: meta(2, false, true), ..good };
    assert_eq!(
        create_player_verify_signer_privileges(&unsigned),
        Err((meta(2, false, true), AccountError::MissingSigner))
    );
    let both = CreatePlayerAccounts { player_account: meta(1, false, false), signer: meta(2, false, true), ..good };
    assert_eq!(
        create_player_verify_account_privileges(&both),
        Err((meta(1, false, false), AccountError::NotWritable))
    );
    let admin_unsigned = EquipPremiumItemAccounts { player_account: meta(1, false, true), admin: meta(9, false, false) };
    assert_eq!(
        equip_premium_item_verify_account_privileges(&admin_unsigned),
        Err((meta(9, false, false), AccountError::MissingSigner))
    );
}

#[test]
fn accounts_from_slice() {
    let list = [meta(1, false, true), meta(2, true, true)];
    assert!(CreatePlayerAccounts::from_slice(&list).is_none());
    let a = ModifyPlayerXpAccounts::from_slice(&list).unwrap();
    assert_eq!(a.player_account, list[0]);
    assert_eq!(a.admin, list[1]);
}
