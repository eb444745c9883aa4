use zai::accounts::AccountMeta;
use zai::errors::{AccountError, CodecError, ProcessError, ZaiError};
use zai::instructions::{
    ChangeDefaultClassIxArgs, CreatePlayerIxArgs, EquipPremiumItemIxArgs, ModifyPlayerXpIxArgs,
    PremiumItemType, ZaiProgramIx,
};
use zai::player::{Player, PlayerAccount};
use zai::pubkey::{find_player_address, program_id, system_program_id, Pubkey};
use zai::router::{execute, process_instruction, Clock};

fn owner() -> Pubkey {
    Pubkey([1u8; 32])
}

fn authority() -> Pubkey {
    Pubkey([9u8; 32])
}

fn clock() -> Clock {
    Clock { slot: 8, unix_timestamp: 1_650_000_000 }
}

fn record_key() -> Pubkey {
    find_player_address(&owner(), &program_id()).unwrap().0
}

fn create_accounts() -> Vec<AccountMeta> {
    vec![
        AccountMeta { pubkey: record_key(), is_signer: false, is_writable: true },
        AccountMeta { pubkey: owner(), is_signer: true, is_writable: true },
        AccountMeta { pubkey: system_program_id(), is_signer: false, is_writable: false },
    ]
}

fn owner_accounts() -> Vec<AccountMeta> {
    vec![
        AccountMeta { pubkey: record_key(), is_signer: false, is_writable: true },
        AccountMeta { pubkey: owner(), is_signer: true, is_writable: true },
    ]
}

fn admin_accounts(admin: Pubkey) -> Vec<AccountMeta> {
    vec![
        AccountMeta { pubkey: record_key(), is_signer: false, is_writable: true },
        AccountMeta { pubkey: admin, is_signer: true, is_writable: false },
    ]
}

fn run(accounts: &[AccountMeta], record: &[u8], ix: ZaiProgramIx) -> Result<Vec<u8>, ProcessError> {
    let data = ix.try_to_vec().unwrap();
    process_instruction(&program_id(), &authority(), accounts, &program_id(), record, &clock(), &data)
}

fn created() -> Vec<u8> {
    let ix = ZaiProgramIx::CreatePlayer(CreatePlayerIxArgs { active_class: 101, active_weapon: 101 });
    run(&create_accounts(), &[], ix).unwrap()
}

fn decode(bytes: &[u8]) -> Player {
    PlayerAccount::deserialize(bytes).unwrap().0
}

#[test]
fn create_through_router() {
    let p = decode(&created());
    assert_eq!(p.player_id, owner());
    assert_eq!((p.level, p.xp, p.chests, p.active_class, p.joined), (1, 0, 0, 101, 1_650_000_000));
}

#[test]
fn create_rejects_wrong_address() {
    let mut accounts = create_accounts();
    accounts[0].pubkey = Pubkey([4; 32]);
    let ix = ZaiProgramIx::CreatePlayer(CreatePlayerIxArgs { active_class: 101, active_weapon: 101 });
    assert_eq!(run(&accounts, &[], ix), Err(ProcessError::Account(AccountError::KeyMismatch)));
    let mut accounts = create_accounts();
    accounts[2].pubkey = Pubkey([4; 32]);
    assert_eq!(run(&accounts, &[], ix), Err(ProcessError::Account(AccountError::KeyMismatch)));
}

#[test]
fn create_only_once() {
    let existing = created();
    let ix = ZaiProgramIx::CreatePlayer(CreatePlayerIxArgs { active_class: 102, active_weapon: 102 });
    assert_eq!(
        run(&create_accounts(), &existing, ix),
        Err(ProcessError::Account(AccountError::AlreadyInitialized))
    );
}

#[test]
fn create_invalid_class_through_router() {
    let ix = ZaiProgramIx::CreatePlayer(CreatePlayerIxArgs { active_class: 7, active_weapon: 101 });
    assert_eq!(run(&create_accounts(), &[], ix), Err(ProcessError::Zai(ZaiError::InvalidClass)));
}

#[test]
fn full_progression() {
    let mut record = created();
    record = run(&admin_accounts(authority()), &record, ZaiProgramIx::ModifyPlayerXp(ModifyPlayerXpIxArgs {
        xp_change: 5000,
    }))
    .unwrap();
    record = run(&owner_accounts(), &record, ZaiProgramIx::IncreasePlayerLevel).unwrap();
    let p = decode(&record);
    assert_eq!((p.level, p.xp), (2, 510));
    record = run(&owner_accounts(), &record, ZaiProgramIx::ChangeDefaultClass(ChangeDefaultClassIxArgs {
        new_class: 103,
    }))
    .unwrap();
    record = run(
        &admin_accounts(authority()),
        &record,
        ZaiProgramIx::EquipPremiumItem(EquipPremiumItemIxArgs { item_type: PremiumItemType::Weapon, item_id: 220 }),
    )
    .unwrap();
    let p = decode(&record);
    assert_eq!((p.active_class, p.active_weapon), (103, 220));
}

#[test]
fn unknown_instruction_changes_nothing() {
    let record = created();
    let data = [1u8, 2, 3, 4, 5, 6, 7, 8, 9];
    let r = process_instruction(&program_id(), &authority(), &owner_accounts(), &program_id(), &record, &clock(), &data);
    assert_eq!(r, Err(ProcessError::Codec(CodecError::UnknownInstruction)));
    let r = process_instruction(&program_id(), &authority(), &owner_accounts(), &program_id(), &record, &clock(), &[1, 2]);
    assert_eq!(r, Err(ProcessError::Codec(CodecError::TruncatedInput)));
}

#[test]
fn modify_xp_by_non_authority_through_router() {
    let record = created();
    let ix = ZaiProgramIx::ModifyPlayerXp(ModifyPlayerXpIxArgs { xp_change: 1 });
    assert_eq!(run(&admin_accounts(owner()), &record, ix), Err(ProcessError::Zai(ZaiError::Unauthorized)));
}

#[test]
fn missing_accounts_and_flags() {
    let record = created();
    let ix = ZaiProgramIx::IncreasePlayerLevel;
    assert_eq!(
        run(&owner_accounts()[..1], &record, ix),
        Err(ProcessError::Account(AccountError::NotEnoughAccountKeys))
    );
    let mut accounts = owner_accounts();
    accounts[1].is_signer = false;
    assert_eq!(run(&accounts, &record, ix), Err(ProcessError::Account(AccountError::MissingSigner)));
    let mut accounts = owner_accounts();
    accounts[0].is_writable = false;
    assert_eq!(run(&accounts, &record, ix), Err(ProcessError::Account(AccountError::NotWritable)));
}

#[test]
fn record_must_belong_to_program() {
    let record = created();
    let data = ZaiProgramIx::IncreasePlayerLevel.try_to_vec().unwrap();
    let r = process_instruction(&program_id(), &authority(), &owner_accounts(), &owner(), &record, &clock(), &data);
    assert_eq!(r, Err(ProcessError::Account(AccountError::WrongOwner)));
}

#[test]
fn record_must_decode() {
    let mut record = created();
    record[0] ^= 0xff;
    let ix = ZaiProgramIx::IncreasePlayerLevel;
    assert_eq!(run(&owner_accounts(), &record, ix), Err(ProcessError::Codec(CodecError::DiscriminatorMismatch)));
    assert_eq!(run(&owner_accounts(), &[], ix), Err(ProcessError::Codec(CodecError::TruncatedInput)));
}

#[test]
fn execute_decoded_instruction() {
    let record = created();
    let ix = ZaiProgramIx::EquipPremiumItem(EquipPremiumItemIxArgs { item_type: PremiumItemType::Class, item_id: 102 });
    let r = execute(&ix, &program_id(), &authority(), &admin_accounts(authority()), &program_id(), &record, &clock());
    assert_eq!(r, Err(ProcessError::Zai(ZaiError::InvalidPremiumClass)));
}
