//! The instruction router: one invocation decodes the payload, checks the
//! accounts, reads the record, applies one operation and encodes the result.
//! Nothing is written unless every step succeeds.
use vstd::prelude::*;
use crate::accounts::{
    change_default_class_verify_account_privileges, create_player_verify_account_keys,
    create_player_verify_account_privileges, equip_premium_item_verify_account_privileges,
    increase_player_level_verify_account_privileges, modify_player_xp_verify_account_privileges,
    privileges_check, signer_check, writable_check, AccountMeta, ChangeDefaultClassAccounts,
    CreatePlayerAccounts, CreatePlayerKeys, EquipPremiumItemAccounts, IncreasePlayerLevelAccounts,
    ModifyPlayerXpAccounts,
};
use crate::errors::{AccountError, ProcessError, ZaiError};
use crate::instructions::{ix_error, lemma_decode_ix, ZaiProgramIx};
use crate::player::{decode_player, lemma_decode_player, player_error, Player, PlayerAccount};
use crate::processor::{
    change_default_class, change_default_class_result, create_player, create_player_result,
    equip_premium_item, equip_premium_item_result, increase_player_level,
    increase_player_level_result, modify_player_xp, modify_player_xp_result,
};
use crate::pubkey::{find_player_address, player_seed, program_address, system_program_id, Pubkey};

verus! {

/// The host clock's readings at the time of the invocation.
#[derive(Clone, Copy, Debug)]
pub struct Clock {
    pub slot: u64,
    pub unix_timestamp: i64,
}

/// The record account's bytes after a successful operation, or its error.
pub open spec fn encoded(outcome: Result<Player, ZaiError>) -> Result<Seq<u8>, ProcessError> {
    match outcome {
        Ok(p) => Ok(p.encoding()),
        Err(e) => Err(ProcessError::Zai(e)),
    }
}

pub open spec fn privileges_error(check: Result<(), (AccountMeta, AccountError)>) -> Option<ProcessError> {
    match check {
        Ok(()) => None,
        Err((_, e)) => Some(ProcessError::Account(e)),
    }
}

/// Why the record account cannot be read as this program's record, if it
/// cannot.
pub open spec fn record_error(program_id: Pubkey, record_owner: Pubkey, record: Seq<u8>) -> Option<
    ProcessError,
> {
    if record_owner@ != program_id@ {
        Some(ProcessError::Account(AccountError::WrongOwner))
    } else {
        match player_error(record) {
            Some(e) => Some(ProcessError::Codec(e)),
            None => None,
        }
    }
}

/// Runs `op` on the stored record after the account checks `checked`.
pub open spec fn on_record(
    checked: Result<(), (AccountMeta, AccountError)>,
    program_id: Pubkey,
    record_owner: Pubkey,
    record: Seq<u8>,
    op: spec_fn(Player) -> Result<Player, ZaiError>,
) -> Result<Seq<u8>, ProcessError> {
    match privileges_error(checked) {
        Some(e) => Err(e),
        None => match record_error(program_id, record_owner, record) {
            Some(e) => Err(e),
            None => encoded(op(decode_player(record))),
        },
    }
}

pub open spec fn not_enough_accounts() -> Result<Seq<u8>, ProcessError> {
    Err(ProcessError::Account(AccountError::NotEnoughAccountKeys))
}

pub open spec fn key_mismatch() -> Result<Seq<u8>, ProcessError> {
    Err(ProcessError::Account(AccountError::KeyMismatch))
}

/// What executing `ix` yields: the new bytes of the record account, or the
/// error. `accounts` are the accounts passed, in order, the first being the
/// record account, whose owner is `record_owner` and whose data is `record`.
pub open spec fn execute_result(
    ix: ZaiProgramIx,
    program_id: Pubkey,
    authority: Pubkey,
    accounts: Seq<AccountMeta>,
    record_owner: Pubkey,
    record: Seq<u8>,
    clock: Clock,
) -> Result<Seq<u8>, ProcessError> {
    match ix {
        ZaiProgramIx::CreatePlayer(args) => if accounts.len() < 3 {
            not_enough_accounts()
        } else {
            let (player_account, signer, system_program) = (accounts[0], accounts[1], accounts[2]);
            let checked = privileges_check(
                writable_check(player_account, writable_check(signer, Ok(()))),
                signer_check(signer, Ok(())),
            );
            match privileges_error(checked) {
                Some(e) => Err(e),
                None => match program_address(seq![player_seed(), signer.pubkey@], program_id@) {
                    None => key_mismatch(),
                    Some((address, _)) => if player_account.pubkey@ != address
                        || system_program.pubkey@ != Seq::new(32, |i: int| 0u8) {
                        key_mismatch()
                    } else if record.len() != 0 {
                        Err(ProcessError::Account(AccountError::AlreadyInitialized))
                    } else {
                        encoded(
                            create_player_result(
                                signer.pubkey,
                                args.active_class,
                                args.active_weapon,
                                clock.unix_timestamp,
                            ),
                        )
                    },
                },
            }
        },
        ZaiProgramIx::ChangeDefaultClass(args) => if accounts.len() < 2 {
            not_enough_accounts()
        } else {
            let signer = accounts[1];
            on_record(
                privileges_check(
                    writable_check(accounts[0], writable_check(signer, Ok(()))),
                    signer_check(signer, Ok(())),
                ),
                program_id,
                record_owner,
                record,
                |p: Player| change_default_class_result(p, signer.pubkey, args.new_class),
            )
        },
        ZaiProgramIx::ModifyPlayerXp(args) => if accounts.len() < 2 {
            not_enough_accounts()
        } else {
            let admin = accounts[1];
            on_record(
                privileges_check(writable_check(accounts[0], Ok(())), signer_check(admin, Ok(()))),
                program_id,
                record_owner,
                record,
                |p: Player| modify_player_xp_result(p, admin.pubkey, authority, args.xp_change),
            )
        },
        ZaiProgramIx::IncreasePlayerLevel => if accounts.len() < 2 {
            not_enough_accounts()
        } else {
            let signer = accounts[1];
            on_record(
                privileges_check(
                    writable_check(accounts[0], writable_check(signer, Ok(()))),
                    signer_check(signer, Ok(())),
                ),
                program_id,
                record_owner,
                record,
                |p: Player| increase_player_level_result(p, signer.pubkey, clock.slot),
            )
        },
        ZaiProgramIx::EquipPremiumItem(args) => if accounts.len() < 2 {
            not_enough_accounts()
        } else {
            let admin = accounts[1];
            on_record(
                privileges_check(writable_check(accounts[0], Ok(())), signer_check(admin, Ok(()))),
                program_id,
                record_owner,
                record,
                |p: Player|
                    equip_premium_item_result(p, admin.pubkey, authority, args.item_type, args.item_id),
            )
        },
    }
}

/// `r` is the executable form of `expected`.
pub open spec fn delivers(r: Result<Vec<u8>, ProcessError>, expected: Result<Seq<u8>, ProcessError>) -> bool {
    match expected {
        Ok(bytes) => r matches Ok(v) && v@ == bytes,
        Err(e) => r == Err::<Vec<u8>, ProcessError>(e),
    }
}

/// What one invocation with payload `data` yields.
pub open spec fn process_result(
    program_id: Pubkey,
    authority: Pubkey,
    accounts: Seq<AccountMeta>,
    record_owner: Pubkey,
    record: Seq<u8>,
    clock: Clock,
    data: Seq<u8>,
) -> Result<Seq<u8>, ProcessError> {
    match ix_error(data) {
        Some(e) => Err(ProcessError::Codec(e)),
        None => execute_result(
            crate::instructions::decode_ix(data),
            program_id,
            authority,
            accounts,
            record_owner,
            record,
            clock,
        ),
    }
}

fn load_record(program_id: &Pubkey, record_owner: &Pubkey, record: &[u8]) -> (r: Result<
    Player,
    ProcessError,
>)
    ensures
        match record_error(*program_id, *record_owner, record@) {
            Some(e) => r == Err::<Player, ProcessError>(e),
            None => r == Ok::<Player, ProcessError>(decode_player(record@)),
        },
{
    if *record_owner != *program_id {
        return Err(ProcessError::Account(AccountError::WrongOwner));
    }
    match PlayerAccount::deserialize(record) {
        Ok(a) => {
            proof {
                lemma_decode_player(record@, a.0);
            }
            Ok(a.0)
        },
        Err(e) => Err(ProcessError::Codec(e)),
    }
}

fn store_record(p: &Player) -> (r: Vec<u8>)
    ensures
        r@ == p.encoding(),
{
    let mut out = Vec::new();
    let _ = PlayerAccount(*p).serialize(&mut out);
    assert(out@ =~= p.encoding());
    out
}

fn finish(p: &Player, r: Result<(), ZaiError>) -> (out: Result<Vec<u8>, ProcessError>)
    ensures
        match r {
            Ok(()) => out matches Ok(v) && v@ == p.encoding(),
            Err(e) => out == Err::<Vec<u8>, ProcessError>(ProcessError::Zai(e)),
        },
{
    match r {
        Ok(()) => Ok(store_record(p)),
        Err(e) => Err(ProcessError::Zai(e)),
    }
}

/// Executes an already decoded instruction.
pub fn execute(
    ix: &ZaiProgramIx,
    program_id: &Pubkey,
    authority: &Pubkey,
    accounts: &[AccountMeta],
    record_owner: &Pubkey,
    record: &[u8],
    clock: &Clock,
) -> (r: Result<Vec<u8>, ProcessError>)
    ensures
        delivers(r, execute_result(*ix, *program_id, *authority, accounts@, *record_owner, record@, *clock)),
{
    match ix {
        ZaiProgramIx::CreatePlayer(args) => {
            let a = match CreatePlayerAccounts::from_slice(accounts) {
                Some(a) => a,
                None => return Err(ProcessError::Account(AccountError::NotEnoughAccountKeys)),
            };
            match create_player_verify_account_privileges(&a) {
                Ok(()) => {},
                Err((_, e)) => return Err(ProcessError::Account(e)),
            }
            let address = match find_player_address(&a.signer.pubkey, program_id) {
                Some((k, _)) => k,
                None => return Err(ProcessError::Account(AccountError::KeyMismatch)),
            };
            let keys = CreatePlayerKeys {
                player_account: address,
                signer: a.signer.pubkey,
                system_program: system_program_id(),
            };
            match create_player_verify_account_keys(&a, &keys) {
                Ok(()) => {},
                Err(_) => return Err(ProcessError::Account(AccountError::KeyMismatch)),
            }
            if record.len() != 0 {
                return Err(ProcessError::Account(AccountError::AlreadyInitialized));
            }
            match create_player(&a.signer.pubkey, args.active_class, args.active_weapon, clock.unix_timestamp) {
                Ok(p) => Ok(store_record(&p)),
                Err(e) => Err(ProcessError::Zai(e)),
            }
        },
        ZaiProgramIx::ChangeDefaultClass(args) => {
            let a = match ChangeDefaultClassAccounts::from_slice(accounts) {
                Some(a) => a,
                None => return Err(ProcessError::Account(AccountError::NotEnoughAccountKeys)),
            };
            match change_default_class_verify_account_privileges(&a) {
                Ok(()) => {},
                Err((_, e)) => return Err(ProcessError::Account(e)),
            }
            let mut p = load_record(program_id, record_owner, record)?;
            let r = change_default_class(&mut p, &a.signer.pubkey, args.new_class);
            finish(&p, r)
        },
        ZaiProgramIx::ModifyPlayerXp(args) => {
            let a = match ModifyPlayerXpAccounts::from_slice(accounts) {
                Some(a) => a,
                None => return Err(ProcessError::Account(AccountError::NotEnoughAccountKeys)),
            };
            match modify_player_xp_verify_account_privileges(&a) {
                Ok(()) => {},
                Err((_, e)) => return Err(ProcessError::Account(e)),
            }
            let mut p = load_record(program_id, record_owner, record)?;
            let r = modify_player_xp(&mut p, &a.admin.pubkey, authority, args.xp_change);
            finish(&p, r)
        },
        ZaiProgramIx::IncreasePlayerLevel => {
            let a = match IncreasePlayerLevelAccounts::from_slice(accounts) {
                Some(a) => a,
                None => return Err(ProcessError::Account(AccountError::NotEnoughAccountKeys)),
            };
            match increase_player_level_verify_account_privileges(&a) {
                Ok(()) => {},
                Err((_, e)) => return Err(ProcessError::Account(e)),
            }
            let mut p = load_record(program_id, record_owner, record)?;
            let r = increase_player_level(&mut p, &a.signer.pubkey, clock.slot);
            finish(&p, r)
        },
        ZaiProgramIx::EquipPremiumItem(args) => {
            let a = match EquipPremiumItemAccounts::from_slice(accounts) {
                Some(a) => a,
                None => return Err(ProcessError::Account(AccountError::NotEnoughAccountKeys)),
            };
            match equip_premium_item_verify_account_privileges(&a) {
                Ok(()) => {},
                Err((_, e)) => return Err(ProcessError::Account(e)),
            }
            let mut p = load_record(program_id, record_owner, record)?;
            let r = equip_premium_item(&mut p, &a.admin.pubkey, authority, args.item_type, args.item_id);
            finish(&p, r)
        },
    }
}

/// Runs one invocation: decodes `data` and executes it. On success the result
/// is the record account's new leading bytes; on failure nothing is to be
/// written.
pub fn process_instruction(
    program_id: &Pubkey,
    authority: &Pubkey,
    accounts: &[AccountMeta],
    record_owner: &Pubkey,
    record: &[u8],
    clock: &Clock,
    data: &[u8],
) -> (r: Result<Vec<u8>, ProcessError>)
    ensures
        delivers(
            r,
            process_result(*program_id, *authority, accounts@, *record_owner, record@, *clock, data@),
        ),
{
    let ix = match ZaiProgramIx::deserialize(data) {
        Ok(ix) => ix,
        Err(e) => return Err(ProcessError::Codec(e)),
    };
    proof {
        lemma_decode_ix(data@, ix);
    }
    execute(&ix, program_id, authority, accounts, record_owner, record, clock)
}

} // verus!
