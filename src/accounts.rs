//! The accounts each instruction declares, the checks that the accounts
//! actually passed match them, and the building of instructions for callers.
use vstd::prelude::*;
use crate::errors::{AccountError, CodecError};
use crate::instructions::{
    ChangeDefaultClassIxArgs, ChangeDefaultClassIxData, CreatePlayerIxArgs, CreatePlayerIxData,
    EquipPremiumItemIxArgs, EquipPremiumItemIxData, IncreasePlayerLevelIxData, ModifyPlayerXpIxArgs,
    ModifyPlayerXpIxData,
};
use crate::pubkey::{program_id, program_id_bytes, Pubkey};

verus! {

/// One account as an instruction refers to it: its key and whether it signs
/// and may be written.
#[derive(Clone, Copy, Debug, PartialEq, Eq)]
pub struct AccountMeta {
    pub pubkey: Pubkey,
    pub is_signer: bool,
    pub is_writable: bool,
}

/// An instruction ready to submit: the program to run, its accounts in
/// order, and its payload.
#[derive(Debug, PartialEq, Eq)]
pub struct Instruction {
    pub program_id: Pubkey,
    pub accounts: Vec<AccountMeta>,
    pub data: Vec<u8>,
}

/// The first key mismatch, checking `actual` against `expected` before `rest`.
pub open spec fn key_check(actual: Pubkey, expected: Pubkey, rest: Result<(), (Pubkey, Pubkey)>) -> Result<
    (),
    (Pubkey, Pubkey),
> {
    if actual@ != expected@ {
        Err((actual, expected))
    } else {
        rest
    }
}

/// The first account that should be writable and is not, checking `a` first.
pub open spec fn writable_check(a: AccountMeta, rest: Result<(), (AccountMeta, AccountError)>) -> Result<
    (),
    (AccountMeta, AccountError),
> {
    if !a.is_writable {
        Err((a, AccountError::NotWritable))
    } else {
        rest
    }
}

/// The first account that should sign and does not, checking `a` first.
pub open spec fn signer_check(a: AccountMeta, rest: Result<(), (AccountMeta, AccountError)>) -> Result<
    (),
    (AccountMeta, AccountError),
> {
    if !a.is_signer {
        Err((a, AccountError::MissingSigner))
    } else {
        rest
    }
}

/// Both privilege checks, writability first.
pub open spec fn privileges_check(
    writable: Result<(), (AccountMeta, AccountError)>,
    signer: Result<(), (AccountMeta, AccountError)>,
) -> Result<(), (AccountMeta, AccountError)> {
    match writable {
        Err(e) => Err(e),
        Ok(()) => signer,
    }
}

fn check_key(actual: &Pubkey, expected: &Pubkey) -> (r: Result<(), (Pubkey, Pubkey)>)
    ensures
        r == key_check(*actual, *expected, Ok(())),
{
    if *actual != *expected {
        Err((*actual, *expected))
    } else {
        Ok(())
    }
}

fn check_writable(a: &AccountMeta) -> (r: Result<(), (AccountMeta, AccountError)>)
    ensures
        r == writable_check(*a, Ok(())),
{
    if !a.is_writable {
        Err((*a, AccountError::NotWritable))
    } else {
        Ok(())
    }
}

fn check_signer(a: &AccountMeta) -> (r: Result<(), (AccountMeta, AccountError)>)
    ensures
        r == signer_check(*a, Ok(())),
{
    if !a.is_signer {
        Err((*a, AccountError::MissingSigner))
    } else {
        Ok(())
    }
}

pub const CREATE_PLAYER_IX_ACCOUNTS_LEN: usize = 3;

/// The accounts passed to CreatePlayer, in declared order.
#[derive(Clone, Copy, Debug)]
pub struct CreatePlayerAccounts {
    pub player_account: AccountMeta,
    pub signer: AccountMeta,
    pub system_program: AccountMeta,
}

/// The keys CreatePlayer expects, in declared order.
#[derive(Clone, Copy, Debug, PartialEq, Eq)]
pub struct CreatePlayerKeys {
    pub player_account: Pubkey,
    pub signer: Pubkey,
    pub system_program: Pubkey,
}

impl CreatePlayerAccounts {
    /// The first 3 accounts of `accounts`, in declared order; `None` when
    /// there are fewer.
    pub fn from_slice(accounts: &[AccountMeta]) -> (r: Option<Self>)
        ensures
            accounts@.len() < 3 ==> r is None,
            accounts@.len() >= 3 ==> (r matches Some(a) && a.player_account == accounts@[0] && a.signer == accounts@[1] && a.system_program == accounts@[2]),
    {
        if accounts.len() < 3 {
            return None;
        }
        Some(CreatePlayerAccounts { player_account: accounts[0], signer: accounts[1], system_program: accounts[2] })
    }
}

impl CreatePlayerKeys {
    /// The account list of a CreatePlayer instruction, with the declared flags.
    pub open spec fn metas(self) -> Seq<AccountMeta> {
        seq![
            AccountMeta { pubkey: self.player_account, is_signer: false, is_writable: true },
            AccountMeta { pubkey: self.signer, is_signer: true, is_writable: true },
            AccountMeta { pubkey: self.system_program, is_signer: false, is_writable: false },
        ]
    }

    /// The keys of the accounts passed.
    pub fn from_accounts(accounts: &CreatePlayerAccounts) -> (r: Self)
        ensures
            r.player_account == accounts.player_account.pubkey,
            r.signer == accounts.signer.pubkey,
            r.system_program == accounts.system_program.pubkey,
    {
        CreatePlayerKeys { player_account: accounts.player_account.pubkey, signer: accounts.signer.pubkey, system_program: accounts.system_program.pubkey }
    }

    /// The keys listed in declared order.
    pub fn from_pubkeys(pubkeys: [Pubkey; 3]) -> (r: Self)
        ensures
            r.player_account == pubkeys@[0],
            r.signer == pubkeys@[1],
            r.system_program == pubkeys@[2],
    {
        CreatePlayerKeys { player_account: pubkeys[0], signer: pubkeys[1], system_program: pubkeys[2] }
    }

    /// The account list of a CreatePlayer instruction.
    pub fn to_metas(&self) -> (r: Vec<AccountMeta>)
        ensures
            r@ == self.metas(),
    {
        let mut r = Vec::new();
        r.push(AccountMeta { pubkey: self.player_account, is_signer: false, is_writable: true });
        r.push(AccountMeta { pubkey: self.signer, is_signer: true, is_writable: true });
        r.push(AccountMeta { pubkey: self.system_program, is_signer: false, is_writable: false });
        assert(r@ =~= self.metas());
        r
    }
}

/// Checks the passed accounts' keys against the expected ones, in declared
/// order; the first mismatch comes back as (actual, expected).
pub fn create_player_verify_account_keys(accounts: &CreatePlayerAccounts, keys: &CreatePlayerKeys) -> (r: Result<
    (),
    (Pubkey, Pubkey),
>)
    ensures
        r == key_check(accounts.player_account.pubkey, keys.player_account, key_check(accounts.signer.pubkey, keys.signer, key_check(accounts.system_program.pubkey, keys.system_program, Ok(())))),
{
    check_key(&accounts.player_account.pubkey, &keys.player_account)?;
    check_key(&accounts.signer.pubkey, &keys.signer)?;
    check_key(&accounts.system_program.pubkey, &keys.system_program)?;
    Ok(())
}

/// Checks that each account CreatePlayer writes was passed as writable.
pub fn create_player_verify_writable_privileges(accounts: &CreatePlayerAccounts) -> (r: Result<
    (),
    (AccountMeta, AccountError),
>)
    ensures
        r == writable_check(accounts.player_account, writable_check(accounts.signer, Ok(()))),
{
    check_writable(&accounts.player_account)?;
    check_writable(&accounts.signer)?;
    Ok(())
}

/// Checks that each account that must sign CreatePlayer did.
pub fn create_player_verify_signer_privileges(accounts: &CreatePlayerAccounts) -> (r: Result<
    (),
    (AccountMeta, AccountError),
>)
    ensures
        r == signer_check(accounts.signer, Ok(())),
{
    check_signer(&accounts.signer)?;
    Ok(())
}

/// Both privilege checks of CreatePlayer, writability first.
pub fn create_player_verify_account_privileges(accounts: &CreatePlayerAccounts) -> (r: Result<
    (),
    (AccountMeta, AccountError),
>)
    ensures
        r == privileges_check(writable_check(accounts.player_account, writable_check(accounts.signer, Ok(()))), signer_check(accounts.signer, Ok(()))),
{
    create_player_verify_writable_privileges(accounts)?;
    create_player_verify_signer_privileges(accounts)?;
    Ok(())
}

/// A CreatePlayer instruction for the program `program_id`.
pub fn create_player_ix_with_program_id(program_id: Pubkey, keys: CreatePlayerKeys, args: CreatePlayerIxArgs) -> (r: Result<
    Instruction,
    CodecError,
>)
    ensures
        r matches Ok(ix) && ix.program_id == program_id && ix.accounts@ == keys.metas() && ix.data@
            == CreatePlayerIxData(args).encoding(),
{
    let metas = keys.to_metas();
    let data = CreatePlayerIxData(args).try_to_vec()?;
    Ok(Instruction { program_id, accounts: metas, data })
}

/// A CreatePlayer instruction for this program.
pub fn create_player_ix(keys: CreatePlayerKeys, args: CreatePlayerIxArgs) -> (r: Result<Instruction, CodecError>)
    ensures
        r matches Ok(ix) && ix.program_id@ == program_id_bytes() && ix.accounts@ == keys.metas()
            && ix.data@ == CreatePlayerIxData(args).encoding(),
{
    create_player_ix_with_program_id(program_id(), keys, args)
}

pub const CHANGE_DEFAULT_CLASS_IX_ACCOUNTS_LEN: usize = 2;

/// The accounts passed to ChangeDefaultClass, in declared order.
#[derive(Clone, Copy, Debug)]
pub struct ChangeDefaultClassAccounts {
    pub player_account: AccountMeta,
    pub signer: AccountMeta,
}

/// The keys ChangeDefaultClass expects, in declared order.
#[derive(Clone, Copy, Debug, PartialEq, Eq)]
pub struct ChangeDefaultClassKeys {
    pub player_account: Pubkey,
    pub signer: Pubkey,
}

impl ChangeDefaultClassAccounts {
    /// The first 2 accounts of `accounts`, in declared order; `None` when
    /// there are fewer.
    pub fn from_slice(accounts: &[AccountMeta]) -> (r: Option<Self>)
        ensures
            accounts@.len() < 2 ==> r is None,
            accounts@.len() >= 2 ==> (r matches Some(a) && a.player_account == accounts@[0] && a.signer == accounts@[1]),
    {
        if accounts.len() < 2 {
            return None;
        }
        Some(ChangeDefaultClassAccounts { player_account: accounts[0], signer: accounts[1] })
    }
}

impl ChangeDefaultClassKeys {
    /// The account list of a ChangeDefaultClass instruction, with the declared flags.
    pub open spec fn metas(self) -> Seq<AccountMeta> {
        seq![
            AccountMeta { pubkey: self.player_account, is_signer: false, is_writable: true },
            AccountMeta { pubkey: self.signer, is_signer: true, is_writable: true },
        ]
    }

    /// The keys of the accounts passed.
    pub fn from_accounts(accounts: &ChangeDefaultClassAccounts) -> (r: Self)
        ensures
            r.player_account == accounts.player_account.pubkey,
            r.signer == accounts.signer.pubkey,
    {
        ChangeDefaultClassKeys { player_account: accounts.player_account.pubkey, signer: accounts.signer.pubkey }
    }

    /// The keys listed in declared order.
    pub fn from_pubkeys(pubkeys: [Pubkey; 2]) -> (r: Self)
        ensures
            r.player_account == pubkeys@[0],
            r.signer == pubkeys@[1],
    {
        ChangeDefaultClassKeys { player_account: pubkeys[0], signer: pubkeys[1] }
    }

    /// The account list of a ChangeDefaultClass instruction.
    pub fn to_metas(&self) -> (r: Vec<AccountMeta>)
        ensures
            r@ == self.metas(),
    {
        let mut r = Vec::new();
        r.push(AccountMeta { pubkey: self.player_account, is_signer: false, is_writable: true });
        r.push(AccountMeta { pubkey: self.signer, is_signer: true, is_writable: true });
        assert(r@ =~= self.metas());
        r
    }
}

/// Checks the passed accounts' keys against the expected ones, in declared
/// order; the first mismatch comes back as (actual, expected).
pub fn change_default_class_verify_account_keys(accounts: &ChangeDefaultClassAccounts, keys: &ChangeDefaultClassKeys) -> (r: Result<
    (),
    (Pubkey, Pubkey),
>)
    ensures
        r == key_check(accounts.player_account.pubkey, keys.player_account, key_check(accounts.signer.pubkey, keys.signer, Ok(()))),
{
    check_key(&accounts.player_account.pubkey, &keys.player_account)?;
    check_key(&accounts.signer.pubkey, &keys.signer)?;
    Ok(())
}

/// Checks that each account ChangeDefaultClass writes was passed as writable.
pub fn change_default_class_verify_writable_privileges(accounts: &ChangeDefaultClassAccounts) -> (r: Result<
    (),
    (AccountMeta, AccountError),
>)
    ensures
        r == writable_check(accounts.player_account, writable_check(accounts.signer, Ok(()))),
{
    check_writable(&accounts.player_account)?;
    check_writable(&accounts.signer)?;
    Ok(())
}

/// Checks that each account that must sign ChangeDefaultClass did.
pub fn change_default_class_verify_signer_privileges(accounts: &ChangeDefaultClassAccounts) -> (r: Result<
    (),
    (AccountMeta, AccountError),
>)
    ensures
        r == signer_check(accounts.signer, Ok(())),
{
    check_signer(&accounts.signer)?;
    Ok(())
}

/// Both privilege checks of ChangeDefaultClass, writability first.
pub fn change_default_class_verify_account_privileges(accounts: &ChangeDefaultClassAccounts) -> (r: Result<
    (),
    (AccountMeta, AccountError),
>)
    ensures
        r == privileges_check(writable_check(accounts.player_account, writable_check(accounts.signer, Ok(()))), signer_check(accounts.signer, Ok(()))),
{
    change_default_class_verify_writable_privileges(accounts)?;
    change_default_class_verify_signer_privileges(accounts)?;
    Ok(())
}

/// A ChangeDefaultClass instruction for the program `program_id`.
pub fn change_default_class_ix_with_program_id(program_id: Pubkey, keys: ChangeDefaultClassKeys, args: ChangeDefaultClassIxArgs) -> (r: Result<
    Instruction,
    CodecError,
>)
    ensures
        r matches Ok(ix) && ix.program_id == program_id && ix.accounts@ == keys.metas() && ix.data@
            == ChangeDefaultClassIxData(args).encoding(),
{
    let metas = keys.to_metas();
    let data = ChangeDefaultClassIxData(args).try_to_vec()?;
    Ok(Instruction { program_id, accounts: metas, data })
}

/// A ChangeDefaultClass instruction for this program.
pub fn change_default_class_ix(keys: ChangeDefaultClassKeys, args: ChangeDefaultClassIxArgs) -> (r: Result<Instruction, CodecError>)
    ensures
        r matches Ok(ix) && ix.program_id@ == program_id_bytes() && ix.accounts@ == keys.metas()
            && ix.data@ == ChangeDefaultClassIxData(args).encoding(),
{
    change_default_class_ix_with_program_id(program_id(), keys, args)
}

pub const MODIFY_PLAYER_XP_IX_ACCOUNTS_LEN: usize = 2;

/// The accounts passed to ModifyPlayerXp, in declared order.
#[derive(Clone, Copy, Debug)]
pub struct ModifyPlayerXpAccounts {
    pub player_account: AccountMeta,
    pub admin: AccountMeta,
}

/// The keys ModifyPlayerXp expects, in declared order.
#[derive(Clone, Copy, Debug, PartialEq, Eq)]
pub struct ModifyPlayerXpKeys {
    pub player_account: Pubkey,
    pub admin: Pubkey,
}

impl ModifyPlayerXpAccounts {
    /// The first 2 accounts of `accounts`, in declared order; `None` when
    /// there are fewer.
    pub fn from_slice(accounts: &[AccountMeta]) -> (r: Option<Self>)
        ensures
            accounts@.len() < 2 ==> r is None,
            accounts@.len() >= 2 ==> (r matches Some(a) && a.player_account == accounts@[0] && a.admin == accounts@[1]),
    {
        if accounts.len() < 2 {
            return None;
        }
        Some(ModifyPlayerXpAccounts { player_account: accounts[0], admin: accounts[1] })
    }
}

impl ModifyPlayerXpKeys {
    /// The account list of a ModifyPlayerXp instruction, with the declared flags.
    pub open spec fn metas(self) -> Seq<AccountMeta> {
        seq![
            AccountMeta { pubkey: self.player_account, is_signer: false, is_writable: true },
            AccountMeta { pubkey: self.admin, is_signer: true, is_writable: false },
        ]
    }

    /// The keys of the accounts passed.
    pub fn from_accounts(accounts: &ModifyPlayerXpAccounts) -> (r: Self)
        ensures
            r.player_account == accounts.player_account.pubkey,
            r.admin == accounts.admin.pubkey,
    {
        ModifyPlayerXpKeys { player_account: accounts.player_account.pubkey, admin: accounts.admin.pubkey }
    }

    /// The keys listed in declared order.
    pub fn from_pubkeys(pubkeys: [Pubkey; 2]) -> (r: Self)
        ensures
            r.player_account == pubkeys@[0],
            r.admin == pubkeys@[1],
    {
        ModifyPlayerXpKeys { player_account: pubkeys[0], admin: pubkeys[1] }
    }

    /// The account list of a ModifyPlayerXp instruction.
    pub fn to_metas(&self) -> (r: Vec<AccountMeta>)
        ensures
            r@ == self.metas(),
    {
        let mut r = Vec::new();
        r.push(AccountMeta { pubkey: self.player_account, is_signer: false, is_writable: true });
        r.push(AccountMeta { pubkey: self.admin, is_signer: true, is_writable: false });
        assert(r@ =~= self.metas());
        r
    }
}

/// Checks the passed accounts' keys against the expected ones, in declared
/// order; the first mismatch comes back as (actual, expected).
pub fn modify_player_xp_verify_account_keys(accounts: &ModifyPlayerXpAccounts, keys: &ModifyPlayerXpKeys) -> (r: Result<
    (),
    (Pubkey, Pubkey),
>)
    ensures
        r == key_check(accounts.player_account.pubkey, keys.player_account, key_check(accounts.admin.pubkey, keys.admin, Ok(()))),
{
    check_key(&accounts.player_account.pubkey, &keys.player_account)?;
    check_key(&accounts.admin.pubkey, &keys.admin)?;
    Ok(())
}

/// Checks that each account ModifyPlayerXp writes was passed as writable.
pub fn modify_player_xp_verify_writable_privileges(accounts: &ModifyPlayerXpAccounts) -> (r: Result<
    (),
    (AccountMeta, AccountError),
>)
    ensures
        r == writable_check(accounts.player_account, Ok(())),
{
    check_writable(&accounts.player_account)?;
    Ok(())
}

/// Checks that each account that must sign ModifyPlayerXp did.
pub fn modify_player_xp_verify_signer_privileges(accounts: &ModifyPlayerXpAccounts) -> (r: Result<
    (),
    (AccountMeta, AccountError),
>)
    ensures
        r == signer_check(accounts.admin, Ok(())),
{
    check_signer(&accounts.admin)?;
    Ok(())
}

/// Both privilege checks of ModifyPlayerXp, writability first.
pub fn modify_player_xp_verify_account_privileges(accounts: &ModifyPlayerXpAccounts) -> (r: Result<
    (),
    (AccountMeta, AccountError),
>)
    ensures
        r == privileges_check(writable_check(accounts.player_account, Ok(())), signer_check(accounts.admin, Ok(()))),
{
    modify_player_xp_verify_writable_privileges(accounts)?;
    modify_player_xp_verify_signer_privileges(accounts)?;
    Ok(())
}

/// A ModifyPlayerXp instruction for the program `program_id`.
pub fn modify_player_xp_ix_with_program_id(program_id: Pubkey, keys: ModifyPlayerXpKeys, args: ModifyPlayerXpIxArgs) -> (r: Result<
    Instruction,
    CodecError,
>)
    ensures
        r matches Ok(ix) && ix.program_id == program_id && ix.accounts@ == keys.metas() && ix.data@
            == ModifyPlayerXpIxData(args).encoding(),
{
    let metas = keys.to_metas();
    let data = ModifyPlayerXpIxData(args).try_to_vec()?;
    Ok(Instruction { program_id, accounts: metas, data })
}

/// A ModifyPlayerXp instruction for this program.
pub fn modify_player_xp_ix(keys: ModifyPlayerXpKeys, args: ModifyPlayerXpIxArgs) -> (r: Result<Instruction, CodecError>)
    ensures
        r matches Ok(ix) && ix.program_id@ == program_id_bytes() && ix.accounts@ == keys.metas()
            && ix.data@ == ModifyPlayerXpIxData(args).encoding(),
{
    modify_player_xp_ix_with_program_id(program_id(), keys, args)
}

pub const INCREASE_PLAYER_LEVEL_IX_ACCOUNTS_LEN: usize = 2;

/// The accounts passed to IncreasePlayerLevel, in declared order.
#[derive(Clone, Copy, Debug)]
pub struct IncreasePlayerLevelAccounts {
    pub player_account: AccountMeta,
    pub signer: AccountMeta,
}

/// The keys IncreasePlayerLevel expects, in declared order.
#[derive(Clone, Copy, Debug, PartialEq, Eq)]
pub struct IncreasePlayerLevelKeys {
    pub player_account: Pubkey,
    pub signer: Pubkey,
}

impl IncreasePlayerLevelAccounts {
    /// The first 2 accounts of `accounts`, in declared order; `None` when
    /// there are fewer.
    pub fn from_slice(accounts: &[AccountMeta]) -> (r: Option<Self>)
        ensures
            accounts@.len() < 2 ==> r is None,
            accounts@.len() >= 2 ==> (r matches Some(a) && a.player_account == accounts@[0] && a.signer == accounts@[1]),
    {
        if accounts.len() < 2 {
            return None;
        }
        Some(IncreasePlayerLevelAccounts { player_account: accounts[0], signer: accounts[1] })
    }
}

impl IncreasePlayerLevelKeys {
    /// The account list of a IncreasePlayerLevel instruction, with the declared flags.
    pub open spec fn metas(self) -> Seq<AccountMeta> {
        seq![
            AccountMeta { pubkey: self.player_account, is_signer: false, is_writable: true },
            AccountMeta { pubkey: self.signer, is_signer: true, is_writable: true },
        ]
    }

    /// The keys of the accounts passed.
    pub fn from_accounts(accounts: &IncreasePlayerLevelAccounts) -> (r: Self)
        ensures
            r.player_account == accounts.player_account.pubkey,
            r.signer == accounts.signer.pubkey,
    {
        IncreasePlayerLevelKeys { player_account: accounts.player_account.pubkey, signer: accounts.signer.pubkey }
    }

    /// The keys listed in declared order.
    pub fn from_pubkeys(pubkeys: [Pubkey; 2]) -> (r: Self)
        ensures
            r.player_account == pubkeys@[0],
            r.signer == pubkeys@[1],
    {
        IncreasePlayerLevelKeys { player_account: pubkeys[0], signer: pubkeys[1] }
    }

    /// The account list of a IncreasePlayerLevel instruction.
    pub fn to_metas(&self) -> (r: Vec<AccountMeta>)
        ensures
            r@ == self.metas(),
    {
        let mut r = Vec::new();
        r.push(AccountMeta { pubkey: self.player_account, is_signer: false, is_writable: true });
        r.push(AccountMeta { pubkey: self.signer, is_signer: true, is_writable: true });
        assert(r@ =~= self.metas());
        r
    }
}

/// Checks the passed accounts' keys against the expected ones, in declared
/// order; the first mismatch comes back as (actual, expected).
pub fn increase_player_level_verify_account_keys(accounts: &IncreasePlayerLevelAccounts, keys: &IncreasePlayerLevelKeys) -> (r: Result<
    (),
    (Pubkey, Pubkey),
>)
    ensures
        r == key_check(accounts.player_account.pubkey, keys.player_account, key_check(accounts.signer.pubkey, keys.signer, Ok(()))),
{
    check_key(&accounts.player_account.pubkey, &keys.player_account)?;
    check_key(&accounts.signer.pubkey, &keys.signer)?;
    Ok(())
}

/// Checks that each account IncreasePlayerLevel writes was passed as writable.
pub fn increase_player_level_verify_writable_privileges(accounts: &IncreasePlayerLevelAccounts) -> (r: Result<
    (),
    (AccountMeta, AccountError),
>)
    ensures
        r == writable_check(accounts.player_account, writable_check(accounts.signer, Ok(()))),
{
    check_writable(&accounts.player_account)?;
    check_writable(&accounts.signer)?;
    Ok(())
}

/// Checks that each account that must sign IncreasePlayerLevel did.
pub fn increase_player_level_verify_signer_privileges(accounts: &IncreasePlayerLevelAccounts) -> (r: Result<
    (),
    (AccountMeta, AccountError),
>)
    ensures
        r == signer_check(accounts.signer, Ok(())),
{
    check_signer(&accounts.signer)?;
    Ok(())
}

/// Both privilege checks of IncreasePlayerLevel, writability first.
pub fn increase_player_level_verify_account_privileges(accounts: &IncreasePlayerLevelAccounts) -> (r: Result<
    (),
    (AccountMeta, AccountError),
>)
    ensures
        r == privileges_check(writable_check(accounts.player_account, writable_check(accounts.signer, Ok(()))), signer_check(accounts.signer, Ok(()))),
{
    increase_player_level_verify_writable_privileges(accounts)?;
    increase_player_level_verify_signer_privileges(accounts)?;
    Ok(())
}

/// A IncreasePlayerLevel instruction for the program `program_id`.
pub fn increase_player_level_ix_with_program_id(program_id: Pubkey, keys: IncreasePlayerLevelKeys) -> (r: Result<
    Instruction,
    CodecError,
>)
    ensures
        r matches Ok(ix) && ix.program_id == program_id && ix.accounts@ == keys.metas() && ix.data@
            == IncreasePlayerLevelIxData.encoding(),
{
    let metas = keys.to_metas();
    let data = IncreasePlayerLevelIxData.try_to_vec()?;
    Ok(Instruction { program_id, accounts: metas, data })
}

/// A IncreasePlayerLevel instruction for this program.
pub fn increase_player_level_ix(keys: IncreasePlayerLevelKeys) -> (r: Result<Instruction, CodecError>)
    ensures
        r matches Ok(ix) && ix.program_id@ == program_id_bytes() && ix.accounts@ == keys.metas()
            && ix.data@ == IncreasePlayerLevelIxData.encoding(),
{
    increase_player_level_ix_with_program_id(program_id(), keys)
}

pub const EQUIP_PREMIUM_ITEM_IX_ACCOUNTS_LEN: usize = 2;

/// The accounts passed to EquipPremiumItem, in declared order.
#[derive(Clone, Copy, Debug)]
pub struct EquipPremiumItemAccounts {
    pub player_account: AccountMeta,
    pub admin: AccountMeta,
}

/// The keys EquipPremiumItem expects, in declared order.
#[derive(Clone, Copy, Debug, PartialEq, Eq)]
pub struct EquipPremiumItemKeys {
    pub player_account: Pubkey,
    pub admin: Pubkey,
}

impl EquipPremiumItemAccounts {
    /// The first 2 accounts of `accounts`, in declared order; `None` when
    /// there are fewer.
    pub fn from_slice(accounts: &[AccountMeta]) -> (r: Option<Self>)
        ensures
            accounts@.len() < 2 ==> r is None,
            accounts@.len() >= 2 ==> (r matches Some(a) && a.player_account == accounts@[0] && a.admin == accounts@[1]),
    {
        if accounts.len() < 2 {
            return None;
        }
        Some(EquipPremiumItemAccounts { player_account: accounts[0], admin: accounts[1] })
    }
}

impl EquipPremiumItemKeys {
    /// The account list of a EquipPremiumItem instruction, with the declared flags.
    pub open spec fn metas(self) -> Seq<AccountMeta> {
        seq![
            AccountMeta { pubkey: self.player_account, is_signer: false, is_writable: true },
            AccountMeta { pubkey: self.admin, is_signer: true, is_writable: false },
        ]
    }

    /// The keys of the accounts passed.
    pub fn from_accounts(accounts: &EquipPremiumItemAccounts) -> (r: Self)
        ensures
            r.player_account == accounts.player_account.pubkey,
            r.admin == accounts.admin.pubkey,
    {
        EquipPremiumItemKeys { player_account: accounts.player_account.pubkey, admin: accounts.admin.pubkey }
    }

    /// The keys listed in declared order.
    pub fn from_pubkeys(pubkeys: [Pubkey; 2]) -> (r: Self)
        ensures
            r.player_account == pubkeys@[0],
            r.admin == pubkeys@[1],
    {
        EquipPremiumItemKeys { player_account: pubkeys[0], admin: pubkeys[1] }
    }

    /// The account list of a EquipPremiumItem instruction.
    pub fn to_metas(&self) -> (r: Vec<AccountMeta>)
        ensures
            r@ == self.metas(),
    {
        let mut r = Vec::new();
        r.push(AccountMeta { pubkey: self.player_account, is_signer: false, is_writable: true });
        r.push(AccountMeta { pubkey: self.admin, is_signer: true, is_writable: false });
        assert(r@ =~= self.metas());
        r
    }
}

/// Checks the passed accounts' keys against the expected ones, in declared
/// order; the first mismatch comes back as (actual, expected).
pub fn equip_premium_item_verify_account_keys(accounts: &EquipPremiumItemAccounts, keys: &EquipPremiumItemKeys) -> (r: Result<
    (),
    (Pubkey, Pubkey),
>)
    ensures
        r == key_check(accounts.player_account.pubkey, keys.player_account, key_check(accounts.admin.pubkey, keys.admin, Ok(()))),
{
    check_key(&accounts.player_account.pubkey, &keys.player_account)?;
    check_key(&accounts.admin.pubkey, &keys.admin)?;
    Ok(())
}

/// Checks that each account EquipPremiumItem writes was passed as writable.
pub fn equip_premium_item_verify_writable_privileges(accounts: &EquipPremiumItemAccounts) -> (r: Result<
    (),
    (AccountMeta, AccountError),
>)
    ensures
        r == writable_check(accounts.player_account, Ok(())),
{
    check_writable(&accounts.player_account)?;
    Ok(())
}

/// Checks that each account that must sign EquipPremiumItem did.
pub fn equip_premium_item_verify_signer_privileges(accounts: &EquipPremiumItemAccounts) -> (r: Result<
    (),
    (AccountMeta, AccountError),
>)
    ensures
        r == signer_check(accounts.admin, Ok(())),
{
    check_signer(&accounts.admin)?;
    Ok(())
}

/// Both privilege checks of EquipPremiumItem, writability first.
pub fn equip_premium_item_verify_account_privileges(accounts: &EquipPremiumItemAccounts) -> (r: Result<
    (),
    (AccountMeta, AccountError),
>)
    ensures
        r == privileges_check(writable_check(accounts.player_account, Ok(())), signer_check(accounts.admin, Ok(()))),
{
    equip_premium_item_verify_writable_privileges(accounts)?;
    equip_premium_item_verify_signer_privileges(accounts)?;
    Ok(())
}

/// A EquipPremiumItem instruction for the program `program_id`.
pub fn equip_premium_item_ix_with_program_id(program_id: Pubkey, keys: EquipPremiumItemKeys, args: EquipPremiumItemIxArgs) -> (r: Result<
    Instruction,
    CodecError,
>)
    ensures
        r matches Ok(ix) && ix.program_id == program_id && ix.accounts@ == keys.metas() && ix.data@
            == EquipPremiumItemIxData(args).encoding(),
{
    let metas = keys.to_metas();
    let data = EquipPremiumItemIxData(args).try_to_vec()?;
    Ok(Instruction { program_id, accounts: metas, data })
}

/// A EquipPremiumItem instruction for this program.
pub fn equip_premium_item_ix(keys: EquipPremiumItemKeys, args: EquipPremiumItemIxArgs) -> (r: Result<Instruction, CodecError>)
    ensures
        r matches Ok(ix) && ix.program_id@ == program_id_bytes() && ix.accounts@ == keys.metas()
            && ix.data@ == EquipPremiumItemIxData(args).encoding(),
{
    equip_premium_item_ix_with_program_id(program_id(), keys, args)
}

} // verus!
