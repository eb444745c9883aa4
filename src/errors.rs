//! Error values of the program: domain rule failures, malformed input, and
//! account checks.
use vstd::prelude::*;

verus! {

/// A rule of the game that an operation broke. Each variant has a stable
/// numeric code (see [`ZaiError::code`]) starting at 6000.
#[derive(Clone, Copy, Debug, PartialEq, Eq, Structural)]
pub enum ZaiError {
    InvalidClass,
    WeaponClassMismatch,
    ClassChangeToSameNotAllowed,
    Unauthorized,
    XpOverflow,
    LevelCapReached,
    NotEnoughXp,
    InvalidPremiumClass,
    InvalidPremiumWeapon,
}

/// First custom error code; the variants of [`ZaiError`] follow in order.
pub const ERROR_CODE_OFFSET: u32 = 6000;

impl ZaiError {
    /// Position of the variant in declaration order.
    pub open spec fn index(self) -> u32 {
        match self {
            ZaiError::InvalidClass => 0,
            ZaiError::WeaponClassMismatch => 1,
            ZaiError::ClassChangeToSameNotAllowed => 2,
            ZaiError::Unauthorized => 3,
            ZaiError::XpOverflow => 4,
            ZaiError::LevelCapReached => 5,
            ZaiError::NotEnoughXp => 6,
            ZaiError::InvalidPremiumClass => 7,
            ZaiError::InvalidPremiumWeapon => 8,
        }
    }

    /// The custom error code reported to the host for this error.
    pub fn code(&self) -> (r: u32)
        ensures
            r == ERROR_CODE_OFFSET + self.index(),
    {
        match self {
            ZaiError::InvalidClass => 6000,
            ZaiError::WeaponClassMismatch => 6001,
            ZaiError::ClassChangeToSameNotAllowed => 6002,
            ZaiError::Unauthorized => 6003,
            ZaiError::XpOverflow => 6004,
            ZaiError::LevelCapReached => 6005,
            ZaiError::NotEnoughXp => 6006,
            ZaiError::InvalidPremiumClass => 6007,
            ZaiError::InvalidPremiumWeapon => 6008,
        }
    }

    /// The error whose code is `code`, if there is one.
    pub fn from_code(code: u32) -> (r: Option<ZaiError>)
        ensures
            match r {
                Some(e) => ERROR_CODE_OFFSET + e.index() == code,
                None => code < ERROR_CODE_OFFSET || code > ERROR_CODE_OFFSET + 8,
            },
    {
        match code {
            6000 => Some(ZaiError::InvalidClass),
            6001 => Some(ZaiError::WeaponClassMismatch),
            6002 => Some(ZaiError::ClassChangeToSameNotAllowed),
            6003 => Some(ZaiError::Unauthorized),
            6004 => Some(ZaiError::XpOverflow),
            6005 => Some(ZaiError::LevelCapReached),
            6006 => Some(ZaiError::NotEnoughXp),
            6007 => Some(ZaiError::InvalidPremiumClass),
            6008 => Some(ZaiError::InvalidPremiumWeapon),
            _ => None,
        }
    }

    /// Human-readable description of the error.
    pub fn message(&self) -> &'static str {
        match self {
            ZaiError::InvalidClass => "Invalid class selected. Valid options are 101, 102, or 103.",
            ZaiError::WeaponClassMismatch => "Active weapon must match the active class.",
            ZaiError::ClassChangeToSameNotAllowed => "Changing to the same class is not allowed.",
            ZaiError::Unauthorized => "Unauthorized attempt to modify player account- Server did not sign.",
            ZaiError::XpOverflow => "XP modification resulted in overflow.",
            ZaiError::LevelCapReached => "Player has reached the level cap.",
            ZaiError::NotEnoughXp => "Player does not have enough XP to level up.",
            ZaiError::InvalidPremiumClass => "Attempted to switch to default class.",
            ZaiError::InvalidPremiumWeapon => "Attempted to switch to default weapon.",
        }
    }
}

/// Why a byte buffer could not be read as a record or an instruction.
#[derive(Clone, Copy, Debug, PartialEq, Eq, Structural)]
pub enum CodecError {
    /// The buffer ends before the format does.
    TruncatedInput,
    /// The leading eight bytes are not the discriminator of the requested type.
    DiscriminatorMismatch,
    /// The leading eight bytes name no known instruction.
    UnknownInstruction,
    /// A tag byte names no variant of the enum it encodes.
    InvalidVariant,
}

/// Why the accounts handed to an instruction were refused.
#[derive(Clone, Copy, Debug, PartialEq, Eq, Structural)]
pub enum AccountError {
    /// Fewer accounts than the instruction declares.
    NotEnoughAccountKeys,
    /// An account's key is not the one the instruction expects.
    KeyMismatch,
    /// An account that the instruction writes was not passed as writable.
    NotWritable,
    /// An account that must sign did not.
    MissingSigner,
    /// The record account is not owned by this program.
    WrongOwner,
    /// The record account to create already holds data.
    AlreadyInitialized,
}

/// Any failure of one instruction invocation.
#[derive(Clone, Copy, Debug, PartialEq, Eq, Structural)]
pub enum ProcessError {
    Codec(CodecError),
    Account(AccountError),
    Zai(ZaiError),
}

} // verus!
