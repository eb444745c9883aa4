//! Game-progression records of a small on-chain program: the binary codec of
//! the player record and of the instructions, the rules that govern each
//! state transition, the account checks, and the instruction router.
//!
//! The record layout is the one with a `level` byte (see [`player`]). The
//! authority allowed to adjust XP and equip premium items is passed to the
//! operations; [`pubkey::server_authority`] gives the deployed one.
pub mod accounts;
pub mod codec;
pub mod errors;
pub mod instructions;
pub mod laws;
pub mod player;
pub mod processor;
pub mod pubkey;
pub mod router;
