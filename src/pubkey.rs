//! Public identities: 32-byte keys, the program's own id, and key derivation.
use vstd::prelude::*;

verus! {

/// A 32-byte public identity.
#[derive(Clone, Copy, Debug, Eq)]
pub struct Pubkey(pub [u8; 32]);

impl View for Pubkey {
    type V = Seq<u8>;

    open spec fn view(&self) -> Seq<u8> {
        self.0@
    }
}

impl PartialEq for Pubkey {
    fn eq(&self, other: &Pubkey) -> (r: bool) {
        let mut i: usize = 0;
        while i < 32
            invariant
                i <= 32,
                forall|j: int| 0 <= j < i ==> self.0@[j] == other.0@[j],
            decreases 32 - i,
        {
            if self.0[i] != other.0[i] {
                return false;
            }
            i += 1;
        }
        assert(self.0@ =~= other.0@);
        true
    }
}

impl vstd::std_specs::cmp::PartialEqSpecImpl for Pubkey {
    open spec fn obeys_eq_spec() -> bool {
        true
    }

    open spec fn eq_spec(&self, other: &Pubkey) -> bool {
        self@ == other@
    }
}

impl Pubkey {
    pub fn new_from_array(bytes: [u8; 32]) -> (r: Pubkey)
        ensures
            r@ == bytes@,
    {
        Pubkey(bytes)
    }

    pub fn to_bytes(&self) -> (r: [u8; 32])
        ensures
            r@ == self@,
    {
        self.0
    }

    /// Parses a key written in base58, as wallets and explorers show it.
    pub fn from_base58(s: &str) -> (r: Option<Pubkey>)
        ensures
            match r {
                Some(k) => base58_key(s@) == Some(k@),
                None => base58_key(s@) is None,
            },
    {
        parse_base58_key(s)
    }
}

/// The key whose 32 bytes are all zero: the host's system program.
pub fn system_program_id() -> (r: Pubkey)
    ensures
        r@ == Seq::new(32, |i: int| 0u8),
{
    let r = Pubkey([0u8; 32]);
    assert(r@ =~= Seq::new(32, |i: int| 0u8));
    r
}

/// The bytes of this program's id, `HWjAY4TNEiAQquRKmwRXMabXf1PMGp36QyQgA162XdNr`.
pub open spec fn program_id_bytes() -> Seq<u8> {
    seq![
        245, 88, 130, 125, 169, 6, 108, 142, 238, 80, 236, 60, 121, 85, 155, 101,
        96, 215, 145, 35, 163, 132, 69, 195, 128, 114, 176, 215, 252, 145, 171, 99,
    ]
}

/// This program's id.
pub fn program_id() -> (r: Pubkey)
    ensures
        r@ == program_id_bytes(),
{
    let r = Pubkey([
        245, 88, 130, 125, 169, 6, 108, 142, 238, 80, 236, 60, 121, 85, 155, 101,
        96, 215, 145, 35, 163, 132, 69, 195, 128, 114, 176, 215, 252, 145, 171, 99,
    ]);
    assert(r@ =~= program_id_bytes());
    r
}

/// The base58 text of the key that the deployed program trusts to adjust XP
/// and grant premium items.
pub const SERVER_PUBLIC_KEY: &'static str = "zaigDCJxJdzSh6ETPosxWfVrzemjLnMJxxqhZCfdEqU";

/// The deployed authority, parsed from [`SERVER_PUBLIC_KEY`].
pub fn server_authority() -> (r: Option<Pubkey>)
    ensures
        match r {
            Some(k) => base58_key(SERVER_PUBLIC_KEY@) == Some(k@),
            None => base58_key(SERVER_PUBLIC_KEY@) is None,
        },
{
    Pubkey::from_base58(SERVER_PUBLIC_KEY)
}

/// The 32 bytes that base58 text denotes, or `None` where it denotes no key.
pub uninterp spec fn base58_key(s: Seq<char>) -> Option<Seq<u8>>;

/// Relies on `solana_program::pubkey::Pubkey::from_str`: it decodes base58
/// text and accepts it only where the result is 32 bytes; the result depends
/// on the text alone.
#[verifier::external_body]
fn parse_base58_key(s: &str) -> (r: Option<Pubkey>)
    ensures
        match r {
            Some(k) => base58_key(s@) == Some(k@),
            None => base58_key(s@) is None,
        },
{
    <solana_program::pubkey::Pubkey as std::str::FromStr>::from_str(s).ok().map(|k| Pubkey(k.to_bytes()))
}

/// The program-derived address, with its bump seed, of a list of seeds under a
/// program id; `None` where no bump seed yields one.
pub uninterp spec fn program_address(seeds: Seq<Seq<u8>>, program_id: Seq<u8>) -> Option<(Seq<u8>, u8)>;

/// Relies on `solana_program::pubkey::Pubkey::try_find_program_address` with
/// two seeds: it searches the bump seeds from 255 down for a SHA-256 digest of
/// the seeds, the bump, the program id and a marker that is off the ed25519
/// curve. It does not panic, and the result depends on its arguments alone.
#[verifier::external_body]
fn try_find_program_address(first: &[u8], second: &[u8], program_id: &Pubkey) -> (r: Option<(Pubkey, u8)>)
    ensures
        match r {
            Some((k, bump)) => program_address(seq![first@, second@], program_id@) == Some((k@, bump)),
            None => program_address(seq![first@, second@], program_id@) is None,
        },
{
    let id = solana_program::pubkey::Pubkey::new_from_array(program_id.0);
    solana_program::pubkey::Pubkey::try_find_program_address(&[first, second], &id)
        .map(|(k, bump)| (Pubkey(k.to_bytes()), bump))
}

/// The seed that prefixes the owner's key in a record's address.
pub open spec fn player_seed() -> Seq<u8> {
    seq![112u8, 108, 97, 121, 101, 114]
}

/// Where the record of `owner` lives under `program_id`: derived from the tag
/// `player` and the owner's key.
pub fn find_player_address(owner: &Pubkey, program_id: &Pubkey) -> (r: Option<(Pubkey, u8)>)
    ensures
        match r {
            Some((k, bump)) => program_address(seq![player_seed(), owner@], program_id@) == Some((k@, bump)),
            None => program_address(seq![player_seed(), owner@], program_id@) is None,
        },
{
    let seed: [u8; 6] = [112, 108, 97, 121, 101, 114];
    assert(seed@ =~= player_seed());
    try_find_program_address(seed.as_slice(), owner.0.as_slice(), program_id)
}

} // verus!
