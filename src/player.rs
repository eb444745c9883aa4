//! The persisted player record and its binary layout.
//!
//! Layout, little-endian, no padding: the 8-byte discriminator, the 32-byte
//! owner key, `level` (1 byte), `xp` (8 bytes, signed), `chests` (2 bytes),
//! `active_class` (1 byte), `active_weapon` (1 byte), `joined` (8 bytes,
//! signed): 61 bytes. The account that stores it holds [`Player::LEN`] bytes;
//! what follows the record is ignored when reading.
use vstd::prelude::*;
use crate::codec::{
    check_frame, frame_error, i64_le, lemma_i64_from_le, lemma_i64_le, lemma_u16_from_le, lemma_u16_le,
    read_i64, read_pubkey, read_u16, u16_le, write_bytes, write_i64, write_u16, DISCM_LEN,
};
use crate::errors::CodecError;
use crate::pubkey::Pubkey;

verus! {

/// The type tag of a stored player record.
pub const PLAYER_ACCOUNT_DISCM: [u8; 8] = [205, 222, 112, 7, 165, 155, 206, 218];

/// Number of bytes that an encoded record occupies, discriminator included.
pub const PLAYER_ENCODED_LEN: usize = 61;

/// The three class and weapon identifiers that any player may choose.
pub open spec fn is_default_class(id: u8) -> bool {
    id == 101 || id == 102 || id == 103
}

/// Whether `id` is one of the default identifiers 101, 102 and 103.
pub fn is_default_id(id: u8) -> (r: bool)
    ensures
        r == is_default_class(id),
{
    id == 101 || id == 102 || id == 103
}

/// One player's progression.
#[derive(Clone, Copy, Debug, PartialEq, Eq)]
pub struct Player {
    /// The owning identity; set at creation and never changed.
    pub player_id: Pubkey,
    /// Starts at 1; never raised past [`Player::LEVEL_CAP`].
    pub level: u8,
    pub xp: i64,
    /// Reward chests won on level-ups.
    pub chests: u16,
    pub active_class: u8,
    pub active_weapon: u8,
    /// Creation time, in seconds of the host clock.
    pub joined: i64,
}

impl Player {
    /// Bytes allocated for a record's account.
    pub const LEN: usize = 64;

    /// The highest level a player can reach.
    pub const LEVEL_CAP: u8 = 100;

    /// A record that the operations can produce: its level lies between 1
    /// and the cap.
    pub open spec fn wf(self) -> bool {
        1 <= self.level <= Self::LEVEL_CAP
    }

    /// The record's bytes after the discriminator.
    pub open spec fn field_bytes(self) -> Seq<u8> {
        self.player_id@ + seq![self.level] + i64_le(self.xp) + u16_le(self.chests) + seq![
            self.active_class,
            self.active_weapon,
        ] + i64_le(self.joined)
    }

    /// The record's full encoding.
    pub open spec fn encoding(self) -> Seq<u8> {
        PLAYER_ACCOUNT_DISCM@ + self.field_bytes()
    }
}

/// Why `s` does not start with an encoded record, if it does not.
pub open spec fn player_error(s: Seq<u8>) -> Option<CodecError> {
    frame_error(s, PLAYER_ACCOUNT_DISCM@, PLAYER_ENCODED_LEN as nat)
}

pub proof fn lemma_encoding_len(p: Player)
    ensures
        p.field_bytes().len() == PLAYER_ENCODED_LEN - DISCM_LEN,
        p.encoding().len() == PLAYER_ENCODED_LEN,
        p.encoding().subrange(0, DISCM_LEN as int) == PLAYER_ACCOUNT_DISCM@,
{
    lemma_i64_le(p.xp);
    lemma_i64_le(p.joined);
    lemma_u16_le(p.chests);
    assert(p.encoding().subrange(0, DISCM_LEN as int) =~= PLAYER_ACCOUNT_DISCM@);
}

/// A record is determined by its encoding.
pub proof fn lemma_encoding_injective(p: Player, q: Player)
    requires
        p.encoding() == q.encoding(),
    ensures
        p == q,
{
    lemma_encoding_len(p);
    lemma_encoding_len(q);
    lemma_i64_le(p.xp);
    lemma_i64_le(p.joined);
    lemma_u16_le(p.chests);
    lemma_i64_le(q.xp);
    lemma_i64_le(q.joined);
    lemma_u16_le(q.chests);
    let e = p.encoding();
    assert(p.player_id@ =~= e.subrange(8, 40));
    assert(q.player_id@ =~= e.subrange(8, 40));
    assert(p.player_id.0 =~= q.player_id.0);
    assert(i64_le(p.xp) =~= e.subrange(41, 49));
    assert(i64_le(q.xp) =~= e.subrange(41, 49));
    assert(u16_le(p.chests) =~= e.subrange(49, 51));
    assert(u16_le(q.chests) =~= e.subrange(49, 51));
    assert(i64_le(p.joined) =~= e.subrange(53, 61));
    assert(i64_le(q.joined) =~= e.subrange(53, 61));
    assert(e[40] == p.level && e[40] == q.level);
    assert(e[51] == p.active_class && e[51] == q.active_class);
    assert(e[52] == p.active_weapon && e[52] == q.active_weapon);
}

/// The record at the start of `s`, where `player_error(s)` is `None`.
pub open spec fn decode_player(s: Seq<u8>) -> Player {
    choose|p: Player| p.encoding() == s.subrange(0, PLAYER_ENCODED_LEN as int)
}

pub proof fn lemma_decode_player(s: Seq<u8>, p: Player)
    requires
        p.encoding() == s.subrange(0, PLAYER_ENCODED_LEN as int),
    ensures
        decode_player(s) == p,
{
    let q = decode_player(s);
    assert(q.encoding() == s.subrange(0, PLAYER_ENCODED_LEN as int));
    lemma_encoding_injective(p, q);
}

/// A stored player record: the [`Player`] behind its discriminator.
#[derive(Clone, Copy, Debug, PartialEq, Eq)]
pub struct PlayerAccount(pub Player);

impl PlayerAccount {
    /// Reads a record from the start of `buf`; bytes after it are ignored.
    pub fn deserialize(buf: &[u8]) -> (r: Result<PlayerAccount, CodecError>)
        ensures
            match player_error(buf@) {
                Some(e) => r == Err::<PlayerAccount, CodecError>(e),
                None => r matches Ok(a) && a.0.encoding() == buf@.subrange(
                    0,
                    PLAYER_ENCODED_LEN as int,
                ),
            },
    {
        check_frame(buf, &PLAYER_ACCOUNT_DISCM, PLAYER_ENCODED_LEN)?;
        let player_id = read_pubkey(buf, 8);
        let level = buf[40];
        let xp = read_i64(buf, 41);
        let chests = read_u16(buf, 49);
        let active_class = buf[51];
        let active_weapon = buf[52];
        let joined = read_i64(buf, 53);
        let p = Player { player_id, level, xp, chests, active_class, active_weapon, joined };
        proof {
            lemma_i64_from_le(buf@.subrange(41, 49));
            lemma_i64_from_le(buf@.subrange(53, 61));
            lemma_u16_from_le(buf@.subrange(49, 51));
            assert(p.encoding() =~= buf@.subrange(0, PLAYER_ENCODED_LEN as int));
        }
        Ok(PlayerAccount(p))
    }

    /// Appends the record's encoding to `out`.
    pub fn serialize(&self, out: &mut Vec<u8>) -> (r: Result<(), CodecError>)
        ensures
            r is Ok,
            final(out)@ == old(out)@ + self.0.encoding(),
    {
        let p = &self.0;
        write_bytes(out, PLAYER_ACCOUNT_DISCM.as_slice());
        write_bytes(out, p.player_id.0.as_slice());
        out.push(p.level);
        write_i64(out, p.xp);
        write_u16(out, p.chests);
        out.push(p.active_class);
        out.push(p.active_weapon);
        write_i64(out, p.joined);
        assert(final(out)@ =~= old(out)@ + self.0.encoding());
        Ok(())
    }

    /// The record's encoding.
    pub fn try_to_vec(&self) -> (r: Result<Vec<u8>, CodecError>)
        ensures
            r matches Ok(v) && v@ == self.0.encoding(),
    {
        let mut data = Vec::new();
        self.serialize(&mut data)?;
        assert(data@ =~= self.0.encoding());
        Ok(data)
    }
}

} // verus!
