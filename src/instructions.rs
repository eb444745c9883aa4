//! Instruction payloads: each starts with the 8-byte discriminator of its
//! instruction, followed by that instruction's fixed-width arguments.
use vstd::prelude::*;
use crate::codec::{
    check_frame, frame_error, i64_le, lemma_i64_from_le, lemma_i64_le, read_i64, starts_with,
    write_bytes, write_i64, DISCM_LEN,
};
use crate::errors::CodecError;

verus! {

pub const CREATE_PLAYER_IX_DISCM: [u8; 8] = [19, 178, 189, 216, 159, 134, 0, 192];

pub const CHANGE_DEFAULT_CLASS_IX_DISCM: [u8; 8] = [172, 236, 215, 173, 37, 79, 103, 124];

pub const MODIFY_PLAYER_XP_IX_DISCM: [u8; 8] = [39, 15, 12, 126, 234, 101, 181, 20];

pub const INCREASE_PLAYER_LEVEL_IX_DISCM: [u8; 8] = [218, 239, 175, 171, 178, 245, 58, 224];

pub const EQUIP_PREMIUM_ITEM_IX_DISCM: [u8; 8] = [11, 231, 6, 89, 240, 228, 242, 85];

/// No two instructions share a discriminator.
pub proof fn lemma_discms_distinct()
    ensures
        CREATE_PLAYER_IX_DISCM@ != CHANGE_DEFAULT_CLASS_IX_DISCM@,
        CREATE_PLAYER_IX_DISCM@ != MODIFY_PLAYER_XP_IX_DISCM@,
        CREATE_PLAYER_IX_DISCM@ != INCREASE_PLAYER_LEVEL_IX_DISCM@,
        CREATE_PLAYER_IX_DISCM@ != EQUIP_PREMIUM_ITEM_IX_DISCM@,
        CHANGE_DEFAULT_CLASS_IX_DISCM@ != MODIFY_PLAYER_XP_IX_DISCM@,
        CHANGE_DEFAULT_CLASS_IX_DISCM@ != INCREASE_PLAYER_LEVEL_IX_DISCM@,
        CHANGE_DEFAULT_CLASS_IX_DISCM@ != EQUIP_PREMIUM_ITEM_IX_DISCM@,
        MODIFY_PLAYER_XP_IX_DISCM@ != INCREASE_PLAYER_LEVEL_IX_DISCM@,
        MODIFY_PLAYER_XP_IX_DISCM@ != EQUIP_PREMIUM_ITEM_IX_DISCM@,
        INCREASE_PLAYER_LEVEL_IX_DISCM@ != EQUIP_PREMIUM_ITEM_IX_DISCM@,
{
    assert(CREATE_PLAYER_IX_DISCM@[0] == 19);
    assert(CHANGE_DEFAULT_CLASS_IX_DISCM@[0] == 172);
    assert(MODIFY_PLAYER_XP_IX_DISCM@[0] == 39);
    assert(INCREASE_PLAYER_LEVEL_IX_DISCM@[0] == 218);
    assert(EQUIP_PREMIUM_ITEM_IX_DISCM@[0] == 11);
}

/// Which slot a premium item occupies. Encoded as one tag byte: 0 for a
/// class, 1 for a weapon.
#[derive(Clone, Copy, Debug, PartialEq, Eq, Structural)]
pub enum PremiumItemType {
    Class,
    Weapon,
}

impl PremiumItemType {
    pub open spec fn tag(self) -> u8 {
        match self {
            PremiumItemType::Class => 0,
            PremiumItemType::Weapon => 1,
        }
    }
}

#[derive(Clone, Copy, Debug, PartialEq, Eq, Structural)]
pub struct CreatePlayerIxArgs {
    pub active_class: u8,
    pub active_weapon: u8,
}

impl CreatePlayerIxArgs {
    pub open spec fn bytes(self) -> Seq<u8> {
        seq![self.active_class, self.active_weapon]
    }
}

#[derive(Clone, Copy, Debug, PartialEq, Eq, Structural)]
pub struct ChangeDefaultClassIxArgs {
    pub new_class: u8,
}

impl ChangeDefaultClassIxArgs {
    pub open spec fn bytes(self) -> Seq<u8> {
        seq![self.new_class]
    }
}

#[derive(Clone, Copy, Debug, PartialEq, Eq, Structural)]
pub struct ModifyPlayerXpIxArgs {
    pub xp_change: i64,
}

impl ModifyPlayerXpIxArgs {
    pub open spec fn bytes(self) -> Seq<u8> {
        i64_le(self.xp_change)
    }
}

#[derive(Clone, Copy, Debug, PartialEq, Eq, Structural)]
pub struct EquipPremiumItemIxArgs {
    pub item_type: PremiumItemType,
    pub item_id: u8,
}

impl EquipPremiumItemIxArgs {
    pub open spec fn bytes(self) -> Seq<u8> {
        seq![self.item_type.tag(), self.item_id]
    }
}

/// Total encoded lengths, discriminator included.
pub const CREATE_PLAYER_IX_LEN: usize = 10;

pub const CHANGE_DEFAULT_CLASS_IX_LEN: usize = 9;

pub const MODIFY_PLAYER_XP_IX_LEN: usize = 16;

pub const INCREASE_PLAYER_LEVEL_IX_LEN: usize = 8;

pub const EQUIP_PREMIUM_ITEM_IX_LEN: usize = 10;

/// Why `s` does not start with an encoded EquipPremiumItem instruction.
pub open spec fn equip_premium_item_error(s: Seq<u8>) -> Option<CodecError> {
    match frame_error(s, EQUIP_PREMIUM_ITEM_IX_DISCM@, EQUIP_PREMIUM_ITEM_IX_LEN as nat) {
        Some(e) => Some(e),
        None => if s[8] > 1 {
            Some(CodecError::InvalidVariant)
        } else {
            None
        },
    }
}

/// The CreatePlayer instruction's payload.
#[derive(Clone, Copy, Debug, PartialEq, Eq, Structural)]
pub struct CreatePlayerIxData(pub CreatePlayerIxArgs);

impl From<CreatePlayerIxArgs> for CreatePlayerIxData {
    fn from(args: CreatePlayerIxArgs) -> (r: Self) {
        CreatePlayerIxData(args)
    }
}

impl vstd::std_specs::convert::FromSpecImpl<CreatePlayerIxArgs> for CreatePlayerIxData {
    open spec fn obeys_from_spec() -> bool {
        true
    }

    open spec fn from_spec(args: CreatePlayerIxArgs) -> Self {
        CreatePlayerIxData(args)
    }
}

impl CreatePlayerIxData {
    pub open spec fn encoding(self) -> Seq<u8> {
        CREATE_PLAYER_IX_DISCM@ + self.0.bytes()
    }

    pub fn deserialize(buf: &[u8]) -> (r: Result<Self, CodecError>)
        ensures
            match frame_error(buf@, CREATE_PLAYER_IX_DISCM@, CREATE_PLAYER_IX_LEN as nat) {
                Some(e) => r == Err::<Self, CodecError>(e),
                None => r matches Ok(d) && d.encoding() == buf@.subrange(
                    0,
                    CREATE_PLAYER_IX_LEN as int,
                ),
            },
    {
        check_frame(buf, &CREATE_PLAYER_IX_DISCM, CREATE_PLAYER_IX_LEN)?;
        let d = CreatePlayerIxData(CreatePlayerIxArgs { active_class: buf[8], active_weapon: buf[9] });
        assert(d.encoding() =~= buf@.subrange(0, CREATE_PLAYER_IX_LEN as int));
        Ok(d)
    }

    pub fn serialize(&self, out: &mut Vec<u8>) -> (r: Result<(), CodecError>)
        ensures
            r is Ok,
            final(out)@ == old(out)@ + self.encoding(),
    {
        write_bytes(out, CREATE_PLAYER_IX_DISCM.as_slice());
        out.push(self.0.active_class);
        out.push(self.0.active_weapon);
        assert(final(out)@ =~= old(out)@ + self.encoding());
        Ok(())
    }

    pub fn try_to_vec(&self) -> (r: Result<Vec<u8>, CodecError>)
        ensures
            r matches Ok(v) && v@ == self.encoding(),
    {
        let mut data = Vec::new();
        self.serialize(&mut data)?;
        assert(data@ =~= self.encoding());
        Ok(data)
    }
}

/// The ChangeDefaultClass instruction's payload.
#[derive(Clone, Copy, Debug, PartialEq, Eq, Structural)]
pub struct ChangeDefaultClassIxData(pub ChangeDefaultClassIxArgs);

impl From<ChangeDefaultClassIxArgs> for ChangeDefaultClassIxData {
    fn from(args: ChangeDefaultClassIxArgs) -> (r: Self) {
        ChangeDefaultClassIxData(args)
    }
}

impl vstd::std_specs::convert::FromSpecImpl<ChangeDefaultClassIxArgs> for ChangeDefaultClassIxData {
    open spec fn obeys_from_spec() -> bool {
        true
    }

    open spec fn from_spec(args: ChangeDefaultClassIxArgs) -> Self {
        ChangeDefaultClassIxData(args)
    }
}

impl ChangeDefaultClassIxData {
    pub open spec fn encoding(self) -> Seq<u8> {
        CHANGE_DEFAULT_CLASS_IX_DISCM@ + self.0.bytes()
    }

    pub fn deserialize(buf: &[u8]) -> (r: Result<Self, CodecError>)
        ensures
            match frame_error(buf@, CHANGE_DEFAULT_CLASS_IX_DISCM@, CHANGE_DEFAULT_CLASS_IX_LEN as nat) {
                Some(e) => r == Err::<Self, CodecError>(e),
                None => r matches Ok(d) && d.encoding() == buf@.subrange(
                    0,
                    CHANGE_DEFAULT_CLASS_IX_LEN as int,
                ),
            },
    {
        check_frame(buf, &CHANGE_DEFAULT_CLASS_IX_DISCM, CHANGE_DEFAULT_CLASS_IX_LEN)?;
        let d = ChangeDefaultClassIxData(ChangeDefaultClassIxArgs { new_class: buf[8] });
        assert(d.encoding() =~= buf@.subrange(0, CHANGE_DEFAULT_CLASS_IX_LEN as int));
        Ok(d)
    }

    pub fn serialize(&self, out: &mut Vec<u8>) -> (r: Result<(), CodecError>)
        ensures
            r is Ok,
            final(out)@ == old(out)@ + self.encoding(),
    {
        write_bytes(out, CHANGE_DEFAULT_CLASS_IX_DISCM.as_slice());
        out.push(self.0.new_class);
        assert(final(out)@ =~= old(out)@ + self.encoding());
        Ok(())
    }

    pub fn try_to_vec(&self) -> (r: Result<Vec<u8>, CodecError>)
        ensures
            r matches Ok(v) && v@ == self.encoding(),
    {
        let mut data = Vec::new();
        self.serialize(&mut data)?;
        assert(data@ =~= self.encoding());
        Ok(data)
    }
}

/// The ModifyPlayerXp instruction's payload.
#[derive(Clone, Copy, Debug, PartialEq, Eq, Structural)]
pub struct ModifyPlayerXpIxData(pub ModifyPlayerXpIxArgs);

impl From<ModifyPlayerXpIxArgs> for ModifyPlayerXpIxData {
    fn from(args: ModifyPlayerXpIxArgs) -> (r: Self) {
        ModifyPlayerXpIxData(args)
    }
}

impl vstd::std_specs::convert::FromSpecImpl<ModifyPlayerXpIxArgs> for ModifyPlayerXpIxData {
    open spec fn obeys_from_spec() -> bool {
        true
    }

    open spec fn from_spec(args: ModifyPlayerXpIxArgs) -> Self {
        ModifyPlayerXpIxData(args)
    }
}

impl ModifyPlayerXpIxData {
    pub open spec fn encoding(self) -> Seq<u8> {
        MODIFY_PLAYER_XP_IX_DISCM@ + self.0.bytes()
    }

    pub fn deserialize(buf: &[u8]) -> (r: Result<Self, CodecError>)
        ensures
            match frame_error(buf@, MODIFY_PLAYER_XP_IX_DISCM@, MODIFY_PLAYER_XP_IX_LEN as nat) {
                Some(e) => r == Err::<Self, CodecError>(e),
                None => r matches Ok(d) && d.encoding() == buf@.subrange(
                    0,
                    MODIFY_PLAYER_XP_IX_LEN as int,
                ),
            },
    {
        check_frame(buf, &MODIFY_PLAYER_XP_IX_DISCM, MODIFY_PLAYER_XP_IX_LEN)?;
        let d = ModifyPlayerXpIxData(ModifyPlayerXpIxArgs { xp_change: read_i64(buf, 8) });
        proof {
            lemma_i64_from_le(buf@.subrange(8, 16));
        }
        assert(d.encoding() =~= buf@.subrange(0, MODIFY_PLAYER_XP_IX_LEN as int));
        Ok(d)
    }

    pub fn serialize(&self, out: &mut Vec<u8>) -> (r: Result<(), CodecError>)
        ensures
            r is Ok,
            final(out)@ == old(out)@ + self.encoding(),
    {
        write_bytes(out, MODIFY_PLAYER_XP_IX_DISCM.as_slice());
        write_i64(out, self.0.xp_change);
        assert(final(out)@ =~= old(out)@ + self.encoding());
        Ok(())
    }

    pub fn try_to_vec(&self) -> (r: Result<Vec<u8>, CodecError>)
        ensures
            r matches Ok(v) && v@ == self.encoding(),
    {
        let mut data = Vec::new();
        self.serialize(&mut data)?;
        assert(data@ =~= self.encoding());
        Ok(data)
    }
}

/// The IncreasePlayerLevel instruction's payload: the discriminator alone.
#[derive(Clone, Copy, Debug, PartialEq, Eq, Structural)]
pub struct IncreasePlayerLevelIxData;

impl IncreasePlayerLevelIxData {
    pub open spec fn encoding(self) -> Seq<u8> {
        INCREASE_PLAYER_LEVEL_IX_DISCM@
    }

    pub fn deserialize(buf: &[u8]) -> (r: Result<Self, CodecError>)
        ensures
            match frame_error(buf@, INCREASE_PLAYER_LEVEL_IX_DISCM@, INCREASE_PLAYER_LEVEL_IX_LEN as nat) {
                Some(e) => r == Err::<Self, CodecError>(e),
                None => r is Ok,
            },
    {
        check_frame(buf, &INCREASE_PLAYER_LEVEL_IX_DISCM, INCREASE_PLAYER_LEVEL_IX_LEN)?;
        Ok(IncreasePlayerLevelIxData)
    }

    pub fn serialize(&self, out: &mut Vec<u8>) -> (r: Result<(), CodecError>)
        ensures
            r is Ok,
            final(out)@ == old(out)@ + self.encoding(),
    {
        write_bytes(out, INCREASE_PLAYER_LEVEL_IX_DISCM.as_slice());
        Ok(())
    }

    pub fn try_to_vec(&self) -> (r: Result<Vec<u8>, CodecError>)
        ensures
            r matches Ok(v) && v@ == self.encoding(),
    {
        let mut data = Vec::new();
        self.serialize(&mut data)?;
        assert(data@ =~= self.encoding());
        Ok(data)
    }
}

/// The EquipPremiumItem instruction's payload.
#[derive(Clone, Copy, Debug, PartialEq, Eq, Structural)]
pub struct EquipPremiumItemIxData(pub EquipPremiumItemIxArgs);

impl From<EquipPremiumItemIxArgs> for EquipPremiumItemIxData {
    fn from(args: EquipPremiumItemIxArgs) -> (r: Self) {
        EquipPremiumItemIxData(args)
    }
}

impl vstd::std_specs::convert::FromSpecImpl<EquipPremiumItemIxArgs> for EquipPremiumItemIxData {
    open spec fn obeys_from_spec() -> bool {
        true
    }

    open spec fn from_spec(args: EquipPremiumItemIxArgs) -> Self {
        EquipPremiumItemIxData(args)
    }
}

impl EquipPremiumItemIxData {
    pub open spec fn encoding(self) -> Seq<u8> {
        EQUIP_PREMIUM_ITEM_IX_DISCM@ + self.0.bytes()
    }

    pub fn deserialize(buf: &[u8]) -> (r: Result<Self, CodecError>)
        ensures
            match equip_premium_item_error(buf@) {
                Some(e) => r == Err::<Self, CodecError>(e),
                None => r matches Ok(d) && d.encoding() == buf@.subrange(
                    0,
                    EQUIP_PREMIUM_ITEM_IX_LEN as int,
                ),
            },
    {
        check_frame(buf, &EQUIP_PREMIUM_ITEM_IX_DISCM, EQUIP_PREMIUM_ITEM_IX_LEN)?;
        let item_type = match buf[8] {
            0 => PremiumItemType::Class,
            1 => PremiumItemType::Weapon,
            _ => {
                return Err(CodecError::InvalidVariant);
            },
        };
        let d = EquipPremiumItemIxData(EquipPremiumItemIxArgs { item_type, item_id: buf[9] });
        assert(d.encoding() =~= buf@.subrange(0, EQUIP_PREMIUM_ITEM_IX_LEN as int));
        Ok(d)
    }

    pub fn serialize(&self, out: &mut Vec<u8>) -> (r: Result<(), CodecError>)
        ensures
            r is Ok,
            final(out)@ == old(out)@ + self.encoding(),
    {
        write_bytes(out, EQUIP_PREMIUM_ITEM_IX_DISCM.as_slice());
        let tag: u8 = match self.0.item_type {
            PremiumItemType::Class => 0,
            PremiumItemType::Weapon => 1,
        };
        out.push(tag);
        out.push(self.0.item_id);
        assert(final(out)@ =~= old(out)@ + self.encoding());
        Ok(())
    }

    pub fn try_to_vec(&self) -> (r: Result<Vec<u8>, CodecError>)
        ensures
            r matches Ok(v) && v@ == self.encoding(),
    {
        let mut data = Vec::new();
        self.serialize(&mut data)?;
        assert(data@ =~= self.encoding());
        Ok(data)
    }
}

/// Any instruction of the program, as decoded from its payload.
#[derive(Clone, Copy, Debug, PartialEq, Eq, Structural)]
pub enum ZaiProgramIx {
    CreatePlayer(CreatePlayerIxArgs),
    ChangeDefaultClass(ChangeDefaultClassIxArgs),
    ModifyPlayerXp(ModifyPlayerXpIxArgs),
    IncreasePlayerLevel,
    EquipPremiumItem(EquipPremiumItemIxArgs),
}

/// Why `s` does not start with an encoded instruction, if it does not.
pub open spec fn ix_error(s: Seq<u8>) -> Option<CodecError> {
    if s.len() < DISCM_LEN {
        Some(CodecError::TruncatedInput)
    } else {
        let d = s.subrange(0, DISCM_LEN as int);
        if d == CREATE_PLAYER_IX_DISCM@ {
            frame_error(s, d, CREATE_PLAYER_IX_LEN as nat)
        } else if d == CHANGE_DEFAULT_CLASS_IX_DISCM@ {
            frame_error(s, d, CHANGE_DEFAULT_CLASS_IX_LEN as nat)
        } else if d == MODIFY_PLAYER_XP_IX_DISCM@ {
            frame_error(s, d, MODIFY_PLAYER_XP_IX_LEN as nat)
        } else if d == INCREASE_PLAYER_LEVEL_IX_DISCM@ {
            None
        } else if d == EQUIP_PREMIUM_ITEM_IX_DISCM@ {
            equip_premium_item_error(s)
        } else {
            Some(CodecError::UnknownInstruction)
        }
    }
}

/// The instruction at the start of `s`, where `ix_error(s)` is `None`.
pub open spec fn decode_ix(s: Seq<u8>) -> ZaiProgramIx {
    choose|ix: ZaiProgramIx|
        ix.encoding().len() <= s.len() && ix.encoding() == s.subrange(0, ix.encoding().len() as int)
}

/// Two instructions whose encodings both start `s` are the same instruction.
pub proof fn lemma_ix_prefix_unique(s: Seq<u8>, ix: ZaiProgramIx, jx: ZaiProgramIx)
    requires
        ix.encoding().len() <= s.len(),
        jx.encoding().len() <= s.len(),
        ix.encoding() == s.subrange(0, ix.encoding().len() as int),
        jx.encoding() == s.subrange(0, jx.encoding().len() as int),
    ensures
        ix == jx,
{
    lemma_discms_distinct();
    lemma_ix_encoding_shape(ix);
    lemma_ix_encoding_shape(jx);
    assert(ix.encoding().subrange(0, 8) =~= s.subrange(0, 8));
    assert(jx.encoding().subrange(0, 8) =~= s.subrange(0, 8));
    match ix {
        ZaiProgramIx::ModifyPlayerXp(a) => {
            if let ZaiProgramIx::ModifyPlayerXp(b) = jx {
                lemma_i64_le(a.xp_change);
                lemma_i64_le(b.xp_change);
                assert(ix.encoding().subrange(8, 16) =~= a.bytes());
                assert(jx.encoding().subrange(8, 16) =~= b.bytes());
                assert(ix.encoding().subrange(8, 16) =~= s.subrange(8, 16));
                assert(jx.encoding().subrange(8, 16) =~= s.subrange(8, 16));
            }
        },
        ZaiProgramIx::CreatePlayer(a) => {
            if let ZaiProgramIx::CreatePlayer(b) = jx {
                assert(ix.encoding()[8] == s[8] && jx.encoding()[8] == s[8]);
                assert(ix.encoding()[9] == s[9] && jx.encoding()[9] == s[9]);
            }
        },
        ZaiProgramIx::ChangeDefaultClass(a) => {
            if let ZaiProgramIx::ChangeDefaultClass(b) = jx {
                assert(ix.encoding()[8] == s[8] && jx.encoding()[8] == s[8]);
            }
        },
        ZaiProgramIx::IncreasePlayerLevel => {},
        ZaiProgramIx::EquipPremiumItem(a) => {
            if let ZaiProgramIx::EquipPremiumItem(b) = jx {
                assert(ix.encoding()[8] == s[8] && jx.encoding()[8] == s[8]);
                assert(ix.encoding()[9] == s[9] && jx.encoding()[9] == s[9]);
            }
        },
    }
}

pub proof fn lemma_ix_encoding_shape(ix: ZaiProgramIx)
    ensures
        ix.encoding().len() >= DISCM_LEN,
        ix.encoding().subrange(0, DISCM_LEN as int) == match ix {
            ZaiProgramIx::CreatePlayer(_) => CREATE_PLAYER_IX_DISCM@,
            ZaiProgramIx::ChangeDefaultClass(_) => CHANGE_DEFAULT_CLASS_IX_DISCM@,
            ZaiProgramIx::ModifyPlayerXp(_) => MODIFY_PLAYER_XP_IX_DISCM@,
            ZaiProgramIx::IncreasePlayerLevel => INCREASE_PLAYER_LEVEL_IX_DISCM@,
            ZaiProgramIx::EquipPremiumItem(_) => EQUIP_PREMIUM_ITEM_IX_DISCM@,
        },
        ix.encoding().len() == match ix {
            ZaiProgramIx::CreatePlayer(_) => CREATE_PLAYER_IX_LEN,
            ZaiProgramIx::ChangeDefaultClass(_) => CHANGE_DEFAULT_CLASS_IX_LEN,
            ZaiProgramIx::ModifyPlayerXp(_) => MODIFY_PLAYER_XP_IX_LEN,
            ZaiProgramIx::IncreasePlayerLevel => INCREASE_PLAYER_LEVEL_IX_LEN,
            ZaiProgramIx::EquipPremiumItem(_) => EQUIP_PREMIUM_ITEM_IX_LEN,
        },
{
    if let ZaiProgramIx::ModifyPlayerXp(a) = ix {
        lemma_i64_le(a.xp_change);
    }
    assert(ix.encoding().subrange(0, DISCM_LEN as int) =~= match ix {
        ZaiProgramIx::CreatePlayer(_) => CREATE_PLAYER_IX_DISCM@,
        ZaiProgramIx::ChangeDefaultClass(_) => CHANGE_DEFAULT_CLASS_IX_DISCM@,
        ZaiProgramIx::ModifyPlayerXp(_) => MODIFY_PLAYER_XP_IX_DISCM@,
        ZaiProgramIx::IncreasePlayerLevel => INCREASE_PLAYER_LEVEL_IX_DISCM@,
        ZaiProgramIx::EquipPremiumItem(_) => EQUIP_PREMIUM_ITEM_IX_DISCM@,
    });
}

pub proof fn lemma_decode_ix(s: Seq<u8>, ix: ZaiProgramIx)
    requires
        ix.encoding().len() <= s.len(),
        ix.encoding() == s.subrange(0, ix.encoding().len() as int),
    ensures
        decode_ix(s) == ix,
{
    let jx = decode_ix(s);
    assert(jx.encoding().len() <= s.len() && jx.encoding() == s.subrange(
        0,
        jx.encoding().len() as int,
    ));
    lemma_ix_prefix_unique(s, ix, jx);
}

impl ZaiProgramIx {
    pub open spec fn encoding(self) -> Seq<u8> {
        match self {
            ZaiProgramIx::CreatePlayer(a) => CreatePlayerIxData(a).encoding(),
            ZaiProgramIx::ChangeDefaultClass(a) => ChangeDefaultClassIxData(a).encoding(),
            ZaiProgramIx::ModifyPlayerXp(a) => ModifyPlayerXpIxData(a).encoding(),
            ZaiProgramIx::IncreasePlayerLevel => IncreasePlayerLevelIxData.encoding(),
            ZaiProgramIx::EquipPremiumItem(a) => EquipPremiumItemIxData(a).encoding(),
        }
    }

    /// Reads the instruction at the start of `buf`, dispatching on its
    /// discriminator; bytes after it are ignored.
    pub fn deserialize(buf: &[u8]) -> (r: Result<Self, CodecError>)
        ensures
            match ix_error(buf@) {
                Some(e) => r == Err::<Self, CodecError>(e),
                None => r matches Ok(ix) && ix.encoding().len() <= buf@.len() && ix.encoding()
                    == buf@.subrange(0, ix.encoding().len() as int),
            },
    {
        if buf.len() < DISCM_LEN {
            return Err(CodecError::TruncatedInput);
        }
        if starts_with(buf, &CREATE_PLAYER_IX_DISCM) {
            let d = CreatePlayerIxData::deserialize(buf)?;
            Ok(ZaiProgramIx::CreatePlayer(d.0))
        } else if starts_with(buf, &CHANGE_DEFAULT_CLASS_IX_DISCM) {
            let d = ChangeDefaultClassIxData::deserialize(buf)?;
            Ok(ZaiProgramIx::ChangeDefaultClass(d.0))
        } else if starts_with(buf, &MODIFY_PLAYER_XP_IX_DISCM) {
            let d = ModifyPlayerXpIxData::deserialize(buf)?;
            proof {
                lemma_i64_le(d.0.xp_change);
            }
            Ok(ZaiProgramIx::ModifyPlayerXp(d.0))
        } else if starts_with(buf, &INCREASE_PLAYER_LEVEL_IX_DISCM) {
            assert(INCREASE_PLAYER_LEVEL_IX_DISCM@ =~= buf@.subrange(0, DISCM_LEN as int));
            Ok(ZaiProgramIx::IncreasePlayerLevel)
        } else if starts_with(buf, &EQUIP_PREMIUM_ITEM_IX_DISCM) {
            let d = EquipPremiumItemIxData::deserialize(buf)?;
            Ok(ZaiProgramIx::EquipPremiumItem(d.0))
        } else {
            Err(CodecError::UnknownInstruction)
        }
    }

    /// Appends the instruction's encoding to `out`.
    pub fn serialize(&self, out: &mut Vec<u8>) -> (r: Result<(), CodecError>)
        ensures
            r is Ok,
            final(out)@ == old(out)@ + self.encoding(),
    {
        match self {
            ZaiProgramIx::CreatePlayer(a) => CreatePlayerIxData(*a).serialize(out),
            ZaiProgramIx::ChangeDefaultClass(a) => ChangeDefaultClassIxData(*a).serialize(out),
            ZaiProgramIx::ModifyPlayerXp(a) => ModifyPlayerXpIxData(*a).serialize(out),
            ZaiProgramIx::IncreasePlayerLevel => IncreasePlayerLevelIxData.serialize(out),
            ZaiProgramIx::EquipPremiumItem(a) => EquipPremiumItemIxData(*a).serialize(out),
        }
    }

    /// The instruction's encoding.
    pub fn try_to_vec(&self) -> (r: Result<Vec<u8>, CodecError>)
        ensures
            r matches Ok(v) && v@ == self.encoding(),
    {
        let mut data = Vec::new();
        self.serialize(&mut data)?;
        assert(data@ =~= self.encoding());
        Ok(data)
    }
}

} // verus!
