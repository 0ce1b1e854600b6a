use vstd::prelude::*;
use crate::error::FormatError;

verus! {

/// The category of a unit, encoded in a record as one byte.
#[derive(Debug, Clone, Copy, PartialEq, Eq)]
pub enum UnitType {
    GraphicEffect,
    Flag,
    Unknown25,
    Moveable,
    Commandable,
    BattleReady,
    Projectile,
    Trainable,
    Building,
    Tree,
}

/// The byte that encodes each category.
pub open spec fn code_of(t: UnitType) -> u8 {
    match t {
        UnitType::GraphicEffect => 10,
        UnitType::Flag => 20,
        UnitType::Unknown25 => 25,
        UnitType::Moveable => 30,
        UnitType::Commandable => 40,
        UnitType::BattleReady => 50,
        UnitType::Projectile => 60,
        UnitType::Trainable => 70,
        UnitType::Building => 80,
        UnitType::Tree => 90,
    }
}

/// The category a byte encodes, or the error for a byte that encodes none.
pub open spec fn category_of(b: u8) -> Result<UnitType, FormatError> {
    if b == 10 {
        Ok(UnitType::GraphicEffect)
    } else if b == 20 {
        Ok(UnitType::Flag)
    } else if b == 25 {
        Ok(UnitType::Unknown25)
    } else if b == 30 {
        Ok(UnitType::Moveable)
    } else if b == 40 {
        Ok(UnitType::Commandable)
    } else if b == 50 {
        Ok(UnitType::BattleReady)
    } else if b == 60 {
        Ok(UnitType::Projectile)
    } else if b == 70 {
        Ok(UnitType::Trainable)
    } else if b == 80 {
        Ok(UnitType::Building)
    } else if b == 90 {
        Ok(UnitType::Tree)
    } else {
        Err(FormatError::InvalidCategoryTag(b))
    }
}

/// Whether some category is encoded as `b`.
pub open spec fn is_category_code(b: u8) -> bool {
    category_of(b) is Ok
}

pub open spec fn spec_has_motion_params(t: UnitType) -> bool {
    t is Moveable || t is Commandable || t is BattleReady || t is Projectile || t is Trainable
        || t is Building || t is Tree
}

pub open spec fn spec_has_commandable_params(t: UnitType) -> bool {
    t is Commandable || t is BattleReady || t is Projectile || t is Trainable || t is Building
        || t is Tree
}

pub open spec fn spec_has_battle_params(t: UnitType) -> bool {
    t is BattleReady || t is Projectile || t is Trainable || t is Building || t is Tree
}

pub open spec fn spec_has_projectile_params(t: UnitType) -> bool {
    t is Projectile
}

pub open spec fn spec_has_trainable_params(t: UnitType) -> bool {
    t is Trainable || t is Building || t is Tree
}

pub open spec fn spec_has_building_params(t: UnitType) -> bool {
    t is Building
}

/// The categories whose records end right after the common block.
pub open spec fn ends_after_common(t: UnitType) -> bool {
    t is Tree || t is GraphicEffect
}

/// The categories whose records hold one unused 4-byte value after the common block.
pub open spec fn has_spare_word(t: UnitType) -> bool {
    t is Flag || t is Unknown25
}

/// No two categories share a code.
pub proof fn lemma_code_injective(a: UnitType, b: UnitType)
    ensures
        code_of(a) == code_of(b) ==> a == b,
{
}

/// Each category's code decodes to that category, every byte that decodes
/// is the code of what it decodes to, and any other byte is rejected with the
/// byte itself.
pub proof fn lemma_classify(t: UnitType, b: u8)
    ensures
        category_of(code_of(t)) == Ok::<UnitType, FormatError>(t),
        category_of(b) matches Ok(c) ==> code_of(c) == b,
        !is_category_code(b) ==> category_of(b) == Err::<UnitType, FormatError>(
            FormatError::InvalidCategoryTag(b),
        ),
{
}

/// The capabilities nest along the chain moveable, commandable, battle-ready;
/// after that, projectiles and trainable units part ways, and buildings are
/// trainable.
pub proof fn lemma_capabilities_nest(t: UnitType)
    ensures
        spec_has_commandable_params(t) ==> spec_has_motion_params(t),
        spec_has_battle_params(t) ==> spec_has_commandable_params(t),
        spec_has_projectile_params(t) ==> spec_has_battle_params(t),
        spec_has_trainable_params(t) ==> spec_has_battle_params(t),
        spec_has_building_params(t) ==> spec_has_trainable_params(t),
        !(spec_has_projectile_params(t) && spec_has_trainable_params(t)),
{
}

impl Default for UnitType {
    fn default() -> (r: UnitType)
        ensures
            r == UnitType::Unknown25,
    {
        UnitType::Unknown25
    }
}

impl UnitType {
    /// The category that `val` encodes.
    pub fn from_u8(val: u8) -> (r: Result<UnitType, FormatError>)
        ensures
            r == category_of(val),
            match r {
                Ok(t) => code_of(t) == val,
                Err(e) => e == FormatError::InvalidCategoryTag(val),
            },
    {
        let r = match val {
            10 => Ok(UnitType::GraphicEffect),
            20 => Ok(UnitType::Flag),
            25 => Ok(UnitType::Unknown25),
            30 => Ok(UnitType::Moveable),
            40 => Ok(UnitType::Commandable),
            50 => Ok(UnitType::BattleReady),
            60 => Ok(UnitType::Projectile),
            70 => Ok(UnitType::Trainable),
            80 => Ok(UnitType::Building),
            90 => Ok(UnitType::Tree),
            _ => Err(FormatError::InvalidCategoryTag(val)),
        };
        r
    }

    pub fn has_motion_params(&self) -> (r: bool)
        ensures
            r == spec_has_motion_params(*self),
    {
        match *self {
            UnitType::Moveable | UnitType::Commandable | UnitType::BattleReady
            | UnitType::Projectile | UnitType::Trainable | UnitType::Building | UnitType::Tree => true,
            _ => false,
        }
    }

    pub fn has_commandable_params(&self) -> (r: bool)
        ensures
            r == spec_has_commandable_params(*self),
    {
        match *self {
            UnitType::Commandable | UnitType::BattleReady | UnitType::Projectile
            | UnitType::Trainable | UnitType::Building | UnitType::Tree => true,
            _ => false,
        }
    }

    pub fn has_battle_params(&self) -> (r: bool)
        ensures
            r == spec_has_battle_params(*self),
    {
        match *self {
            UnitType::BattleReady | UnitType::Projectile | UnitType::Trainable
            | UnitType::Building | UnitType::Tree => true,
            _ => false,
        }
    }

    pub fn has_projectile_params(&self) -> (r: bool)
        ensures
            r == spec_has_projectile_params(*self),
    {
        match *self {
            UnitType::Projectile => true,
            _ => false,
        }
    }

    pub fn has_trainable_params(&self) -> (r: bool)
        ensures
            r == spec_has_trainable_params(*self),
    {
        match *self {
            UnitType::Trainable | UnitType::Building | UnitType::Tree => true,
            _ => false,
        }
    }

    pub fn has_building_params(&self) -> (r: bool)
        ensures
            r == spec_has_building_params(*self),
    {
        match *self {
            UnitType::Building => true,
            _ => false,
        }
    }
}

} // verus!
