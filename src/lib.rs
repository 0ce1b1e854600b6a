//! Decoder for unit records of the Empires game database.
//!
//! A unit record starts with a one-byte category tag and a common block of
//! fields; the category then decides which of six optional blocks follow.
//! Every decoder here is stated over the bytes it reads: the spec functions
//! in `stream` give the little-endian value at a byte position, and each
//! record type has a spec function or predicate that places its fields.
pub mod error;
pub mod stream;
pub mod unit_type;
pub mod params;
pub mod unit;

pub use error::FormatError;
pub use stream::ByteStream;
pub use unit_type::UnitType;
pub use params::{
    BattleParams, BuildingParams, CommandableParams, DamageGraphic, MotionParams,
    ProjectileParams, ResourceCost, ResourceStorage, TrainableParams, UnitCommand,
};
pub use unit::{read_unit, CommonAttributes, Unit};
