//! Held items.

use vstd::prelude::*;

use crate::catalog_value::CatalogValue;
use crate::generation::Generation;
use crate::moves::{BoostsList, NonStandardReason, Status, VolatileStatus};
use crate::types::Type;

verus! {

/// The default of an item's steal flag: it can be stolen.
pub fn some_true() -> (r: Option<bool>)
    ensures
        r == Some(true),
{
    Some(true)
}

/// A held item of the catalog.
pub struct ItemData {
    pub name: String,
    pub num: i16,
    pub is_nonstandard: Option<NonStandardReason>,
    pub description: String,
    pub short_description: String,
    pub gen: Generation,
    pub fling: Option<FlingData>,
    pub natural_gift: Option<NaturalGiftData>,
    pub is_berry: bool,
    pub is_pokeball: bool,
    pub is_gem: bool,
    pub is_choice: bool,
    pub item_users: Option<Vec<String>>,
    pub forced_forme: Option<String>,
    pub z_move: Option<ZCrystalData>,
    pub z_move_from: Option<String>,
    pub z_move_type: Option<Type>,
    pub mega_stone: Option<String>,
    pub mega_evolves: Option<String>,
    pub on_plate: Option<Type>,
    pub on_memory: Option<Type>,
    pub on_drive: Option<Type>,
    /// `Some(true)`: can be stolen, even from or by one of its item users.
    /// `Some(false)`: can never be stolen.
    pub override_innate_stealable: Option<bool>,
    pub on_negate_immunity: Option<bool>,
    pub ignore_klutz: bool,
    pub on_eat: Option<bool>,
    pub boosts: Option<BoostsList>,
}

/// What Fling does with an item.
#[derive(Clone, Copy, Debug)]
pub struct FlingData {
    pub base_power: u8,
    pub volatile_status: Option<VolatileStatus>,
    pub status: Option<Status>,
}

/// What Natural Gift does with a berry.
#[derive(Clone, Copy, Debug)]
pub struct NaturalGiftData {
    pub base_power: u8,
    pub type_: Type,
}

/// The Z-move an item enables: the generic one of its type, or a named one.
#[derive(Clone, Debug, PartialEq, Eq)]
pub enum ZCrystalData {
    Generic,
    Unique(String),
}

impl ZCrystalData {
    /// Reads the catalog's value: `true` or a move name.
    pub fn from_value(value: &CatalogValue) -> (r: Option<ZCrystalData>)
        ensures
            value matches CatalogValue::Bool(true) ==> r == Some(ZCrystalData::Generic),
            value matches CatalogValue::Text(s) ==> r matches Some(ZCrystalData::Unique(u)) && u@ == s@,
            !(value matches CatalogValue::Bool(true)) && !(value is Text) ==> r is None,
    {
        match value {
            CatalogValue::Bool(true) => Some(ZCrystalData::Generic),
            CatalogValue::Text(s) => Some(ZCrystalData::Unique(s.clone())),
            _ => None,
        }
    }
}

} // verus!
