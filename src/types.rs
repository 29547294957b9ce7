//! Elemental types and the type chart.

use vstd::prelude::*;

use crate::moves::NonStandardReason;
use crate::ratio::Ratio;

verus! {

/// An elemental type of a move or a species.
#[derive(Clone, Copy, Debug, PartialEq, Eq, Hash, Structural)]
pub enum Type {
    Normal,
    Fire,
    Water,
    Grass,
    Flying,
    Fighting,
    Poison,
    Electric,
    Ground,
    Rock,
    Psychic,
    Ice,
    Bug,
    GhostType,
    Steel,
    Dragon,
    Dark,
    Fairy,
    Stellar,
    /// The catalog's "???" type.
    Unknown,
}

/// The catalog key of a type.
pub open spec fn type_key(t: Type) -> Seq<char> {
    match t {
        Type::Normal => "normal"@,
        Type::Fire => "fire"@,
        Type::Water => "water"@,
        Type::Grass => "grass"@,
        Type::Flying => "flying"@,
        Type::Fighting => "fighting"@,
        Type::Poison => "poison"@,
        Type::Electric => "electric"@,
        Type::Ground => "ground"@,
        Type::Rock => "rock"@,
        Type::Psychic => "psychic"@,
        Type::Ice => "ice"@,
        Type::Bug => "bug"@,
        Type::GhostType => "ghost"@,
        Type::Steel => "steel"@,
        Type::Dragon => "dragon"@,
        Type::Dark => "dark"@,
        Type::Fairy => "fairy"@,
        Type::Stellar => "stellar"@,
        Type::Unknown => "???"@,
    }
}

impl Type {
    pub fn key(&self) -> (r: &'static str)
        ensures
            r@ == type_key(*self),
    {
        match self {
            Type::Normal => "normal",
            Type::Fire => "fire",
            Type::Water => "water",
            Type::Grass => "grass",
            Type::Flying => "flying",
            Type::Fighting => "fighting",
            Type::Poison => "poison",
            Type::Electric => "electric",
            Type::Ground => "ground",
            Type::Rock => "rock",
            Type::Psychic => "psychic",
            Type::Ice => "ice",
            Type::Bug => "bug",
            Type::GhostType => "ghost",
            Type::Steel => "steel",
            Type::Dragon => "dragon",
            Type::Dark => "dark",
            Type::Fairy => "fairy",
            Type::Stellar => "stellar",
            Type::Unknown => "???",
        }
    }
}

/// How much damage a defending type takes from an attacking type.
#[derive(Clone, Copy, Debug, PartialEq, Eq, Structural)]
pub enum DamageRelation {
    Neutral,
    SuperEffective,
    NotVeryEffective,
    Immune,
}

/// The catalog's code for a damage relation was not in 0..=3.
#[derive(Debug)]
pub struct TryIntoDamageRelationError;

impl TryIntoDamageRelationError {
    pub fn message(&self) -> (r: &'static str) {
        "Given value was not between 0 and 3 inclusive"
    }
}

pub open spec fn relation_of_code(code: u8) -> Option<DamageRelation> {
    match code {
        0 => Some(DamageRelation::Neutral),
        1 => Some(DamageRelation::SuperEffective),
        2 => Some(DamageRelation::NotVeryEffective),
        3 => Some(DamageRelation::Immune),
        _ => None,
    }
}

/// The multiplier of a damage relation: 0, 1/2, 1 or 2.
pub open spec fn relation_multiplier(r: DamageRelation) -> Ratio {
    match r {
        DamageRelation::Immune => Ratio { num: 0, den: 1 },
        DamageRelation::NotVeryEffective => Ratio { num: 1, den: 2 },
        DamageRelation::Neutral => Ratio { num: 1, den: 1 },
        DamageRelation::SuperEffective => Ratio { num: 2, den: 1 },
    }
}

impl DamageRelation {
    /// Reads the catalog's numeric code.
    pub fn try_from(value: u8) -> (r: Result<DamageRelation, TryIntoDamageRelationError>)
        ensures
            r is Ok <==> relation_of_code(value) is Some,
            r is Ok ==> Some(r->Ok_0) == relation_of_code(value),
    {
        match value {
            0 => Ok(DamageRelation::Neutral),
            1 => Ok(DamageRelation::SuperEffective),
            2 => Ok(DamageRelation::NotVeryEffective),
            3 => Ok(DamageRelation::Immune),
            _ => Err(TryIntoDamageRelationError),
        }
    }

    pub fn to_multiplier(&self) -> (r: Ratio)
        ensures
            r == relation_multiplier(*self),
            r.wf(),
            r.num <= 2,
            r.den <= 2,
    {
        match self {
            DamageRelation::Immune => Ratio { num: 0, den: 1 },
            DamageRelation::NotVeryEffective => Ratio { num: 1, den: 2 },
            DamageRelation::Neutral => Ratio { num: 1, den: 1 },
            DamageRelation::SuperEffective => Ratio { num: 2, den: 1 },
        }
    }
}

/// The relation listed first for `attack` in `entries`; `Neutral` when none is listed.
pub open spec fn relation_in(entries: Seq<(Type, DamageRelation)>, attack: Type) -> DamageRelation
    decreases entries.len(),
{
    if entries.len() == 0 {
        DamageRelation::Neutral
    } else if entries[0].0 == attack {
        entries[0].1
    } else {
        relation_in(entries.drop_first(), attack)
    }
}

/// What a defending type takes from each attacking type.
pub struct TypeData {
    pub damage_taken: Vec<(Type, DamageRelation)>,
    pub is_non_standard: Option<NonStandardReason>,
}

impl TypeData {
    pub open spec fn relation_to(&self, attack: Type) -> DamageRelation {
        relation_in(self.damage_taken@, attack)
    }

    pub fn new(damage_taken: Vec<(Type, DamageRelation)>) -> (r: TypeData)
        ensures
            r.damage_taken == damage_taken,
            r.is_non_standard is None,
    {
        TypeData { damage_taken, is_non_standard: None }
    }

    /// What this type takes from a move of type `type_`; unlisted pairs are neutral.
    pub fn damage_taken(&self, type_: Type) -> (r: DamageRelation)
        ensures
            r == self.relation_to(type_),
    {
        let n = self.damage_taken.len();
        let mut i: usize = 0;
        proof {
            assert(self.damage_taken@.subrange(0, n as int) =~= self.damage_taken@);
        }
        while i < n
            invariant
                n == self.damage_taken@.len(),
                i <= n,
                relation_in(self.damage_taken@, type_) == relation_in(
                    self.damage_taken@.subrange(i as int, n as int),
                    type_,
                ),
            decreases n - i,
        {
            let ghost rest = self.damage_taken@.subrange(i as int, n as int);
            proof {
                assert(rest.drop_first() =~= self.damage_taken@.subrange(i + 1, n as int));
            }
            if self.damage_taken[i].0 == type_ {
                return self.damage_taken[i].1;
            }
            i = i + 1;
        }
        DamageRelation::Neutral
    }
}

} // verus!
