//! Natures and their stat multipliers.

use vstd::prelude::*;

use crate::ratio::Ratio;
use crate::species::Stat;

verus! {

/// A nature's name.
#[derive(Clone, Copy, Debug, PartialEq, Eq, Structural)]
pub enum Nature {
    Hardy,
    Lonely,
    Brave,
    Adamant,
    Naughty,
    Bold,
    Docile,
    Relaxed,
    Impish,
    Lax,
    Timid,
    Hasty,
    Serious,
    Jolly,
    Naive,
    Modest,
    Mild,
    Quiet,
    Bashful,
    Rash,
    Calm,
    Gentle,
    Sassy,
    Careful,
    Quirky,
}

/// The catalog key of a nature.
pub open spec fn nature_key(n: Nature) -> Seq<char> {
    match n {
        Nature::Hardy => "hardy"@,
        Nature::Lonely => "lonely"@,
        Nature::Brave => "brave"@,
        Nature::Adamant => "adamant"@,
        Nature::Naughty => "naughty"@,
        Nature::Bold => "bold"@,
        Nature::Docile => "docile"@,
        Nature::Relaxed => "relaxed"@,
        Nature::Impish => "impish"@,
        Nature::Lax => "lax"@,
        Nature::Timid => "timid"@,
        Nature::Hasty => "hasty"@,
        Nature::Serious => "serious"@,
        Nature::Jolly => "jolly"@,
        Nature::Naive => "naive"@,
        Nature::Modest => "modest"@,
        Nature::Mild => "mild"@,
        Nature::Quiet => "quiet"@,
        Nature::Bashful => "bashful"@,
        Nature::Rash => "rash"@,
        Nature::Calm => "calm"@,
        Nature::Gentle => "gentle"@,
        Nature::Sassy => "sassy"@,
        Nature::Careful => "careful"@,
        Nature::Quirky => "quirky"@,
    }
}

impl Nature {
    pub fn key(&self) -> (r: &'static str)
        ensures
            r@ == nature_key(*self),
    {
        match self {
            Nature::Hardy => "hardy",
            Nature::Lonely => "lonely",
            Nature::Brave => "brave",
            Nature::Adamant => "adamant",
            Nature::Naughty => "naughty",
            Nature::Bold => "bold",
            Nature::Docile => "docile",
            Nature::Relaxed => "relaxed",
            Nature::Impish => "impish",
            Nature::Lax => "lax",
            Nature::Timid => "timid",
            Nature::Hasty => "hasty",
            Nature::Serious => "serious",
            Nature::Jolly => "jolly",
            Nature::Naive => "naive",
            Nature::Modest => "modest",
            Nature::Mild => "mild",
            Nature::Quiet => "quiet",
            Nature::Bashful => "bashful",
            Nature::Rash => "rash",
            Nature::Calm => "calm",
            Nature::Gentle => "gentle",
            Nature::Sassy => "sassy",
            Nature::Careful => "careful",
            Nature::Quirky => "quirky",
        }
    }
}

/// A nature: the stat it raises by a tenth and the stat it lowers by a tenth.
#[derive(Debug)]
pub struct NatureData {
    pub name: String,
    pub plus: Option<Stat>,
    pub minus: Option<Stat>,
}

/// The nature multiplier of `stat`: 11/10 if raised, else 9/10 if lowered, else 1.
pub open spec fn nature_multiplier(plus: Option<Stat>, minus: Option<Stat>, stat: Stat) -> Ratio {
    if plus == Some(stat) {
        Ratio { num: 11, den: 10 }
    } else if minus == Some(stat) {
        Ratio { num: 9, den: 10 }
    } else {
        Ratio { num: 10, den: 10 }
    }
}

impl NatureData {
    pub fn multiplier(&self, stat: Stat) -> (r: Ratio)
        ensures
            r == nature_multiplier(self.plus, self.minus, stat),
    {
        if self.plus == Some(stat) {
            Ratio { num: 11, den: 10 }
        } else if self.minus == Some(stat) {
            Ratio { num: 9, den: 10 }
        } else {
            Ratio { num: 10, den: 10 }
        }
    }
}

} // verus!
