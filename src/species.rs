//! Species, stats and ability slots.

use vstd::prelude::*;
use vstd::string::StringExecFns;

use crate::generation::{species_generation, species_generation_of, Generation};
use crate::names::{contains_str, has_infix};
use crate::learnsets::Gender;
use crate::moves::NonStandardReason;
use crate::types::Type;

pub use crate::names::abilities::Ability;

verus! {

/// A species: its types, base stats and abilities.
pub struct Species {
    pub num: i32,
    pub name: String,
    pub types: Vec<Type>,
    /// Generation of a custom species.
    pub gen: Option<Generation>,
    pub gender: Option<Gender>,
    pub base_stats: StatDistribution,
    pub abilities: Abilities,
    pub evos: Vec<String>,
    pub prevo: Option<String>,
    pub base_species: Option<String>,
    pub forme: Option<String>,
    pub is_nonstandard: Option<NonStandardReason>,
    /// The forms this battle-only form can appear from.
    pub battle_only: Option<Vec<String>>,
}

/// The generation a form name places a species in, if it does.
pub open spec fn forme_generation(forme: Seq<char>) -> Option<Generation> {
    if has_infix(forme, "Paldea"@) {
        Some(Generation::Nine)
    } else if forme == "Gmax"@ || forme == "Galar"@ || forme == "Galar-Zen"@ || forme == "Hisui"@ {
        Some(Generation::Eight)
    } else if has_infix(forme, "Alola"@) || forme == "Starter"@ {
        Some(Generation::Seven)
    } else {
        None
    }
}

fn forme_generation_exec(forme: &String) -> (r: Option<Generation>)
    ensures
        r == forme_generation(forme@),
{
    let f = forme.as_str();
    if contains_str(f, "Paldea") {
        Some(Generation::Nine)
    } else if *forme == String::from_str("Gmax") || *forme == String::from_str("Galar") || *forme
        == String::from_str("Galar-Zen") || *forme == String::from_str("Hisui") {
        Some(Generation::Eight)
    } else if contains_str(f, "Alola") || *forme == String::from_str("Starter") {
        Some(Generation::Seven)
    } else {
        None
    }
}

impl Species {
    /// The generation that introduced the species: regional and special forms
    /// by their form name, the others by their number.
    pub open spec fn first_generation(&self) -> Generation {
        match self.forme {
            Some(f) => match forme_generation(f@) {
                Some(g) => g,
                None => species_generation_of(self.num),
            },
            None => species_generation_of(self.num),
        }
    }

    /// Marks the species as from the future when it came after `gen`. Species
    /// with a number of 0 or less are left alone.
    pub fn set_future(&mut self, gen: Generation)
        ensures
            old(self).num > 0 && old(self).first_generation().spec_number() > gen.spec_number()
                ==> *final(self) == (Species {
                is_nonstandard: Some(NonStandardReason::Future),
                ..*old(self)
            }),
            !(old(self).num > 0 && old(self).first_generation().spec_number() > gen.spec_number())
                ==> *final(self) == *old(self),
    {
        if self.num <= 0 {
            return;
        }
        let by_forme = match &self.forme {
            Some(f) => forme_generation_exec(f),
            None => None,
        };
        let first = match by_forme {
            Some(g) => g,
            None => species_generation(self.num),
        };
        if first.number() > gen.number() {
            self.is_nonstandard = Some(NonStandardReason::Future);
        }
    }
}

/// The abilities a species may have.
pub struct Abilities {
    pub normal: Vec<Ability>,
    pub hidden: Option<Ability>,
}

/// The abilities of the slots other than `'h'`, in order.
pub open spec fn normal_abilities(slots: Seq<(char, Ability)>) -> Seq<Ability>
    decreases slots.len(),
{
    if slots.len() == 0 {
        Seq::empty()
    } else if slots.last().0 == 'h' {
        normal_abilities(slots.drop_last())
    } else {
        normal_abilities(slots.drop_last()).push(slots.last().1)
    }
}

/// The ability of the last `'h'` slot, if any.
pub open spec fn hidden_ability(slots: Seq<(char, Ability)>) -> Option<Ability>
    decreases slots.len(),
{
    if slots.len() == 0 {
        None
    } else if slots.last().0 == 'h' {
        Some(slots.last().1)
    } else {
        hidden_ability(slots.drop_last())
    }
}

impl Abilities {
    /// Sorts the catalog's ability slots: `'h'` is the hidden ability, the
    /// other slots are the normal ones.
    pub fn from_slots(slots: Vec<(char, Ability)>) -> (r: Abilities)
        ensures
            r.normal@ == normal_abilities(slots@),
            r.hidden == hidden_ability(slots@),
    {
        let mut normal: Vec<Ability> = Vec::new();
        let mut hidden: Option<Ability> = None;
        let mut i: usize = 0;
        while i < slots.len()
            invariant
                i <= slots@.len(),
                normal@ == normal_abilities(slots@.subrange(0, i as int)),
                hidden == hidden_ability(slots@.subrange(0, i as int)),
            decreases slots@.len() - i,
        {
            proof {
                assert(slots@.subrange(0, i + 1).drop_last() =~= slots@.subrange(0, i as int));
            }
            if slots[i].0 == 'h' {
                hidden = Some(slots[i].1);
            } else {
                normal.push(slots[i].1);
            }
            i = i + 1;
        }
        proof {
            assert(slots@.subrange(0, slots@.len() as int) =~= slots@);
        }
        Abilities { normal, hidden }
    }
}

/// One small value per battle stat (base stats, effort values, individual values).
#[derive(Clone, Copy, Debug, PartialEq, Eq, Structural)]
pub struct StatDistribution {
    pub hp: u8,
    pub attack: u8,
    pub defence: u8,
    pub special_attack: u8,
    pub special_defence: u8,
    pub speed: u8,
}

/// A stat. `Accuracy` and `Evasion` only take part in boosts.
#[derive(Clone, Copy, Debug, PartialEq, Eq, Hash, Structural)]
pub enum Stat {
    HP,
    Attack,
    Defence,
    SpecialAttack,
    SpecialDefence,
    Speed,
    Accuracy,
    Evasion,
}

impl Stat {
    /// The six stats a distribution holds.
    pub open spec fn is_battle_stat(self) -> bool {
        !(self is Accuracy) && !(self is Evasion)
    }
}

impl StatDistribution {
    pub open spec fn spec_get(self, stat: Stat) -> u8 {
        match stat {
            Stat::HP => self.hp,
            Stat::Attack => self.attack,
            Stat::Defence => self.defence,
            Stat::SpecialAttack => self.special_attack,
            Stat::SpecialDefence => self.special_defence,
            Stat::Speed => self.speed,
            _ => 0,
        }
    }

    /// This distribution with the value of `stat` replaced by `value`.
    pub open spec fn spec_set(self, stat: Stat, value: u8) -> StatDistribution {
        match stat {
            Stat::HP => StatDistribution { hp: value, ..self },
            Stat::Attack => StatDistribution { attack: value, ..self },
            Stat::Defence => StatDistribution { defence: value, ..self },
            Stat::SpecialAttack => StatDistribution { special_attack: value, ..self },
            Stat::SpecialDefence => StatDistribution { special_defence: value, ..self },
            Stat::Speed => StatDistribution { speed: value, ..self },
            _ => self,
        }
    }

    pub fn get(&self, stat: Stat) -> (r: u8)
        requires
            stat.is_battle_stat(),
        ensures
            r == self.spec_get(stat),
    {
        match stat {
            Stat::HP => self.hp,
            Stat::Attack => self.attack,
            Stat::Defence => self.defence,
            Stat::SpecialAttack => self.special_attack,
            Stat::SpecialDefence => self.special_defence,
            Stat::Speed => self.speed,
            _ => 0,
        }
    }

    pub fn get_mut(&mut self, stat: Stat) -> (r: &mut u8)
        requires
            stat.is_battle_stat(),
        ensures
            *r == old(self).spec_get(stat),
            *final(self) == old(self).spec_set(stat, *final(r)),
    {
        match stat {
            Stat::HP => &mut self.hp,
            Stat::Attack => &mut self.attack,
            Stat::Defence => &mut self.defence,
            Stat::SpecialAttack => &mut self.special_attack,
            Stat::SpecialDefence => &mut self.special_defence,
            _ => &mut self.speed,
        }
    }

    /// Builds a distribution from the values in the order
    /// HP, Attack, Defence, Special Attack, Special Defence, Speed.
    pub fn from_array(value: [u8; 6]) -> (r: StatDistribution)
        ensures
            r.hp == value[0],
            r.attack == value[1],
            r.defence == value[2],
            r.special_attack == value[3],
            r.special_defence == value[4],
            r.speed == value[5],
    {
        StatDistribution {
            hp: value[0],
            attack: value[1],
            defence: value[2],
            special_attack: value[3],
            special_defence: value[4],
            speed: value[5],
        }
    }
}

impl Default for StatDistribution {
    fn default() -> (r: StatDistribution)
        ensures
            r == (StatDistribution {
                hp: 0,
                attack: 0,
                defence: 0,
                special_attack: 0,
                special_defence: 0,
                speed: 0,
            }),
    {
        StatDistribution {
            hp: 0,
            attack: 0,
            defence: 0,
            special_attack: 0,
            special_defence: 0,
            speed: 0,
        }
    }
}

} // verus!
