//! Combatants and their battle stats.

use vstd::prelude::*;

use crate::natures::{nature_multiplier, NatureData};
use crate::ratio::Ratio;
use crate::species::{Ability, Species, Stat, StatDistribution};

verus! {

/// A combatant: a species at a level, with an ability, a nature and its
/// effort and individual values.
#[derive(Clone, Copy)]
pub struct Pokemon<'a> {
    pub species: &'a Species,
    pub level: u8,
    pub ability: Ability,
    pub nature: Option<&'a NatureData>,
    pub evs: StatDistribution,
    pub ivs: StatDistribution,
}

/// `floor((2 * base + iv + floor(ev / 4)) * level / 100)`.
pub open spec fn stat_core(base: int, iv: int, ev: int, level: int) -> int {
    (2 * base + iv + ev / 4) * level / 100
}

/// The battle value of a stat (HP, or another stat under a nature multiplier).
pub open spec fn stat_value(stat: Stat, base: int, iv: int, ev: int, level: int, nature: Ratio) -> int {
    if stat is HP {
        stat_core(base, iv, ev, level) + level + 10
    } else {
        (stat_core(base, iv, ev, level) + 5) * (nature.num as int) / (nature.den as int)
    }
}

/// Every battle stat of a combatant lies between 4 and 2376.
pub proof fn lemma_stat_bounds(p: Pokemon, stat: Stat)
    requires
        stat.is_battle_stat(),
    ensures
        4 <= p.spec_stat(stat) <= 2376,
{
    let base = p.species.base_stats.spec_get(stat) as int;
    let iv = p.ivs.spec_get(stat) as int;
    let ev = p.evs.spec_get(stat) as int;
    let level = p.level as int;
    let n = p.nature_ratio(stat);
    let sum = 2 * base + iv + ev / 4;
    assert(0 <= sum * level <= 828 * 255) by (nonlinear_arith)
        requires
            0 <= sum <= 828,
            0 <= level <= 255,
    ;
    let core = stat_core(base, iv, ev, level);
    assert(0 <= core <= 2111);
    if !(stat is HP) {
        assert(4 <= (core + 5) * (n.num as int) / (n.den as int) <= 2327) by (nonlinear_arith)
            requires
                0 <= core <= 2111,
                9 <= n.num <= 11,
                n.den == 10,
        ;
    }
}

impl<'a> Pokemon<'a> {
    /// The nature multiplier this combatant has for `stat`.
    pub open spec fn nature_ratio(&self, stat: Stat) -> Ratio {
        match self.nature {
            Some(n) => nature_multiplier(n.plus, n.minus, stat),
            None => Ratio { num: 10, den: 10 },
        }
    }

    pub open spec fn spec_stat(&self, stat: Stat) -> int {
        stat_value(
            stat,
            self.species.base_stats.spec_get(stat) as int,
            self.ivs.spec_get(stat) as int,
            self.evs.spec_get(stat) as int,
            self.level as int,
            self.nature_ratio(stat),
        )
    }

    /// The combatant `new` builds for `species`.
    pub open spec fn default_of(species: &'a Species) -> Pokemon<'a> {
        Pokemon {
            species,
            level: 50,
            ability: Ability::NoAbility,
            nature: None,
            evs: StatDistribution {
                hp: 0,
                attack: 0,
                defence: 0,
                special_attack: 0,
                special_defence: 0,
                speed: 0,
            },
            ivs: StatDistribution {
                hp: 31,
                attack: 31,
                defence: 31,
                special_attack: 31,
                special_defence: 31,
                speed: 31,
            },
        }
    }

    /// A level 50 combatant of `species` with no ability and no nature, no
    /// effort values and every individual value at 31.
    pub fn new(species: &'a Species) -> (r: Pokemon<'a>)
        ensures
            r == Pokemon::default_of(species),
    {
        Pokemon {
            species,
            level: 50,
            ability: Ability::NoAbility,
            nature: None,
            evs: StatDistribution {
                hp: 0,
                attack: 0,
                defence: 0,
                special_attack: 0,
                special_defence: 0,
                speed: 0,
            },
            ivs: StatDistribution {
                hp: 31,
                attack: 31,
                defence: 31,
                special_attack: 31,
                special_defence: 31,
                speed: 31,
            },
        }
    }

    /// The combatant's battle value of `stat`.
    pub fn stat(&self, stat: Stat) -> (r: u16)
        requires
            stat.is_battle_stat(),
        ensures
            r == self.spec_stat(stat),
            stat is HP ==> r >= 10,
            !(stat is HP) ==> r >= 4,
            r <= 2376,
    {
        let base = self.species.base_stats.get(stat) as u32;
        let iv = self.ivs.get(stat) as u32;
        let ev = self.evs.get(stat) as u32;
        let level = self.level as u32;
        let sum = 2 * base + iv + ev / 4;
        assert(sum * level <= 828 * 255) by (nonlinear_arith)
            requires
                sum <= 828,
                level <= 255,
        ;
        let core = sum * level / 100;
        match stat {
            Stat::HP => (core + level + 10) as u16,
            _ => {
                let nature = match self.nature {
                    Some(n) => n.multiplier(stat),
                    None => Ratio { num: 10, den: 10 },
                };
                let v = (core + 5) * nature.num / nature.den;
                assert(4 <= v <= 2327) by (nonlinear_arith)
                    requires
                        v as int == (core as int + 5) * (nature.num as int) / (nature.den as int),
                        core <= 2111,
                        9 <= nature.num <= 11,
                        nature.den == 10,
                ;
                v as u16
            },
        }
    }

    pub fn ivs(self, ivs: StatDistribution) -> (r: Pokemon<'a>)
        ensures
            r == (Pokemon { ivs, ..self }),
    {
        Pokemon { ivs, ..self }
    }

    pub fn evs(self, evs: StatDistribution) -> (r: Pokemon<'a>)
        ensures
            r == (Pokemon { evs, ..self }),
    {
        Pokemon { evs, ..self }
    }

    pub fn iv(self, stat: Stat, iv: u8) -> (r: Pokemon<'a>)
        requires
            stat.is_battle_stat(),
        ensures
            r == (Pokemon { ivs: self.ivs.spec_set(stat, iv), ..self }),
    {
        let mut p = self;
        *p.ivs.get_mut(stat) = iv;
        p
    }

    pub fn ev(self, stat: Stat, ev: u8) -> (r: Pokemon<'a>)
        requires
            stat.is_battle_stat(),
        ensures
            r == (Pokemon { evs: self.evs.spec_set(stat, ev), ..self }),
    {
        let mut p = self;
        *p.evs.get_mut(stat) = ev;
        p
    }

    pub fn level(self, level: u8) -> (r: Pokemon<'a>)
        ensures
            r == (Pokemon { level, ..self }),
    {
        Pokemon { level, ..self }
    }

    pub fn nature(self, nature: &'a NatureData) -> (r: Pokemon<'a>)
        ensures
            r == (Pokemon { nature: Some(nature), ..self }),
    {
        Pokemon { nature: Some(nature), ..self }
    }
}

} // verus!
