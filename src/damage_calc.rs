//! The damage pipeline, its result type and the calculation request.

use vstd::prelude::*;
use vstd::string::StringExecFns;
use vstd::arithmetic::div_mod::lemma_div_is_ordered;

use crate::dex::{lookup, Dex, DexError, Identifier};
use crate::learnsets::learnset_names;
use crate::moves::{Category, Flag, MoveData, NumberOfHits};
use crate::names::{identifier_of, identifier_view};
use crate::pokemon::{lemma_stat_bounds, Pokemon};
use crate::ratio::{
    ceil_mul, floor_mul, lemma_poke_whole, lemma_smaller_ratio, lemma_scaled_le, lemma_scaled_mono, lemma_scaled_nonneg,
    poke_round_mul, round_mul, Ratio,
};
use crate::species::{Ability, Stat};
use crate::types::{relation_multiplier, type_key, Type};

verus! {

/// The sixteen damage values of one hit, one per random roll from 85% to 100%.
#[derive(Clone, Copy, Debug, PartialEq, Eq)]
pub struct DamageRange(pub [u32; 16]);

/// How a scaled slot is brought back to an integer.
#[derive(Clone, Copy)]
enum Rounding {
    Floor,
    Ceil,
    Nearest,
    Biased,
}

spec fn rounded(mode: Rounding, x: int, n: int, d: int) -> int {
    match mode {
        Rounding::Floor => floor_mul(x, n, d),
        Rounding::Ceil => ceil_mul(x, n, d),
        Rounding::Nearest => round_mul(x, n, d),
        Rounding::Biased => poke_round_mul(x, n, d),
    }
}

fn scale(mode: Rounding, x: u32, r: Ratio) -> (v: u128)
    requires
        r.wf(),
    ensures
        v == rounded(mode, x as int, r.num as int, r.den as int),
{
    assert(x as int * r.num as int <= 0xffff_ffff * 0xffff_ffff) by (nonlinear_arith)
        requires
            x <= 0xffff_ffff,
            r.num <= 0xffff_ffff,
    ;
    let p = x as u128 * r.num as u128;
    let d = r.den as u128;
    match mode {
        Rounding::Floor => p / d,
        Rounding::Ceil => (p + d - 1) / d,
        Rounding::Nearest => (2 * p + d) / (2 * d),
        Rounding::Biased => (100000 * p + 49999 * d) / (100000 * d),
    }
}

impl DamageRange {
    /// The rolls themselves: 85, 86, ..., 100.
    pub fn new() -> (r: DamageRange)
        ensures
            forall|i: int| 0 <= i < 16 ==> r.0[i] == 85 + i,
    {
        DamageRange([85, 86, 87, 88, 89, 90, 91, 92, 93, 94, 95, 96, 97, 98, 99, 100])
    }

    /// The lowest value (the 85% roll).
    pub fn min(&self) -> (r: u32)
        ensures
            r == self.0[0],
    {
        self.0[0]
    }

    /// The highest value (the 100% roll).
    pub fn max(&self) -> (r: u32)
        ensures
            r == self.0[15],
    {
        self.0[15]
    }

    fn apply(&mut self, mode: Rounding, value: Ratio)
        requires
            value.wf(),
            forall|i: int|
                0 <= i < 16 ==> rounded(mode, old(self).0[i] as int, value.num as int, value.den as int)
                    <= 0xffff_ffff,
        ensures
            forall|i: int|
                0 <= i < 16 ==> final(self).0[i] == rounded(
                    mode,
                    old(self).0[i] as int,
                    value.num as int,
                    value.den as int,
                ),
    {
        let old_slots = self.0;
        let mut slots = self.0;
        let mut i: usize = 0;
        while i < 16
            invariant
                i <= 16,
                value.wf(),
                forall|j: int|
                    0 <= j < 16 ==> rounded(mode, old_slots[j] as int, value.num as int, value.den as int)
                        <= 0xffff_ffff,
                forall|j: int|
                    0 <= j < i ==> slots[j] == rounded(
                        mode,
                        old_slots[j] as int,
                        value.num as int,
                        value.den as int,
                    ),
                forall|j: int| i <= j < 16 ==> slots[j] == old_slots[j],
            decreases 16 - i,
        {
            let v = scale(mode, slots[i], value);
            slots[i] = v as u32;
            i = i + 1;
        }
        self.0 = slots;
    }

    /// Scales every slot by `value` with the game's biased rounding, `round(x - 0.00001)`.
    pub fn pokerounded_multiply(&mut self, value: Ratio)
        requires
            value.wf(),
            forall|i: int|
                0 <= i < 16 ==> poke_round_mul(old(self).0[i] as int, value.num as int, value.den as int)
                    <= 0xffff_ffff,
        ensures
            forall|i: int|
                0 <= i < 16 ==> final(self).0[i] == poke_round_mul(
                    old(self).0[i] as int,
                    value.num as int,
                    value.den as int,
                ),
    {
        self.apply(Rounding::Biased, value)
    }

    /// Scales every slot by `value`, rounding halves away from zero.
    pub fn rounded_multiply(&mut self, value: Ratio)
        requires
            value.wf(),
            forall|i: int|
                0 <= i < 16 ==> round_mul(old(self).0[i] as int, value.num as int, value.den as int)
                    <= 0xffff_ffff,
        ensures
            forall|i: int|
                0 <= i < 16 ==> final(self).0[i] == round_mul(
                    old(self).0[i] as int,
                    value.num as int,
                    value.den as int,
                ),
    {
        self.apply(Rounding::Nearest, value)
    }

    /// Scales every slot by `value`, rounding down.
    pub fn floored_multiply(&mut self, value: Ratio)
        requires
            value.wf(),
            forall|i: int|
                0 <= i < 16 ==> floor_mul(old(self).0[i] as int, value.num as int, value.den as int)
                    <= 0xffff_ffff,
        ensures
            forall|i: int|
                0 <= i < 16 ==> final(self).0[i] == floor_mul(
                    old(self).0[i] as int,
                    value.num as int,
                    value.den as int,
                ),
    {
        self.apply(Rounding::Floor, value)
    }

    /// Scales every slot by `value`, rounding up.
    pub fn ceiled_multiply(&mut self, value: Ratio)
        requires
            value.wf(),
            forall|i: int|
                0 <= i < 16 ==> ceil_mul(old(self).0[i] as int, value.num as int, value.den as int)
                    <= 0xffff_ffff,
        ensures
            forall|i: int|
                0 <= i < 16 ==> final(self).0[i] == ceil_mul(
                    old(self).0[i] as int,
                    value.num as int,
                    value.den as int,
                ),
    {
        self.apply(Rounding::Ceil, value)
    }
}

/// Attacker abilities that bypass the defender's ability.
pub open spec fn breaks_abilities(a: Ability) -> bool {
    a == Ability::MoldBreaker || a == Ability::Turboblaze || a == Ability::Teravolt
}

/// Whether the defender's ability takes no part in this hit.
pub open spec fn ignores_defender_ability(attacker: Ability, mv: MoveData) -> bool {
    mv.ignore_ability || breaks_abilities(attacker)
}

/// Moves whose type Normalize leaves alone, by identifier.
pub open spec fn normalize_exempt(id: Seq<char>) -> bool {
    id == "hiddenpower"@ || id == "weatherball"@ || id == "naturalgift"@ || id == "technoblast"@
        || id == "judgment"@ || id == "multiattack"@ || id == "terrainpulse"@
}

/// The type a Normal move takes under a type-changing attacker ability.
pub open spec fn skin_type(a: Ability) -> Option<Type> {
    if a == Ability::Aerilate {
        Some(Type::Flying)
    } else if a == Ability::Galvanize {
        Some(Type::Electric)
    } else if a == Ability::Pixilate {
        Some(Type::Fairy)
    } else if a == Ability::Refrigerate {
        Some(Type::Ice)
    } else {
        None
    }
}

/// The move's type after the attacker's type-changing abilities.
pub open spec fn effective_type(attacker: Ability, mv: MoveData) -> Type {
    let skinned = if mv.type_ == Type::Normal && skin_type(attacker) is Some {
        skin_type(attacker)->Some_0
    } else {
        mv.type_
    };
    let voiced = if mv.flags.0@.contains(Flag::Sound) && attacker == Ability::LiquidVoice {
        Type::Water
    } else {
        skinned
    };
    if attacker == Ability::Normalize && mv.z_crystal is None && !normalize_exempt(
        identifier_view(mv.name@),
    ) {
        Type::Normal
    } else {
        voiced
    }
}

/// The attacker's power multiplier, in tenths. Each rule names a different
/// attacker ability, so at most one of them applies to a hit.
pub open spec fn power_tenths(attacker: Ability, mv: MoveData, t: Type) -> int {
    let has = |f: Flag| mv.flags.0@.contains(f);
    if mv.type_ == Type::Normal && skin_type(attacker) is Some {
        12
    } else if attacker == Ability::Technician && mv.base_power < 60 {
        15
    } else if attacker == Ability::WaterBubble && t == Type::Water {
        15
    } else if attacker == Ability::IronFist && has(Flag::Punch) {
        12
    } else if attacker == Ability::MegaLauncher && has(Flag::Pulse) {
        15
    } else if attacker == Ability::PunkRock && has(Flag::Sound) {
        13
    } else if attacker == Ability::Reckless && (mv.has_crash_damage || mv.recoil is Some) {
        12
    } else if attacker == Ability::Sharpness && has(Flag::Slicing) {
        15
    } else if attacker == Ability::SheerForce && mv.has_sheer_force {
        13
    } else if attacker == Ability::SteelySpirit && t == Type::Steel {
        15
    } else if attacker == Ability::StrongJaw && has(Flag::Bite) {
        15
    } else if attacker == Ability::ToughClaws && has(Flag::Contact) {
        13
    } else {
        10
    }
}

/// Attacker abilities that raise the offensive stat by half for a move of type `t`.
pub open spec fn boosts_attack(a: Ability, t: Type) -> bool {
    (t == Type::Dragon && a == Ability::DragonsMaw) || (t == Type::Rock && a
        == Ability::RockyPayload) || (t == Type::Steel && a == Ability::Steelworker) || (t
        == Type::Electric && a == Ability::Transistor)
}

/// Defender abilities that halve the offensive stat against a move of type `t`.
pub open spec fn halves_attack(d: Ability, t: Type) -> bool {
    (d == Ability::Heatproof && t == Type::Fire) || (d == Ability::PurifyingSalt && t
        == Type::GhostType) || (d == Ability::ThickFat && (t == Type::Fire || t == Type::Ice))
}

/// The offensive stat multiplier, in quarters.
pub open spec fn attack_quarters(attacker: Ability, defender: Ability, t: Type, ignore: bool) -> int {
    let up: int = if boosts_attack(attacker, t) { 3 } else { 2 };
    let down: int = if !ignore && halves_attack(defender, t) { 1 } else { 2 };
    up * down
}

/// Defender abilities that make a move of type `t` deal no damage.
pub open spec fn grants_immunity(d: Ability, t: Type) -> bool {
    (d == Ability::EarthEater && t == Type::Ground) || (d == Ability::FlashFire && t == Type::Fire)
        || (d == Ability::DrySkin && t == Type::Water) || (d == Ability::Levitate && t
        == Type::Ground) || (d == Ability::LightningRod && t == Type::Electric) || (d
        == Ability::MotorDrive && t == Type::Electric) || (d == Ability::SapSipper && t
        == Type::Grass) || (d == Ability::StormDrain && t == Type::Water) || (d
        == Ability::VoltAbsorb && t == Type::Electric) || (d == Ability::WaterAbsorb && t
        == Type::Water) || (d == Ability::WellBakedBody && t == Type::Fire)
}

/// The defender ability's final damage multiplier, as (numerator, denominator).
/// Fluffy's two rules may both apply to one hit.
pub open spec fn defender_modifier(d: Ability, mv: MoveData, t: Type) -> (int, int) {
    let contact = mv.flags.0@.contains(Flag::Contact);
    if d == Ability::DrySkin && t == Type::Fire {
        (4, 5)
    } else if d == Ability::Fluffy {
        (if contact { 2 } else { 1 }, if t == Type::Fire { 2 } else { 1 })
    } else if d == Ability::PunkRock && contact {
        (2, 1)
    } else if d == Ability::WaterBubble && t == Type::Fire {
        (2, 1)
    } else if d == Ability::IceScales && mv.category == Category::Special {
        (2, 1)
    } else {
        (1, 1)
    }
}

/// The same-type bonus, as (numerator, denominator).
pub open spec fn stab_ratio(attacker: Pokemon, t: Type) -> (int, int) {
    if attacker.species.types@.contains(t) {
        if attacker.ability == Ability::Adaptability {
            (2, 1)
        } else {
            (3, 2)
        }
    } else {
        (1, 1)
    }
}

/// The product of the type relations of `defending` against a move of type `t`,
/// as (numerator, denominator).
pub open spec fn effectiveness(types: Seq<(String, crate::types::TypeData)>, defending: Seq<Type>, t: Type) -> (int, int)
    decreases defending.len(),
{
    if defending.len() == 0 {
        (1, 1)
    } else {
        let rest = effectiveness(types, defending.drop_last(), t);
        let m = relation_multiplier(lookup(types, type_key(defending.last()))->Some_0.relation_to(t));
        (rest.0 * m.num, rest.1 * m.den)
    }
}

/// The stat the move attacks with.
pub open spec fn offence_stat(mv: MoveData) -> Stat {
    match mv.override_offensive_stat {
        Some(s) => s,
        None => if mv.category == Category::Physical { Stat::Attack } else { Stat::SpecialAttack },
    }
}

/// The stat the move is defended with.
pub open spec fn defence_stat(mv: MoveData) -> Stat {
    match mv.override_defensive_stat {
        Some(s) => s,
        None => if mv.category == Category::Physical { Stat::Defence } else { Stat::SpecialDefence },
    }
}

/// The combatant whose offensive stat is used.
pub open spec fn offence_source<'a>(attacker: Pokemon<'a>, defender: Pokemon<'a>, mv: MoveData) -> Pokemon<'a> {
    if mv.override_offensive_pokemon is Some {
        defender
    } else {
        attacker
    }
}

/// `floor(floor(floor(2 * level / 5 + 2) * power * attack / defence) / 50 + 2)`.
pub open spec fn base_damage(level: int, power: int, attack: int, defence: int) -> int {
    (((2 * level / 5 + 2) * power) * attack / defence) / 50 + 2
}

/// The scalar damage of a hit before the random roll: base damage, then the
/// spread-move reduction, then the critical hit.
pub open spec fn scalar_damage(attacker: Pokemon, defender: Pokemon, mv: MoveData, doubles: bool) -> int {
    let ignore = ignores_defender_ability(attacker.ability, mv);
    let t = effective_type(attacker.ability, mv);
    let attack = poke_round_mul(
        offence_source(attacker, defender, mv).spec_stat(offence_stat(mv)),
        attack_quarters(attacker.ability, defender.ability, t, ignore),
        4,
    );
    let power = poke_round_mul(mv.base_power as int, power_tenths(attacker.ability, mv, t), 10);
    let defence = defender.spec_stat(defence_stat(mv));
    let base = base_damage(attacker.level as int, power, attack, defence);
    let targeted = if doubles && mv.target.spec_is_multi_target() {
        poke_round_mul(base, 3, 4)
    } else {
        poke_round_mul(base, 1, 1)
    };
    if mv.will_crit {
        floor_mul(targeted, 3, 2)
    } else {
        targeted
    }
}

/// The roll of slot `i` (85% + i) applied to the scalar damage `d`.
pub open spec fn roll(d: int, i: int) -> int {
    d * (85 + i) / 100
}

/// One slot after the same-type bonus and the type relation (each floored), the
/// other modifiers and the hit count (each with biased rounding).
pub open spec fn finish_slot(x: int, stab: (int, int), eff: (int, int), other: (int, int), hits: int) -> int {
    poke_round_mul(
        poke_round_mul(floor_mul(floor_mul(x, stab.0, stab.1), eff.0, eff.1), other.0, other.1),
        hits,
        1,
    )
}

/// The spread that the scalar damage `d` gives under the slot multipliers.
pub open spec fn spread_of(d: int, stab: (int, int), eff: (int, int), other: (int, int), hits: int) -> Seq<int> {
    Seq::new(16, |i: int| finish_slot(roll(d, i), stab, eff, other, hits))
}

pub open spec fn zero_spread() -> Seq<int> {
    Seq::new(16, |i: int| 0int)
}

/// Whether the hit deals no damage at all: a status move, or an immunity from
/// the defender's ability that is not bypassed.
pub open spec fn deals_nothing(attacker: Pokemon, defender: Pokemon, mv: MoveData) -> bool {
    mv.category == Category::Status || (!ignores_defender_ability(attacker.ability, mv)
        && grants_immunity(defender.ability, effective_type(attacker.ability, mv)))
}

/// The other-modifier ratio of the hit.
pub open spec fn other_ratio(attacker: Pokemon, defender: Pokemon, mv: MoveData) -> (int, int) {
    if ignores_defender_ability(attacker.ability, mv) {
        (1, 1)
    } else {
        defender_modifier(defender.ability, mv, effective_type(attacker.ability, mv))
    }
}

/// The sixteen damage values of the hit.
///
/// Effects that take no part in this calculation, each a stage that changes
/// nothing: the pinch abilities (Blaze, Overgrow, Swarm, Torrent); Analytic,
/// Rivalry, Sand Force, Stakeout, Supreme Overlord and Toxic Boost on power;
/// the ally abilities (Battery, Power Spot, an ally's Steely Spirit, Friend
/// Guard, Flower Gift, Minus); the stat abilities (Chlorophyll, Fur Coat,
/// Gorilla Tactics, Grass Pelt, Guts, Hadron Engine, Huge Power, Hustle,
/// Marvel Scale, Orichalcum Pulse, Plus, Protosynthesis, Pure Power, Quark
/// Drive, Quick Feet, the weather and terrain speed abilities, Solar Power,
/// Unburden); Disguise, Multiscale and Shadow Shield; Scrappy, Filter, Prism
/// Armor, Solid Rock and Wonder Guard on type effectiveness; Parental Bond,
/// weather, Glaive Rush, burns, Z-moves and Tera shields; items, screens and
/// terrain.
pub open spec fn damage_spec(dex: Dex, attacker: Pokemon, defender: Pokemon, mv: MoveData, doubles: bool) -> Seq<int> {
    if deals_nothing(attacker, defender, mv) {
        zero_spread()
    } else {
        let t = effective_type(attacker.ability, mv);
        spread_of(
            scalar_damage(attacker, defender, mv, doubles),
            stab_ratio(attacker, t),
            effectiveness(dex.types@, defender.species.types@, t),
            other_ratio(attacker, defender, mv),
            mv.number_of_hits.spec_max() as int,
        )
    }
}

/// What a calculation needs of its inputs: a level of at most 100, stats that a
/// combatant has, at most two defending types, each listed in the catalog.
pub open spec fn calc_supported(dex: Dex, attacker: Pokemon, defender: Pokemon, mv: MoveData) -> bool {
    &&& attacker.level <= 100
    &&& offence_stat(mv).is_battle_stat()
    &&& defence_stat(mv).is_battle_stat()
    &&& defender.species.types@.len() <= 2
    &&& forall|i: int|
        0 <= i < defender.species.types@.len() ==> lookup(
            dex.types@,
            type_key(#[trigger] defender.species.types@[i]),
        ) is Some
}

fn floor_scale(x: u64, n: u64, d: u64) -> (r: u64)
    requires
        x <= 0xffff_ffff_ff,
        n <= 0xffff,
        0 < d,
    ensures
        r == floor_mul(x as int, n as int, d as int),
{
    assert(x as int * n as int <= 0xffff_ffff_ff * 0xffff) by (nonlinear_arith)
        requires
            x <= 0xffff_ffff_ff,
            n <= 0xffff,
    ;
    let p = x * n;
    p / d
}

fn poke_scale(x: u64, n: u64, d: u64) -> (r: u64)
    requires
        x <= 0xffff_ffff_ff,
        n <= 0xffff,
        0 < d <= 0xffff,
    ensures
        r == poke_round_mul(x as int, n as int, d as int),
{
    assert(x as int * n as int <= 0xffff_ffff_ff * 0xffff) by (nonlinear_arith)
        requires
            x <= 0xffff_ffff_ff,
            n <= 0xffff,
    ;
    let p = x as u128 * n as u128;
    let d = d as u128;
    let v = (100000 * p + 49999 * d) / (100000 * d);
    proof {
        assert(n <= n * d) by (nonlinear_arith)
            requires
                1 <= d,
        ;
        lemma_scaled_le(x as int, n as int, d as int, n as int);
    }
    v as u64
}

fn breaks_ability(a: Ability) -> (r: bool)
    ensures
        r == breaks_abilities(a),
{
    a == Ability::MoldBreaker || a == Ability::Turboblaze || a == Ability::Teravolt
}

fn exempt_from_normalize(name: &String) -> (r: bool)
    ensures
        r == normalize_exempt(identifier_view(name@)),
{
    let id = identifier_of(name.as_str());
    id == String::from_str("hiddenpower") || id == String::from_str("weatherball") || id
        == String::from_str("naturalgift") || id == String::from_str("technoblast") || id
        == String::from_str("judgment") || id == String::from_str("multiattack") || id
        == String::from_str("terrainpulse")
}

fn skin(a: Ability) -> (r: Option<Type>)
    ensures
        r == skin_type(a),
{
    match a {
        Ability::Aerilate => Some(Type::Flying),
        Ability::Galvanize => Some(Type::Electric),
        Ability::Pixilate => Some(Type::Fairy),
        Ability::Refrigerate => Some(Type::Ice),
        _ => None,
    }
}

fn move_type(attacker: Ability, mv: &MoveData) -> (t: Type)
    ensures
        t == effective_type(attacker, *mv),
{
    let mut t = mv.type_;
    if t == Type::Normal {
        if let Some(s) = skin(attacker) {
            t = s;
        }
    }
    if mv.has_flag(Flag::Sound) && attacker == Ability::LiquidVoice {
        t = Type::Water;
    }
    if attacker == Ability::Normalize && mv.z_crystal.is_none() && !exempt_from_normalize(&mv.name) {
        t = Type::Normal;
    }
    t
}

fn power_multiplier(attacker: Ability, mv: &MoveData, t: Type) -> (r: u64)
    ensures
        r == power_tenths(attacker, *mv, t),
        10 <= r <= 15,
{
    if mv.type_ == Type::Normal && skin(attacker).is_some() {
        12
    } else if attacker == Ability::Technician && mv.base_power < 60 {
        15
    } else if attacker == Ability::WaterBubble && t == Type::Water {
        15
    } else if attacker == Ability::IronFist && mv.has_flag(Flag::Punch) {
        12
    } else if attacker == Ability::MegaLauncher && mv.has_flag(Flag::Pulse) {
        15
    } else if attacker == Ability::PunkRock && mv.has_flag(Flag::Sound) {
        13
    } else if attacker == Ability::Reckless && (mv.has_crash_damage || mv.recoil.is_some()) {
        12
    } else if attacker == Ability::Sharpness && mv.has_flag(Flag::Slicing) {
        15
    } else if attacker == Ability::SheerForce && mv.has_sheer_force {
        13
    } else if attacker == Ability::SteelySpirit && t == Type::Steel {
        15
    } else if attacker == Ability::StrongJaw && mv.has_flag(Flag::Bite) {
        15
    } else if attacker == Ability::ToughClaws && mv.has_flag(Flag::Contact) {
        13
    } else {
        10
    }
}

fn attack_multiplier(attacker: Ability, defender: Ability, t: Type, ignore: bool) -> (r: u64)
    ensures
        r == attack_quarters(attacker, defender, t, ignore),
        2 <= r <= 6,
{
    let up: u64 = if (t == Type::Dragon && attacker == Ability::DragonsMaw) || (t == Type::Rock
        && attacker == Ability::RockyPayload) || (t == Type::Steel && attacker
        == Ability::Steelworker) || (t == Type::Electric && attacker == Ability::Transistor) {
        3
    } else {
        2
    };
    let down: u64 = if !ignore && ((defender == Ability::Heatproof && t == Type::Fire) || (defender
        == Ability::PurifyingSalt && t == Type::GhostType) || (defender == Ability::ThickFat && (t
        == Type::Fire || t == Type::Ice))) {
        1
    } else {
        2
    };
    up * down
}

fn immune(d: Ability, t: Type) -> (r: bool)
    ensures
        r == grants_immunity(d, t),
{
    match (d, t) {
        (Ability::EarthEater, Type::Ground) => true,
        (Ability::FlashFire, Type::Fire) => true,
        (Ability::DrySkin, Type::Water) => true,
        (Ability::Levitate, Type::Ground) => true,
        (Ability::LightningRod, Type::Electric) => true,
        (Ability::MotorDrive, Type::Electric) => true,
        (Ability::SapSipper, Type::Grass) => true,
        (Ability::StormDrain, Type::Water) => true,
        (Ability::VoltAbsorb, Type::Electric) => true,
        (Ability::WaterAbsorb, Type::Water) => true,
        (Ability::WellBakedBody, Type::Fire) => true,
        _ => false,
    }
}

fn defender_multiplier(d: Ability, mv: &MoveData, t: Type) -> (r: (u64, u64))
    ensures
        r.0 == defender_modifier(d, *mv, t).0,
        r.1 == defender_modifier(d, *mv, t).1,
        1 <= r.1 <= 5,
        r.0 <= 2 * r.1,
{
    let contact = mv.has_flag(Flag::Contact);
    if d == Ability::DrySkin && t == Type::Fire {
        (4, 5)
    } else if d == Ability::Fluffy {
        (if contact { 2 } else { 1 }, if t == Type::Fire { 2 } else { 1 })
    } else if d == Ability::PunkRock && contact {
        (2, 1)
    } else if d == Ability::WaterBubble && t == Type::Fire {
        (2, 1)
    } else if d == Ability::IceScales && mv.category == Category::Special {
        (2, 1)
    } else {
        (1, 1)
    }
}

fn stab(attacker: &Pokemon, t: Type) -> (r: (u64, u64))
    ensures
        r.0 == stab_ratio(*attacker, t).0,
        r.1 == stab_ratio(*attacker, t).1,
        1 <= r.1 <= 2,
        r.0 <= 2 * r.1,
{
    let types = &attacker.species.types;
    let mut found = false;
    let mut i: usize = 0;
    while i < types.len()
        invariant
            i <= types@.len(),
            found == exists|j: int| 0 <= j < i && types@[j] == t,
        decreases types@.len() - i,
    {
        if types[i] == t {
            found = true;
        }
        i = i + 1;
    }
    assert(found == types@.contains(t));
    if found {
        if attacker.ability == Ability::Adaptability {
            (2, 1)
        } else {
            (3, 2)
        }
    } else {
        (1, 1)
    }
}

fn type_multiplier(dex: &Dex, defending: &Vec<Type>, t: Type) -> (r: (u64, u64))
    requires
        defending@.len() <= 2,
        forall|i: int|
            0 <= i < defending@.len() ==> lookup(dex.types@, type_key(#[trigger] defending@[i])) is Some,
    ensures
        r.0 == effectiveness(dex.types@, defending@, t).0,
        r.1 == effectiveness(dex.types@, defending@, t).1,
        1 <= r.1 <= 4,
        r.0 <= 4 * r.1,
{
    let mut num: u64 = 1;
    let mut den: u64 = 1;
    let mut i: usize = 0;
    while i < defending.len()
        invariant
            i <= defending@.len() <= 2,
            forall|j: int|
                0 <= j < defending@.len() ==> lookup(dex.types@, type_key(#[trigger] defending@[j])) is Some,
            num == effectiveness(dex.types@, defending@.subrange(0, i as int), t).0,
            den == effectiveness(dex.types@, defending@.subrange(0, i as int), t).1,
            1 <= den,
            i == 0 ==> num <= 1 && den <= 1,
            i == 1 ==> num <= 2 && den <= 2,
            i == 2 ==> num <= 4 && den <= 4,
        decreases defending@.len() - i,
    {
        let ghost sub = defending@.subrange(0, i + 1);
        proof {
            assert(sub.drop_last() =~= defending@.subrange(0, i as int));
            assert(sub.last() == defending@[i as int]);
        }
        let data = match dex.type_(defending[i]) {
            Ok(data) => data,
            Err(_) => {
                proof {
                    assert(lookup(dex.types@, type_key(defending@[i as int])) is Some);
                }
                return (1, 1);
            },
        };
        let m = data.damage_taken(t).to_multiplier();
        assert(num * m.num <= 2 * num && den * m.den <= 2 * den) by (nonlinear_arith)
            requires
                m.num <= 2,
                m.den <= 2,
        ;
        assert(1 <= den * m.den) by (nonlinear_arith)
            requires
                1 <= m.den,
                1 <= den,
        ;
        num = num * m.num as u64;
        den = den * m.den as u64;
        i = i + 1;
    }
    proof {
        assert(defending@.subrange(0, defending@.len() as int) =~= defending@);
    }
    (num, den)
}

/// The stages after the random roll, for one slot.
fn finish(x: u64, stab: (u64, u64), eff: (u64, u64), other: (u64, u64), hits: u64) -> (r: u64)
    requires
        x <= 1_017_882,
        1 <= stab.1 <= 2,
        stab.0 <= 2 * stab.1,
        1 <= eff.1 <= 4,
        eff.0 <= 4 * eff.1,
        1 <= other.1 <= 5,
        other.0 <= 2 * other.1,
        hits <= 255,
    ensures
        r == finish_slot(
            x as int,
            (stab.0 as int, stab.1 as int),
            (eff.0 as int, eff.1 as int),
            (other.0 as int, other.1 as int),
            hits as int,
        ),
        r <= 0xffff_ffff,
{
    let a = floor_scale(x, stab.0, stab.1);
    proof {
        lemma_scaled_le(x as int, stab.0 as int, stab.1 as int, 2);
    }
    let b = floor_scale(a, eff.0, eff.1);
    proof {
        lemma_scaled_le(a as int, eff.0 as int, eff.1 as int, 4);
    }
    let c = poke_scale(b, other.0, other.1);
    proof {
        lemma_scaled_le(b as int, other.0 as int, other.1 as int, 2);
        lemma_poke_whole(c as int, hits as int);
    }
    let v = poke_scale(c, hits, 1);
    assert(v <= 0xffff_ffff) by (nonlinear_arith)
        requires
            v as int == c as int * hits as int,
            c <= 16_286_112,
            hits <= 255,
    ;
    v
}

fn zero_range() -> (r: DamageRange)
    ensures
        forall|i: int| 0 <= i < 16 ==> r.0[i] == 0,
{
    DamageRange([0, 0, 0, 0, 0, 0, 0, 0, 0, 0, 0, 0, 0, 0, 0, 0])
}

/// The scalar damage of the hit, for a hit that deals damage.
#[verifier::rlimit(50)]
fn scalar(attacker: &Pokemon, defender: &Pokemon, move_: &MoveData, doubles: bool) -> (d: u64)
    requires
        attacker.level <= 100,
        offence_stat(*move_).is_battle_stat(),
        defence_stat(*move_).is_battle_stat(),
    ensures
        d == scalar_damage(*attacker, *defender, *move_, doubles),
        d <= 1_017_882,
{
    let ignore = move_.ignore_ability || breaks_ability(attacker.ability);
    let source = if move_.override_offensive_pokemon.is_some() {
        defender
    } else {
        attacker
    };
    let physical = move_.category == Category::Physical;
    let offence = match move_.override_offensive_stat {
        Some(s) => s,
        None => if physical { Stat::Attack } else { Stat::SpecialAttack },
    };
    let defence_kind = match move_.override_defensive_stat {
        Some(s) => s,
        None => if physical { Stat::Defence } else { Stat::SpecialDefence },
    };
    let t = move_type(attacker.ability, move_);
    let attack_stat = source.stat(offence) as u64;
    let quarters = attack_multiplier(attacker.ability, defender.ability, t, ignore);
    let attack = poke_scale(attack_stat, quarters, 4);
    let tenths = power_multiplier(attacker.ability, move_, t);
    let power = poke_scale(move_.base_power as u64, tenths, 10);
    let defence = defender.stat(defence_kind) as u64;
    proof {
        lemma_scaled_le(attack_stat as int, quarters as int, 4, 2);
        lemma_scaled_le(move_.base_power as int, tenths as int, 10, 2);
    }
    let level = attacker.level as u64;
    let l2 = level * 2 / 5 + 2;
    assert(l2 * power <= 42 * 510) by (nonlinear_arith)
        requires
            l2 <= 42,
            power <= 510,
    ;
    let lp = l2 * power;
    assert(lp * attack <= 42 * 510 * 4752) by (nonlinear_arith)
        requires
            lp <= 42 * 510,
            attack <= 4752,
    ;
    let lpa = lp * attack;
    let base = lpa / defence / 50 + 2;
    assert(base <= 508_941) by (nonlinear_arith)
        requires
            base as int == (lpa as int) / (defence as int) / 50 + 2,
            lpa <= 42 * 510 * 4752,
            defence >= 4,
    ;
    let targeted = if doubles && move_.target.is_multi_target() {
        poke_scale(base, 3, 4)
    } else {
        poke_scale(base, 1, 1)
    };
    proof {
        lemma_scaled_le(base as int, 3, 4, 1);
        lemma_scaled_le(base as int, 1, 1, 1);
    }
    let damage = if move_.will_crit {
        floor_scale(targeted, 3, 2)
    } else {
        targeted
    };
    proof {
        lemma_scaled_le(targeted as int, 3, 2, 2);
    }
    damage
}

/// The spread of the scalar damage `damage` under the slot multipliers.
fn spread(damage: u64, stab_r: (u64, u64), eff: (u64, u64), other: (u64, u64), hits: u64) -> (r: DamageRange)
    requires
        damage <= 1_017_882,
        1 <= stab_r.1 <= 2,
        stab_r.0 <= 2 * stab_r.1,
        1 <= eff.1 <= 4,
        eff.0 <= 4 * eff.1,
        1 <= other.1 <= 5,
        other.0 <= 2 * other.1,
        hits <= 255,
    ensures
        forall|i: int|
            0 <= i < 16 ==> r.0[i] as int == spread_of(
                damage as int,
                (stab_r.0 as int, stab_r.1 as int),
                (eff.0 as int, eff.1 as int),
                (other.0 as int, other.1 as int),
                hits as int,
            )[i],
{
    let ghost expected = spread_of(
        damage as int,
        (stab_r.0 as int, stab_r.1 as int),
        (eff.0 as int, eff.1 as int),
        (other.0 as int, other.1 as int),
        hits as int,
    );
    let mut slots = zero_range().0;
    let mut i: usize = 0;
    while i < 16
        invariant
            i <= 16,
            damage <= 1_017_882,
            1 <= stab_r.1 <= 2,
            stab_r.0 <= 2 * stab_r.1,
            1 <= eff.1 <= 4,
            eff.0 <= 4 * eff.1,
            1 <= other.1 <= 5,
            other.0 <= 2 * other.1,
            hits <= 255,
            expected == spread_of(
                damage as int,
                (stab_r.0 as int, stab_r.1 as int),
                (eff.0 as int, eff.1 as int),
                (other.0 as int, other.1 as int),
                hits as int,
            ),
            forall|j: int| 0 <= j < i ==> slots[j] as int == expected[j],
        decreases 16 - i,
    {
        assert(damage * (85 + i as u64) <= 1_017_882 * 100) by (nonlinear_arith)
            requires
                damage <= 1_017_882,
                i < 16,
        ;
        let x = damage * (85 + i as u64) / 100;
        assert(x <= damage) by (nonlinear_arith)
            requires
                x as int == damage as int * (85 + i as int) / 100,
                i < 16,
        ;
        let v = finish(x, stab_r, eff, other, hits);
        slots[i] = v as u32;
        i = i + 1;
    }
    DamageRange(slots)
}

/// Runs the damage pipeline for one hit of `move_` from `attacker` on `defender`.
pub fn damage_calc(dex: &Dex, attacker: &Pokemon, defender: &Pokemon, move_: &MoveData, doubles: bool) -> (r: DamageRange)
    requires
        move_.category == Category::Status || calc_supported(*dex, *attacker, *defender, *move_),
    ensures
        forall|i: int|
            0 <= i < 16 ==> r.0[i] as int == damage_spec(*dex, *attacker, *defender, *move_, doubles)[i],
        move_.category == Category::Status ==> forall|i: int| 0 <= i < 16 ==> r.0[i] == 0,
        !ignores_defender_ability(attacker.ability, *move_) && grants_immunity(
            defender.ability,
            effective_type(attacker.ability, *move_),
        ) ==> forall|i: int| 0 <= i < 16 ==> r.0[i] == 0,
{
    if move_.category == Category::Status {
        return zero_range();
    }
    let ignore = move_.ignore_ability || breaks_ability(attacker.ability);
    let t = move_type(attacker.ability, move_);
    if !ignore && immune(defender.ability, t) {
        return zero_range();
    }
    let damage = scalar(attacker, defender, move_, doubles);
    let stab_r = stab(attacker, t);
    let eff = type_multiplier(dex, &defender.species.types, t);
    let other = if ignore {
        (1, 1)
    } else {
        defender_multiplier(defender.ability, move_, t)
    };
    let hits = move_.number_of_hits.max() as u64;
    spread(damage, stab_r, eff, other, hits)
}

/// A calculation request that is filled in step by step: the attacker, the
/// defender and the move, in any order, each once.
#[derive(Clone, Copy)]
pub struct CalcBuilder<'a> {
    pub dex: &'a Dex,
    pub attacker: Option<Pokemon<'a>>,
    pub defender: Option<Pokemon<'a>>,
    pub move_: Option<&'a MoveData>,
}

/// The result of a calculation, with the request that produced it.
pub struct CalcOutcome<'a>(pub DamageRange, pub CalcBuilder<'a>);

impl<'a> CalcOutcome<'a> {
    pub fn damage_range(&self) -> (r: DamageRange)
        ensures
            r == self.0,
    {
        self.0
    }

    pub fn calc_details(&self) -> (r: &CalcBuilder<'a>)
        ensures
            *r == self.1,
    {
        &self.1
    }
}

impl Dex {
    /// An empty calculation request on this catalog.
    pub fn calc(&self) -> (r: CalcBuilder<'_>)
        ensures
            r.dex == self,
            r.attacker is None,
            r.defender is None,
            r.move_ is None,
    {
        CalcBuilder { dex: self, attacker: None, defender: None, move_: None }
    }
}

/// The moves of the catalog that the names resolve to, in order, leaving out
/// the names that resolve to none.
pub open spec fn resolved_moves(moves: Seq<(String, MoveData)>, names: Seq<Seq<char>>) -> Seq<MoveData>
    decreases names.len(),
{
    if names.len() == 0 {
        Seq::empty()
    } else {
        let rest = resolved_moves(moves, names.drop_last());
        match lookup(moves, identifier_view(names.last())) {
            Some(m) => rest.push(m),
            None => rest,
        }
    }
}

impl<'a> CalcBuilder<'a> {
    /// Attacker, defender and move are all set.
    pub open spec fn is_ready(self) -> bool {
        self.attacker is Some && self.defender is Some && self.move_ is Some
    }

    /// Ready, and within what `damage_calc` handles: a status move, or inputs
    /// that meet `calc_supported`.
    pub open spec fn supported(self) -> bool {
        self.is_ready() && (self.move_->Some_0.category == Category::Status || calc_supported(
            *self.dex,
            self.attacker->Some_0,
            self.defender->Some_0,
            *self.move_->Some_0,
        ))
    }

    pub fn attacker(self, attacker: Pokemon<'a>) -> (r: CalcBuilder<'a>)
        requires
            self.attacker is None,
        ensures
            r == (CalcBuilder { attacker: Some(attacker), ..self }),
    {
        CalcBuilder { attacker: Some(attacker), ..self }
    }

    pub fn defender(self, defender: Pokemon<'a>) -> (r: CalcBuilder<'a>)
        requires
            self.defender is None,
        ensures
            r == (CalcBuilder { defender: Some(defender), ..self }),
    {
        CalcBuilder { defender: Some(defender), ..self }
    }

    /// Sets the move by name; fails when the catalog has no such move.
    pub fn move_<Id: Identifier>(self, move_: Id) -> (r: Result<CalcBuilder<'a>, DexError>)
        requires
            self.move_ is None,
        ensures
            r is Ok <==> lookup(self.dex.moves@, move_.spec_identifier()) is Some,
            r matches Ok(b) ==> b.dex == self.dex && b.attacker == self.attacker && b.defender
                == self.defender && b.move_ is Some && lookup(
                self.dex.moves@,
                move_.spec_identifier(),
            ) == Some(*b.move_->Some_0),
            r matches Err(DexError::NotFound(s)) ==> s@ == move_.spec_identifier(),
    {
        let found = self.dex.move_(move_)?;
        Ok(CalcBuilder { move_: Some(found), ..self })
    }

    /// One request per move of the attacker's learnset that the catalog knows,
    /// in the learnset's order; fails when the catalog has no learnset for the
    /// attacker's species.
    pub fn all_possible_attacks(self) -> (r: Result<Vec<CalcBuilder<'a>>, DexError>)
        requires
            self.attacker is Some,
            self.defender is Some,
            self.move_ is None,
        ensures
            r is Ok <==> lookup(
                self.dex.learnsets@,
                identifier_view(self.attacker->Some_0.species.name@),
            ) is Some,
            r matches Ok(v) ==> {
                let l = lookup(
                    self.dex.learnsets@,
                    identifier_view(self.attacker->Some_0.species.name@),
                )->Some_0;
                let moves = resolved_moves(self.dex.moves@, learnset_names(l));
                &&& v@.len() == moves.len()
                &&& forall|i: int|
                    0 <= i < v@.len() ==> {
                        &&& (#[trigger] v@[i]).dex == self.dex
                        &&& v@[i].attacker == self.attacker
                        &&& v@[i].defender == self.defender
                        &&& v@[i].move_ is Some
                        &&& *v@[i].move_->Some_0 == moves[i]
                    }
            },
            r matches Err(DexError::NotFound(s)) ==> s@ == identifier_view(
                self.attacker->Some_0.species.name@,
            ),
    {
        let attacker = match self.attacker {
            Some(a) => a,
            None => {
                return Err(DexError::NotFound(String::new()));
            },
        };
        let learnset = self.dex.learnset(&attacker.species.name)?;
        let names = learnset.all_moves();
        let ghost all = learnset_names(*learnset);
        let mut out: Vec<CalcBuilder<'a>> = Vec::new();
        let mut i: usize = 0;
        while i < names.len()
            invariant
                self.move_ is None,
                i <= names@.len(),
                names@.len() == all.len(),
                forall|j: int| 0 <= j < names@.len() ==> (#[trigger] names@[j])@ == all[j],
                out@.len() == resolved_moves(self.dex.moves@, all.subrange(0, i as int)).len(),
                forall|j: int|
                    0 <= j < out@.len() ==> {
                        &&& (#[trigger] out@[j]).dex == self.dex
                        &&& out@[j].attacker == self.attacker
                        &&& out@[j].defender == self.defender
                        &&& out@[j].move_ is Some
                        &&& *out@[j].move_->Some_0 == resolved_moves(
                            self.dex.moves@,
                            all.subrange(0, i as int),
                        )[j]
                    },
            decreases names@.len() - i,
        {
            proof {
                let sub = all.subrange(0, i + 1);
                assert(sub.drop_last() =~= all.subrange(0, i as int));
                assert(sub.last() == names@[i as int]@);
            }
            match self.move_(names[i]) {
                Ok(b) => {
                    out.push(b);
                },
                Err(_) => {},
            }
            i = i + 1;
        }
        proof {
            assert(all.subrange(0, all.len() as int) =~= all);
        }
        Ok(out)
    }

    /// Checks at run time what `calc` requires.
    pub fn is_supported(&self) -> (r: bool)
        ensures
            r == self.supported(),
    {
        let (attacker, defender, mv) = match (self.attacker, self.defender, self.move_) {
            (Some(a), Some(d), Some(m)) => (a, d, m),
            _ => {
                return false;
            },
        };
        if mv.category == Category::Status {
            return true;
        }
        let physical = mv.category == Category::Physical;
        let offence = match mv.override_offensive_stat {
            Some(s) => s,
            None => if physical { Stat::Attack } else { Stat::SpecialAttack },
        };
        let defence = match mv.override_defensive_stat {
            Some(s) => s,
            None => if physical { Stat::Defence } else { Stat::SpecialDefence },
        };
        if attacker.level > 100 || offence == Stat::Accuracy || offence == Stat::Evasion
            || defence == Stat::Accuracy || defence == Stat::Evasion
            || defender.species.types.len() > 2 {
            return false;
        }
        let types = &defender.species.types;
        let mut i: usize = 0;
        while i < types.len()
            invariant
                i <= types@.len(),
                self.supported() == (forall|j: int|
                    0 <= j < types@.len() ==> lookup(self.dex.types@, type_key(#[trigger] types@[j])) is Some),
                forall|j: int| 0 <= j < i ==> lookup(self.dex.types@, type_key(#[trigger] types@[j])) is Some,
            decreases types@.len() - i,
        {
            if self.dex.type_(types[i]).is_err() {
                proof {
                    assert(lookup(self.dex.types@, type_key(types@[i as int])) is None);
                }
                return false;
            }
            i = i + 1;
        }
        true
    }

    /// Runs the damage pipeline once on the request.
    pub fn calc(self, doubles: bool) -> (r: CalcOutcome<'a>)
        requires
            self.supported(),
        ensures
            r.1 == self,
            forall|i: int|
                0 <= i < 16 ==> r.0.0[i] as int == damage_spec(
                    *self.dex,
                    self.attacker->Some_0,
                    self.defender->Some_0,
                    *self.move_->Some_0,
                    doubles,
                )[i],
    {
        let attacker = self.attacker.unwrap();
        let defender = self.defender.unwrap();
        let mv = self.move_.unwrap();
        let result = damage_calc(self.dex, &attacker, &defender, mv, doubles);
        CalcOutcome(result, self)
    }

    /// The request in words: `<attacker> <move> -> <defender>`.
    pub fn describe(&self) -> (r: String)
        requires
            self.is_ready(),
        ensures
            r@ == self.attacker->Some_0.species.name@ + " "@ + self.move_->Some_0.name@ + " -> "@
                + self.defender->Some_0.species.name@,
    {
        let attacker = self.attacker.unwrap();
        let defender = self.defender.unwrap();
        let mv = self.move_.unwrap();
        let mut s = attacker.species.name.clone();
        s.append(" ");
        s.append(mv.name.as_str());
        s.append(" -> ");
        s.append(defender.species.name.as_str());
        s
    }
}

proof fn lemma_roll_mono(d: int, e: int, i: int, j: int)
    requires
        0 <= d <= e,
        0 <= i <= j,
    ensures
        0 <= roll(d, i) <= roll(e, j),
{
    assert(0 <= d * (85 + i) <= e * (85 + j)) by (nonlinear_arith)
        requires
            0 <= d <= e,
            0 <= i <= j,
    ;
    lemma_div_is_ordered(0, d * (85 + i), 100);
    lemma_div_is_ordered(d * (85 + i), e * (85 + j), 100);
}

/// The slot multipliers: non-negative ratios with positive denominators.
pub open spec fn valid_factors(stab: (int, int), eff: (int, int), other: (int, int), hits: int) -> bool {
    0 <= stab.0 && 0 < stab.1 && 0 <= eff.0 && 0 < eff.1 && 0 <= other.0 && 0 < other.1 && 0 <= hits
}

proof fn lemma_finish_mono(x: int, y: int, stab: (int, int), eff: (int, int), other: (int, int), hits: int)
    requires
        0 <= x <= y,
        valid_factors(stab, eff, other, hits),
    ensures
        0 <= finish_slot(x, stab, eff, other, hits) <= finish_slot(y, stab, eff, other, hits),
{
    let a = floor_mul(x, stab.0, stab.1);
    let b = floor_mul(y, stab.0, stab.1);
    lemma_scaled_nonneg(x, stab.0, stab.1);
    lemma_scaled_mono(x, y, stab.0, stab.1);
    let c = floor_mul(a, eff.0, eff.1);
    let e = floor_mul(b, eff.0, eff.1);
    lemma_scaled_nonneg(a, eff.0, eff.1);
    lemma_scaled_mono(a, b, eff.0, eff.1);
    let f = poke_round_mul(c, other.0, other.1);
    let g = poke_round_mul(e, other.0, other.1);
    lemma_scaled_nonneg(c, other.0, other.1);
    lemma_scaled_mono(c, e, other.0, other.1);
    lemma_scaled_nonneg(f, hits, 1);
    lemma_scaled_mono(f, g, hits, 1);
}

proof fn lemma_effectiveness_valid(types: Seq<(String, crate::types::TypeData)>, defending: Seq<Type>, t: Type)
    ensures
        0 <= effectiveness(types, defending, t).0,
        0 < effectiveness(types, defending, t).1,
    decreases defending.len(),
{
    if defending.len() > 0 {
        lemma_effectiveness_valid(types, defending.drop_last(), t);
        let rest = effectiveness(types, defending.drop_last(), t);
        let m = relation_multiplier(lookup(types, type_key(defending.last()))->Some_0.relation_to(t));
        assert(0 <= rest.0 * m.num && 0 < rest.1 * m.den) by (nonlinear_arith)
            requires
                0 <= rest.0,
                0 < rest.1,
                0 < m.den,
        ;
    }
}

/// The factors and the scalar damage of a supported hit are in range.
proof fn lemma_hit_valid(dex: Dex, attacker: Pokemon, defender: Pokemon, mv: MoveData, doubles: bool)
    requires
        calc_supported(dex, attacker, defender, mv),
    ensures
        0 <= scalar_damage(attacker, defender, mv, doubles),
        valid_factors(
            stab_ratio(attacker, effective_type(attacker.ability, mv)),
            effectiveness(dex.types@, defender.species.types@, effective_type(attacker.ability, mv)),
            other_ratio(attacker, defender, mv),
            mv.number_of_hits.spec_max() as int,
        ),
{
    let t = effective_type(attacker.ability, mv);
    let ignore = ignores_defender_ability(attacker.ability, mv);
    lemma_effectiveness_valid(dex.types@, defender.species.types@, t);
    let source = offence_source(attacker, defender, mv);
    lemma_stat_bounds(source, offence_stat(mv));
    lemma_stat_bounds(defender, defence_stat(mv));
    let stat = source.spec_stat(offence_stat(mv));
    let attack = poke_round_mul(stat, attack_quarters(attacker.ability, defender.ability, t, ignore), 4);
    let power = poke_round_mul(mv.base_power as int, power_tenths(attacker.ability, mv, t), 10);
    let defence = defender.spec_stat(defence_stat(mv));
    lemma_scaled_nonneg(stat, attack_quarters(attacker.ability, defender.ability, t, ignore), 4);
    lemma_scaled_nonneg(mv.base_power as int, power_tenths(attacker.ability, mv, t), 10);
    let l = attacker.level as int;
    let p = ((2 * l / 5 + 2) * power) * attack;
    assert(0 <= p) by (nonlinear_arith)
        requires
            p == ((2 * l / 5 + 2) * power) * attack,
            0 <= l,
            0 <= power,
            0 <= attack,
    ;
    lemma_div_is_ordered(0, p, defence);
    lemma_div_is_ordered(0, p / defence, 50);
    let base = base_damage(l, power, attack, defence);
    lemma_scaled_nonneg(base, 3, 4);
    lemma_scaled_nonneg(base, 1, 1);
    let targeted = if doubles && mv.target.spec_is_multi_target() {
        poke_round_mul(base, 3, 4)
    } else {
        poke_round_mul(base, 1, 1)
    };
    lemma_scaled_nonneg(targeted, 3, 2);
}

/// A status move deals no damage.
pub proof fn lemma_status_deals_nothing(dex: Dex, attacker: Pokemon, defender: Pokemon, mv: MoveData, doubles: bool)
    requires
        mv.category == Category::Status,
    ensures
        damage_spec(dex, attacker, defender, mv, doubles) == zero_spread(),
{
}

/// A move of a type that the defender's ability grants immunity to deals no
/// damage, unless the defender's ability is bypassed.
pub proof fn lemma_ability_immunity(dex: Dex, attacker: Pokemon, defender: Pokemon, mv: MoveData, doubles: bool)
    requires
        !ignores_defender_ability(attacker.ability, mv),
        grants_immunity(defender.ability, effective_type(attacker.ability, mv)),
    ensures
        damage_spec(dex, attacker, defender, mv, doubles) == zero_spread(),
{
}

/// The sixteen values never decrease from the lowest roll to the highest.
pub proof fn lemma_spread_non_decreasing(dex: Dex, attacker: Pokemon, defender: Pokemon, mv: MoveData, doubles: bool)
    requires
        calc_supported(dex, attacker, defender, mv),
    ensures
        forall|i: int, j: int|
            0 <= i <= j < 16 ==> damage_spec(dex, attacker, defender, mv, doubles)[i] <= damage_spec(
                dex,
                attacker,
                defender,
                mv,
                doubles,
            )[j],
{
    if !deals_nothing(attacker, defender, mv) {
        lemma_hit_valid(dex, attacker, defender, mv, doubles);
        let t = effective_type(attacker.ability, mv);
        let d = scalar_damage(attacker, defender, mv, doubles);
        let stab = stab_ratio(attacker, t);
        let eff = effectiveness(dex.types@, defender.species.types@, t);
        let other = other_ratio(attacker, defender, mv);
        let hits = mv.number_of_hits.spec_max() as int;
        assert forall|i: int, j: int| 0 <= i <= j < 16 implies spread_of(d, stab, eff, other, hits)[i]
            <= spread_of(d, stab, eff, other, hits)[j] by {
            lemma_roll_mono(d, d, i, j);
            lemma_finish_mono(roll(d, i), roll(d, j), stab, eff, other, hits);
        }
    }
}

/// A multi-hit move's spread is its single-hit spread times the largest hit
/// count, with biased rounding per slot.
pub proof fn lemma_multi_hit(dex: Dex, attacker: Pokemon, defender: Pokemon, multi: MoveData, single: MoveData, doubles: bool)
    requires
        calc_supported(dex, attacker, defender, multi),
        single == (MoveData { number_of_hits: NumberOfHits::Normal, ..multi }),
    ensures
        forall|i: int|
            0 <= i < 16 ==> damage_spec(dex, attacker, defender, multi, doubles)[i] == poke_round_mul(
                damage_spec(dex, attacker, defender, single, doubles)[i],
                multi.number_of_hits.spec_max() as int,
                1,
            ),
{
    let hits = multi.number_of_hits.spec_max() as int;
    assert(effective_type(attacker.ability, single) == effective_type(attacker.ability, multi));
    assert(scalar_damage(attacker, defender, single, doubles) == scalar_damage(attacker, defender, multi, doubles));
    if deals_nothing(attacker, defender, multi) {
        lemma_poke_whole(0, hits);
    } else {
        lemma_hit_valid(dex, attacker, defender, multi, doubles);
        let t = effective_type(attacker.ability, multi);
        let d = scalar_damage(attacker, defender, multi, doubles);
        let stab = stab_ratio(attacker, t);
        let eff = effectiveness(dex.types@, defender.species.types@, t);
        let other = other_ratio(attacker, defender, multi);
        assert forall|i: int| 0 <= i < 16 implies damage_spec(dex, attacker, defender, multi, doubles)[i]
            == poke_round_mul(damage_spec(dex, attacker, defender, single, doubles)[i], hits, 1) by {
            let x = roll(d, i);
            lemma_roll_mono(d, d, i, i);
            let y = poke_round_mul(floor_mul(floor_mul(x, stab.0, stab.1), eff.0, eff.1), other.0, other.1);
            lemma_finish_mono(x, x, stab, eff, other, 1);
            lemma_scaled_nonneg(x, stab.0, stab.1);
            lemma_scaled_nonneg(floor_mul(x, stab.0, stab.1), eff.0, eff.1);
            lemma_scaled_nonneg(floor_mul(floor_mul(x, stab.0, stab.1), eff.0, eff.1), other.0, other.1);
            lemma_poke_whole(y, 1);
        }
    }
}

/// A smaller type multiplier never gives more damage in any slot: a resisted
/// move deals at most what the same move deals at neutral effectiveness.
pub proof fn lemma_resisted_not_higher(
    d: int,
    stab: (int, int),
    resisted: (int, int),
    neutral: (int, int),
    other: (int, int),
    hits: int,
)
    requires
        0 <= d,
        valid_factors(stab, resisted, other, hits),
        valid_factors(stab, neutral, other, hits),
        resisted.0 * neutral.1 <= neutral.0 * resisted.1,
    ensures
        forall|i: int|
            0 <= i < 16 ==> spread_of(d, stab, resisted, other, hits)[i] <= spread_of(
                d,
                stab,
                neutral,
                other,
                hits,
            )[i],
{
    assert forall|i: int| 0 <= i < 16 implies spread_of(d, stab, resisted, other, hits)[i]
        <= spread_of(d, stab, neutral, other, hits)[i] by {
        let x = roll(d, i);
        lemma_roll_mono(d, d, i, i);
        let a = floor_mul(x, stab.0, stab.1);
        lemma_scaled_nonneg(x, stab.0, stab.1);
        let low = floor_mul(a, resisted.0, resisted.1);
        let high = floor_mul(a, neutral.0, neutral.1);
        lemma_smaller_ratio(a, resisted.0, resisted.1, neutral.0, neutral.1);
        lemma_scaled_nonneg(a, resisted.0, resisted.1);
        lemma_scaled_mono(low, high, other.0, other.1);
        lemma_scaled_nonneg(low, other.0, other.1);
        lemma_scaled_mono(
            poke_round_mul(low, other.0, other.1),
            poke_round_mul(high, other.0, other.1),
            hits,
            1,
        );
    }
}

/// A move that always lands a critical hit raises the scalar damage of the same
/// move without it by half (rounded down), and with it every slot.
pub proof fn lemma_critical_hit(dex: Dex, attacker: Pokemon, defender: Pokemon, plain: MoveData, crit: MoveData, doubles: bool)
    requires
        calc_supported(dex, attacker, defender, plain),
        !plain.will_crit,
        crit == (MoveData { will_crit: true, ..plain }),
    ensures
        scalar_damage(attacker, defender, crit, doubles) == floor_mul(
            scalar_damage(attacker, defender, plain, doubles),
            3,
            2,
        ),
        !deals_nothing(attacker, defender, plain) ==> damage_spec(dex, attacker, defender, crit, doubles)
            == spread_of(
            floor_mul(scalar_damage(attacker, defender, plain, doubles), 3, 2),
            stab_ratio(attacker, effective_type(attacker.ability, plain)),
            effectiveness(dex.types@, defender.species.types@, effective_type(attacker.ability, plain)),
            other_ratio(attacker, defender, plain),
            plain.number_of_hits.spec_max() as int,
        ),
        forall|i: int|
            0 <= i < 16 ==> damage_spec(dex, attacker, defender, plain, doubles)[i] <= damage_spec(
                dex,
                attacker,
                defender,
                crit,
                doubles,
            )[i],
{
    assert(effective_type(attacker.ability, crit) == effective_type(attacker.ability, plain));
    if !deals_nothing(attacker, defender, plain) {
        lemma_hit_valid(dex, attacker, defender, plain, doubles);
        let t = effective_type(attacker.ability, plain);
        let d = scalar_damage(attacker, defender, plain, doubles);
        let e = floor_mul(d, 3, 2);
        assert(d <= e) by (nonlinear_arith)
            requires
                0 <= d,
                e == d * 3 / 2,
        ;
        let stab = stab_ratio(attacker, t);
        let eff = effectiveness(dex.types@, defender.species.types@, t);
        let other = other_ratio(attacker, defender, plain);
        let hits = plain.number_of_hits.spec_max() as int;
        assert forall|i: int| 0 <= i < 16 implies spread_of(d, stab, eff, other, hits)[i] <= spread_of(
            e,
            stab,
            eff,
            other,
            hits,
        )[i] by {
            lemma_roll_mono(d, e, i, i);
            lemma_finish_mono(roll(d, i), roll(e, i), stab, eff, other, hits);
        }
    }
}

} // verus!
