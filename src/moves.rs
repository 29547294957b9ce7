//! Moves and the catalog values they are described with.

use vstd::prelude::*;

use crate::generation::{move_generation, move_generation_of, Generation};
use crate::parsing_utils::{Either, NotImplemented};
use crate::species::Stat;
use crate::types::Type;

verus! {

#[derive(Clone, Copy, Debug, PartialEq, Eq, Structural)]
pub enum NonStandardReason {
    LGPE,
    Past,
    Future,
    CAP,
    Gigantamax,
    Unobtainable,
}

#[derive(Clone, Copy, Debug, PartialEq, Eq, Structural)]
pub enum ContestType {
    Clever,
    Cute,
    Tough,
    Beautiful,
    Cool,
}

#[derive(Clone, Copy, Debug, PartialEq, Eq, Structural)]
pub enum VolatileStatus {
    Minimize,
    HealBlock,
    MiracleEye,
    Torment,
    BanefulBunker,
    LaserFocus,
    Grudge,
    Bide,
    KingsShield,
    Magnetrise,
    Charge,
    Protect,
    MaxGuard,
    BurningBulwark,
    Curse,
    PartiallyTrapped,
    Spotlight,
    Stockpile,
    Electrify,
    Tarshot,
    Obstruct,
    Smackdown,
    FocusEnergy,
    Foresight,
    Disable,
    Confusion,
    Snatch,
    NoRetreat,
    Octolock,
    DefenseCurl,
    LeechSeed,
    MagicCoat,
    Ingrain,
    DragonCheer,
    FollowMe,
    Nightmare,
    Taunt,
    Telekinesis,
    Endure,
    Attract,
    DestinyBond,
    Powder,
    Substitute,
    AquaRing,
    SilkTrap,
    Imprison,
    PowerShift,
    PowerTrick,
    SpikyShield,
    HelpingHand,
    GastroAcid,
    Embargo,
    Encore,
    RagePowder,
    Yawn,
    Flinch,
    MustRecharge,
    Roost,
    LockedMove,
    Rage,
    GlaiveRush,
    UpRoar,
    SaltCure,
    SparklingAria,
    SyrupBomb,

    // Past Volatile Statuses
    MudSport,
    Autotomize,
    WaterSport,
    Mist,
    LightScreen,
    Reflect,
}

#[derive(Clone, Copy, Debug, PartialEq, Eq, Structural)]
pub enum SideCondition {
    Reflect,
    Mist,
    ToxicSpikes,
    CraftyShield,
    AuroraVeil,
    MatBlock,
    LuckyChant,
    SafeGuard,
    StickyWeb,
    Spikes,
    Tailwind,
    WideGuard,
    QuickGuard,
    StealthRock,
    LightScreen,
}

#[derive(Clone, Copy, Debug, PartialEq, Eq, Structural)]
pub enum UniqueSelfSwitch {
    CopyVolatile,
    ShedTail,
}

#[derive(Clone, Copy, Debug, PartialEq, Eq, Structural)]
pub enum Weather {
    Sandstorm,
    SunnyDay,
    RainDance,
    Snow,
    Hail,
}

#[derive(Clone, Copy, Debug, PartialEq, Eq, Structural)]
pub enum Status {
    Toxic,
    Burn,
    Paralysis,
    Sleep,
    Poison,
    Frozen,
}

#[derive(Clone, Copy, Debug, PartialEq, Eq, Structural)]
pub enum Terrain {
    Misty,
    Psychic,
    Grassy,
    Electric,
}

#[derive(Clone, Copy, Debug, PartialEq, Eq, Structural)]
pub enum SelfDestruct {
    Always,
    IfHit
}

#[derive(Clone, Copy, Debug, PartialEq, Eq, Structural)]
pub enum PseudoWeather {
    IonDeluge,
    MagicRoom,
    WaterSport,
    FairyLock,
    WonderRoom,
    TrickRoom,
    Gravity,
    MudSport,
}



#[derive(Clone, Copy, Debug, PartialEq, Eq, Structural)]
pub enum OverrideOffensivePokemon {
    Target
}

#[derive(Clone, Copy, Debug, PartialEq, Eq, Structural)]
pub enum SlotCondition {
    HealingWish,
    FollowMe, // Past
    LunarDance,
    RevivalBlessing,
    Wish,
}

#[derive(Clone, Copy, Debug, PartialEq, Eq, Structural)]
pub enum Flag {
    AllyAnim,
    Bite,
    Bullet,
    BypassSub,
    CantUseTwice,
    Charge,
    Contact,
    Dance,
    Defrost,
    Distance,
    FailCopycat,
    Failencore,
    FailInstruct,
    FailMeFirst,
    FailMimic,
    FutureMove,
    Gravity,
    Heal,
    Metronome,
    Mirror,
    MustPressure,
    NoAssist,
    NonSky,
    NoParentalBond,
    NoSketch,
    NoSleepTalk,
    PledgeCombo,
    Powder,
    Protect,
    Pulse,
    Punch,
    Recharge,
    Reflectable,
    Slicing,
    Snatch,
    Sound,
    Wind,
}

#[derive(Clone, Copy, Debug, PartialEq, Eq, Structural)]
pub enum Target {
    AllySide,
    AdjacentAlly,
    FoeSide,
    AllAdjacent,
    Scripted,
    All,
    Normal,
    AllAdjacentFoes,
    AdjacentAllyOrSelf,
    AllyTeam,
    Self_,
    Any,
    Allies,
    AdjacentFoe,
    RandomNormal,
}

#[derive(Clone, Copy, Debug, PartialEq, Eq, Structural)]
pub enum Category {
    Physical,
    Special,
    Status,
}

#[derive(Clone, Copy, Debug, PartialEq, Eq, Structural)]
pub enum UniqueDamage {
    Level
}

/// A move of the catalog.
#[derive(Debug)]
pub struct MoveData {
    pub num: i32,
    pub accuracy: Accuracy,
    pub base_power: u8,
    pub category: Category,
    /// `Some(reason)`: this move is typically illegal in this generation for the given reason.
    pub is_nonstandard: Option<NonStandardReason>,
    pub name: String,
    pub pp: u8,
    pub priority: i8,
    pub flags: FlagList,
    pub crit_ratio: CritRatio,
    pub secondaries: Option<Vec<Secondary>>,
    pub target: Target,
    pub type_: Type,
    pub contest_type: Option<ContestType>,
    pub description: String,
    pub short_description: String,
    /// Share of the damage dealt that the user heals.
    pub drain: Option<PokeFraction>,
    /// The Z-crystal this move is derived from, for a Z-move.
    pub z_crystal: Option<String>,
    pub z_move: Option<ZMoveData>,
    pub number_of_hits: NumberOfHits,
    /// Whether this move causes the user to use a different move. See Metronome.
    pub calls_move: bool,
    /// Whether the user loses half of its HP on a miss. See High Jump Kick.
    pub has_crash_damage: bool,
    /// Whether this move has a scaling chance to fail with each consecutive use. See Protect.
    pub stalling_move: bool,
    pub self_switch: SelfSwitch,
    pub ignore_immunity: IgnoreImmunity,
    /// The offensive stat to use instead of Attack / Special Attack. See Body Press.
    pub override_offensive_stat: Option<Stat>,
    pub is_max: IsMaxMove,
    pub max_move: Option<MaxMoveData>,
    /// Share of the damage dealt that the user takes as recoil.
    pub recoil: Option<PokeFraction>,
    /// Ignores the target's defensive stat changes. See Darkest Lariat.
    pub ignore_defensive: bool,
    /// Ignores the target's evasion changes. See Darkest Lariat.
    pub ignore_evasion: bool,
    /// Whether this move forces the opponent to switch out. See Roar.
    pub force_switch: bool,
    /// `Some(target)`: this move's target when not used by a Ghost type. See Curse.
    pub non_ghost_target: Option<Target>,
    /// In doubles, hit each foe once. See Dragon Darts.
    pub smart_target: bool,
    pub damage: Option<AlternativeDamage>,
    /// Benefits from Sheer Force although the secondary effects still happen. See Electro Shot.
    pub has_sheer_force: bool,
    pub selfdestruct: Option<SelfDestruct>,
    /// See Feint.
    pub breaks_protect: bool,
    pub ohko: Option<OHKO>,
    /// Whether the move always lands a critical hit. See Surging Strikes.
    pub will_crit: bool,
    /// Whose offensive stat is used, when not the user's. See Foul Play.
    pub override_offensive_pokemon: Option<OverrideOffensivePokemon>,
    pub ignore_ability: bool,
    pub slot_condition: Option<SlotCondition>,
    /// Share of their HP the targets recover. See Recover.
    pub heal: Option<PokeFraction>,
    /// The name of the real move, for a derived move. See Hidden Power Fire.
    pub real_move: Option<String>,
    pub thaws_target: bool,
    /// Whether the user loses half of its HP even if the move fails. See Mind Blown.
    pub mind_blown_recoil: bool,
    /// The defensive stat to use instead of the category's. See Psystrike.
    pub override_defensive_stat: Option<Stat>,
    /// Whether this move's default PP is also its maximum PP.
    pub no_pp_boosts: bool,
    /// Whether this move can be used while asleep. See Sleep Talk.
    pub sleep_usable: bool,
    /// If true, this move cannot be redirected. See Snipe Shot.
    pub tracks_target: bool,
    /// If true, the target's raised stats are stolen before dealing damage. See Spectral Thief.
    pub steals_boosts: bool,
    /// Whether the move costs the user a quarter of its HP if it succeeds.
    /// Not recoil for Rock Head, Reckless, Magic Guard and the like.
    pub struggle_recoil: bool,
    /// Whether the move checks accuracy before each hit. See Population Bomb.
    pub multiaccuracy: bool,
    pub self_boost: Option<BoostsList>,
    pub target_effects: Option<MoveEffects>,
    pub self_effects: Option<MoveEffects>,
}

impl MoveData {
    /// A move with the given identity and power, and every other field at its default:
    /// always hits, 1 PP, no flags, single hit, no overrides or side effects.
    pub fn new(name: String, type_: Type, category: Category, base_power: u8, target: Target) -> (r: MoveData)
        ensures
            r.name@ == name@,
            r.type_ == type_,
            r.category == category,
            r.base_power == base_power,
            r.target == target,
            r.flags.0@.len() == 0,
            r.number_of_hits == NumberOfHits::Normal,
            r.z_crystal is None,
            !r.has_crash_damage,
            r.recoil is None,
            !r.has_sheer_force,
            !r.will_crit,
            !r.ignore_ability,
            r.override_offensive_pokemon is None,
            r.override_offensive_stat is None,
            r.override_defensive_stat is None,
            r.num == 0,
            r.accuracy == Accuracy::AlwaysHits,
            r.is_nonstandard is None,
            r.pp == 1,
            r.priority == 0,
            r.crit_ratio == CritRatio::Standard,
            r.is_max is NotAMaxMove,
            !r.mind_blown_recoil,
            !r.struggle_recoil,
    {
        MoveData {
            num: 0,
            accuracy: Accuracy::AlwaysHits,
            base_power,
            category,
            is_nonstandard: None,
            name,
            pp: 1,
            priority: 0,
            flags: FlagList(Vec::new()),
            crit_ratio: CritRatio::Standard,
            secondaries: None,
            target,
            type_,
            contest_type: None,
            description: String::new(),
            short_description: String::new(),
            drain: None,
            z_crystal: None,
            z_move: None,
            number_of_hits: NumberOfHits::Normal,
            calls_move: false,
            has_crash_damage: false,
            stalling_move: false,
            self_switch: SelfSwitch::False,
            ignore_immunity: IgnoreImmunity::DoesntIgnoreImmunity,
            override_offensive_stat: None,
            is_max: IsMaxMove::NotAMaxMove,
            max_move: None,
            recoil: None,
            ignore_defensive: false,
            ignore_evasion: false,
            force_switch: false,
            non_ghost_target: None,
            smart_target: false,
            damage: None,
            has_sheer_force: false,
            selfdestruct: None,
            breaks_protect: false,
            ohko: None,
            will_crit: false,
            override_offensive_pokemon: None,
            ignore_ability: false,
            slot_condition: None,
            heal: None,
            real_move: None,
            thaws_target: false,
            mind_blown_recoil: false,
            override_defensive_stat: None,
            no_pp_boosts: false,
            sleep_usable: false,
            tracks_target: false,
            steals_boosts: false,
            struggle_recoil: false,
            multiaccuracy: false,
            self_boost: None,
            target_effects: None,
            self_effects: None,
        }
    }

    pub fn has_flag(&self, flag: Flag) -> (r: bool)
        ensures
            r == self.flags.0@.contains(flag),
    {
        self.flags.has_flag(flag)
    }

    /// The generation that introduced the move: Max moves came with the eighth,
    /// the others go by their number.
    pub open spec fn first_generation(&self) -> Generation {
        if !(self.is_max is NotAMaxMove) {
            Generation::Eight
        } else {
            move_generation_of(self.num)
        }
    }

    /// Marks the move as from the future when it came after `gen`. Moves with
    /// a number of 0 or less are left alone.
    pub fn set_future(&mut self, gen: Generation)
        ensures
            old(self).num > 0 && old(self).first_generation().spec_number() > gen.spec_number()
                ==> *final(self) == (MoveData {
                is_nonstandard: Some(NonStandardReason::Future),
                ..*old(self)
            }),
            !(old(self).num > 0 && old(self).first_generation().spec_number() > gen.spec_number())
                ==> *final(self) == *old(self),
    {
        let future = if self.num <= 0 {
            false
        } else {
            let first = if self.is_max.is_max_move() {
                Generation::Eight
            } else {
                move_generation(self.num)
            };
            first.number() > gen.number()
        };
        if future {
            self.is_nonstandard = Some(NonStandardReason::Future);
        }
    }
}

/// The catalog's secondary effects: one, none, or a list of them.
pub fn secondaries_from(value: Either<Option<Secondary>, Vec<Secondary>>) -> (r: Option<Vec<Secondary>>)
    ensures
        r is Some,
        value matches Either::A(Some(a)) ==> r->Some_0@ == seq![a],
        value matches Either::A(None) ==> r->Some_0@.len() == 0,
        value matches Either::B(b) ==> r->Some_0 == b,
{
    match value {
        Either::A(Some(a)) => Some(vec![a]),
        Either::A(None) => Some(Vec::new()),
        Either::B(b) => Some(b),
    }
}

/// `Raised(1)` is one stage above the standard critical-hit ratio.
#[derive(Clone, Copy, Debug, PartialEq, Eq, Structural)]
pub enum CritRatio {
    Standard,
    Raised(u8),
}

impl CritRatio {
    /// Reads the catalog's ratio, where 1 is standard and 2 is one stage raised.
    pub fn try_from(value: u8) -> (r: Result<CritRatio, NotImplemented>)
        ensures
            r is Err <==> value == 0,
            value == 1 ==> r == Ok::<CritRatio, NotImplemented>(CritRatio::Standard),
            value >= 2 ==> r == Ok::<CritRatio, NotImplemented>(CritRatio::Raised((value - 1) as u8)),
    {
        if value == 0 {
            Err(NotImplemented("CritRatio starts at 1, 0 is invalid."))
        } else if value == 1 {
            Ok(CritRatio::Standard)
        } else {
            Ok(CritRatio::Raised(value - 1))
        }
    }
}

/// A fraction as the catalog writes it, `[numerator, denominator]`.
#[derive(Clone, Copy, Debug, PartialEq, Eq, Structural)]
pub struct PokeFraction {
    pub numerator: u8,
    pub demoninator: u8,
}

impl PokeFraction {
    pub fn from_pair(value: [u8; 2]) -> (r: PokeFraction)
        ensures
            r.numerator == value[0],
            r.demoninator == value[1],
    {
        PokeFraction { numerator: value[0], demoninator: value[1] }
    }
}

#[derive(Clone, Debug)]
pub struct Secondary {
    /// Whether Shield Dust stops it.
    pub dustproof: bool,
    pub target_effects: MoveEffects,
    pub self_effects: Option<MoveEffects>,
}

#[derive(Clone, Copy, Debug)]
pub struct MoveEffects {
    pub chance: Option<u8>,
    pub boosts: Option<BoostsList>,
    pub volatile_status: Option<VolatileStatus>,
    pub side_condition: Option<SideCondition>,
    pub pseudo_weather: Option<PseudoWeather>,
    pub weather: Option<Weather>,
    pub terrain: Option<Terrain>,
    pub status: Option<Status>,
}

#[derive(Clone, Debug)]
pub enum IsMaxMove {
    NotAMaxMove,
    GenericMaxMove,
    ForPokemon(String),
}

impl IsMaxMove {
    pub fn from_bool(value: bool) -> (r: IsMaxMove)
        ensures
            value ==> r is GenericMaxMove,
            !value ==> r is NotAMaxMove,
    {
        if value {
            IsMaxMove::GenericMaxMove
        } else {
            IsMaxMove::NotAMaxMove
        }
    }

    pub fn from_name(value: String) -> (r: IsMaxMove)
        ensures
            r == IsMaxMove::ForPokemon(value),
    {
        IsMaxMove::ForPokemon(value)
    }

    pub fn is_max_move(&self) -> (r: bool)
        ensures
            r == !(self is NotAMaxMove),
    {
        match self {
            IsMaxMove::GenericMaxMove | IsMaxMove::ForPokemon(_) => true,
            IsMaxMove::NotAMaxMove => false,
        }
    }
}

#[derive(Clone, Debug)]
pub enum IgnoreImmunity {
    DoesntIgnoreImmunity,
    IgnoresImmunity,
    Types(Vec<Type>),
}

/// The keys of `entries` whose value is true, in order.
pub open spec fn true_keys<K>(entries: Seq<(K, bool)>) -> Seq<K>
    decreases entries.len(),
{
    if entries.len() == 0 {
        Seq::empty()
    } else if entries.last().1 {
        true_keys(entries.drop_last()).push(entries.last().0)
    } else {
        true_keys(entries.drop_last())
    }
}

/// The keys of `entries` whose value is 1, in order.
pub open spec fn set_flags(entries: Seq<(Flag, u8)>) -> Seq<Flag>
    decreases entries.len(),
{
    if entries.len() == 0 {
        Seq::empty()
    } else if entries.last().1 == 1 {
        set_flags(entries.drop_last()).push(entries.last().0)
    } else {
        set_flags(entries.drop_last())
    }
}

impl IgnoreImmunity {
    pub fn from_bool(value: bool) -> (r: IgnoreImmunity)
        ensures
            value ==> r is IgnoresImmunity,
            !value ==> r is DoesntIgnoreImmunity,
    {
        if value {
            IgnoreImmunity::IgnoresImmunity
        } else {
            IgnoreImmunity::DoesntIgnoreImmunity
        }
    }

    /// The types marked true in the catalog's table.
    pub fn from_entries(value: Vec<(Type, bool)>) -> (r: IgnoreImmunity)
        ensures
            r is Types,
            r->Types_0@ == true_keys(value@),
    {
        let mut out: Vec<Type> = Vec::new();
        let mut i: usize = 0;
        while i < value.len()
            invariant
                i <= value@.len(),
                out@ == true_keys(value@.subrange(0, i as int)),
            decreases value@.len() - i,
        {
            proof {
                let s = value@.subrange(0, i + 1);
                assert(s.drop_last() =~= value@.subrange(0, i as int));
            }
            if value[i].1 {
                out.push(value[i].0);
            }
            i = i + 1;
        }
        proof {
            assert(value@.subrange(0, value@.len() as int) =~= value@);
        }
        IgnoreImmunity::Types(out)
    }
}

#[derive(Clone, Copy, Debug, PartialEq, Eq, Structural)]
pub enum Accuracy {
    AlwaysHits,
    Percent(u8),
}

impl Accuracy {
    /// `true` means the move always hits; `false` is not a catalog value.
    pub fn try_from_bool(value: bool) -> (r: Result<Accuracy, NotImplemented>)
        ensures
            r is Ok <==> value,
            value ==> r == Ok::<Accuracy, NotImplemented>(Accuracy::AlwaysHits),
    {
        if value {
            Ok(Accuracy::AlwaysHits)
        } else {
            Err(NotImplemented("False accuracy not implemented"))
        }
    }

    pub fn from_percent(value: u8) -> (r: Accuracy)
        ensures
            r == Accuracy::Percent(value),
    {
        Accuracy::Percent(value)
    }
}

#[derive(Clone, Copy, Debug, PartialEq, Eq, Structural)]
pub enum AlternativeDamage {
    Flat(u8),
    Unique(UniqueDamage),
}

/// How many times a move hits: once, a fixed count, or an inclusive range.
#[derive(Clone, Copy, Debug, PartialEq, Eq, Structural)]
pub enum NumberOfHits {
    Normal,
    Constant(u8),
    Range(u8, u8),
}

impl NumberOfHits {
    pub open spec fn spec_max(self) -> u8 {
        match self {
            NumberOfHits::Normal => 1,
            NumberOfHits::Constant(n) => n,
            NumberOfHits::Range(_, max) => max,
        }
    }

    pub open spec fn spec_min(self) -> u8 {
        match self {
            NumberOfHits::Normal => 1,
            NumberOfHits::Constant(n) => n,
            NumberOfHits::Range(min, _) => min,
        }
    }

    pub fn from_count(value: u8) -> (r: NumberOfHits)
        ensures
            r == NumberOfHits::Constant(value),
    {
        NumberOfHits::Constant(value)
    }

    pub fn from_range(value: [u8; 2]) -> (r: NumberOfHits)
        ensures
            r == NumberOfHits::Range(value[0], value[1]),
    {
        NumberOfHits::Range(value[0], value[1])
    }

    /// The largest number of hits.
    pub fn max(self) -> (r: u8)
        ensures
            r == self.spec_max(),
    {
        match self {
            NumberOfHits::Normal => 1,
            NumberOfHits::Constant(n) => n,
            NumberOfHits::Range(_, max) => max,
        }
    }

    /// The smallest number of hits.
    pub fn min(self) -> (r: u8)
        ensures
            r == self.spec_min(),
    {
        match self {
            NumberOfHits::Normal => 1,
            NumberOfHits::Constant(n) => n,
            NumberOfHits::Range(min, _) => min,
        }
    }
}

/// The flags a move has.
#[derive(Clone, Debug)]
pub struct FlagList(pub Vec<Flag>);

impl FlagList {
    pub fn has_flag(&self, flag: Flag) -> (r: bool)
        ensures
            r == self.0@.contains(flag),
    {
        let mut i: usize = 0;
        while i < self.0.len()
            invariant
                i <= self.0@.len(),
                forall|j: int| 0 <= j < i ==> self.0@[j] != flag,
            decreases self.0@.len() - i,
        {
            if self.0[i] == flag {
                return true;
            }
            i = i + 1;
        }
        false
    }

    /// The flags set to 1 in the catalog's table, in order.
    pub fn from_entries(value: Vec<(Flag, u8)>) -> (r: FlagList)
        ensures
            r.0@ == set_flags(value@),
    {
        let mut out: Vec<Flag> = Vec::new();
        let mut i: usize = 0;
        while i < value.len()
            invariant
                i <= value@.len(),
                out@ == set_flags(value@.subrange(0, i as int)),
            decreases value@.len() - i,
        {
            proof {
                let s = value@.subrange(0, i + 1);
                assert(s.drop_last() =~= value@.subrange(0, i as int));
            }
            if value[i].1 == 1 {
                out.push(value[i].0);
            }
            i = i + 1;
        }
        proof {
            assert(value@.subrange(0, value@.len() as int) =~= value@);
        }
        FlagList(out)
    }
}

/// Stat stage changes.
#[derive(Clone, Copy, Debug, PartialEq, Eq, Structural)]
pub struct BoostsList {
    pub hp: i8,
    pub attack: i8,
    pub defence: i8,
    pub special_attack: i8,
    pub special_defence: i8,
    pub speed: i8,
    pub evasion: i8,
    pub accuracy: i8,
}

impl Target {
    /// Whether the move hits several battlers at once.
    pub open spec fn spec_is_multi_target(self) -> bool {
        match self {
            Target::AllAdjacent | Target::AllAdjacentFoes | Target::All | Target::FoeSide
            | Target::AllySide | Target::Allies => true,
            _ => false,
        }
    }

    pub fn is_multi_target(&self) -> (r: bool)
        ensures
            r == self.spec_is_multi_target(),
    {
        match self {
            Target::AllAdjacent | Target::AllAdjacentFoes | Target::All | Target::FoeSide
            | Target::AllySide | Target::Allies => true,
            Target::Self_ | Target::AdjacentAlly | Target::AdjacentAllyOrSelf
            | Target::AdjacentFoe | Target::Any | Target::Normal | Target::RandomNormal
            | Target::AllyTeam | Target::Scripted => false,
        }
    }
}

#[derive(Clone, Copy, Debug, PartialEq, Eq, Structural)]
pub enum SelfSwitch {
    True,
    False,
    Unique(UniqueSelfSwitch),
}

impl SelfSwitch {
    pub fn from_bool(value: bool) -> (r: SelfSwitch)
        ensures
            value ==> r == SelfSwitch::True,
            !value ==> r == SelfSwitch::False,
    {
        if value {
            SelfSwitch::True
        } else {
            SelfSwitch::False
        }
    }
}

/// A one-hit knock-out move.
#[derive(Clone, Copy, Debug, PartialEq, Eq, Structural)]
pub enum OHKO {
    Regular,
    Unique(UniqueOHKO),
}

impl OHKO {
    /// `true` marks a regular one-hit knock-out move; `false` is not a catalog value.
    pub fn try_from_bool(value: bool) -> (r: Result<OHKO, NotImplemented>)
        ensures
            r is Ok <==> value,
            value ==> r == Ok::<OHKO, NotImplemented>(OHKO::Regular),
    {
        if value {
            Ok(OHKO::Regular)
        } else {
            Err(NotImplemented("False OHKO not implemented"))
        }
    }
}

#[derive(Clone, Copy, Debug, PartialEq, Eq, Structural)]
pub enum UniqueOHKO {
    Ice,
}

#[derive(Clone, Debug)]
pub struct ZMoveData {
    pub base_power: Option<u8>,
    pub boost: Option<BoostsList>,
    pub effect: Option<String>,
}

#[derive(Clone, Copy, Debug)]
pub struct MaxMoveData {
    pub base_power: Option<u8>,
}

} // verus!
