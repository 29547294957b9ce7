use pokemon::damage_calc::{damage_calc, DamageRange};
use pokemon::dex::{Dex, DexError};
use pokemon::learnsets::Learnset;
use pokemon::moves::{Category, Flag, FlagList, MoveData, NumberOfHits, Target};
use pokemon::natures::{Nature, NatureData};
use pokemon::ratio::Ratio;
use pokemon::species::{Abilities, Ability, Species, Stat, StatDistribution};
use pokemon::types::{DamageRelation, Type, TypeData};

fn species(name: &str, types: Vec<Type>, stats: [u8; 6]) -> Species {
    Species {
        num: 1,
        name: name.to_string(),
        types,
        gen: None,
        gender: None,
        base_stats: StatDistribution::from_array(stats),
        abilities: Abilities { normal: vec![], hidden: None },
        evos: vec![],
        prevo: None,
        base_species: None,
        forme: None,
        is_nonstandard: None,
        battle_only: None,
    }
}

fn attack(name: &str, type_: Type, category: Category, power: u8, flags: Vec<Flag>) -> MoveData {
    let mut m = MoveData::new(name.to_string(), type_, category, power, Target::Normal);
    m.flags = FlagList(flags);
    m
}

fn catalog() -> Dex {
    let fire = TypeData::new(vec![
        (Type::Water, DamageRelation::SuperEffective),
        (Type::Ground, DamageRelation::SuperEffective),
        (Type::Rock, DamageRelation::SuperEffective),
        (Type::Fire, DamageRelation::NotVeryEffective),
        (Type::Grass, DamageRelation::NotVeryEffective),
        (Type::Ice, DamageRelation::NotVeryEffective),
        (Type::Bug, DamageRelation::NotVeryEffective),
        (Type::Steel, DamageRelation::NotVeryEffective),
        (Type::Fairy, DamageRelation::NotVeryEffective),
    ]);
    let water = TypeData::new(vec![
        (Type::Grass, DamageRelation::SuperEffective),
        (Type::Electric, DamageRelation::SuperEffective),
        (Type::Water, DamageRelation::NotVeryEffective),
        (Type::Fire, DamageRelation::NotVeryEffective),
        (Type::Ice, DamageRelation::NotVeryEffective),
        (Type::Steel, DamageRelation::NotVeryEffective),
    ]);
    let ground = TypeData::new(vec![
        (Type::Water, DamageRelation::SuperEffective),
        (Type::Grass, DamageRelation::SuperEffective),
        (Type::Ice, DamageRelation::SuperEffective),
        (Type::Poison, DamageRelation::NotVeryEffective),
        (Type::Rock, DamageRelation::NotVeryEffective),
        (Type::Electric, DamageRelation::Immune),
    ]);
    let grass = TypeData::new(vec![
        (Type::Fire, DamageRelation::SuperEffective),
        (Type::Water, DamageRelation::NotVeryEffective),
        (Type::Ground, DamageRelation::NotVeryEffective),
    ]);
    let fighting = TypeData::new(vec![(Type::Flying, DamageRelation::SuperEffective), (Type::Dark, DamageRelation::NotVeryEffective)]);
    let normal = TypeData::new(vec![(Type::Fighting, DamageRelation::SuperEffective), (Type::GhostType, DamageRelation::Immune)]);

    let mut surging = attack("Surging Strikes", Type::Water, Category::Physical, 25, vec![Flag::Contact, Flag::Punch]);
    surging.number_of_hits = NumberOfHits::Constant(3);
    surging.will_crit = true;
    let mut wicked = attack("Wicked Blow", Type::Dark, Category::Physical, 75, vec![Flag::Contact, Flag::Punch]);
    wicked.will_crit = true;
    let mut earthquake = attack("Earthquake", Type::Ground, Category::Physical, 100, vec![]);
    earthquake.target = Target::AllAdjacent;

    let moves = vec![
        ("stompingtantrum".to_string(), attack("Stomping Tantrum", Type::Ground, Category::Physical, 75, vec![Flag::Contact])),
        ("hydropump".to_string(), attack("Hydro Pump", Type::Water, Category::Special, 110, vec![])),
        ("surgingstrikes".to_string(), surging),
        ("wickedblow".to_string(), wicked),
        ("earthquake".to_string(), earthquake),
        ("swordsdance".to_string(), attack("Swords Dance", Type::Normal, Category::Status, 0, vec![])),
        ("tackle".to_string(), attack("Tackle", Type::Normal, Category::Physical, 40, vec![Flag::Contact])),
    ];
    let species = vec![
        ("flareon".to_string(), species("Flareon", vec![Type::Fire], [65, 130, 60, 95, 110, 65])),
        ("rillaboom".to_string(), species("Rillaboom", vec![Type::Grass], [100, 125, 90, 60, 70, 85])),
        ("swampert".to_string(), species("Swampert", vec![Type::Water, Type::Ground], [100, 110, 90, 85, 90, 60])),
        ("urshifurapidstrike".to_string(), species("Urshifu-Rapid-Strike", vec![Type::Fighting, Type::Water], [100, 130, 100, 63, 60, 97])),
        ("vaporeon".to_string(), species("Vaporeon", vec![Type::Water], [130, 65, 60, 110, 95, 65])),
        ("snorlax".to_string(), species("Snorlax", vec![Type::Normal], [160, 110, 65, 65, 110, 30])),
    ];
    let types = vec![
        ("fire".to_string(), fire),
        ("water".to_string(), water),
        ("ground".to_string(), ground),
        ("grass".to_string(), grass),
        ("fighting".to_string(), fighting),
        ("normal".to_string(), normal),
    ];
    let learnsets = vec![(
        "rillaboom".to_string(),
        Learnset {
            learnset: Some(vec![
                ("stompingtantrum".to_string(), vec!["9M".to_string()]),
                ("woodhammer".to_string(), vec!["9L1".to_string()]),
                ("tackle".to_string(), vec!["9L1".to_string()]),
            ]),
            event_data: None,
            encounters: vec![],
            event_only: false,
        },
    )];
    let natures = vec![
        ("bold".to_string(), NatureData { name: "Bold".to_string(), plus: Some(Stat::Defence), minus: Some(Stat::Attack) }),
        ("adamant".to_string(), NatureData { name: "Adamant".to_string(), plus: Some(Stat::Attack), minus: Some(Stat::SpecialAttack) }),
        ("modest".to_string(), NatureData { name: "Modest".to_string(), plus: Some(Stat::SpecialAttack), minus: Some(Stat::Attack) }),
    ];
    Dex::new(moves, species, types, learnsets, natures, vec![])
}

#[test]
fn damage_calc_tests() -> Result<(), DexError> {
    let dex = catalog();

    let punching_bag = dex.pokemon("flareon")?
        .ev(Stat::Defence, 99)
        .ev(Stat::SpecialDefence, 99)
        .nature(dex.nature(Nature::Bold)?);

    // EVS
    let rillaboom = dex.pokemon("rillaboom")?
        .ev(Stat::Attack, 184)
        .nature(dex.nature(Nature::Adamant)?);
    let outcome = dex.calc().attacker(rillaboom).defender(punching_bag).move_("stompingtantrum")?.calc(true);
    assert_eq!(outcome.damage_range().0, [104, 106, 106, 108, 110, 110, 112, 114, 114, 116, 116, 118, 120, 120, 122, 124]);

    // Resisted attack
    let swampert = dex.pokemon("swampert")?;
    let outcome = dex.calc().attacker(swampert).defender(swampert).move_("hydropump")?.calc(true);
    assert_eq!(outcome.damage_range().0, [60, 61, 61, 63, 63, 64, 64, 66, 66, 67, 67, 69, 69, 70, 70, 72]);

    // AutoCrit Moves
    let urshifu_rs = dex.pokemon("urshifurapidstrike")?;
    let outcome = dex.calc().attacker(urshifu_rs).defender(punching_bag).move_("surgingstrikes")?.calc(true);
    assert_eq!(outcome.damage_range().0, [198, 204, 204, 204, 216, 216, 216, 216, 222, 222, 222, 222, 234, 234, 234, 240]);

    let swampert = dex.pokemon("swampert")?.ev(Stat::Attack, 252);
    let outcome = dex.calc().attacker(swampert).defender(punching_bag).move_("wickedblow")?.calc(true);
    assert_eq!(outcome.damage_range().0, [68, 69, 70, 71, 72, 72, 73, 74, 75, 76, 76, 77, 78, 79, 80, 81]);

    Ok(())
}

#[test]
fn adamant_attacker_spread_pinned() {
    let dex = catalog();
    let defender = dex.pokemon("flareon").unwrap().ev(Stat::Defence, 99).nature(dex.nature("bold").unwrap());
    let attacker = dex.pokemon("rillaboom").unwrap().ev(Stat::Attack, 184).nature(dex.nature("adamant").unwrap());
    let range = dex.calc().attacker(attacker).defender(defender).move_("Stomping Tantrum").unwrap().calc(true).damage_range();
    assert_eq!(range.min(), 104);
    assert_eq!(range.max(), 124);
}

#[test]
fn resisted_mirror_is_lower_than_neutral() {
    let dex = catalog();
    let vaporeon = dex.pokemon("vaporeon").unwrap();
    let resisted = dex.calc().attacker(vaporeon).defender(vaporeon).move_("hydropump").unwrap().calc(false).damage_range();
    let mut neutral_species = dex.species("vaporeon").unwrap().types.clone();
    neutral_species.clear();
    neutral_species.push(Type::Normal);
    let snorlax_like = Species {
        types: neutral_species,
        ..species("Vaporeon", vec![], [130, 65, 60, 110, 95, 65])
    };
    let neutral_target = pokemon::pokemon::Pokemon::new(&snorlax_like);
    let neutral = dex.calc().attacker(vaporeon).defender(neutral_target).move_("hydropump").unwrap().calc(false).damage_range();
    for i in 0..16 {
        assert!(resisted.0[i] < neutral.0[i]);
    }
    // Vaporeon: SpA 130, SpD 115; scalar 22 * 110 * 130 / 115 = 2735, / 50 + 2 = 56.
    assert_eq!(neutral.max(), 84);
    assert_eq!(resisted.max(), 42);
}

#[test]
fn always_crit_raises_scalar_by_half() {
    let dex = catalog();
    let defender = dex.pokemon("flareon").unwrap().ev(Stat::Defence, 99).nature(dex.nature("bold").unwrap());
    let attacker = dex.pokemon("swampert").unwrap().ev(Stat::Attack, 252);
    let crit_move = dex.move_("wickedblow").unwrap();
    let mut plain_move = attack("Wicked Blow", Type::Dark, Category::Physical, 75, vec![Flag::Contact, Flag::Punch]);
    plain_move.will_crit = false;
    let crit = damage_calc(&dex, &attacker, &defender, crit_move, true);
    let plain = damage_calc(&dex, &attacker, &defender, &plain_move, true);
    // scalar 54 without the critical hit, 81 with it
    assert_eq!(plain.max(), 54);
    assert_eq!(crit.max(), 81);
    for i in 0..16 {
        assert_eq!(plain.0[i], 54 * (85 + i as u32) / 100);
        assert_eq!(crit.0[i], 81 * (85 + i as u32) / 100);
        assert!(crit.0[i] >= plain.0[i]);
    }
}

#[test]
fn multi_hit_multiplies_single_hit() {
    let dex = catalog();
    let defender = dex.pokemon("flareon").unwrap().ev(Stat::Defence, 99).nature(dex.nature("bold").unwrap());
    let attacker = dex.pokemon("urshifurapidstrike").unwrap();
    let multi = dex.move_("surgingstrikes").unwrap();
    let mut single = attack("Surging Strikes", Type::Water, Category::Physical, 25, vec![Flag::Contact, Flag::Punch]);
    single.will_crit = true;
    let multi_range = damage_calc(&dex, &attacker, &defender, multi, true);
    let single_range = damage_calc(&dex, &attacker, &defender, &single, true);
    for i in 0..16 {
        assert_eq!(multi_range.0[i], single_range.0[i] * 3);
    }
    assert_eq!(single_range.0, [66, 68, 68, 68, 72, 72, 72, 72, 74, 74, 74, 74, 78, 78, 78, 80]);
}

#[test]
fn status_move_deals_nothing() {
    let dex = catalog();
    let a = dex.pokemon("rillaboom").unwrap();
    let d = dex.pokemon("flareon").unwrap();
    let range = dex.calc().attacker(a).defender(d).move_("swordsdance").unwrap().calc(false).damage_range();
    assert_eq!(range.0, [0; 16]);
}

#[test]
fn levitate_blocks_ground_unless_mold_breaker() {
    let dex = catalog();
    let mut d = dex.pokemon("flareon").unwrap();
    d.ability = Ability::Levitate;
    let a = dex.pokemon("rillaboom").unwrap();
    let blocked = dex.calc().attacker(a).defender(d).move_("stompingtantrum").unwrap().calc(false).damage_range();
    assert_eq!(blocked.0, [0; 16]);
    let mut breaker = a;
    breaker.ability = Ability::MoldBreaker;
    let hit = dex.calc().attacker(breaker).defender(d).move_("stompingtantrum").unwrap().calc(false).damage_range();
    assert!(hit.max() > 0);
}

#[test]
fn spreads_never_decrease() {
    let dex = catalog();
    let names = ["stompingtantrum", "hydropump", "surgingstrikes", "wickedblow", "earthquake", "tackle"];
    let a = dex.pokemon("swampert").unwrap().ev(Stat::Attack, 252);
    let d = dex.pokemon("flareon").unwrap();
    for name in names {
        let r = dex.calc().attacker(a).defender(d).move_(name).unwrap().calc(true).damage_range();
        for i in 0..15 {
            assert!(r.0[i] <= r.0[i + 1]);
        }
    }
}

#[test]
fn spread_move_in_doubles_is_reduced() {
    let dex = catalog();
    let a = dex.pokemon("swampert").unwrap();
    let d = dex.pokemon("snorlax").unwrap();
    let singles = dex.calc().attacker(a).defender(d).move_("earthquake").unwrap().calc(false).damage_range();
    let doubles = dex.calc().attacker(a).defender(d).move_("earthquake").unwrap().calc(true).damage_range();
    // Atk 130, Def 85: 22 * 100 * 130 / 85 = 3364, / 50 + 2 = 69; doubles: round(51.75) = 52
    assert_eq!(singles.max(), 103);
    assert_eq!(doubles.max(), 78);
}

#[test]
fn lookup_ignores_case_spaces_and_hyphens() {
    let dex = catalog();
    let a = dex.move_("Stomping Tantrum").unwrap();
    let b = dex.move_("STOMPING-TANTRUM").unwrap();
    let c = dex.move_("stompingtantrum").unwrap();
    assert!(std::ptr::eq(a, b));
    assert!(std::ptr::eq(a, c));
}

#[test]
fn lookup_lowercases_every_letter() {
    let mut dex = catalog();
    let flabebe = MoveData::new("Flabébé Dance".to_string(), Type::Fairy, Category::Special, 90, Target::Normal);
    dex.moves.push(("flabébédance".to_string(), flabebe));
    let found = dex.move_("FLABÉBÉ-DANCE").unwrap();
    assert_eq!(found.name, "Flabébé Dance");
    match dex.move_("ÉCLAIR") {
        Err(DexError::NotFound(id)) => assert_eq!(id, "éclair"),
        Ok(_) => panic!("found a move that is not in the catalog"),
    }
}

#[test]
fn unknown_move_is_not_found() {
    let dex = catalog();
    match dex.move_("Hyper Beam") {
        Err(DexError::NotFound(id)) => assert_eq!(id, "hyperbeam"),
        Ok(_) => panic!("found a move that is not in the catalog"),
    }
    let err = dex.species("Missing No").err().unwrap();
    assert_eq!(err.message(), "'missingno' not found");
}

#[test]
fn stat_formula_exact() {
    let s = species("Test", vec![Type::Normal], [100, 100, 100, 100, 100, 100]);
    let p = pokemon::pokemon::Pokemon::new(&s).ev(Stat::Attack, 252).ev(Stat::HP, 252);
    assert_eq!(p.stat(Stat::Attack), 152);
    assert_eq!(p.stat(Stat::HP), 207);
    assert_eq!(p.iv(Stat::Attack, 0).stat(Stat::Attack), 136);
    let adamant = NatureData { name: "Adamant".to_string(), plus: Some(Stat::Attack), minus: Some(Stat::SpecialAttack) };
    let modest = NatureData { name: "Modest".to_string(), plus: Some(Stat::SpecialAttack), minus: Some(Stat::Attack) };
    assert_eq!(p.nature(&adamant).stat(Stat::Attack), 167);
    assert_eq!(p.nature(&modest).stat(Stat::Attack), 136);
    assert_eq!(p.nature(&adamant).stat(Stat::HP), 207);
    // floor(ev / 4) before scaling: 2 effort values add nothing
    let q = pokemon::pokemon::Pokemon::new(&s).level(100).ev(Stat::HP, 3);
    assert_eq!(q.stat(Stat::HP), 341);
    assert_eq!(q.stat(Stat::Speed), 236);
}

#[test]
fn all_possible_attacks_skips_unknown_moves() {
    let dex = catalog();
    let a = dex.pokemon("rillaboom").unwrap();
    let d = dex.pokemon("flareon").unwrap();
    let calcs = dex.calc().attacker(a).defender(d).all_possible_attacks().unwrap();
    assert_eq!(calcs.len(), 2);
    assert_eq!(calcs[0].move_.unwrap().name, "Stomping Tantrum");
    assert_eq!(calcs[1].move_.unwrap().name, "Tackle");
    assert_eq!(calcs[1].describe(), "Rillaboom Tackle -> Flareon");
    let f = dex.pokemon("flareon").unwrap();
    assert!(dex.calc().attacker(f).defender(d).all_possible_attacks().is_err());
}

#[test]
fn range_scaling_modes() {
    let mut r = DamageRange::new();
    r.floored_multiply(Ratio::new(1, 2));
    assert_eq!(r.0, [42, 43, 43, 44, 44, 45, 45, 46, 46, 47, 47, 48, 48, 49, 49, 50]);
    let mut r = DamageRange::new();
    r.ceiled_multiply(Ratio::new(1, 2));
    assert_eq!(r.0, [43, 43, 44, 44, 45, 45, 46, 46, 47, 47, 48, 48, 49, 49, 50, 50]);
    let mut r = DamageRange::new();
    r.rounded_multiply(Ratio::new(1, 2));
    assert_eq!(r.0, [43, 43, 44, 44, 45, 45, 46, 46, 47, 47, 48, 48, 49, 49, 50, 50]);
    let mut r = DamageRange::new();
    r.pokerounded_multiply(Ratio::new(1, 2));
    assert_eq!(r.0, [42, 43, 43, 44, 44, 45, 45, 46, 46, 47, 47, 48, 48, 49, 49, 50]);
    assert_eq!(r.min(), 42);
    assert_eq!(r.max(), 50);
}

#[test]
fn technician_and_skin_abilities() {
    let dex = catalog();
    let d = dex.pokemon("snorlax").unwrap();
    let mut a = dex.pokemon("flareon").unwrap();
    let plain = dex.calc().attacker(a).defender(d).move_("tackle").unwrap().calc(false).damage_range();
    a.ability = Ability::Technician;
    let tech = dex.calc().attacker(a).defender(d).move_("tackle").unwrap().calc(false).damage_range();
    // Atk 150, Def 85: power 40 -> 22 * 40 * 150 / 85 = 1552, / 50 + 2 = 33
    // Technician: power 60 -> 2329, / 50 + 2 = 48
    assert_eq!(plain.max(), 33);
    assert_eq!(tech.max(), 48);
    a.ability = Ability::Pixilate;
    let pixie = dex.calc().attacker(a).defender(d).move_("tackle").unwrap().calc(false).damage_range();
    // power 48, Fairy, no same-type bonus: 22 * 48 * 150 / 85 = 1863, / 50 + 2 = 39
    assert_eq!(pixie.max(), 39);
}

#[test]
fn largest_inputs_stay_in_range() {
    let dex = catalog();
    let big = species("Big", vec![Type::Normal], [255, 255, 255, 255, 255, 255]);
    let weak = species("Weak", vec![Type::Grass, Type::Ground], [1, 1, 1, 1, 1, 1]);
    let mut attacker = pokemon::pokemon::Pokemon::new(&big)
        .level(100)
        .ev(Stat::Attack, 255)
        .iv(Stat::Attack, 255)
        .nature(dex.nature("adamant").unwrap());
    attacker.ability = Ability::ToughClaws;
    let mut defender = pokemon::pokemon::Pokemon::new(&weak).level(1).ev(Stat::Defence, 0).iv(Stat::Defence, 0);
    defender.ability = Ability::Fluffy;
    let mut m = attack("Huge Hit", Type::Fire, Category::Physical, 255, vec![Flag::Contact]);
    m.number_of_hits = NumberOfHits::Constant(255);
    m.will_crit = true;
    assert_eq!(attacker.stat(Stat::Attack), 916);
    assert_eq!(defender.stat(Stat::Defence), 5);
    let r = damage_calc(&dex, &attacker, &defender, &m, false);
    for i in 0..15 {
        assert!(r.0[i] <= r.0[i + 1]);
    }
    assert!(r.max() > r.min());
}

#[test]
fn status_move_needs_no_type_chart() {
    let dex = catalog();
    let odd = species("Odd", vec![Type::Psychic, Type::Stellar, Type::Bug], [50, 50, 50, 50, 50, 50]);
    let d = pokemon::pokemon::Pokemon::new(&odd);
    let a = dex.pokemon("rillaboom").unwrap();
    let request = dex.calc().attacker(a).defender(d).move_("swordsdance").unwrap();
    assert!(request.is_supported());
    assert_eq!(request.calc(false).damage_range().0, [0; 16]);
    let hit = dex.calc().attacker(a).defender(d).move_("tackle").unwrap();
    assert!(!hit.is_supported());
}
