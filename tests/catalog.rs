use pokemon::catalog_value::{names_from_value, CatalogValue};
use pokemon::dex::{merge_generations, overlay};
use pokemon::generation::{Generation, NotAGeneration};
use pokemon::items::{some_true, ZCrystalData};
use pokemon::learnsets::EventShiny;
use pokemon::moves::{
    secondaries_from, Accuracy, Category, CritRatio, Flag, FlagList, IgnoreImmunity, IsMaxMove,
    MoveData, NumberOfHits, SelfSwitch, Target, OHKO,
};
use pokemon::names::{contains_str, IdentifierName};
use pokemon::natures::Nature;
use pokemon::parsing_utils::Either;
use pokemon::species::{Abilities, Ability, Species, StatDistribution};
use pokemon::types::{DamageRelation, Type, TypeData};

#[test]
fn generation_numbers() {
    assert_eq!(Generation::try_from(3).unwrap(), Generation::Three);
    assert_eq!(Generation::try_from(9).unwrap(), Generation::Nine);
    let err: NotAGeneration = Generation::try_from(10).err().unwrap();
    assert_eq!(err.0, "10");
    assert_eq!(err.message(), "'10' is not a generation");
    assert_eq!(Generation::try_from(0).err().unwrap().0, "0");
    assert_eq!(Generation::try_from(255).err().unwrap().0, "255");
    assert_eq!(Generation::One.next_generation(), Some(Generation::Two));
    assert_eq!(Generation::Nine.next_generation(), None);
}

#[test]
fn generation_from_json_text() {
    assert_eq!(Generation::try_from_str("4").unwrap(), Generation::Four);
    assert_eq!(Generation::try_from_str(" 7 ").unwrap(), Generation::Seven);
    assert_eq!(Generation::try_from_str("12").err().unwrap().0, "12");
    assert_eq!(Generation::try_from_str("nine").err().unwrap().0, "nine");
    assert_eq!(Generation::try_from_str("300").err().unwrap().0, "300");
}

#[test]
fn move_future_by_number() {
    let mut m = MoveData::new("Tera Blast".to_string(), Type::Normal, Category::Special, 80, Target::Normal);
    m.num = 851;
    m.set_future(Generation::Eight);
    assert!(m.is_nonstandard.is_some());
    let mut old = MoveData::new("Tackle".to_string(), Type::Normal, Category::Physical, 40, Target::Normal);
    old.num = 33;
    old.set_future(Generation::One);
    assert!(old.is_nonstandard.is_none());
    let mut max = MoveData::new("Max Strike".to_string(), Type::Normal, Category::Physical, 10, Target::Normal);
    max.num = 100;
    max.is_max = IsMaxMove::from_bool(true);
    max.set_future(Generation::Seven);
    assert!(max.is_nonstandard.is_some());
}

fn species_named(num: i32, forme: Option<&str>) -> Species {
    Species {
        num,
        name: "X".to_string(),
        types: vec![Type::Normal],
        gen: None,
        gender: None,
        base_stats: StatDistribution::from_array([1, 1, 1, 1, 1, 1]),
        abilities: Abilities::from_slots(vec![('0', Ability::Levitate), ('h', Ability::Pixilate), ('1', Ability::Blaze)]),
        evos: vec![],
        prevo: None,
        base_species: None,
        forme: forme.map(|f| f.to_string()),
        is_nonstandard: None,
        battle_only: None,
    }
}

#[test]
fn species_future_by_forme_and_number() {
    let mut wooper = species_named(194, Some("Paldea"));
    wooper.set_future(Generation::Eight);
    assert!(wooper.is_nonstandard.is_some());
    let mut vulpix = species_named(37, Some("Alola"));
    vulpix.set_future(Generation::Seven);
    assert!(vulpix.is_nonstandard.is_none());
    vulpix.set_future(Generation::Six);
    assert!(vulpix.is_nonstandard.is_some());
    let mut plain = species_named(950, None);
    plain.set_future(Generation::Eight);
    assert!(plain.is_nonstandard.is_some());
    let mut missing = species_named(0, Some("Paldea"));
    missing.set_future(Generation::One);
    assert!(missing.is_nonstandard.is_none());
    let a = &wooper.abilities;
    assert_eq!(a.normal, vec![Ability::Levitate, Ability::Blaze]);
    assert_eq!(a.hidden, Some(Ability::Pixilate));
}

#[test]
fn identifier_names() {
    let n = IdentifierName::new("Farfetch'd (Galar)".to_string());
    assert_eq!(n.inner(), "farfetchdgalar");
    let m = IdentifierName::new("Porygon-Z".to_string());
    assert_eq!(m.inner(), "porygonz");
    assert!(contains_str("Galar-Zen", "Zen"));
    assert!(!contains_str("Galar", "Zen"));
    assert!(contains_str("abc", ""));
}

#[test]
fn type_chart_defaults_to_neutral() {
    let t = TypeData::new(vec![(Type::Fire, DamageRelation::SuperEffective)]);
    assert_eq!(t.damage_taken(Type::Fire), DamageRelation::SuperEffective);
    assert_eq!(t.damage_taken(Type::Unknown), DamageRelation::Neutral);
    assert_eq!(DamageRelation::try_from(3).ok(), Some(DamageRelation::Immune));
    assert!(DamageRelation::try_from(4).is_err());
    let half = DamageRelation::NotVeryEffective.to_multiplier();
    assert_eq!((half.num, half.den), (1, 2));
    assert_eq!(Type::GhostType.key(), "ghost");
    assert_eq!(Nature::Adamant.key(), "adamant");
}

#[test]
fn move_field_readers() {
    assert!(CritRatio::try_from(0).is_err());
    assert_eq!(CritRatio::try_from(1).ok(), Some(CritRatio::Standard));
    assert_eq!(CritRatio::try_from(3).ok(), Some(CritRatio::Raised(2)));
    assert_eq!(Accuracy::try_from_bool(true).ok(), Some(Accuracy::AlwaysHits));
    assert!(Accuracy::try_from_bool(false).is_err());
    assert_eq!(Accuracy::from_percent(85), Accuracy::Percent(85));
    assert!(OHKO::try_from_bool(false).is_err());
    assert!(SelfSwitch::from_bool(true) == SelfSwitch::True);
    assert_eq!(NumberOfHits::from_range([2, 5]).max(), 5);
    assert_eq!(NumberOfHits::from_range([2, 5]).min(), 2);
    assert_eq!(NumberOfHits::from_count(3).max(), 3);
    assert_eq!(NumberOfHits::Normal.max(), 1);
    assert!(Target::AllAdjacentFoes.is_multi_target());
    assert!(!Target::Normal.is_multi_target());
    let flags = FlagList::from_entries(vec![(Flag::Contact, 1), (Flag::Sound, 0), (Flag::Punch, 1)]);
    assert_eq!(flags.0, vec![Flag::Contact, Flag::Punch]);
    assert!(flags.has_flag(Flag::Punch));
    assert!(!flags.has_flag(Flag::Sound));
    match IgnoreImmunity::from_entries(vec![(Type::Ground, true), (Type::Fire, false)]) {
        IgnoreImmunity::Types(t) => assert_eq!(t, vec![Type::Ground]),
        _ => panic!("expected a type list"),
    }
    assert!(!IsMaxMove::from_bool(false).is_max_move());
    assert!(IsMaxMove::from_name("Charizard".to_string()).is_max_move());
    assert_eq!(secondaries_from(Either::A(None)).unwrap().len(), 0);
    assert_eq!(secondaries_from(Either::B(vec![])).unwrap().len(), 0);
    assert_eq!(some_true(), Some(true));
}

#[test]
fn irregular_catalog_values() {
    assert_eq!(ZCrystalData::from_value(&CatalogValue::Bool(true)), Some(ZCrystalData::Generic));
    assert_eq!(
        ZCrystalData::from_value(&CatalogValue::Text("Pikanium Z".to_string())),
        Some(ZCrystalData::Unique("Pikanium Z".to_string()))
    );
    assert_eq!(ZCrystalData::from_value(&CatalogValue::Bool(false)), None);
    assert_eq!(EventShiny::from_value(&CatalogValue::Number(Some(1))), Some(EventShiny::CanBeEither));
    assert_eq!(EventShiny::from_value(&CatalogValue::Bool(true)), Some(EventShiny::Shiny));
    assert_eq!(EventShiny::from_value(&CatalogValue::Number(Some(2))), None);
    assert_eq!(names_from_value(&CatalogValue::Text("Kyogre".to_string())), Some(vec!["Kyogre".to_string()]));
    assert_eq!(
        names_from_value(&CatalogValue::List(vec![CatalogValue::Text("A".to_string()), CatalogValue::Text("B".to_string())])),
        Some(vec!["A".to_string(), "B".to_string()])
    );
    assert_eq!(names_from_value(&CatalogValue::List(vec![CatalogValue::Text("A".to_string()), CatalogValue::Other])), None);
    assert_eq!(names_from_value(&CatalogValue::Other), None);
}

#[test]
fn generation_records_override_later_ones() {
    let base = vec![("power".to_string(), 1), ("kind".to_string(), 2)];
    let top = vec![("power".to_string(), 9)];
    let merged = overlay(base, top);
    let get = |v: &Vec<(String, i32)>, k: &str| v.iter().find(|e| e.0 == k).map(|e| e.1);
    assert_eq!(get(&merged, "power"), Some(9));
    assert_eq!(get(&merged, "kind"), Some(2));
    let layers = vec![
        vec![("power".to_string(), 1)],
        vec![],
        vec![("power".to_string(), 3), ("pp".to_string(), 30)],
        vec![("pp".to_string(), 40), ("kind".to_string(), 7)],
    ];
    let from_two = merge_generations(layers.clone(), 1);
    assert_eq!(get(&from_two, "power"), Some(3));
    assert_eq!(get(&from_two, "pp"), Some(30));
    assert_eq!(get(&from_two, "kind"), Some(7));
    let from_one = merge_generations(layers, 0);
    assert_eq!(get(&from_one, "power"), Some(1));
}
