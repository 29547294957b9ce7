//! Learnsets and event encounters.

use vstd::prelude::*;

use crate::catalog_value::CatalogValue;
use crate::generation::Generation;
use crate::natures::Nature;
use crate::species::StatDistribution;

verus! {

#[derive(Clone, Copy, Debug, PartialEq, Eq, Structural)]
pub enum Gender {
    Female,
    Male,
    Unknown,
}

/// The moves a species can learn, with how each is learnt, and the events and
/// encounters it can be met in.
pub struct Learnset {
    pub learnset: Option<Vec<(String, Vec<String>)>>,
    pub event_data: Option<Vec<EncounterData>>,
    pub encounters: Vec<EncounterData>,
    pub event_only: bool,
}

/// An event or encounter a species can be met in.
#[derive(Clone, Debug)]
pub struct EncounterData {
    pub generation: Generation,
    pub level: Option<u8>,
    pub moves: Option<Vec<String>>,
    pub pokeball: Option<String>,
    pub max_egg_moves: Option<u8>,
    pub abilities: Option<Vec<String>>,
    pub gender: Option<Gender>,
    pub shiny: EventShiny,
    pub nature: Option<Nature>,
    pub emerald_event_egg: bool,
    pub is_hidden: bool,
    pub ivs: Option<StatDistribution>,
    pub perfect_ivs: Option<u8>,
}

/// Whether an event species is shiny.
#[derive(Clone, Copy, Debug, PartialEq, Eq, Structural)]
pub enum EventShiny {
    Shiny,
    CanBeEither,
    NotShiny,
}

impl EventShiny {
    /// Reads the catalog's value: `true` for shiny, `1` for either.
    pub fn from_value(value: &CatalogValue) -> (r: Option<EventShiny>)
        ensures
            value matches CatalogValue::Bool(true) ==> r == Some(EventShiny::Shiny),
            value matches CatalogValue::Number(Some(1)) ==> r == Some(EventShiny::CanBeEither),
            !(value matches CatalogValue::Bool(true)) && !(value matches CatalogValue::Number(Some(1)))
                ==> r is None,
    {
        match value {
            CatalogValue::Bool(true) => Some(EventShiny::Shiny),
            CatalogValue::Number(Some(1)) => Some(EventShiny::CanBeEither),
            _ => None,
        }
    }
}

/// The move names of a learnset, in its order.
pub open spec fn learnset_names(l: Learnset) -> Seq<Seq<char>> {
    match l.learnset {
        Some(v) => v@.map_values(|e: (String, Vec<String>)| e.0@),
        None => Seq::empty(),
    }
}

impl Learnset {
    /// Every move name in the learnset.
    pub fn all_moves(&self) -> (r: Vec<&String>)
        ensures
            r@.len() == learnset_names(*self).len(),
            forall|i: int| 0 <= i < r@.len() ==> (#[trigger] r@[i])@ == learnset_names(*self)[i],
    {
        let mut out: Vec<&String> = Vec::new();
        match &self.learnset {
            Some(entries) => {
                let mut i: usize = 0;
                while i < entries.len()
                    invariant
                        self.learnset == Some(*entries),
                        i <= entries@.len(),
                        out@.len() == i,
                        forall|j: int| 0 <= j < i ==> (#[trigger] out@[j])@ == entries@[j].0@,
                    decreases entries@.len() - i,
                {
                    out.push(&entries[i].0);
                    i = i + 1;
                }
            },
            None => {},
        }
        out
    }
}

} // verus!
