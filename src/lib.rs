//! A damage calculator for a turn-based creature-battling game: the sixteen
//! damage values of one hit, with the catalog lookups and stat formula it needs.

pub mod catalog_value;
pub mod damage_calc;
pub mod dex;
pub mod generation;
pub mod items;
pub mod learnsets;
pub mod moves;
pub mod names;
pub mod natures;
pub mod parsing_utils;
pub mod pokemon;
pub mod ratio;
pub mod species;
pub mod types;
