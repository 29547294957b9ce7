//! The read-only catalog and its lookups by identifier.

use vstd::prelude::*;
use vstd::string::StringExecFns;

use crate::items::ItemData;
use crate::learnsets::Learnset;
use crate::moves::MoveData;
use crate::names::{
    identifier_of, identifier_view, is_separator, lemma_without_separators_drops, lower_of,
    without_separators,
};
use crate::natures::{nature_key, Nature, NatureData};
use crate::pokemon::Pokemon;
use crate::species::Species;
use crate::types::{type_key, Type, TypeData};

verus! {

/// A value that names a catalog entry.
pub trait Identifier {
    /// The catalog key it names.
    spec fn spec_identifier(&self) -> Seq<char>;

    fn as_identifier(&self) -> (r: String)
        ensures
            r@ == self.spec_identifier(),
    ;
}

impl<'a> Identifier for &'a str {
    open spec fn spec_identifier(&self) -> Seq<char> {
        identifier_view((*self)@)
    }

    fn as_identifier(&self) -> (r: String) {
        identifier_of(*self)
    }
}

impl<'a> Identifier for &'a String {
    open spec fn spec_identifier(&self) -> Seq<char> {
        identifier_view((*self)@)
    }

    fn as_identifier(&self) -> (r: String) {
        identifier_of(self.as_str())
    }
}

impl Identifier for Nature {
    open spec fn spec_identifier(&self) -> Seq<char> {
        nature_key(*self)
    }

    fn as_identifier(&self) -> (r: String) {
        String::from_str(self.key())
    }
}

impl Identifier for Type {
    open spec fn spec_identifier(&self) -> Seq<char> {
        type_key(*self)
    }

    fn as_identifier(&self) -> (r: String) {
        String::from_str(self.key())
    }
}

/// The value stored under the first entry whose key is `key`.
pub open spec fn lookup<V>(entries: Seq<(String, V)>, key: Seq<char>) -> Option<V>
    decreases entries.len(),
{
    if entries.len() == 0 {
        None
    } else if entries[0].0@ == key {
        Some(entries[0].1)
    } else {
        lookup(entries.drop_first(), key)
    }
}

fn find<'a, V>(entries: &'a Vec<(String, V)>, key: &String) -> (r: Option<&'a V>)
    ensures
        r is None <==> lookup(entries@, key@) is None,
        r is Some ==> lookup(entries@, key@) == Some(*r->Some_0),
{
    let n = entries.len();
    let mut i: usize = 0;
    proof {
        assert(entries@.subrange(0, n as int) =~= entries@);
    }
    while i < n
        invariant
            n == entries@.len(),
            i <= n,
            lookup(entries@, key@) == lookup(entries@.subrange(i as int, n as int), key@),
        decreases n - i,
    {
        let ghost rest = entries@.subrange(i as int, n as int);
        proof {
            assert(rest.drop_first() =~= entries@.subrange(i + 1, n as int));
        }
        if entries[i].0 == *key {
            return Some(&entries[i].1);
        }
        i = i + 1;
    }
    None
}

proof fn lemma_lookup_concat<V>(top: Seq<(String, V)>, base: Seq<(String, V)>, k: Seq<char>)
    ensures
        lookup(top + base, k) == match lookup(top, k) {
            Some(v) => Some(v),
            None => lookup(base, k),
        },
    decreases top.len(),
{
    if top.len() == 0 {
        assert(top + base =~= base);
    } else {
        assert((top + base).drop_first() =~= top.drop_first() + base);
        lemma_lookup_concat(top.drop_first(), base, k);
    }
}

/// The entries of `base` overridden by those of `top`: every key of either,
/// with the value of `top` where both have it.
pub fn overlay<V>(base: Vec<(String, V)>, top: Vec<(String, V)>) -> (r: Vec<(String, V)>)
    ensures
        forall|k: Seq<char>|
            #[trigger] lookup(r@, k) == match lookup(top@, k) {
                Some(v) => Some(v),
                None => lookup(base@, k),
            },
{
    let mut r = top;
    let mut b = base;
    let ghost top_view = r@;
    let ghost base_view = b@;
    r.append(&mut b);
    proof {
        assert forall|k: Seq<char>|
            #[trigger] lookup(r@, k) == match lookup(top_view, k) {
                Some(v) => Some(v),
                None => lookup(base_view, k),
            } by {
            lemma_lookup_concat(top_view, base_view, k);
        }
    }
    r
}

/// The value of key `k` in the generation records from generation `g` on: the
/// record of the oldest generation that has the key wins.
pub open spec fn layered_lookup<V>(layers: Seq<Vec<(String, V)>>, g: int, k: Seq<char>) -> Option<V>
    decreases layers.len() - g,
{
    if g < 0 || g >= layers.len() {
        None
    } else {
        match lookup(layers[g]@, k) {
            Some(v) => Some(v),
            None => layered_lookup(layers, g + 1, k),
        }
    }
}

/// Merges the records of a catalog entry for the generation at index `from`:
/// `layers[i]` is the record of the generation numbered `i + 1`, and each
/// record overrides those of later generations.
pub fn merge_generations<V>(layers: Vec<Vec<(String, V)>>, from: usize) -> (r: Vec<(String, V)>)
    requires
        from <= layers@.len(),
    ensures
        forall|k: Seq<char>| #[trigger] lookup(r@, k) == layered_lookup(layers@, from as int, k),
{
    let ghost all = layers@;
    let mut layers = layers;
    let mut acc: Vec<(String, V)> = Vec::new();
    while layers.len() > from
        invariant
            from <= layers@.len() <= all.len(),
            layers@ == all.subrange(0, layers@.len() as int),
            forall|k: Seq<char>| #[trigger] lookup(acc@, k) == layered_lookup(all, layers@.len() as int, k),
        decreases layers@.len(),
    {
        let n = layers.len();
        let top = layers.pop().unwrap();
        proof {
            assert(top == all[n - 1]);
            assert(layers@ =~= all.subrange(0, n - 1));
        }
        acc = overlay(acc, top);
    }
    acc
}

/// The read-only catalog: entries keyed by identifier, in the catalog's order.
pub struct Dex {
    pub moves: Vec<(String, MoveData)>,
    pub species: Vec<(String, Species)>,
    pub types: Vec<(String, TypeData)>,
    pub learnsets: Vec<(String, Learnset)>,
    pub natures: Vec<(String, NatureData)>,
    pub items: Vec<(String, ItemData)>,
}

/// A failed catalog lookup, with the identifier that was looked for.
#[derive(Debug)]
pub enum DexError {
    NotFound(String),
}

impl DexError {
    /// The error as a sentence: `'<identifier>' not found`.
    pub fn message(&self) -> (r: String)
        ensures
            self matches DexError::NotFound(v) ==> r@ == "'"@ + v@ + "' not found"@,
    {
        match self {
            DexError::NotFound(value) => {
                let mut s = String::from_str("'");
                s.append(value.as_str());
                s.append("' not found");
                s
            },
        }
    }
}

/// The result of a lookup of `key` in `entries`, as the catalog's accessors return it.
pub open spec fn lookup_result<V>(entries: Seq<(String, V)>, key: Seq<char>, r: Result<&V, DexError>) -> bool {
    match r {
        Ok(v) => lookup(entries, key) == Some(*v),
        Err(DexError::NotFound(s)) => lookup(entries, key) is None && s@ == key,
    }
}

/// Names that differ only in letter case, spaces or hyphens find the same
/// move: two names whose lower-case forms agree once spaces and hyphens are
/// removed find the same entry, and a space or hyphen anywhere in a lower-cased
/// name changes nothing.
pub proof fn lemma_move_lookup_ignores_formatting(dex: Dex, x: Seq<char>, y: Seq<char>, a: Seq<char>, c: char, b: Seq<char>)
    requires
        without_separators(lower_of(x)) == without_separators(lower_of(y)),
        is_separator(c),
    ensures
        lookup(dex.moves@, identifier_view(x)) == lookup(dex.moves@, identifier_view(y)),
        lookup(dex.moves@, without_separators(a + seq![c] + b)) == lookup(
            dex.moves@,
            without_separators(a + b),
        ),
{
    lemma_without_separators_drops(a, c, b);
}

impl Dex {
    pub fn new(
        moves: Vec<(String, MoveData)>,
        species: Vec<(String, Species)>,
        types: Vec<(String, TypeData)>,
        learnsets: Vec<(String, Learnset)>,
        natures: Vec<(String, NatureData)>,
        items: Vec<(String, ItemData)>,
    ) -> (r: Dex)
        ensures
            r.moves == moves,
            r.species == species,
            r.types == types,
            r.learnsets == learnsets,
            r.natures == natures,
            r.items == items,
    {
        Dex { moves, species, types, learnsets, natures, items }
    }

    pub fn move_<Id: Identifier>(&self, identifier: Id) -> (r: Result<&MoveData, DexError>)
        ensures
            lookup_result(self.moves@, identifier.spec_identifier(), r),
    {
        let key = identifier.as_identifier();
        match find(&self.moves, &key) {
            Some(v) => Ok(v),
            None => Err(DexError::NotFound(key)),
        }
    }

    pub fn species<Id: Identifier>(&self, identifier: Id) -> (r: Result<&Species, DexError>)
        ensures
            lookup_result(self.species@, identifier.spec_identifier(), r),
    {
        let key = identifier.as_identifier();
        match find(&self.species, &key) {
            Some(v) => Ok(v),
            None => Err(DexError::NotFound(key)),
        }
    }

    pub fn type_<Id: Identifier>(&self, identifier: Id) -> (r: Result<&TypeData, DexError>)
        ensures
            lookup_result(self.types@, identifier.spec_identifier(), r),
    {
        let key = identifier.as_identifier();
        match find(&self.types, &key) {
            Some(v) => Ok(v),
            None => Err(DexError::NotFound(key)),
        }
    }

    pub fn learnset<Id: Identifier>(&self, identifier: Id) -> (r: Result<&Learnset, DexError>)
        ensures
            lookup_result(self.learnsets@, identifier.spec_identifier(), r),
    {
        let key = identifier.as_identifier();
        match find(&self.learnsets, &key) {
            Some(v) => Ok(v),
            None => Err(DexError::NotFound(key)),
        }
    }

    pub fn nature<Id: Identifier>(&self, identifier: Id) -> (r: Result<&NatureData, DexError>)
        ensures
            lookup_result(self.natures@, identifier.spec_identifier(), r),
    {
        let key = identifier.as_identifier();
        match find(&self.natures, &key) {
            Some(v) => Ok(v),
            None => Err(DexError::NotFound(key)),
        }
    }

    pub fn item<Id: Identifier>(&self, identifier: Id) -> (r: Result<&ItemData, DexError>)
        ensures
            lookup_result(self.items@, identifier.spec_identifier(), r),
    {
        let key = identifier.as_identifier();
        match find(&self.items, &key) {
            Some(v) => Ok(v),
            None => Err(DexError::NotFound(key)),
        }
    }

    /// A default combatant (see `Pokemon::new`) of the species named `identifier`.
    pub fn pokemon<Id: Identifier>(&self, identifier: Id) -> (r: Result<Pokemon<'_>, DexError>)
        ensures
            r is Ok <==> lookup(self.species@, identifier.spec_identifier()) is Some,
            r is Ok ==> lookup(self.species@, identifier.spec_identifier()) == Some(*r->Ok_0.species)
                && r->Ok_0 == Pokemon::default_of(r->Ok_0.species),
            r matches Err(DexError::NotFound(s)) ==> s@ == identifier.spec_identifier(),
    {
        let species = self.species(identifier)?;
        Ok(Pokemon::new(species))
    }
}

} // verus!
