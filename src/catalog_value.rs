//! Catalog values whose shape varies, and the readers that decide on them.

use vstd::prelude::*;

verus! {

/// A catalog value, as far as the readers of irregular fields look at it.
#[derive(Debug)]
pub enum CatalogValue {
    Bool(bool),
    /// A number, with its value when it is a whole number that fits a `u64`.
    Number(Option<u64>),
    Text(String),
    List(Vec<CatalogValue>),
    /// Null or an object.
    Other,
}

/// The texts of `items` when every item is a text.
pub open spec fn all_texts(items: Seq<CatalogValue>) -> Option<Seq<Seq<char>>>
    decreases items.len(),
{
    if items.len() == 0 {
        Some(Seq::empty())
    } else {
        match (all_texts(items.drop_last()), items.last()) {
            (Some(rest), CatalogValue::Text(s)) => Some(rest.push(s@)),
            _ => None,
        }
    }
}

/// Reads a list of names that may also be written as a single name.
pub fn names_from_value(value: &CatalogValue) -> (r: Option<Vec<String>>)
    ensures
        value matches CatalogValue::Text(s) ==> r matches Some(v) && v@.len() == 1 && v@[0]@ == s@,
        value matches CatalogValue::List(items) ==> match all_texts(items@) {
            Some(names) => r matches Some(v) && v@.len() == names.len() && forall|i: int|
                0 <= i < v@.len() ==> (#[trigger] v@[i])@ == names[i],
            None => r is None,
        },
        !(value is Text) && !(value is List) ==> r is None,
{
    match value {
        CatalogValue::Text(s) => Some(vec![s.clone()]),
        CatalogValue::List(items) => {
            let mut out: Vec<String> = Vec::new();
            let mut i: usize = 0;
            while i < items.len()
                invariant
                    *value == CatalogValue::List(*items),
                    i <= items@.len(),
                    all_texts(items@.subrange(0, i as int)) matches Some(names) && out@.len()
                        == names.len() && forall|j: int|
                        0 <= j < out@.len() ==> (#[trigger] out@[j])@ == names[j],
                decreases items@.len() - i,
            {
                let ghost sub = items@.subrange(0, i + 1);
                proof {
                    assert(sub.drop_last() =~= items@.subrange(0, i as int));
                }
                match &items[i] {
                    CatalogValue::Text(s) => {
                        out.push(s.clone());
                    },
                    _ => {
                        proof {
                            assert(all_texts(sub) is None);
                            lemma_all_texts_prefix(items@, i as int + 1);
                        }
                        return None;
                    },
                }
                i = i + 1;
            }
            proof {
                assert(items@.subrange(0, items@.len() as int) =~= items@);
            }
            Some(out)
        },
        _ => None,
    }
}

/// A list whose prefix holds a non-text has no texts.
proof fn lemma_all_texts_prefix(items: Seq<CatalogValue>, k: int)
    requires
        0 <= k <= items.len(),
        all_texts(items.subrange(0, k)) is None,
    ensures
        all_texts(items) is None,
    decreases items.len() - k,
{
    if k < items.len() {
        let sub = items.subrange(0, k + 1);
        assert(sub.drop_last() =~= items.subrange(0, k));
        lemma_all_texts_prefix(items, k + 1);
    } else {
        assert(items.subrange(0, k) =~= items);
    }
}

} // verus!
