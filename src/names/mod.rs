//! Names and identifiers: normalization and substring search.

use vstd::prelude::*;

pub mod abilities;

verus! {

/// ASCII lower-casing of one character; every other character is unchanged.
pub open spec fn lower_ascii(c: char) -> char {
    if 'A' <= c && c <= 'Z' {
        ((c as u32) + 32) as char
    } else {
        c
    }
}

/// Characters dropped from a name when it is turned into an `IdentifierName`:
/// spaces and hyphens, and with `strict` also apostrophes and brackets.
pub open spec fn is_dropped(c: char, strict: bool) -> bool {
    c == ' ' || c == '-' || (strict && (c == '\'' || c == '(' || c == ')'))
}

/// A name with the dropped characters removed and ASCII letters lower-cased.
pub open spec fn normalized(s: Seq<char>, strict: bool) -> Seq<char>
    decreases s.len(),
{
    if s.len() == 0 {
        Seq::empty()
    } else {
        let rest = normalized(s.drop_last(), strict);
        if is_dropped(s.last(), strict) {
            rest
        } else {
            rest.push(lower_ascii(s.last()))
        }
    }
}

/// What `str::to_lowercase` makes of a text: every letter lower-cased by the
/// Unicode rules; the result depends on the text alone.
pub uninterp spec fn lower_of(s: Seq<char>) -> Seq<char>;

/// Spaces and hyphens, which catalog keys leave out.
pub open spec fn is_separator(c: char) -> bool {
    c == ' ' || c == '-'
}

/// A text with every space and hyphen removed.
pub open spec fn without_separators(s: Seq<char>) -> Seq<char>
    decreases s.len(),
{
    if s.len() == 0 {
        Seq::empty()
    } else if is_separator(s.last()) {
        without_separators(s.drop_last())
    } else {
        without_separators(s.drop_last()).push(s.last())
    }
}

/// The catalog key that a lookup name stands for: the name lower-cased, then
/// without spaces and hyphens.
pub open spec fn identifier_view(s: Seq<char>) -> Seq<char> {
    without_separators(lower_of(s))
}

/// A space or hyphen anywhere in a text leaves it unchanged once separators
/// are removed.
pub proof fn lemma_without_separators_drops(a: Seq<char>, c: char, b: Seq<char>)
    requires
        is_separator(c),
    ensures
        without_separators(a + seq![c] + b) == without_separators(a + b),
    decreases b.len(),
{
    if b.len() == 0 {
        assert((a + seq![c] + b).drop_last() =~= a);
        assert(a + b =~= a);
    } else {
        assert((a + seq![c] + b).drop_last() =~= a + seq![c] + b.drop_last());
        assert((a + b).drop_last() =~= a + b.drop_last());
        lemma_without_separators_drops(a, c, b.drop_last());
    }
}

/// Removing separators twice removes nothing more.
pub proof fn lemma_without_separators_idempotent(s: Seq<char>)
    ensures
        without_separators(without_separators(s)) == without_separators(s),
    decreases s.len(),
{
    if s.len() > 0 {
        lemma_without_separators_idempotent(s.drop_last());
        let rest = without_separators(s.drop_last());
        if !is_separator(s.last()) {
            assert(rest.push(s.last()).drop_last() =~= rest);
        }
    }
}

/// Relies on `str::to_lowercase`: the lower-case form of a text, which depends
/// on the text alone.
#[verifier::external_body]
fn lowercase(s: &str) -> (r: String)
    ensures
        r@ == lower_of(s@),
{
    s.to_lowercase()
}

/// Removes every space and hyphen from a text.
pub fn strip_separators(s: &str) -> (r: String)
    ensures
        r@ == without_separators(s@),
{
    let n = s.unicode_len();
    let mut out = String::new();
    let mut i: usize = 0;
    while i < n
        invariant
            n == s@.len(),
            i <= n,
            out@ == without_separators(s@.subrange(0, i as int)),
        decreases n - i,
    {
        let c = s.get_char(i);
        proof {
            assert(s@.subrange(0, i + 1).drop_last() =~= s@.subrange(0, i as int));
        }
        if c != ' ' && c != '-' {
            push_char(&mut out, c);
        }
        i = i + 1;
    }
    proof {
        assert(s@.subrange(0, n as int) =~= s@);
    }
    out
}

/// The catalog key that a lookup name stands for (see `identifier_view`).
pub fn identifier_of(s: &str) -> (r: String)
    ensures
        r@ == identifier_view(s@),
{
    let lower = lowercase(s);
    strip_separators(lower.as_str())
}

/// Normalizing is idempotent.
pub proof fn lemma_normalized_idempotent(s: Seq<char>, strict: bool)
    ensures
        normalized(normalized(s, strict), strict) == normalized(s, strict),
    decreases s.len(),
{
    if s.len() > 0 {
        lemma_normalized_idempotent(s.drop_last(), strict);
        let rest = normalized(s.drop_last(), strict);
        if !is_dropped(s.last(), strict) {
            let n = rest.push(lower_ascii(s.last()));
            assert(n.drop_last() =~= rest);
        }
    }
}

/// Upper and lower case ASCII letters give the same identifier.
pub proof fn lemma_normalized_ignores_case(s: Seq<char>, strict: bool)
    ensures
        normalized(s.map_values(|c: char| lower_ascii(c)), strict) == normalized(s, strict),
    decreases s.len(),
{
    if s.len() > 0 {
        let l = s.map_values(|c: char| lower_ascii(c));
        assert(l.drop_last() =~= s.drop_last().map_values(|c: char| lower_ascii(c)));
        lemma_normalized_ignores_case(s.drop_last(), strict);
    }
}

/// A dropped character anywhere in a name leaves its identifier unchanged.
pub proof fn lemma_normalized_drops(a: Seq<char>, c: char, b: Seq<char>, strict: bool)
    requires
        is_dropped(c, strict),
    ensures
        normalized(a + seq![c] + b, strict) == normalized(a + b, strict),
    decreases b.len(),
{
    if b.len() == 0 {
        assert((a + seq![c] + b).drop_last() =~= a);
        assert(a + b =~= a);
    } else {
        assert((a + seq![c] + b).drop_last() =~= a + seq![c] + b.drop_last());
        assert((a + b).drop_last() =~= a + b.drop_last());
        lemma_normalized_drops(a, c, b.drop_last(), strict);
    }
}

/// Whether `p` occurs in `s` as a run of consecutive characters.
pub open spec fn has_infix(s: Seq<char>, p: Seq<char>) -> bool {
    exists|i: int| 0 <= i && i + p.len() <= s.len() && #[trigger] s.subrange(i, i + p.len()) == p
}

/// Whether `p` occurs in `s` at position `i`.
fn occurs_at(s: &str, p: &str, i: usize) -> (r: bool)
    requires
        i + p@.len() <= s@.len() <= usize::MAX,
    ensures
        r == (s@.subrange(i as int, i + p@.len()) == p@),
{
    let m = p.unicode_len();
    let mut k: usize = 0;
    while k < m
        invariant
            m == p@.len(),
            i + m <= s@.len() <= usize::MAX,
            k <= m,
            forall|j: int| 0 <= j < k ==> s@[i + j] == p@[j],
        decreases m - k,
    {
        if s.get_char(i + k) != p.get_char(k) {
            proof {
                assert(s@.subrange(i as int, i + m)[k as int] != p@[k as int]);
            }
            return false;
        }
        k = k + 1;
    }
    proof {
        assert(s@.subrange(i as int, i + m) =~= p@);
    }
    true
}

/// Whether `p` occurs in `s`.
pub fn contains_str(s: &str, p: &str) -> (r: bool)
    ensures
        r == has_infix(s@, p@),
{
    let n = s.unicode_len();
    let m = p.unicode_len();
    if m > n {
        return false;
    }
    if m == 0 {
        assert(s@.subrange(0int, 0int + p@.len()) =~= p@);
        return true;
    }
    let mut i: usize = 0;
    while i <= n - m
        invariant
            n == s@.len(),
            m == p@.len(),
            1 <= m <= n,
            i <= n - m + 1,
            forall|j: int| 0 <= j < i ==> #[trigger] s@.subrange(j, j + m) != p@,
        decreases n - m + 1 - i,
    {
        if occurs_at(s, p, i) {
            assert(s@.subrange(i as int, i + p@.len()) == p@);
            return true;
        }
        i = i + 1;
    }
    false
}

/// Relies on `String::push`: appends one character at the end.
#[verifier::external_body]
pub(crate) fn push_char(s: &mut String, c: char)
    ensures
        final(s)@ == old(s)@.push(c),
{
    s.push(c)
}

/// Relies on `char::to_ascii_lowercase`: maps 'A'..='Z' to 'a'..='z', leaves the rest.
#[verifier::external_body]
fn to_ascii_lower(c: char) -> (r: char)
    ensures
        r == lower_ascii(c),
{
    c.to_ascii_lowercase()
}

/// Turns a name into its `IdentifierName` form (see `normalized`).
pub fn normalize(s: &str, strict: bool) -> (r: String)
    ensures
        r@ == normalized(s@, strict),
{
    let n = s.unicode_len();
    let mut out = String::new();
    let mut i: usize = 0;
    while i < n
        invariant
            n == s@.len(),
            i <= n,
            out@ == normalized(s@.subrange(0, i as int), strict),
        decreases n - i,
    {
        let c = s.get_char(i);
        proof {
            assert(s@.subrange(0, i + 1).drop_last() =~= s@.subrange(0, i as int));
        }
        let drop = c == ' ' || c == '-' || (strict && (c == '\'' || c == '(' || c == ')'));
        if !drop {
            let l = to_ascii_lower(c);
            push_char(&mut out, l);
        }
        i = i + 1;
    }
    proof {
        assert(s@.subrange(0, n as int) =~= s@);
    }
    out
}

/// A name in identifier form: lower-case ASCII letters, with spaces, hyphens,
/// apostrophes and brackets removed.
pub struct IdentifierName(String);

impl IdentifierName {
    pub closed spec fn view(&self) -> Seq<char> {
        self.0@
    }

    pub fn new(value: String) -> (r: IdentifierName)
        ensures
            r.view() == normalized(value@, true),
    {
        IdentifierName(normalize(value.as_str(), true))
    }

    pub fn inner(&self) -> (r: &str)
        ensures
            r@ == self.view(),
    {
        self.0.as_str()
    }
}

} // verus!
