//! Searching and ordering the launcher's lists: which entries a search
//! keeps, and the order in which entries are shown.
use vstd::prelude::*;

use crate::text::{
    chars_of, compare_chars, contains, contains_seq, lemma_lex_order_first_difference, lex_order,
    lowercase, to_lowercase, NameOrder,
};

verus! {

/// `text` contains `search`, both lower-cased.
pub open spec fn matches_lowercase(text: Seq<char>, search: Seq<char>) -> bool {
    contains_seq(lowercase(text), lowercase(search))
}

/// An application is kept by a search when the search is empty, or when
/// its name or its description contains the search, ignoring case.
pub open spec fn program_matches_spec(
    name: Seq<char>,
    description: Option<Seq<char>>,
    search: Seq<char>,
) -> bool {
    search.len() == 0 || matches_lowercase(name, search) || match description {
        Some(d) => matches_lowercase(d, search),
        None => false,
    }
}

/// Whether `text` contains `search`, ignoring case.
fn contains_ignoring_case(text: &str, search: &str) -> (b: bool)
    ensures
        b == matches_lowercase(text@, search@),
{
    let t = to_lowercase(text);
    let s = to_lowercase(search);
    contains(t.as_str(), s.as_str())
}

/// Whether the search keeps an application with this name and description.
pub fn program_matches_search(name: &str, description: Option<&str>, search: &str) -> (b: bool)
    ensures
        b == program_matches_spec(
            name@,
            match description {
                Some(d) => Some(d@),
                None => None,
            },
            search@,
        ),
{
    if search.is_empty() {
        return true;
    }
    if contains_ignoring_case(name, search) {
        return true;
    }
    match description {
        Some(d) => contains_ignoring_case(d, search),
        None => false,
    }
}

/// Whether the search keeps a playlist with this title: it does when the
/// search is empty or the title contains it, ignoring case.
pub fn music_matches_search(title: &str, search: &str) -> (b: bool)
    ensures
        b == (search@.len() == 0 || matches_lowercase(title@, search@)),
{
    if search.is_empty() {
        return true;
    }
    contains_ignoring_case(title, search)
}

/// The order of two entries in the launcher's lists: by their lower-cased
/// names.
pub fn compare_names(a: &str, b: &str) -> (o: NameOrder)
    ensures
        o == lex_order(lowercase(a@), lowercase(b@)),
{
    let la = to_lowercase(a);
    let lb = to_lowercase(b);
    compare_chars(&chars_of(la.as_str()), &chars_of(lb.as_str()))
}

/// An empty search keeps every entry.
pub proof fn lemma_empty_search_keeps_all(name: Seq<char>, description: Option<Seq<char>>, search: Seq<char>)
    requires
        search.len() == 0,
    ensures
        program_matches_spec(name, description, search),
{
}

/// The search keeps every application whose lower-cased name contains the
/// lower-cased search anywhere, not only at its start.
pub proof fn lemma_search_keeps_matching_names(
    name: Seq<char>,
    description: Option<Seq<char>>,
    search: Seq<char>,
)
    requires
        contains_seq(lowercase(name), lowercase(search)),
    ensures
        program_matches_spec(name, description, search),
{
}

/// The search keeps every application whose lower-cased description
/// contains the lower-cased search.
pub proof fn lemma_search_keeps_matching_descriptions(
    name: Seq<char>,
    description: Seq<char>,
    search: Seq<char>,
)
    requires
        contains_seq(lowercase(description), lowercase(search)),
    ensures
        program_matches_spec(name, Some(description), search),
{
}

/// A non-empty search drops an application whose name and description
/// (if any) do not contain it, ignoring case.
pub proof fn lemma_search_drops_others(
    name: Seq<char>,
    description: Option<Seq<char>>,
    search: Seq<char>,
)
    requires
        search.len() > 0,
        !contains_seq(lowercase(name), lowercase(search)),
        description is Some ==> !contains_seq(lowercase(description->0), lowercase(search)),
    ensures
        !program_matches_spec(name, description, search),
{
}

/// Entries are listed by their lower-cased names in the order Rust compares
/// strings: at the first position where the lower-cased names differ, the
/// one with the smaller character comes first.
pub proof fn lemma_names_listed_by_first_difference(a: Seq<char>, b: Seq<char>, i: int)
    requires
        0 <= i < lowercase(a).len(),
        i < lowercase(b).len(),
        lowercase(a).take(i) == lowercase(b).take(i),
        (lowercase(a)[i] as int) < (lowercase(b)[i] as int),
    ensures
        lex_order(lowercase(a), lowercase(b)) == NameOrder::Less,
{
    lemma_lex_order_first_difference(lowercase(a), lowercase(b), i);
}

} // verus!
