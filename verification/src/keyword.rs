//! Keyword lookup.
use vstd::prelude::*;

use crate::keyword_table::{keyword_at, spec_keyword_at, spec_keyword_name, Keyword, KEYWORD_COUNT};
use crate::text::{chars_of, str_equals};

verus! {

/// The first keyword of the table, from position `i` on, whose text is `key`.
pub open spec fn spec_find_keyword(key: Seq<char>, i: int) -> Option<Keyword>
    decreases KEYWORD_COUNT - i,
{
    if i < 0 || i >= KEYWORD_COUNT {
        None
    } else if spec_keyword_name(spec_keyword_at(i as u16)) == key {
        Some(spec_keyword_at(i as u16))
    } else {
        spec_find_keyword(key, i + 1)
    }
}

/// The keyword whose canonical text is `key`, if there is one.
pub open spec fn spec_lookup_keyword(key: Seq<char>) -> Option<Keyword> {
    spec_find_keyword(key, 0)
}

/// The keyword whose canonical (upper case) text is `key`, if there is one.
pub fn lookup_keyword(key: &str) -> (k: Option<Keyword>)
    ensures
        k == spec_lookup_keyword(key@),
{
    let chars = chars_of(key);
    let mut i: u16 = 0;
    while i < KEYWORD_COUNT
        invariant
            i <= KEYWORD_COUNT,
            chars@ == key@,
            spec_find_keyword(key@, 0) == spec_find_keyword(key@, i as int),
        decreases KEYWORD_COUNT - i,
    {
        let k = keyword_at(i);
        if str_equals(k.as_str(), &chars) {
            return Some(k);
        }
        i += 1;
    }
    None
}

/// A keyword found by the lookup has the key as its text.
pub proof fn lemma_find_keyword_name(key: Seq<char>, i: int)
    ensures
        spec_find_keyword(key, i) matches Some(k) ==> spec_keyword_name(k) == key,
    decreases KEYWORD_COUNT - i,
{
    if 0 <= i < KEYWORD_COUNT {
        lemma_find_keyword_name(key, i + 1);
    }
}

/// A keyword found by the lookup has the key as its canonical text.
pub proof fn lemma_lookup_keyword_name(key: Seq<char>)
    ensures
        spec_lookup_keyword(key) matches Some(k) ==> spec_keyword_name(k) == key,
{
    lemma_find_keyword_name(key, 0);
}

} // verus!
