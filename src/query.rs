//! Which catalog tables a query refers to.
//!
//! A table counts as referenced when its name stands in the query as a whole
//! word, in any letter case. This covers names after `FROM`, `JOIN`, `INTO`
//! and `UPDATE` (such a name is a whole word too) as well as aliased and
//! nested uses; it is a heuristic, not a parse: a name inside a string
//! literal or a comment counts too.
use vstd::prelude::*;
use crate::schema::{catalog, table_count, table_names, tables};

verus! {

/// The name stands in the query as a whole word, in any letter case, as the
/// regular expression `(?i)\b<name>\b` finds it.
pub uninterp spec fn word_in(query: Seq<char>, name: Seq<char>) -> bool;

/// Relies on regex: `Regex::new` on `(?i)\b` + `regex::escape(name)` + `\b`,
/// then `Regex::is_match` on the query. The answer depends on the two texts
/// alone; a pattern the crate refuses to build matches nothing.
#[verifier::external_body]
fn whole_word_match(query: &str, name: &str) -> (r: bool)
    ensures
        r == word_in(query@, name@),
{
    match regex::Regex::new(&format!(r"(?i)\b{}\b", regex::escape(name))) {
        Ok(re) => re.is_match(query),
        Err(_) => false,
    }
}

/// The catalog tables that `q` refers to, in catalog order.
pub open spec fn referenced_tables(q: Seq<char>) -> Seq<Seq<char>> {
    table_names().filter(|w: Seq<char>| word_in(q, w))
}

proof fn lemma_filter_push(s: Seq<Seq<char>>, x: Seq<char>, f: spec_fn(Seq<char>) -> bool)
    ensures
        s.push(x).filter(f) == if f(x) {
            s.filter(f).push(x)
        } else {
            s.filter(f)
        },
{
    reveal(Seq::filter);
    assert(s.push(x).drop_last() =~= s);
}

/// The catalog names at the positions where `hits` holds `true`, in
/// catalog order; positions past the end of `hits` are not selected.
pub fn tables_where(hits: &Vec<bool>) -> (r: Vec<String>)
    ensures
        r@.map_values(|s: String| s@) == table_names().filter(
            |w: Seq<char>| exists|i: int| 0 <= i < hits@.len() && i < table_names().len() && hits@[i] && table_names()[i] == w,
        ),
{
    let all = tables();
    proof {
        reveal(catalog);
        crate::schema::lemma_table_names_distinct();
    }
    let ghost names = table_names();
    let ghost f = |w: Seq<char>| exists|i: int| 0 <= i < hits@.len() && i < table_names().len() && hits@[i] && table_names()[i] == w;
    let mut out: Vec<String> = Vec::new();
    let mut i: usize = 0;
    assert(names.take(0).filter(f) =~= Seq::<Seq<char>>::empty()) by {
        reveal(Seq::filter);
    }
    while i < all.len()
        invariant
            names == table_names(),
            f == (|w: Seq<char>| exists|i: int| 0 <= i < hits@.len() && i < table_names().len() && hits@[i] && table_names()[i] == w),
            all@.len() == table_count(),
            names.len() == table_count(),
            forall|a: int, b: int| 0 <= a < table_count() && 0 <= b < table_count() && a != b ==> names[a] != names[b],
            forall|k: int| 0 <= k < all@.len() ==> (#[trigger] all@[k]).name@ == names[k],
            i <= all@.len(),
            out@.map_values(|s: String| s@) == names.take(i as int).filter(f),
        decreases all@.len() - i,
    {
        let name = all[i].name;
        proof {
            assert(names.take(i as int + 1) =~= names.take(i as int).push(names[i as int]));
            lemma_filter_push(names.take(i as int), names[i as int], f);
        }
        let hit = i < hits.len() && hits[i];
        if hit {
            out.push(String::from_str(name));
            assert(out@.map_values(|s: String| s@) =~= names.take(i as int).filter(f).push(names[i as int]));
        } else {
            assert(!f(names[i as int])) by {
                if f(names[i as int]) {
                    let j = choose|j: int| 0 <= j < hits@.len() && j < table_names().len() && hits@[j] && table_names()[j] == names[i as int];
                    assert(j == i);
                }
            }
        }
        i = i + 1;
    }
    assert(names.take(all@.len() as int) =~= names);
    out
}

/// The names of the catalog tables the query refers to, in catalog order.
pub fn extract_table_names(query: &str) -> (r: Vec<String>)
    ensures
        r@.map_values(|s: String| s@) == referenced_tables(query@),
{
    let all = tables();
    proof {
        reveal(catalog);
    }
    let mut hits: Vec<bool> = Vec::new();
    let mut i: usize = 0;
    while i < all.len()
        invariant
            all@.len() == table_count(),
            forall|k: int| 0 <= k < all@.len() ==> (#[trigger] all@[k]).name@ == table_names()[k],
            i <= all@.len(),
            hits@.len() == i,
            forall|k: int| 0 <= k < i ==> hits@[k] == word_in(query@, table_names()[k]),
        decreases all@.len() - i,
    {
        hits.push(whole_word_match(query, all[i].name));
        i = i + 1;
    }
    let r = tables_where(&hits);
    assert(table_names().filter(
        |w: Seq<char>| exists|i: int| 0 <= i < hits@.len() && i < table_names().len() && hits@[i] && table_names()[i] == w,
    ) =~= referenced_tables(query@)) by {
        let f = |w: Seq<char>| exists|i: int| 0 <= i < hits@.len() && i < table_names().len() && hits@[i] && table_names()[i] == w;
        let g = |w: Seq<char>| word_in(query@, w);
        assert forall|k: int| 0 <= k < table_names().len() implies f(table_names()[k]) == g(table_names()[k]) by {
            if g(table_names()[k]) {
                assert(hits@[k]);
            }
        }
        lemma_filter_same(table_names(), f, g);
    }
    r
}

/// Filters that agree on every element keep the same elements.
proof fn lemma_filter_same(s: Seq<Seq<char>>, f: spec_fn(Seq<char>) -> bool, g: spec_fn(Seq<char>) -> bool)
    requires
        forall|k: int| 0 <= k < s.len() ==> f(#[trigger] s[k]) == g(s[k]),
    ensures
        s.filter(f) == s.filter(g),
    decreases s.len(),
{
    reveal(Seq::filter);
    if s.len() > 0 {
        let t = s.drop_last();
        assert forall|k: int| 0 <= k < t.len() implies f(#[trigger] t[k]) == g(t[k]) by {
            assert(t[k] == s[k]);
        }
        lemma_filter_same(t, f, g);
        assert(f(s.last()) == g(s[s.len() - 1]));
    }
}

} // verus!
