//! Untyped key/value dictionaries, as handed over by the host.
use vstd::prelude::*;

verus! {

/// Ordered key/value pairs: configuration maps and header lists.
pub type Dict = Vec<(String, String)>;

/// The value that `d` gives to `key`; when a key repeats, the last pair wins.
pub open spec fn lookup(d: Seq<(Seq<char>, Seq<char>)>, key: Seq<char>) -> Option<Seq<char>>
    decreases d.len(),
{
    if d.len() == 0 {
        None
    } else if d.last().0 == key {
        Some(d.last().1)
    } else {
        lookup(d.drop_last(), key)
    }
}

/// A key counts as set when it is present with a non-empty value.
pub open spec fn setting(d: Seq<(String, String)>, key: Seq<char>) -> Option<Seq<char>> {
    match lookup(pairs_view(d), key) {
        Some(v) => if v.len() > 0 { Some(v) } else { None },
        None => None,
    }
}

/// A key without a value occurs in no pair.
pub proof fn lemma_lookup_none(h: Seq<(Seq<char>, Seq<char>)>, key: Seq<char>)
    requires
        lookup(h, key) is None,
    ensures
        forall|i: int| 0 <= i < h.len() ==> #[trigger] h[i].0 != key,
    decreases h.len(),
{
    if h.len() > 0 {
        lemma_lookup_none(h.drop_last(), key);
        assert forall|i: int| 0 <= i < h.len() implies #[trigger] h[i].0 != key by {
            if i < h.len() - 1 {
                assert(h.drop_last()[i] == h[i]);
            }
        }
    }
}

/// Appending two pairs under other keys leaves a key's value unchanged.
pub proof fn lemma_lookup_past_appended(
    h: Seq<(Seq<char>, Seq<char>)>,
    a: (Seq<char>, Seq<char>),
    b: (Seq<char>, Seq<char>),
    key: Seq<char>,
)
    requires
        key != a.0,
        key != b.0,
    ensures
        lookup(h + seq![a, b], key) == lookup(h, key),
{
    assert((h + seq![a, b]).drop_last() =~= h + seq![a]);
    assert((h + seq![a, b]).last() == b);
    assert(lookup(h + seq![a, b], key) == lookup(h + seq![a], key));
    assert((h + seq![a]).drop_last() =~= h);
    assert((h + seq![a]).last() == a);
    assert(lookup(h + seq![a], key) == lookup(h, key));
}

/// The view of an optional string.
pub open spec fn opt_view(o: Option<String>) -> Option<Seq<char>> {
    match o {
        Some(s) => Some(s@),
        None => None,
    }
}

/// The view of a list of string pairs.
pub open spec fn pairs_view(h: Seq<(String, String)>) -> Seq<(Seq<char>, Seq<char>)> {
    h.map_values(|p: (String, String)| (p.0@, p.1@))
}

/// Copies an optional string.
pub fn clone_opt(o: &Option<String>) -> (r: Option<String>)
    ensures
        opt_view(r) == opt_view(*o),
{
    match o {
        Some(s) => Some(s.clone()),
        None => None,
    }
}

/// Finds the value of `key` in `d`, the last pair winning.
pub fn lookup_value(d: &Dict, key: &String) -> (r: Option<String>)
    ensures
        opt_view(r) == lookup(pairs_view(d@), key@),
{
    let mut found: Option<String> = None;
    let mut i: usize = 0;
    while i < d.len()
        invariant
            0 <= i <= d.len(),
            opt_view(found) == lookup(pairs_view(d@.subrange(0, i as int)), key@),
        decreases d.len() - i,
    {
        proof {
            assert(pairs_view(d@.subrange(0, i as int + 1)).drop_last() =~= pairs_view(
                d@.subrange(0, i as int),
            ));
        }
        if d[i].0 == *key {
            found = Some(d[i].1.clone());
        }
        i += 1;
    }
    proof {
        assert(d@.subrange(0, d@.len() as int) =~= d@);
    }
    found
}

/// Finds the value of `key` in `d` when it is set to a non-empty value.
pub fn setting_value(d: &Dict, key: &String) -> (r: Option<String>)
    ensures
        opt_view(r) == setting(d@, key@),
{
    match lookup_value(d, key) {
        Some(v) => if v.as_str().is_empty() { None } else { Some(v) },
        None => None,
    }
}

} // verus!
