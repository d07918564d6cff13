//! The library side of plugins: reading what a plugin hands back, and sorting
//! the candidates that loaded from those that did not.

use vstd::prelude::*;
use vstd::utf8::{valid_utf8, decode_utf8};

verus! {

/// Relies on `std::str::from_utf8`: it accepts exactly the well-formed UTF-8
/// byte strings, and then holds their characters.
#[verifier::external_body]
fn utf8_text(b: &[u8]) -> (r: Option<String>)
    ensures
        r is Some <==> valid_utf8(b@),
        r is Some ==> r->0@ == decode_utf8(b@),
{
    match std::str::from_utf8(b) {
        Ok(s) => Some(s.to_string()),
        Err(_) => None,
    }
}

/// The text of the bytes a plugin returned: their characters where they are
/// well-formed UTF-8, otherwise empty text, which displays nothing.
pub fn plugin_text(bytes: &[u8]) -> (r: String)
    ensures
        valid_utf8(bytes@) ==> r@ == decode_utf8(bytes@),
        !valid_utf8(bytes@) ==> r@ == Seq::<char>::empty(),
{
    match utf8_text(bytes) {
        Some(s) => s,
        None => String::new(),
    }
}

/// The plugins that loaded, in candidate order.
pub open spec fn loaded_of<T>(outs: Seq<(String, Option<T>)>) -> Seq<T>
    decreases outs.len(),
{
    if outs.len() == 0 {
        Seq::empty()
    } else {
        let prev = loaded_of(outs.drop_last());
        match outs.last().1 {
            Some(p) => prev.push(p),
            None => prev,
        }
    }
}

/// The paths of the candidates that failed to load, in candidate order.
pub open spec fn failed_of<T>(outs: Seq<(String, Option<T>)>) -> Seq<Seq<char>>
    decreases outs.len(),
{
    if outs.len() == 0 {
        Seq::empty()
    } else {
        let prev = failed_of(outs.drop_last());
        match outs.last().1 {
            Some(_) => prev,
            None => prev.push(outs.last().0@),
        }
    }
}

/// Sorts load outcomes, one per candidate path: the plugins that loaded, in
/// candidate order, and the paths to warn about, one per failed candidate.
pub fn sort_loads<T>(outcomes: Vec<(String, Option<T>)>) -> (r: (Vec<T>, Vec<String>))
    ensures
        r.0@ == loaded_of(outcomes@),
        r.1.deep_view() == failed_of(outcomes@),
{
    let ghost all = outcomes@;
    let n = outcomes.len();
    let mut rest = outcomes;
    let mut loaded: Vec<T> = Vec::new();
    let mut failed: Vec<String> = Vec::new();
    let mut k: usize = 0;
    while rest.len() > 0
        invariant
            k + rest@.len() == all.len(),
            all.len() == n,
            rest@ == all.subrange(k as int, all.len() as int),
            loaded@ == loaded_of(all.take(k as int)),
            failed.deep_view() == failed_of(all.take(k as int)),
        decreases rest@.len(),
    {
        let (path, outcome) = rest.remove(0);
        assert(all.take(k as int + 1).drop_last() =~= all.take(k as int));
        assert(all[k as int] == (path, outcome));
        let ghost prev = failed.deep_view();
        match outcome {
            Some(p) => loaded.push(p),
            None => {
                failed.push(path);
                assert(failed.deep_view() =~= prev.push(all[k as int].0@));
            },
        }
        k += 1;
        assert(rest@ =~= all.subrange(k as int, all.len() as int));
    }
    assert(all.take(k as int) =~= all);
    (loaded, failed)
}

/// A candidate that fails to load is left out and named in exactly one
/// warning, while every candidate that loaded is kept.
pub proof fn lemma_failed_candidate_skipped<T>(outs: Seq<(String, Option<T>)>, j: int)
    requires
        0 <= j < outs.len(),
        outs[j].1 is None,
    ensures
        failed_of(outs).contains(outs[j].0@),
        loaded_of(outs).len() + failed_of(outs).len() == outs.len(),
        loaded_of(outs).len() < outs.len(),
    decreases outs.len(),
{
    lemma_counts(outs);
    let p = outs.drop_last();
    if j == outs.len() - 1 {
        assert(failed_of(outs).last() == outs[j].0@);
    } else {
        assert(p[j] == outs[j]);
        lemma_failed_candidate_skipped(p, j);
        let i = choose|i: int| 0 <= i < failed_of(p).len() && failed_of(p)[i] == outs[j].0@;
        assert(failed_of(outs)[i] == failed_of(p)[i]);
    }
}

proof fn lemma_counts<T>(outs: Seq<(String, Option<T>)>)
    ensures
        loaded_of(outs).len() + failed_of(outs).len() == outs.len(),
    decreases outs.len(),
{
    if outs.len() > 0 {
        lemma_counts(outs.drop_last());
    }
}

} // verus!
