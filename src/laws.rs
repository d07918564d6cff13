//! What holds of a whole pass: collection followed by composition.

use vstd::prelude::*;
use crate::cfg::{Config, all_off};
use crate::out::{
    OutputType, ResultView, collect_builtins, collect_plugins, collected, display_lines,
    selected, COLOR_RESET, lines_of, logo_rows, line_prefix,
};

verus! {

proof fn lemma_all_failed(outs: Seq<Option<(OutputType, String)>>)
    requires
        forall|i: int| 0 <= i < outs.len() ==> #[trigger] outs[i] is None,
    ensures
        collect_builtins(outs) == ResultView::empty(),
    decreases outs.len(),
{
    if outs.len() > 0 {
        let p = outs.drop_last();
        assert forall|i: int| 0 <= i < p.len() implies #[trigger] p[i] is None by {
            assert(p[i] == outs[i]);
        }
        lemma_all_failed(p);
        assert(outs[outs.len() - 1] is None);
    }
}

/// With every toggle off and no plugins, a pass displays nothing: no built-in
/// provider is selected, so any result a task reports is of no selected kind.
pub proof fn lemma_all_off_displays_nothing(cfg: Config, outs: Seq<Option<(OutputType, String)>>)
    requires
        all_off(cfg),
        forall|i: int| 0 <= i < outs.len() && #[trigger] outs[i] is Some ==> selected(cfg).contains((outs[i]->0).0),
    ensures
        selected(cfg).len() == 0,
        display_lines(collected(outs, Seq::empty())) == Seq::<Seq<char>>::empty(),
{
    assert(selected(cfg) =~= Seq::<OutputType>::empty());
    assert forall|i: int| 0 <= i < outs.len() implies #[trigger] outs[i] is None by {
        if outs[i] is Some {
            assert(selected(cfg).contains((outs[i]->0).0));
        }
    }
    lemma_all_failed(outs);
    let v = collected(outs, Seq::empty());
    assert(v == ResultView::empty());
    assert(v.fields() =~= Seq::<Seq<char>>::empty());
    assert(display_lines(v) =~= Seq::<Seq<char>>::empty());
}


/// A built-in provider that returned empty text contributes nothing: the
/// result set is as if its task had reported no result at all.
pub proof fn lemma_empty_builtin_text_dropped(outs: Seq<Option<(OutputType, String)>>, j: int)
    requires
        0 <= j < outs.len(),
        outs[j] is Some,
        (outs[j]->0).1@.len() == 0,
    ensures
        collect_builtins(outs.update(j, None)) == collect_builtins(outs),
    decreases outs.len(),
{
    let u = outs.update(j, None);
    if j == outs.len() - 1 {
        assert(u.drop_last() =~= outs.drop_last());
    } else {
        assert(u.drop_last() =~= outs.drop_last().update(j, None));
        lemma_empty_builtin_text_dropped(outs.drop_last(), j);
        assert(u.last() == outs.last());
    }
}

/// A plugin that returned empty text contributes nothing: the result set is as
/// if its task had reported no result at all.
pub proof fn lemma_empty_plugin_text_dropped(v: ResultView, outs: Seq<Option<String>>, j: int)
    requires
        0 <= j < outs.len(),
        outs[j] is Some,
        (outs[j]->0)@.len() == 0,
    ensures
        collect_plugins(v, outs.update(j, None)) == collect_plugins(v, outs),
    decreases outs.len(),
{
    let u = outs.update(j, None);
    if j == outs.len() - 1 {
        assert(u.drop_last() =~= outs.drop_last());
    } else {
        assert(u.drop_last() =~= outs.drop_last().update(j, None));
        lemma_empty_plugin_text_dropped(v, outs.drop_last(), j);
        assert(u.last() == outs.last());
    }
}

/// Where every text held is non-empty, so is every display line.
pub proof fn lemma_lines_nonempty(v: ResultView)
    requires
        v.wf(),
    ensures
        forall|i: int| 0 <= i < display_lines(v).len() ==> #[trigger] display_lines(v)[i].len() > 0,
{
    reveal_strlit("\x1B[37m");
    assert(COLOR_RESET@.len() > 0);
    let f = v.fields();
    assert forall|i: int| 0 <= i < f.len() implies #[trigger] f[i].len() > 0 by {
        let b = v.builtin_fields();
        if i < b.len() {
            if v.os is Some {
                assert(v.text_for(OutputType::OS) is Some);
            }
            if v.kernel is Some {
                assert(v.text_for(OutputType::Kernel) is Some);
            }
            if v.uptime is Some {
                assert(v.text_for(OutputType::Uptime) is Some);
            }
            assert(f[i] == b[i]);
        } else {
            assert(f[i] == v.plugins[i - b.len()]);
        }
    }
}


/// Each built-in kind has at most one result among `outs`.
pub open spec fn one_per_kind(outs: Seq<Option<(OutputType, String)>>) -> bool {
    forall|i: int, j: int|
        0 <= i < outs.len() && 0 <= j < outs.len() && i != j && #[trigger] outs[i] is Some
            && #[trigger] outs[j] is Some ==> (outs[i]->0).0 != (outs[j]->0).0
}

/// `outs[i]` is a non-empty result of kind `k`.
pub open spec fn reports(outs: Seq<Option<(OutputType, String)>>, i: int, k: OutputType) -> bool {
    &&& 0 <= i < outs.len()
    &&& outs[i] is Some
    &&& (outs[i]->0).0 == k
    &&& (outs[i]->0).1@.len() > 0
}

proof fn lemma_collect_text(outs: Seq<Option<(OutputType, String)>>, k: OutputType)
    requires
        one_per_kind(outs),
    ensures
        collect_builtins(outs).plugins == Seq::<Seq<char>>::empty(),
        forall|i: int| #[trigger] reports(outs, i, k) ==> collect_builtins(outs).text_for(k) == Some(
            (outs[i]->0).1@,
        ),
        collect_builtins(outs).text_for(k) is Some ==> exists|i: int|
            #[trigger] reports(outs, i, k) && collect_builtins(outs).text_for(k) == Some((outs[i]->0).1@),
    decreases outs.len(),
{
    if outs.len() > 0 {
        let n = outs.len() - 1;
        let p = outs.drop_last();
        assert forall|i: int, j: int|
            0 <= i < p.len() && 0 <= j < p.len() && i != j && #[trigger] p[i] is Some
                && #[trigger] p[j] is Some implies (p[i]->0).0 != (p[j]->0).0 by {
            assert(p[i] == outs[i] && p[j] == outs[j]);
        }
        lemma_collect_text(p, k);
        assert forall|i: int| 0 <= i < n implies #[trigger] reports(p, i, k) == reports(outs, i, k) by {
            assert(p[i] == outs[i]);
        }
        if reports(outs, n, k) {
            assert forall|i: int| #[trigger] reports(outs, i, k) implies i == n by {
                if i != n {
                    assert(outs[i] is Some && outs[n] is Some);
                }
            }
            assert(collect_builtins(outs).text_for(k) == Some((outs[n]->0).1@));
        } else {
            assert(collect_builtins(outs).text_for(k) == collect_builtins(p).text_for(k));
            assert forall|i: int| #[trigger] reports(outs, i, k) implies collect_builtins(outs).text_for(k) == Some(
                (outs[i]->0).1@,
            ) by {
                assert(i != n);
                assert(reports(p, i, k));
                assert(p[i] == outs[i]);
            }
            if collect_builtins(outs).text_for(k) is Some {
                let i = choose|i: int| #[trigger] reports(p, i, k) && collect_builtins(p).text_for(k) == Some((p[i]->0).1@);
                assert(reports(outs, i, k));
            }
        }
    }
}

/// The order in which the built-in tasks complete does not matter: two
/// completion orders of the same results, one per kind, give the same result
/// set and the same display lines.
pub proof fn lemma_completion_order_irrelevant(
    outs1: Seq<Option<(OutputType, String)>>,
    outs2: Seq<Option<(OutputType, String)>>,
    plugins: Seq<Option<String>>,
)
    requires
        outs1.to_multiset() == outs2.to_multiset(),
        one_per_kind(outs1),
        one_per_kind(outs2),
    ensures
        collected(outs1, plugins) == collected(outs2, plugins),
        display_lines(collected(outs1, plugins)) == display_lines(collected(outs2, plugins)),
{
    broadcast use vstd::seq_lib::group_to_multiset_ensures;
    let v1 = collect_builtins(outs1);
    let v2 = collect_builtins(outs2);
    assert forall|k: OutputType| v1.text_for(k) == v2.text_for(k) by {
        lemma_collect_text(outs1, k);
        lemma_collect_text(outs2, k);
        if v1.text_for(k) is Some {
            let i = choose|i: int| #[trigger] reports(outs1, i, k) && v1.text_for(k) == Some((outs1[i]->0).1@);
            assert(outs1.contains(outs1[i]));
            assert(outs1.to_multiset().count(outs1[i]) > 0);
            assert(outs2.contains(outs1[i]));
            let j = choose|j: int| 0 <= j < outs2.len() && outs2[j] == outs1[i];
            assert(reports(outs2, j, k));
        }
        if v2.text_for(k) is Some {
            let j = choose|j: int| #[trigger] reports(outs2, j, k) && v2.text_for(k) == Some((outs2[j]->0).1@);
            assert(outs2.contains(outs2[j]));
            assert(outs2.to_multiset().count(outs2[j]) > 0);
            assert(outs1.contains(outs2[j]));
            let i = choose|i: int| 0 <= i < outs1.len() && outs1[i] == outs2[j];
            assert(reports(outs1, i, k));
        }
    }
    assert(v1.text_for(OutputType::Distro) == v2.text_for(OutputType::Distro));
    assert(v1.text_for(OutputType::OS) == v2.text_for(OutputType::OS));
    assert(v1.text_for(OutputType::Kernel) == v2.text_for(OutputType::Kernel));
    assert(v1.text_for(OutputType::Uptime) == v2.text_for(OutputType::Uptime));
    lemma_collect_text(outs1, OutputType::OS);
    lemma_collect_text(outs2, OutputType::OS);
    assert(v1 == v2);
}

/// Built-in fields come before plugin fields, built-ins in declared order and
/// plugins in discovery order, and display line `i` ends with field `i`.
pub proof fn lemma_fields_in_order(v: ResultView)
    ensures
        v.fields() == v.builtin_fields() + v.plugins,
        display_lines(v).len() >= v.fields().len(),
        forall|i: int|
            0 <= i < v.fields().len() ==> (#[trigger] display_lines(v)[i]).subrange(
                display_lines(v)[i].len() - v.fields()[i].len(),
                display_lines(v)[i].len() as int,
            ) == v.fields()[i],
{
    let d = display_lines(v);
    let f = v.fields();
    assert forall|i: int| 0 <= i < f.len() implies (#[trigger] d[i]).subrange(
        d[i].len() - f[i].len(),
        d[i].len() as int,
    ) == f[i] by {
        let rows = logo_rows(v);
        let head = if i < rows.len() { rows[i] } else { line_prefix(v) };
        assert(d[i] == head + f[i]);
        assert((head + f[i]).subrange(head.len() as int, (head + f[i]).len() as int) =~= f[i]);
    }
}

/// A logo of exactly as many rows as there are fields: every line is a logo
/// row, the color reset, and one field.
pub proof fn lemma_logo_exact_fit(v: ResultView)
    requires
        v.logo is Some,
        lines_of(v.logo->0).len() == v.fields().len(),
    ensures
        display_lines(v).len() == v.fields().len(),
        forall|i: int|
            0 <= i < v.fields().len() ==> #[trigger] display_lines(v)[i] == lines_of(v.logo->0)[i]
                + COLOR_RESET@ + v.fields()[i],
{
}

/// A logo taller than the text: the rows below the last field are the logo
/// rows with the color reset, and nothing else.
pub proof fn lemma_logo_taller(v: ResultView)
    requires
        v.logo is Some,
        lines_of(v.logo->0).len() > v.fields().len(),
    ensures
        display_lines(v).len() == lines_of(v.logo->0).len(),
        forall|i: int|
            v.fields().len() <= i < lines_of(v.logo->0).len() ==> #[trigger] display_lines(v)[i]
                == lines_of(v.logo->0)[i] + COLOR_RESET@,
{
}

} // verus!
