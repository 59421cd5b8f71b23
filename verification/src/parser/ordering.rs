//! Stable ordering of the actions by the position of their header.

use vstd::prelude::*;
use crate::core_types::{Action, SpecAction};
use crate::parser::semantics::{insert_by_pos, sort_by_pos, sorted_by_pos};
use crate::parser::state::actions_view;

verus! {

/// Inserting at an index after every position not greater and before every
/// greater one is what `insert_by_pos` does.
pub proof fn lemma_insert_by_pos_at(s: Seq<SpecAction>, a: SpecAction, k: int)
    requires
        0 <= k <= s.len(),
        forall|j: int| k <= j < s.len() ==> (#[trigger] s[j]).original_pos > a.original_pos,
        k > 0 ==> s[k - 1].original_pos <= a.original_pos,
    ensures
        insert_by_pos(s, a) == s.insert(k, a),
    decreases s.len(),
{
    if s.len() == 0 {
        assert(s.insert(k, a) =~= seq![a]);
    } else if s.last().original_pos <= a.original_pos {
        assert(k == s.len());
        assert(s.insert(k, a) =~= s.push(a));
    } else {
        let d = s.drop_last();
        assert(k < s.len());
        lemma_insert_by_pos_at(d, a, k);
        assert(d.insert(k, a).push(s.last()) =~= s.insert(k, a));
    }
}

/// `insert_by_pos` keeps a sorted sequence sorted and adds exactly `a`.
pub proof fn lemma_insert_by_pos_sorted(s: Seq<SpecAction>, a: SpecAction)
    requires
        sorted_by_pos(s),
    ensures
        sorted_by_pos(insert_by_pos(s, a)),
        insert_by_pos(s, a).to_multiset() == s.to_multiset().insert(a),
        insert_by_pos(s, a).len() == s.len() + 1,
    decreases s.len(),
{
    broadcast use vstd::seq_lib::group_to_multiset_ensures;

    if s.len() == 0 {
        assert(seq![a] =~= Seq::<SpecAction>::empty().push(a));
    } else if s.last().original_pos <= a.original_pos {
    } else {
        let d = s.drop_last();
        assert(sorted_by_pos(d));
        lemma_insert_by_pos_sorted(d, a);
        let t = insert_by_pos(d, a);
        let r = t.push(s.last());
        assert(s == d.push(s.last()));
        assert forall|i: int, j: int| 0 <= i < j < r.len() implies r[i].original_pos
            <= r[j].original_pos by {
            if j == r.len() - 1 && i < t.len() {
                // every element of t is a (which is below the last) or an element of d
                assert(t.to_multiset().count(t[i]) > 0);
                assert(d.to_multiset().insert(a).count(t[i]) > 0);
                if t[i] != a {
                    assert(d.to_multiset().count(t[i]) > 0);
                    assert(d.contains(t[i]));
                    let m = choose|m: int| 0 <= m < d.len() && d[m] == t[i];
                    assert(s[m] == d[m]);
                }
            }
        }
        assert(r.to_multiset() == s.to_multiset().insert(a)) by {
            assert(s.to_multiset() == d.to_multiset().insert(s.last()));
        }
    }
}

/// The stable sort yields a sorted permutation.
pub proof fn lemma_sort_by_pos(v: Seq<SpecAction>)
    ensures
        sorted_by_pos(sort_by_pos(v)),
        sort_by_pos(v).to_multiset() == v.to_multiset(),
        sort_by_pos(v).len() == v.len(),
    decreases v.len(),
{
    broadcast use vstd::seq_lib::group_to_multiset_ensures;

    if v.len() > 0 {
        lemma_sort_by_pos(v.drop_last());
        lemma_insert_by_pos_sorted(sort_by_pos(v.drop_last()), v.last());
        assert(v == v.drop_last().push(v.last()));
    }
}

/// Orders the actions by position, keeping the order of actions at the same
/// position.
pub fn sort_actions_by_pos(actions: Vec<Action>) -> (r: Vec<Action>)
    ensures
        actions_view(r@) == sort_by_pos(actions_view(actions@)),
{
    let ghost orig = actions_view(actions@);
    let ghost n = actions.len() as int;
    let mut input = actions;
    let mut out: Vec<Action> = Vec::new();
    let mut i: usize = 0;
    assert(orig.subrange(0, 0) =~= Seq::<SpecAction>::empty());
    assert(actions_view(out@) =~= Seq::<SpecAction>::empty());
    assert(orig.subrange(0, n) =~= orig);
    while input.len() > 0
        invariant
            0 <= i <= n,
            i + input.len() == n,
            n == orig.len(),
            n <= usize::MAX,
            actions_view(input@) == orig.subrange(i as int, n),
            actions_view(out@) == sort_by_pos(orig.subrange(0, i as int)),
        decreases input.len(),
    {
        let ghost before = input@;
        let a = input.remove(0);
        assert(actions_view(before)[0] == before[0]@);
        assert(a@ == orig[i as int]);
        assert(actions_view(input@) =~= orig.subrange(i + 1, n)) by {
            assert(input@ =~= before.remove(0));
            assert forall|j: int| 0 <= j < input@.len() implies #[trigger] actions_view(input@)[j]
                == orig[i + 1 + j] by {
                assert(input@[j] == before[j + 1]);
                assert(actions_view(before)[j + 1] == before[j + 1]@);
            }
        }
        let mut k = out.len();
        while k > 0 && out[k - 1].original_pos > a.original_pos
            invariant
                k <= out.len(),
                forall|j: int| k <= j < out.len() ==> (#[trigger] out@[j]).original_pos
                    > a.original_pos,
            decreases k,
        {
            k = k - 1;
        }
        proof {
            let ov = actions_view(out@);
            assert forall|j: int| k <= j < ov.len() implies (#[trigger] ov[j]).original_pos
                > a@.original_pos by {
                assert(ov[j] == out@[j]@);
            }
            if k > 0 {
                assert(ov[k - 1] == out@[k - 1]@);
            }
            lemma_insert_by_pos_at(ov, a@, k as int);
            let pre = orig.subrange(0, i + 1);
            assert(pre.drop_last() =~= orig.subrange(0, i as int));
            assert(pre.last() == orig[i as int]);
        }
        let ghost out_before = out@;
        out.insert(k, a);
        assert(actions_view(out@) =~= actions_view(out_before).insert(k as int, a@));
        i = i + 1;
    }
    out
}

} // verus!
