//! Actions that act on a path an earlier action already acts on.

use vstd::prelude::*;
use crate::core_types::{Action, SpecAction};
use crate::parser::header_utils::chars_equal;
use crate::parser::state::actions_view;
use crate::text::chars_of;

verus! {

/// The index of the last action before `k` whose path is `path`.
pub open spec fn last_before(acts: Seq<SpecAction>, path: Seq<char>, k: int) -> Option<int>
    decreases k,
{
    if k <= 0 {
        None
    } else if acts[k - 1].path == path {
        Some(k - 1)
    } else {
        last_before(acts, path, k - 1)
    }
}

/// Among the first `n` actions, each one that follows another on the same
/// path, as the pair (its index, the index of the last earlier action on
/// that path), in order.
pub open spec fn repeated_paths(acts: Seq<SpecAction>, n: int) -> Seq<(int, int)>
    decreases n,
{
    if n <= 0 {
        Seq::empty()
    } else {
        let before = repeated_paths(acts, n - 1);
        match last_before(acts, acts[n - 1].path, n - 1) {
            Some(j) => before.push((n - 1, j)),
            None => before,
        }
    }
}

/// The last action before `k` on the path of action `i`.
fn find_last_before(actions: &Vec<Action>, i: usize, k: usize) -> (r: Option<usize>)
    requires
        i < actions.len(),
        k <= actions.len(),
    ensures
        match r {
            Some(j) => last_before(actions_view(actions@), actions@[i as int]@.path, k as int)
                == Some(j as int),
            None => last_before(actions_view(actions@), actions@[i as int]@.path, k as int) is None,
        },
{
    let p = chars_of(actions[i].path.as_str());
    let mut m: usize = k;
    while m > 0
        invariant
            m <= k <= actions.len(),
            i < actions.len(),
            p@ == actions@[i as int]@.path,
            last_before(actions_view(actions@), p@, k as int) == last_before(
                actions_view(actions@),
                p@,
                m as int,
            ),
        decreases m,
    {
        let q = chars_of(actions[m - 1].path.as_str());
        assert(actions_view(actions@)[m - 1] == actions@[m - 1]@);
        if chars_equal(&q, &p) {
            return Some(m - 1);
        }
        m = m - 1;
    }
    None
}

/// For each action that acts on a path an earlier action already acted on,
/// the pair (its index, the index of the last such earlier action), in the
/// order of the actions.
pub fn check_action_conflicts(actions: &Vec<Action>) -> (r: Vec<(usize, usize)>)
    ensures
        r@.len() == repeated_paths(actions_view(actions@), actions@.len() as int).len(),
        forall|k: int|
            0 <= k < r@.len() ==> (#[trigger] r@[k]).0 as int == repeated_paths(
                actions_view(actions@),
                actions@.len() as int,
            )[k].0 && r@[k].1 as int == repeated_paths(
                actions_view(actions@),
                actions@.len() as int,
            )[k].1,
{
    let ghost acts = actions_view(actions@);
    let mut out: Vec<(usize, usize)> = Vec::new();
    let mut i: usize = 0;
    while i < actions.len()
        invariant
            i <= actions.len(),
            acts == actions_view(actions@),
            out@.len() == repeated_paths(acts, i as int).len(),
            forall|k: int|
                0 <= k < out@.len() ==> (#[trigger] out@[k]).0 as int == repeated_paths(
                    acts,
                    i as int,
                )[k].0 && out@[k].1 as int == repeated_paths(acts, i as int)[k].1,
        decreases actions.len() - i,
    {
        assert(acts[i as int] == actions@[i as int]@);
        let ghost before = out@;
        match find_last_before(actions, i, i) {
            Some(j) => {
                out.push((i, j));
            },
            None => {},
        }
        assert(repeated_paths(acts, i + 1) == match last_before(acts, acts[i as int].path, i as int) {
            Some(j) => repeated_paths(acts, i as int).push((i as int, j)),
            None => repeated_paths(acts, i as int),
        });
        i = i + 1;
    }
    out
}

} // verus!
