//! Where keyboard focus and the camera go when windows come and go.

use vstd::prelude::*;

verus! {

/// Removing a window changes focus only when that window had it.
pub fn window_removal_changes_focus(removed: u64, focused: Option<u64>) -> (changes: bool)
    ensures
        changes == (focused == Some(removed)),
{
    match focused {
        Some(id) => id == removed,
        None => false,
    }
}

/// When activating a window moves the camera to it.
#[derive(Clone, Copy, Debug, PartialEq, Eq, Structural)]
pub enum CameraFollowPolicy {
    Always,
    OnFocusChange,
    Never,
}

/// Whether activating `activated` moves the camera.
pub fn camera_should_follow_on_activation(
    previous_focus: Option<u64>,
    activated: u64,
    policy: CameraFollowPolicy,
) -> (follow: bool)
    ensures
        follow == match policy {
            CameraFollowPolicy::Always => true,
            CameraFollowPolicy::OnFocusChange => previous_focus != Some(activated),
            CameraFollowPolicy::Never => false,
        },
{
    match policy {
        CameraFollowPolicy::Always => true,
        CameraFollowPolicy::OnFocusChange => match previous_focus {
            Some(id) => id != activated,
            None => true,
        },
        CameraFollowPolicy::Never => false,
    }
}

/// `s` with every element after its first occurrence dropped.
pub open spec fn dedup_first(s: Seq<u64>) -> Seq<u64>
    decreases s.len(),
{
    if s.len() == 0 {
        s
    } else {
        let prefix = dedup_first(s.drop_last());
        if prefix.contains(s.last()) {
            prefix
        } else {
            prefix.push(s.last())
        }
    }
}

/// The focus candidates in order of preference: the direct parent, then the
/// inherited chain, then the fallback history, each window once.
pub open spec fn focus_candidates(direct_parent: Option<u64>, inherited: Seq<u64>, fallback: Seq<u64>) -> Seq<u64> {
    let parent = match direct_parent {
        Some(id) => seq![id],
        None => Seq::empty(),
    };
    dedup_first(parent + inherited + fallback)
}

proof fn lemma_dedup_push(s: Seq<u64>, x: u64)
    ensures
        dedup_first(s.push(x)) == if dedup_first(s).contains(x) {
            dedup_first(s)
        } else {
            dedup_first(s).push(x)
        },
{
    assert(s.push(x).drop_last() == s);
}

fn push_unique(candidates: &mut Vec<u64>, id: u64)
    ensures
        final(candidates)@ == if old(candidates)@.contains(id) {
            old(candidates)@
        } else {
            old(candidates)@.push(id)
        },
{
    let mut i: usize = 0;
    while i < candidates.len()
        invariant
            i <= candidates.len(),
            forall|j: int| 0 <= j < i ==> candidates@[j] != id,
        decreases candidates.len() - i,
    {
        if candidates[i] == id {
            assert(candidates@.contains(id));
            return;
        }
        i = i + 1;
    }
    assert(!candidates@.contains(id));
    candidates.push(id);
}

/// Merges the focus candidates of a closing dialog, keeping first occurrences.
pub fn merge_focus_candidates(
    direct_parent: Option<u64>,
    inherited: &Vec<u64>,
    fallback: &Vec<u64>,
) -> (candidates: Vec<u64>)
    ensures
        candidates@ == focus_candidates(direct_parent, inherited@, fallback@),
{
    let mut all: Vec<u64> = Vec::new();
    if let Some(id) = direct_parent {
        all.push(id);
    }
    let mut i: usize = 0;
    while i < inherited.len()
        invariant
            i <= inherited.len(),
            all@ == (match direct_parent {
                Some(id) => seq![id],
                None => Seq::<u64>::empty(),
            }) + inherited@.take(i as int),
        decreases inherited.len() - i,
    {
        all.push(inherited[i]);
        assert(inherited@.take(i as int + 1) == inherited@.take(i as int).push(inherited@[i as int]));
        i = i + 1;
    }
    assert(inherited@.take(inherited.len() as int) == inherited@);
    let mut k: usize = 0;
    while k < fallback.len()
        invariant
            k <= fallback.len(),
            all@ == (match direct_parent {
                Some(id) => seq![id],
                None => Seq::<u64>::empty(),
            }) + inherited@ + fallback@.take(k as int),
        decreases fallback.len() - k,
    {
        all.push(fallback[k]);
        assert(fallback@.take(k as int + 1) == fallback@.take(k as int).push(fallback@[k as int]));
        k = k + 1;
    }
    assert(fallback@.take(fallback.len() as int) == fallback@);
    let mut candidates: Vec<u64> = Vec::new();
    let mut n: usize = 0;
    while n < all.len()
        invariant
            n <= all.len(),
            candidates@ == dedup_first(all@.take(n as int)),
        decreases all.len() - n,
    {
        proof {
            lemma_dedup_push(all@.take(n as int), all@[n as int]);
            assert(all@.take(n as int + 1) == all@.take(n as int).push(all@[n as int]));
        }
        push_unique(&mut candidates, all[n]);
        n = n + 1;
    }
    assert(all@.take(all.len() as int) == all@);
    candidates
}

proof fn lemma_dedup_properties(s: Seq<u64>)
    ensures
        forall|x: u64| dedup_first(s).contains(x) <==> s.contains(x),
        forall|i: int, j: int|
            0 <= i < j < dedup_first(s).len() ==> dedup_first(s)[i] != dedup_first(s)[j],
    decreases s.len(),
{
    if s.len() > 0 {
        lemma_dedup_properties(s.drop_last());
        let prefix = dedup_first(s.drop_last());
        assert forall|x: u64| dedup_first(s).contains(x) <==> s.contains(x) by {
            if s.contains(x) {
                let k = choose|k: int| 0 <= k < s.len() && s[k] == x;
                if k < s.len() - 1 {
                    assert(s.drop_last()[k] == x);
                    assert(s.drop_last().contains(x));
                }
            }
            if s.drop_last().contains(x) {
                let k = choose|k: int| 0 <= k < s.drop_last().len() && s.drop_last()[k] == x;
                assert(s[k] == x);
            }
            if !prefix.contains(s.last()) {
                assert(prefix.push(s.last())[prefix.len() as int] == s.last());
                if prefix.contains(x) {
                    let k = choose|k: int| 0 <= k < prefix.len() && prefix[k] == x;
                    assert(prefix.push(s.last())[k] == x);
                }
                if prefix.push(s.last()).contains(x) {
                    let k = choose|k: int| 0 <= k < prefix.len() + 1 && prefix.push(s.last())[k] == x;
                    if k < prefix.len() {
                        assert(prefix[k] == x);
                    }
                }
            }
            assert(s.contains(s.last())) by {
                assert(s[s.len() - 1] == s.last());
            }
        }
    }
}

/// The merged candidates name every window of the three sources exactly once.
pub proof fn lemma_focus_candidates_unique_and_complete(
    direct_parent: Option<u64>,
    inherited: Seq<u64>,
    fallback: Seq<u64>,
)
    ensures
        forall|x: u64|
            focus_candidates(direct_parent, inherited, fallback).contains(x) <==> (direct_parent
                == Some(x) || inherited.contains(x) || fallback.contains(x)),
        forall|i: int, j: int|
            0 <= i < j < focus_candidates(direct_parent, inherited, fallback).len() ==> focus_candidates(
                direct_parent,
                inherited,
                fallback,
            )[i] != focus_candidates(direct_parent, inherited, fallback)[j],
{
    let parent = match direct_parent {
        Some(id) => seq![id],
        None => Seq::<u64>::empty(),
    };
    let all = parent + inherited + fallback;
    lemma_dedup_properties(all);
    assert(focus_candidates(direct_parent, inherited, fallback) == dedup_first(all));
    assert forall|x: u64| all.contains(x) <==> (direct_parent == Some(x) || inherited.contains(x) || fallback.contains(x)) by {
        if all.contains(x) {
            let k = choose|k: int| 0 <= k < all.len() && all[k] == x;
            if k < parent.len() {
                assert(parent[k] == x);
            } else if k < parent.len() + inherited.len() {
                assert(inherited[k - parent.len()] == x);
            } else {
                assert(fallback[k - parent.len() - inherited.len()] == x);
            }
        }
        if direct_parent == Some(x) {
            assert(all[0] == x);
        }
        if inherited.contains(x) {
            let k = choose|k: int| 0 <= k < inherited.len() && inherited[k] == x;
            assert(all[parent.len() + k] == x);
        }
        if fallback.contains(x) {
            let k = choose|k: int| 0 <= k < fallback.len() && fallback[k] == x;
            assert(all[parent.len() + inherited.len() + k] == x);
        }
    }
    assert forall|x: u64|
        focus_candidates(direct_parent, inherited, fallback).contains(x) <==> (direct_parent == Some(x)
            || inherited.contains(x) || fallback.contains(x)) by {
        assert(dedup_first(all).contains(x) <==> all.contains(x));
    }
}

/// The window that focus returns to when a focused dialog goes away: the
/// first of `candidates` (the dialog's parent, its ancestors, then its focus
/// history) that is still one of the `live` windows.
pub fn preferred_focus(candidates: &Vec<u64>, live: &Vec<u64>) -> (preferred: Option<u64>)
    ensures
        match preferred {
            Some(id) => exists|i: int|
                0 <= i < candidates@.len() && candidates@[i] == id && live@.contains(id) && forall|j: int|
                    0 <= j < i ==> !live@.contains(#[trigger] candidates@[j]),
            None => forall|i: int| 0 <= i < candidates@.len() ==> !live@.contains(#[trigger] candidates@[i]),
        },
{
    let mut i: usize = 0;
    while i < candidates.len()
        invariant
            i <= candidates@.len(),
            forall|j: int| 0 <= j < i ==> !live@.contains(#[trigger] candidates@[j]),
        decreases candidates.len() - i,
    {
        let id = candidates[i];
        let mut k: usize = 0;
        while k < live.len()
            invariant
                k <= live@.len(),
                id == candidates@[i as int],
                i < candidates@.len(),
                forall|j: int| 0 <= j < i ==> !live@.contains(#[trigger] candidates@[j]),
                forall|m: int| 0 <= m < k ==> live@[m] != id,
            decreases live.len() - k,
        {
            if live[k] == id {
                assert(live@.contains(id));
                return Some(id);
            }
            k = k + 1;
        }
        i = i + 1;
    }
    None
}

} // verus!
