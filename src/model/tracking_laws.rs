use crate::model::project_models::{
    after_track, is_first_match, paths_unique, track_spec, without_path, Entry,
};
use vstd::prelude::*;

verus! {

/// The registry after each tracking call of `calls` in turn, each call a path
/// and the digest of that file's bytes at the time.
pub open spec fn track_all(s: Seq<Entry>, calls: Seq<Entry>) -> Seq<Entry>
    decreases calls.len(),
{
    if calls.len() == 0 {
        s
    } else {
        let before = track_all(s, calls.drop_last());
        after_track(before, calls.last().0, calls.last().1)
    }
}

/// Every entry left by `without_path` comes from `s` and has another path.
pub proof fn lemma_without_path_entries(s: Seq<Entry>, p: Seq<char>)
    ensures
        without_path(s, p).len() <= s.len(),
        forall|k: int| 0 <= k < without_path(s, p).len() ==> {
            &&& (#[trigger] without_path(s, p)[k]).0 != p
            &&& s.contains(without_path(s, p)[k])
        },
    decreases s.len(),
{
    if s.len() > 0 {
        let init = s.drop_last();
        lemma_without_path_entries(init, p);
        let rest = without_path(init, p);
        let r = without_path(s, p);
        assert forall|k: int| 0 <= k < r.len() implies (#[trigger] r[k]).0 != p && s.contains(r[k]) by {
            if k < rest.len() {
                assert(init.contains(rest[k]));
                let j = choose|j: int| 0 <= j < init.len() && init[j] == rest[k];
                assert(s[j] == r[k]);
            } else {
                assert(r[k] == s[s.len() - 1]);
            }
        }
    }
}

/// Leaving out the entries of one path keeps the paths of a registry unique.
pub proof fn lemma_without_path_unique(s: Seq<Entry>, p: Seq<char>)
    requires
        paths_unique(s),
    ensures
        paths_unique(without_path(s, p)),
    decreases s.len(),
{
    if s.len() > 0 {
        let init = s.drop_last();
        assert(paths_unique(init));
        lemma_without_path_unique(init, p);
        lemma_without_path_entries(init, p);
        let rest = without_path(init, p);
        let r = without_path(s, p);
        if s.last().0 != p {
            assert forall|i: int, j: int|
                0 <= i < r.len() && 0 <= j < r.len() && i != j implies r[i].0 != r[j].0 by {
                if i < rest.len() && j < rest.len() {
                } else if i < rest.len() {
                    assert(init.contains(rest[i]));
                    let a = choose|a: int| 0 <= a < init.len() && init[a] == rest[i];
                    assert(s[a] == r[i]);
                } else {
                    assert(init.contains(rest[j]));
                    let a = choose|a: int| 0 <= a < init.len() && init[a] == rest[j];
                    assert(s[a] == r[j]);
                }
            }
        }
    }
}

/// Tracking a file whose bytes have not changed since it was last tracked
/// changes nothing: tracking the same path with the same digest twice in a
/// row leaves the second call with nothing to write.
pub proof fn lemma_track_twice_unchanged(s: Seq<Entry>, p: Seq<char>, h: Seq<char>)
    ensures
        track_spec(after_track(s, p, h), p, h) is None,
{
    if track_spec(s, p, h) is Some {
        let w = without_path(s, p);
        let t = w.push((p, h));
        lemma_without_path_entries(s, p);
        assert(forall|k: int| 0 <= k < w.len() ==> t[k] == w[k]);
        assert(is_first_match(t, p, w.len() as int));
    }
}

/// One tracking call keeps the paths of a registry unique.
pub proof fn lemma_track_keeps_paths_unique(s: Seq<Entry>, p: Seq<char>, h: Seq<char>)
    requires
        paths_unique(s),
    ensures
        paths_unique(after_track(s, p, h)),
{
    if track_spec(s, p, h) is Some {
        let w = without_path(s, p);
        lemma_without_path_entries(s, p);
        lemma_without_path_unique(s, p);
        let t = w.push((p, h));
        assert(forall|k: int| 0 <= k < w.len() ==> t[k] == w[k]);
    }
}

/// Any sequence of tracking calls on a registry with one entry per path at
/// most leaves one entry per path at most.
pub proof fn lemma_track_all_paths_unique(s: Seq<Entry>, calls: Seq<Entry>)
    requires
        paths_unique(s),
    ensures
        paths_unique(track_all(s, calls)),
    decreases calls.len(),
{
    if calls.len() > 0 {
        lemma_track_all_paths_unique(s, calls.drop_last());
        lemma_track_keeps_paths_unique(track_all(s, calls.drop_last()), calls.last().0, calls.last().1);
    }
}

/// Re-tracking a tracked file whose digest has changed rewrites the registry
/// with exactly one entry for its path, holding the new digest, and keeps
/// every entry of the other paths in order.
pub proof fn lemma_track_changed_replaces(s: Seq<Entry>, p: Seq<char>, h: Seq<char>, i: int)
    requires
        paths_unique(s),
        0 <= i < s.len(),
        s[i].0 == p,
        s[i].1 != h,
    ensures
        track_spec(s, p, h) is Some,
        ({
            let t = track_spec(s, p, h)->Some_0;
            &&& t.last() == (p, h)
            &&& forall|j: int| 0 <= j < t.len() && t[j].0 == p ==> j == t.len() - 1
            &&& t.drop_last() == without_path(s, p)
        }),
{
    assert forall|k: int| is_first_match(s, p, k) implies s[k].1 != h by {
        assert(k == i);
    }
    let w = without_path(s, p);
    lemma_without_path_entries(s, p);
    let t = w.push((p, h));
    assert(forall|k: int| 0 <= k < w.len() ==> t[k] == w[k]);
    assert(t.drop_last() =~= w);
}

} // verus!
