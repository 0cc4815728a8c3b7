use vstd::prelude::*;

use crate::rigid_body::{pair_test, spec_pair_test, PairTest, RigidBodyType};

verus! {

/// What the sweep reads of a body: its kind and whether it is enabled.
#[derive(Debug, Clone, Copy, PartialEq, Eq, Structural)]
pub struct BodyTag {
    pub kind: RigidBodyType,
    pub enabled: bool,
}

/// One pair of bodies, by index into the body set, that the collision sweep tests.
#[derive(Debug, Clone, Copy, PartialEq, Eq, Structural)]
pub struct CollisionPair {
    pub first: usize,
    pub second: usize,
    pub test: PairTest,
}

/// Whether the sweep tests bodies `j` and `i` (with `j < i`) of the set.
pub open spec fn pair_is_swept(tags: Seq<BodyTag>, j: int, i: int) -> bool {
    &&& 0 <= j < i < tags.len()
    &&& tags[j].enabled
    &&& tags[i].enabled
    &&& spec_pair_test(tags[j].kind, tags[i].kind) is Some
}

/// Sweep order: by first index, then by second index.
pub open spec fn pair_before(a: CollisionPair, b: CollisionPair) -> bool {
    a.first < b.first || (a.first == b.first && a.second < b.second)
}

/// The pair that the sweep tests for bodies `j` and `i`.
pub open spec fn swept_pair(tags: Seq<BodyTag>, j: int, i: int) -> CollisionPair {
    CollisionPair {
        first: j as usize,
        second: i as usize,
        test: spec_pair_test(tags[j].kind, tags[i].kind)->Some_0,
    }
}

/// What `r` must be to be the sweep of a body set: exactly the swept pairs, each
/// once, in sweep order.
pub open spec fn is_sweep(tags: Seq<BodyTag>, r: Seq<CollisionPair>) -> bool {
    &&& forall|k: int|
        0 <= k < r.len() ==> {
            &&& pair_is_swept(tags, r[k].first as int, r[k].second as int)
            &&& r[k] == swept_pair(tags, r[k].first as int, r[k].second as int)
        }
    &&& forall|a: int, b: int| 0 <= a < b < r.len() ==> pair_before(r[a], r[b])
    &&& forall|j: int, i: int|
        pair_is_swept(tags, j, i) ==> exists|k: int|
            0 <= k < r.len() && r[k].first == j && r[k].second == i
}

/// The pair `(j, i)` as the sweep lists it: one entry when it is swept, none otherwise.
pub open spec fn pair_entry(tags: Seq<BodyTag>, j: int, i: int) -> Seq<CollisionPair> {
    if pair_is_swept(tags, j, i) {
        seq![swept_pair(tags, j, i)]
    } else {
        seq![]
    }
}

/// The pairs `(j, j + 1)` up to `(j, i - 1)` that the sweep lists, in order.
pub open spec fn sweep_row(tags: Seq<BodyTag>, j: int, i: int) -> Seq<CollisionPair>
    decreases i - j,
{
    if i <= j + 1 {
        seq![]
    } else {
        sweep_row(tags, j, i - 1) + pair_entry(tags, j, i - 1)
    }
}

/// The pairs whose first body comes before body `j`, in sweep order.
pub open spec fn sweep_rows(tags: Seq<BodyTag>, j: int) -> Seq<CollisionPair>
    decreases j,
{
    if j <= 0 {
        seq![]
    } else {
        sweep_rows(tags, j - 1) + sweep_row(tags, j - 1, tags.len() as int)
    }
}

/// The whole sweep of a body set.
pub open spec fn spec_sweep(tags: Seq<BodyTag>) -> Seq<CollisionPair> {
    sweep_rows(tags, tags.len() as int)
}

/// Lists, in sweep order, every unordered pair of enabled bodies for which an
/// overlap test is defined. `tags[i]` describes body `i`.
pub fn collision_pairs(tags: &Vec<BodyTag>) -> (r: Vec<CollisionPair>)
    ensures
        r@ == spec_sweep(tags@),
        is_sweep(tags@, r@),
{
    let n = tags.len();
    let mut r: Vec<CollisionPair> = Vec::new();
    let mut j: usize = 0;
    while j < n
        invariant
            n == tags.len(),
            j <= n,
            r@ == sweep_rows(tags@, j as int),
            forall|k: int|
                0 <= k < r@.len() ==> {
                    &&& pair_is_swept(tags@, r@[k].first as int, r@[k].second as int)
                    &&& r@[k] == swept_pair(tags@, r@[k].first as int, r@[k].second as int)
                    &&& r@[k].first < j
                },
            forall|a: int, b: int| 0 <= a < b < r@.len() ==> pair_before(r@[a], r@[b]),
            forall|jj: int, i: int|
                pair_is_swept(tags@, jj, i) && jj < j ==> exists|k: int|
                    0 <= k < r@.len() && r@[k].first == jj && r@[k].second == i,
        decreases n - j,
    {
        let mut i: usize = j + 1;
        let ghost before = r@;
        while i < n
            invariant
                n == tags.len(),
                j < n,
                j + 1 <= i <= n,
                r@ == sweep_rows(tags@, j as int) + sweep_row(tags@, j as int, i as int),
                before.len() <= r@.len(),
                forall|k: int| 0 <= k < before.len() ==> r@[k] == before[k],
                forall|k: int| 0 <= k < before.len() ==> before[k].first < j,
                forall|k: int|
                    before.len() <= k < r@.len() ==> r@[k].first == j && r@[k].second < i,
                forall|k: int|
                    0 <= k < r@.len() ==> {
                        &&& pair_is_swept(tags@, r@[k].first as int, r@[k].second as int)
                        &&& r@[k] == swept_pair(tags@, r@[k].first as int, r@[k].second as int)
                        &&& r@[k].first <= j
                    },
                forall|a: int, b: int| 0 <= a < b < r@.len() ==> pair_before(r@[a], r@[b]),
                forall|jj: int, ii: int|
                    pair_is_swept(tags@, jj, ii) && (jj < j || (jj == j && ii < i))
                        ==> exists|k: int|
                        0 <= k < r@.len() && r@[k].first == jj && r@[k].second == ii,
            decreases n - i,
        {
            let ghost old_r = r@;
            if tags[j].enabled && tags[i].enabled {
                match pair_test(tags[j].kind, tags[i].kind) {
                    Some(test) => {
                        let ghost prev = r@;
                        r.push(CollisionPair { first: j, second: i, test });
                        assert forall|a: int, b: int| 0 <= a < b < r@.len() implies pair_before(
                            r@[a],
                            r@[b],
                        ) by {
                            assert(r@[a] == prev[a]);
                            if b < prev.len() {
                                assert(r@[b] == prev[b]);
                            } else if a < before.len() {
                                assert(before[a].first < j);
                            }
                        }
                        assert forall|jj: int, ii: int|
                            pair_is_swept(tags@, jj, ii) && (jj < j || (jj == j && ii
                                < i + 1)) implies exists|k: int|
                            0 <= k < r@.len() && r@[k].first == jj && r@[k].second == ii by {
                            if jj == j && ii == i {
                                assert(r@[prev.len() as int].first == jj);
                            } else {
                                let k = choose|k: int|
                                    0 <= k < prev.len() && prev[k].first == jj && prev[k].second
                                        == ii;
                                assert(r@[k] == prev[k]);
                            }
                        }
                    },
                    None => {},
                }
            }
            assert(r@ == sweep_rows(tags@, j as int) + sweep_row(tags@, j as int, i + 1)) by {
                assert(sweep_row(tags@, j as int, i + 1) == sweep_row(tags@, j as int, i as int)
                    + pair_entry(tags@, j as int, i as int));
                if pair_is_swept(tags@, j as int, i as int) {
                    assert(r@ == old_r.push(swept_pair(tags@, j as int, i as int)));
                } else {
                    assert(r@ == old_r);
                }
                assert(r@ =~= sweep_rows(tags@, j as int) + sweep_row(tags@, j as int, i + 1));
            }
            i = i + 1;
        }
        assert(sweep_rows(tags@, j + 1) == sweep_rows(tags@, j as int) + sweep_row(
            tags@,
            j as int,
            n as int,
        ));
        j = j + 1;
    }
    r
}

} // verus!
