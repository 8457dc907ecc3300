//! The cameras of one window, ordered as they are drawn.
//!
//! A window seldom has more than a handful of cameras, so they are ranked in
//! a small vector that stays off the heap until it outgrows four entries. An
//! entry is a camera's draw order and its place in the camera list: the
//! order of such pairs is the order in which the cameras are drawn, and two
//! cameras of one draw order count in the order in which they are listed.

use crate::snapshot::{reports_pointer, under_pointer, CameraRecord, WindowRecord};
use smallvec::SmallVec;
use vstd::prelude::*;

verus! {

broadcast use vstd::seq_lib::group_to_multiset_ensures;

/// A `smallvec::SmallVec` of up to four inline entries, each a draw order
/// and an index into the camera list.
#[verifier::external_body]
pub struct Ranked {
    inner: SmallVec<[(isize, usize); 4]>,
}

/// The entries of the vector, first to last.
pub uninterp spec fn items(ranked: Ranked) -> Seq<(isize, usize)>;

/// The order of the entries: by draw order, then by place in the list.
pub open spec fn rank_le(a: (isize, usize), b: (isize, usize)) -> bool {
    a.0 < b.0 || (a.0 == b.0 && a.1 <= b.1)
}

impl Ranked {
    /// `SmallVec::new`: a vector without entries.
    #[verifier::external_body]
    pub(crate) fn empty() -> (ranked: Ranked)
        ensures
            items(ranked) == Seq::<(isize, usize)>::empty(),
    {
        Ranked { inner: SmallVec::new() }
    }

    /// `SmallVec::push`: the entry is appended behind the others. As with
    /// `Vec::push`, a machine that runs out of memory is not accounted for.
    #[verifier::external_body]
    pub(crate) fn push(&mut self, entry: (isize, usize))
        ensures
            items(*final(self)) == items(*old(self)).push(entry),
    {
        self.inner.push(entry)
    }

    /// `sort_unstable` of the slice that the vector holds: the same entries,
    /// in ascending order. Pairs are ordered by their first part, then by
    /// their second.
    #[verifier::external_body]
    pub(crate) fn sort(&mut self)
        ensures
            items(*final(self)).to_multiset() == items(*old(self)).to_multiset(),
            forall|a: int, b: int|
                0 <= a < b < items(*final(self)).len() ==> rank_le(
                    #[trigger] items(*final(self))[a],
                    #[trigger] items(*final(self))[b],
                ),
    {
        self.inner.sort_unstable()
    }

    /// `SmallVec::pop`: the last entry leaves the vector and is returned;
    /// `None`, and nothing changes, where there is none.
    #[verifier::external_body]
    pub(crate) fn pop(&mut self) -> (last: Option<(isize, usize)>)
        ensures
            items(*old(self)).len() == 0 ==> last is None && items(*final(self)) == items(
                *old(self),
            ),
            items(*old(self)).len() > 0 ==> last == Some(items(*old(self)).last()) && items(
                *final(self),
            ) == items(*old(self)).drop_last(),
    {
        self.inner.pop()
    }
}

/// Some entry stands for camera `j`.
pub open spec fn lists(entries: Seq<(isize, usize)>, j: int) -> bool {
    exists|m: int| 0 <= m < entries.len() && (#[trigger] entries[m]).1 == j
}

/// Camera `a` is drawn over camera `b`: its draw order is higher, or the two
/// are equal and `a` stands later in the list.
pub open spec fn outranks(cameras: Seq<CameraRecord>, a: int, b: int) -> bool {
    cameras[a].order > cameras[b].order || (cameras[a].order == cameras[b].order && a > b)
}

/// `entries` ranks the cameras of `window`: it holds, for each camera that
/// draws into the window and for no other, the camera's draw order and index,
/// from the bottommost camera to the topmost.
pub open spec fn is_ranking(
    window: WindowRecord,
    cameras: Seq<CameraRecord>,
    entries: Seq<(isize, usize)>,
) -> bool {
    &&& forall|k: int|
        0 <= k < entries.len() ==> {
            &&& (#[trigger] entries[k]).1 < cameras.len()
            &&& entries[k].0 == cameras[entries[k].1 as int].order
            &&& cameras[entries[k].1 as int].draws_on(window)
        }
    &&& forall|j: int|
        0 <= j < cameras.len() && (#[trigger] cameras[j]).draws_on(window) ==> lists(entries, j)
    &&& forall|a: int, b: int|
        0 <= a < b < entries.len() ==> outranks(
            cameras,
            (#[trigger] entries[b]).1 as int,
            (#[trigger] entries[a]).1 as int,
        )
}

/// Collects the cameras that draw into `window` and ranks them, bottommost
/// first.
pub(crate) fn rank_cameras(window: &WindowRecord, cameras: &Vec<CameraRecord>) -> (ranked: Ranked)
    ensures
        is_ranking(*window, cameras@, items(ranked)),
{
    let mut ranked = Ranked::empty();
    let mut j: usize = 0;
    while j < cameras.len()
        invariant
            j <= cameras.len(),
            items(ranked).no_duplicates(),
            forall|k: int|
                0 <= k < items(ranked).len() ==> {
                    &&& (#[trigger] items(ranked)[k]).1 < j
                    &&& items(ranked)[k].0 == cameras@[items(ranked)[k].1 as int].order
                    &&& cameras@[items(ranked)[k].1 as int].draws_on(*window)
                },
            forall|i: int|
                0 <= i < j && (#[trigger] cameras@[i]).draws_on(*window) ==> items(
                    ranked,
                ).contains((cameras@[i].order, i as usize)),
        decreases cameras.len() - j,
    {
        if cameras[j].renders_to(window) {
            let ghost before = items(ranked);
            let entry = (cameras[j].order, j);
            ranked.push(entry);
            proof {
                let after = items(ranked);
                assert(after.len() == before.len() + 1);
                assert(forall|k: int| 0 <= k < before.len() ==> after[k] == before[k]);
                assert(after[before.len() as int] == entry);
                assert forall|i: int|
                    0 <= i < j + 1 && (#[trigger] cameras@[i]).draws_on(*window) implies after.contains(
                    (cameras@[i].order, i as usize),
                ) by {
                    if i < j {
                        let at = choose|at: int|
                            0 <= at < before.len() && before[at] == (cameras@[i].order, i as usize);
                        assert(after[at] == (cameras@[i].order, i as usize));
                    } else {
                        assert(after[before.len() as int] == (cameras@[i].order, i as usize));
                    }
                }
            }
        }
        j += 1;
    }
    let ghost gathered = items(ranked);
    ranked.sort();
    proof {
        let sorted = items(ranked);
        gathered.lemma_multiset_has_no_duplicates();
        sorted.lemma_multiset_has_no_duplicates_conv();
        assert forall|k: int| 0 <= k < sorted.len() implies {
            &&& (#[trigger] sorted[k]).1 < cameras@.len()
            &&& sorted[k].0 == cameras@[sorted[k].1 as int].order
            &&& cameras@[sorted[k].1 as int].draws_on(*window)
        } by {
            assert(sorted.contains(sorted[k]));
            assert(gathered.to_multiset().count(sorted[k]) > 0);
            assert(gathered.contains(sorted[k]));
        }
        assert forall|i: int|
            0 <= i < cameras@.len() && (#[trigger] cameras@[i]).draws_on(*window) implies lists(
            sorted,
            i,
        ) by {
            let entry = (cameras@[i].order, i as usize);
            assert(gathered.contains(entry));
            assert(sorted.to_multiset().count(entry) > 0);
            let m = choose|m: int| 0 <= m < sorted.len() && sorted[m] == entry;
            assert(sorted[m].1 == i);
        }
        assert forall|a: int, b: int| 0 <= a < b < sorted.len() implies outranks(
            cameras@,
            (#[trigger] sorted[b]).1 as int,
            (#[trigger] sorted[a]).1 as int,
        ) by {
            assert(rank_le(sorted[a], sorted[b]));
            assert(sorted[a] != sorted[b]);
        }
    }
    ranked
}

/// `found` lists the cameras under the pointer in `window`, each once, from
/// the topmost to the bottommost.
pub open spec fn is_stack(window: WindowRecord, cameras: Seq<CameraRecord>, found: Seq<usize>) -> bool {
    &&& forall|k: int|
        0 <= k < found.len() ==> (#[trigger] found[k]) < cameras.len() && under_pointer(
            window,
            cameras[found[k] as int],
        )
    &&& forall|j: int|
        0 <= j < cameras.len() && under_pointer(window, #[trigger] cameras[j]) ==> exists|m: int|
            0 <= m < found.len() && #[trigger] found[m] == j
    &&& forall|a: int, b: int|
        0 <= a < b < found.len() ==> outranks(
            cameras,
            (#[trigger] found[a]) as int,
            (#[trigger] found[b]) as int,
        )
}

/// Two stacks of one window agree up to place `k`.
proof fn lemma_stacks_agree_at(
    window: WindowRecord,
    cameras: Seq<CameraRecord>,
    a: Seq<usize>,
    b: Seq<usize>,
    k: int,
)
    requires
        is_stack(window, cameras, a),
        is_stack(window, cameras, b),
        0 <= k < a.len(),
    ensures
        k < b.len(),
        a[k] == b[k],
    decreases k,
{
    assert forall|h: int| 0 <= h < k implies h < b.len() && a[h] == b[h] by {
        lemma_stacks_agree_at(window, cameras, a, b, h);
    }
    assert(under_pointer(window, cameras[a[k] as int]));
    let m = choose|m: int| 0 <= m < b.len() && #[trigger] b[m] == a[k] as int;
    if m < k {
        assert(outranks(cameras, a[m] as int, a[k] as int));
    } else if m > k {
        assert(under_pointer(window, cameras[b[k] as int]));
        let n = choose|n: int| 0 <= n < a.len() && #[trigger] a[n] == b[k] as int;
        if n < k {
            assert(outranks(cameras, b[n] as int, b[k] as int));
        } else if n > k {
            assert(outranks(cameras, a[k] as int, a[n] as int));
            assert(outranks(cameras, b[k] as int, b[m] as int));
        }
    }
}

/// A window has one stack of cameras under the pointer, and no other.
pub proof fn lemma_stack_is_unique(
    window: WindowRecord,
    cameras: Seq<CameraRecord>,
    a: Seq<usize>,
    b: Seq<usize>,
)
    requires
        is_stack(window, cameras, a),
        is_stack(window, cameras, b),
    ensures
        a == b,
{
    assert forall|k: int| 0 <= k < a.len() implies k < b.len() && a[k] == b[k] by {
        lemma_stacks_agree_at(window, cameras, a, b, k);
    }
    if a.len() < b.len() {
        lemma_stacks_agree_at(window, cameras, b, a, a.len() as int);
    }
    if b.len() < a.len() {
        lemma_stacks_agree_at(window, cameras, a, b, b.len() as int);
    }
    assert(a =~= b);
}

/// The cameras under the pointer in `window`, as indices into `cameras`,
/// from the topmost to the bottommost. The list is empty where the window
/// does not report the pointer.
pub fn candidates(window: &WindowRecord, cameras: &Vec<CameraRecord>) -> (found: Vec<usize>)
    ensures
        is_stack(*window, cameras@, found@),
{
    let mut found: Vec<usize> = Vec::new();
    let point = match (window.cursor, window.physical_cursor) {
        (Some(_), Some(point)) => point,
        _ => {
            return found;
        },
    };
    let mut ranked = rank_cameras(window, cameras);
    let ghost all = items(ranked);
    loop
        invariant
            reports_pointer(*window),
            window.physical_cursor == Some(point),
            is_ranking(*window, cameras@, all),
            items(ranked).len() <= all.len(),
            items(ranked) == all.take(items(ranked).len() as int),
            forall|k: int|
                0 <= k < found@.len() ==> {
                    &&& (#[trigger] found@[k]) < cameras@.len()
                    &&& under_pointer(*window, cameras@[found@[k] as int])
                    &&& forall|m: int|
                        0 <= m < items(ranked).len() ==> outranks(
                            cameras@,
                            found@[k] as int,
                            (#[trigger] all[m]).1 as int,
                        )
                },
            forall|m: int|
                items(ranked).len() <= m < all.len() && under_pointer(
                    *window,
                    cameras@[(#[trigger] all[m]).1 as int],
                ) ==> exists|k: int| 0 <= k < found@.len() && #[trigger] found@[k] == all[m].1,
            forall|a: int, b: int|
                0 <= a < b < found@.len() ==> outranks(
                    cameras@,
                    (#[trigger] found@[a]) as int,
                    (#[trigger] found@[b]) as int,
                ),
        decreases items(ranked).len(),
    {
        let ghost rest = items(ranked).len() as int;
        let ghost before = found@;
        match ranked.pop() {
            None => {
                proof {
                    assert forall|j: int|
                        0 <= j < cameras@.len() && under_pointer(
                            *window,
                            #[trigger] cameras@[j],
                        ) implies exists|m: int| 0 <= m < found@.len() && #[trigger] found@[m] == j by {
                        assert(lists(all, j));
                        let at = choose|at: int| 0 <= at < all.len() && all[at].1 == j;
                        assert(under_pointer(*window, cameras@[all[at].1 as int]));
                    }
                }
                return found;
            },
            Some((_, j)) => {
                proof {
                    assert(all.take(rest)[rest - 1] == all[rest - 1]);
                    assert(all[rest - 1].1 == j);
                    assert(items(ranked) == all.take(rest - 1));
                }
                if cameras[j].contains(point) {
                    found.push(j);
                    proof {
                        assert(forall|k: int| 0 <= k < before.len() ==> found@[k] == before[k]);
                        assert(found@[before.len() as int] == j);
                        assert forall|m: int|
                            rest - 1 <= m < all.len() && under_pointer(
                                *window,
                                cameras@[(#[trigger] all[m]).1 as int],
                            ) implies exists|k: int|
                            0 <= k < found@.len() && #[trigger] found@[k] == all[m].1 by {
                            if m == rest - 1 {
                                assert(found@[before.len() as int] == all[m].1);
                            } else {
                                let k = choose|k: int|
                                    0 <= k < before.len() && #[trigger] before[k] == all[m].1;
                                assert(found@[k] == all[m].1);
                            }
                        }
                    }
                }
            },
        }
    }
}

} // verus!
