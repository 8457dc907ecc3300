//! What holds of every resolution.

use crate::location::Location;
use crate::projection::{projection, ProjectionMode};
use crate::ranking::{is_stack, outranks};
use crate::resolver::{
    is_blank, is_topmost, is_winner, lemma_winner_resolves, location_at, resolution, viable,
};
use crate::snapshot::{reports_pointer, CameraRecord, WindowRecord};
use vstd::prelude::*;

verus! {

/// While the pointer is outside every window, it has no location.
pub proof fn lemma_pointer_outside_every_window(
    windows: Seq<WindowRecord>,
    cameras: Seq<CameraRecord>,
    mode: ProjectionMode,
)
    requires
        forall|i: int| 0 <= i < windows.len() ==> !reports_pointer(#[trigger] windows[i]),
    ensures
        resolution(windows, cameras, mode) is None,
{
    assert forall|i: int, j: int| !is_winner(windows, cameras, mode, i, j) by {
        if 0 <= i < windows.len() {
            assert(!reports_pointer(windows[i]));
        }
    }
}

/// Where no window and camera locate the pointer, it has no location; and
/// where it has none, no window and camera locate it.
pub proof fn lemma_empty_iff_nothing_viable(
    windows: Seq<WindowRecord>,
    cameras: Seq<CameraRecord>,
    mode: ProjectionMode,
)
    ensures
        resolution(windows, cameras, mode) is None <==> forall|i: int|
            0 <= i < windows.len() ==> is_blank(#[trigger] windows[i], cameras, mode),
{
    if forall|i: int| 0 <= i < windows.len() ==> is_blank(#[trigger] windows[i], cameras, mode) {
        assert forall|i: int, j: int| !is_winner(windows, cameras, mode, i, j) by {
            if 0 <= i < windows.len() {
                assert(is_blank(windows[i], cameras, mode));
            }
        }
    } else {
        let i = first_unblank(windows, cameras, mode, windows.len() as int);
        let j = top_of(windows[i], cameras, mode, cameras.len() as int);
        assert(is_winner(windows, cameras, mode, i, j));
    }
}

/// The first window among the first `n` that some camera locates the pointer
/// in.
proof fn first_unblank(
    windows: Seq<WindowRecord>,
    cameras: Seq<CameraRecord>,
    mode: ProjectionMode,
    n: int,
) -> (i: int)
    requires
        0 <= n <= windows.len(),
        !(forall|h: int| 0 <= h < n ==> is_blank(#[trigger] windows[h], cameras, mode)),
    ensures
        0 <= i < n,
        !is_blank(windows[i], cameras, mode),
        forall|h: int| 0 <= h < i ==> is_blank(#[trigger] windows[h], cameras, mode),
    decreases n,
{
    if forall|h: int| 0 <= h < n - 1 ==> is_blank(#[trigger] windows[h], cameras, mode) {
        n - 1
    } else {
        first_unblank(windows, cameras, mode, n - 1)
    }
}

/// The topmost camera among the first `n` that locates the pointer in
/// `window`.
proof fn top_of(
    window: WindowRecord,
    cameras: Seq<CameraRecord>,
    mode: ProjectionMode,
    n: int,
) -> (j: int)
    requires
        0 <= n <= cameras.len(),
        exists|k: int| 0 <= k < n && viable(window, #[trigger] cameras[k], mode),
    ensures
        0 <= j < n,
        viable(window, cameras[j], mode),
        forall|k: int|
            0 <= k < n && k != j && viable(window, #[trigger] cameras[k], mode) ==> outranks(
                cameras,
                j,
                k,
            ),
    decreases n,
{
    if exists|k: int| 0 <= k < n - 1 && viable(window, #[trigger] cameras[k], mode) {
        let below = top_of(window, cameras, mode, n - 1);
        if viable(window, cameras[n - 1], mode) && cameras[n - 1].order >= cameras[below].order {
            n - 1
        } else {
            below
        }
    } else {
        n - 1
    }
}

/// With the pointer in one window only, and one camera only drawing into
/// that window, all of it, the pointer is located in that window through
/// that camera, provided the camera can project it.
pub proof fn lemma_sole_window_and_camera(
    windows: Seq<WindowRecord>,
    cameras: Seq<CameraRecord>,
    mode: ProjectionMode,
    i: int,
    j: int,
)
    requires
        0 <= i < windows.len(),
        0 <= j < cameras.len(),
        reports_pointer(windows[i]),
        forall|h: int| 0 <= h < windows.len() && h != i ==> !reports_pointer(#[trigger] windows[h]),
        cameras[j].draws_on(windows[i]),
        cameras[j].viewport is None,
        projection(
            mode,
            *cameras[j].camera,
            *cameras[j].transform,
            windows[i].cursor.unwrap(),
        ) is Some,
        forall|k: int|
            0 <= k < cameras.len() && k != j ==> !(#[trigger] cameras[k]).draws_on(windows[i]),
    ensures
        resolution(windows, cameras, mode) == Some(location_at(windows[i], cameras[j], mode)),
{
    assert forall|h: int| 0 <= h < i implies is_blank(#[trigger] windows[h], cameras, mode) by {
        assert(!reports_pointer(windows[h]));
    }
    assert(is_winner(windows, cameras, mode, i, j));
    lemma_winner_resolves(windows, cameras, mode, i, j);
}

/// Of two cameras of one window whose drawing areas both hold the pointer,
/// the one of the higher draw order is chosen, wherever the two stand in the
/// camera list. The window is the first that can settle the matter, the
/// higher camera can project, and no third camera locates the pointer there.
pub proof fn lemma_higher_order_wins(
    windows: Seq<WindowRecord>,
    cameras: Seq<CameraRecord>,
    mode: ProjectionMode,
    i: int,
    upper: int,
    lower: int,
)
    requires
        0 <= i < windows.len(),
        forall|h: int| 0 <= h < i ==> is_blank(#[trigger] windows[h], cameras, mode),
        0 <= upper < cameras.len(),
        0 <= lower < cameras.len(),
        reports_pointer(windows[i]),
        cameras[upper].draws_on(windows[i]),
        cameras[lower].draws_on(windows[i]),
        cameras[upper].covers(windows[i].physical_cursor.unwrap()),
        cameras[lower].covers(windows[i].physical_cursor.unwrap()),
        cameras[upper].order > cameras[lower].order,
        projection(
            mode,
            *cameras[upper].camera,
            *cameras[upper].transform,
            windows[i].cursor.unwrap(),
        ) is Some,
        forall|k: int|
            0 <= k < cameras.len() && k != upper && k != lower ==> !viable(
                windows[i],
                #[trigger] cameras[k],
                mode,
            ),
    ensures
        resolution(windows, cameras, mode) == Some(location_at(windows[i], cameras[upper], mode)),
{
    assert(is_winner(windows, cameras, mode, i, upper));
    lemma_winner_resolves(windows, cameras, mode, i, upper);
}

/// Draw order decides among the cameras that hold the pointer only: a
/// camera whose viewport does not hold the pointer gives way to one that
/// draws into the whole window, whatever their draw orders. The window is
/// the first that can settle the matter, the full-window camera can project,
/// and no third camera locates the pointer there.
pub proof fn lemma_containment_before_order(
    windows: Seq<WindowRecord>,
    cameras: Seq<CameraRecord>,
    mode: ProjectionMode,
    i: int,
    missing: int,
    full: int,
)
    requires
        0 <= i < windows.len(),
        forall|h: int| 0 <= h < i ==> is_blank(#[trigger] windows[h], cameras, mode),
        0 <= missing < cameras.len(),
        0 <= full < cameras.len(),
        reports_pointer(windows[i]),
        !cameras[missing].covers(windows[i].physical_cursor.unwrap()),
        cameras[full].draws_on(windows[i]),
        cameras[full].viewport is None,
        projection(
            mode,
            *cameras[full].camera,
            *cameras[full].transform,
            windows[i].cursor.unwrap(),
        ) is Some,
        forall|k: int|
            0 <= k < cameras.len() && k != missing && k != full ==> !viable(
                windows[i],
                #[trigger] cameras[k],
                mode,
            ),
    ensures
        resolution(windows, cameras, mode) == Some(location_at(windows[i], cameras[full], mode)),
{
    assert(is_winner(windows, cameras, mode, i, full));
    lemma_winner_resolves(windows, cameras, mode, i, full);
}

/// The topmost camera that locates the pointer in a window is the first
/// camera of the window's stack that can project it.
pub proof fn lemma_topmost_is_first_to_project(
    window: WindowRecord,
    cameras: Seq<CameraRecord>,
    mode: ProjectionMode,
    stack: Seq<usize>,
    place: int,
)
    requires
        is_stack(window, cameras, stack),
        0 <= place < stack.len(),
        viable(window, cameras[stack[place] as int], mode),
        forall|q: int| 0 <= q < place ==> !viable(window, cameras[#[trigger] stack[q] as int], mode),
    ensures
        is_topmost(window, cameras, mode, stack[place] as int),
{
    let j = stack[place] as int;
    assert forall|k: int|
        0 <= k < cameras.len() && k != j && viable(window, #[trigger] cameras[k], mode) implies outranks(
        cameras,
        j,
        k,
    ) by {
        let q = choose|q: int| 0 <= q < stack.len() && #[trigger] stack[q] == k;
        if q < place {
            assert(!viable(window, cameras[stack[q] as int], mode));
        }
    }
}

/// Resolving the same windows and cameras twice gives the same location
/// twice.
pub proof fn lemma_resolving_again_changes_nothing(
    windows: Seq<WindowRecord>,
    cameras: Seq<CameraRecord>,
    mode: ProjectionMode,
    first: Option<Location>,
    second: Option<Location>,
)
    requires
        first == resolution(windows, cameras, mode),
        second == resolution(windows, cameras, mode),
    ensures
        first == second,
{
}

/// A location, once resolved, names a window and a camera of the lists: the
/// camera draws into the window and its drawing area holds the pointer.
pub proof fn lemma_location_is_sound(
    windows: Seq<WindowRecord>,
    cameras: Seq<CameraRecord>,
    mode: ProjectionMode,
)
    requires
        resolution(windows, cameras, mode) is Some,
    ensures
        exists|i: int, j: int|
            {
                &&& 0 <= i < windows.len()
                &&& 0 <= j < cameras.len()
                &&& reports_pointer(windows[i])
                &&& cameras[j].draws_on(windows[i])
                &&& cameras[j].covers(windows[i].physical_cursor.unwrap())
                &&& resolution(windows, cameras, mode) == Some(
                    #[trigger] location_at(windows[i], cameras[j], mode),
                )
            },
{
    let (i, j) = choose|i: int, j: int| is_winner(windows, cameras, mode, i, j);
    assert(resolution(windows, cameras, mode) == Some(location_at(windows[i], cameras[j], mode)));
}

} // verus!
