//! The resolver: from the windows and cameras of one frame to the location
//! of the pointer.

use crate::geometry::PhysicalPoint;
use crate::location::Location;
use crate::projection::{project, projection, ProjectionMode, WorldCoordinate};
use crate::ranking::{is_ranking, items, lists, outranks, rank_cameras};
use crate::snapshot::{under_pointer, CameraRecord, WindowRecord};
use bevy::math::Vec2;
use vstd::prelude::*;

verus! {

/// The pointer can be located in `window` through `camera`: it is under the
/// camera there, and the camera can project it.
pub open spec fn viable(window: WindowRecord, camera: CameraRecord, mode: ProjectionMode) -> bool {
    &&& under_pointer(window, camera)
    &&& projection(mode, *camera.camera, *camera.transform, window.cursor.unwrap()) is Some
}

/// What one camera's attempt to project settles: the pointer's location
/// where the camera gave a world coordinate, nothing where it gave none.
pub open spec fn settled(
    window: WindowRecord,
    camera: CameraRecord,
    position: Vec2,
    outcome: Option<WorldCoordinate>,
) -> Option<Location> {
    match outcome {
        Some(world) => Some(Location { position, window: window.id, camera: camera.id, world }),
        None => None,
    }
}

/// The location that `window` and `camera` give the pointer.
pub open spec fn location_at(
    window: WindowRecord,
    camera: CameraRecord,
    mode: ProjectionMode,
) -> Location
    recommends
        viable(window, camera, mode),
{
    settled(
        window,
        camera,
        window.cursor.unwrap(),
        projection(mode, *camera.camera, *camera.transform, window.cursor.unwrap()),
    ).unwrap()
}

/// Camera `j` is the topmost camera of `window` through which the pointer
/// can be located.
pub open spec fn is_topmost(
    window: WindowRecord,
    cameras: Seq<CameraRecord>,
    mode: ProjectionMode,
    j: int,
) -> bool {
    &&& 0 <= j < cameras.len()
    &&& viable(window, cameras[j], mode)
    &&& forall|k: int|
        0 <= k < cameras.len() && k != j && viable(window, #[trigger] cameras[k], mode)
            ==> outranks(cameras, j, k)
}

/// No camera locates the pointer in `window`.
pub open spec fn is_blank(
    window: WindowRecord,
    cameras: Seq<CameraRecord>,
    mode: ProjectionMode,
) -> bool {
    forall|k: int| 0 <= k < cameras.len() ==> !viable(window, #[trigger] cameras[k], mode)
}

/// Window `i` and camera `j` win: no window before `i` locates the pointer,
/// and `j` is the topmost camera that locates it in window `i`.
pub open spec fn is_winner(
    windows: Seq<WindowRecord>,
    cameras: Seq<CameraRecord>,
    mode: ProjectionMode,
    i: int,
    j: int,
) -> bool {
    &&& 0 <= i < windows.len()
    &&& forall|h: int| 0 <= h < i ==> is_blank(#[trigger] windows[h], cameras, mode)
    &&& is_topmost(windows[i], cameras, mode, j)
}

/// The pointer's location among these windows and cameras: that of the
/// winning window and camera, or `None` where no window and camera locate the
/// pointer.
pub open spec fn resolution(
    windows: Seq<WindowRecord>,
    cameras: Seq<CameraRecord>,
    mode: ProjectionMode,
) -> Option<Location> {
    if exists|i: int, j: int| is_winner(windows, cameras, mode, i, j) {
        let (i, j) = choose|i: int, j: int| is_winner(windows, cameras, mode, i, j);
        Some(location_at(windows[i], cameras[j], mode))
    } else {
        None
    }
}

/// There is at most one winner.
pub proof fn lemma_winner_is_unique(
    windows: Seq<WindowRecord>,
    cameras: Seq<CameraRecord>,
    mode: ProjectionMode,
    i: int,
    j: int,
    h: int,
    k: int,
)
    requires
        is_winner(windows, cameras, mode, i, j),
        is_winner(windows, cameras, mode, h, k),
    ensures
        i == h,
        j == k,
{
    if i < h {
        assert(is_blank(windows[i], cameras, mode));
    }
    if h < i {
        assert(is_blank(windows[h], cameras, mode));
    }
    if j != k {
        assert(outranks(cameras, j, k));
        assert(outranks(cameras, k, j));
    }
}

/// The winner's location is the resolution.
pub proof fn lemma_winner_resolves(
    windows: Seq<WindowRecord>,
    cameras: Seq<CameraRecord>,
    mode: ProjectionMode,
    i: int,
    j: int,
)
    requires
        is_winner(windows, cameras, mode, i, j),
    ensures
        resolution(windows, cameras, mode) == Some(location_at(windows[i], cameras[j], mode)),
{
    let (h, k) = choose|h: int, k: int| is_winner(windows, cameras, mode, h, k);
    lemma_winner_is_unique(windows, cameras, mode, i, j, h, k);
}

/// Settles one camera's attempt to project the pointer at `position` in
/// `window`: with a world coordinate the pointer is located, and the search
/// ends; without one, the search goes on to the next camera.
pub fn settle(
    window: &WindowRecord,
    camera: &CameraRecord,
    position: Vec2,
    outcome: Option<WorldCoordinate>,
) -> (found: Option<Location>)
    ensures
        found == settled(*window, *camera, position, outcome),
{
    match outcome {
        Some(world) => Some(Location { position, window: window.id, camera: camera.id, world }),
        None => None,
    }
}

/// Locates the pointer in `window` through the topmost camera that can.
fn topmost(
    window: &WindowRecord,
    position: Vec2,
    point: PhysicalPoint,
    cameras: &Vec<CameraRecord>,
    mode: ProjectionMode,
) -> (found: Option<Location>)
    requires
        window.cursor == Some(position),
        window.physical_cursor == Some(point),
    ensures
        match found {
            Some(location) => exists|j: int|
                is_topmost(*window, cameras@, mode, j) && location == #[trigger] location_at(
                    *window,
                    cameras@[j],
                    mode,
                ),
            None => is_blank(*window, cameras@, mode),
        },
{
    let mut ranked = rank_cameras(window, cameras);
    let ghost all = items(ranked);
    loop
        invariant
            window.cursor == Some(position),
            window.physical_cursor == Some(point),
            is_ranking(*window, cameras@, all),
            items(ranked).len() <= all.len(),
            items(ranked) == all.take(items(ranked).len() as int),
            forall|m: int|
                items(ranked).len() <= m < all.len() ==> !viable(
                    *window,
                    cameras@[(#[trigger] all[m]).1 as int],
                    mode,
                ),
        decreases items(ranked).len(),
    {
        let ghost rest = items(ranked).len() as int;
        match ranked.pop() {
            None => {
                proof {
                    assert forall|k: int| 0 <= k < cameras@.len() implies !viable(
                        *window,
                        #[trigger] cameras@[k],
                        mode,
                    ) by {
                        if cameras@[k].draws_on(*window) {
                            assert(lists(all, k));
                        }
                    }
                }
                return None;
            },
            Some((_, j)) => {
                proof {
                    assert(all.take(rest)[rest - 1] == all[rest - 1]);
                    assert(all[rest - 1].1 == j);
                    assert(items(ranked) == all.take(rest - 1));
                }
                let camera = &cameras[j];
                if camera.contains(point) {
                    let outcome = project(mode, camera.camera, camera.transform, position);
                    let found = settle(window, camera, position, outcome);
                    if found.is_some() {
                        proof {
                            assert forall|k: int|
                                0 <= k < cameras@.len() && k != j && viable(
                                    *window,
                                    #[trigger] cameras@[k],
                                    mode,
                                ) implies outranks(cameras@, j as int, k) by {
                                assert(lists(all, k));
                                let m = choose|m: int| 0 <= m < all.len() && all[m].1 == k;
                                assert(m < rest - 1);
                            }
                            assert(is_topmost(*window, cameras@, mode, j as int));
                            assert(found.unwrap() == location_at(*window, cameras@[j as int], mode));
                        }
                        return found;
                    }
                }
            },
        }
    }
}

/// Resolves the pointer: the first window that reports it and has a camera
/// to locate it, and the topmost such camera of that window.
pub fn resolve(
    windows: &Vec<WindowRecord>,
    cameras: &Vec<CameraRecord>,
    mode: ProjectionMode,
) -> (found: Option<Location>)
    ensures
        found == resolution(windows@, cameras@, mode),
{
    let mut i: usize = 0;
    while i < windows.len()
        invariant
            i <= windows.len(),
            forall|h: int| 0 <= h < i ==> is_blank(#[trigger] windows@[h], cameras@, mode),
        decreases windows.len() - i,
    {
        let window = &windows[i];
        match (window.cursor, window.physical_cursor) {
            (Some(position), Some(point)) => {
                let found = topmost(window, position, point, cameras, mode);
                if found.is_some() {
                    proof {
                        let j = choose|j: int|
                            is_topmost(*window, cameras@, mode, j) && found.unwrap()
                                == #[trigger] location_at(*window, cameras@[j], mode);
                        assert(is_winner(windows@, cameras@, mode, i as int, j));
                        lemma_winner_resolves(windows@, cameras@, mode, i as int, j);
                    }
                    return found;
                }
            },
            _ => {},
        }
        i += 1;
    }
    proof {
        assert forall|h: int, k: int| !is_winner(windows@, cameras@, mode, h, k) by {
            if 0 <= h < windows@.len() {
                assert(is_blank(windows@[h], cameras@, mode));
            }
        }
    }
    None
}

} // verus!
