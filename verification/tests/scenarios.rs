use bevy::asset::{AssetEvent, Assets};
use bevy::ecs::entity::Entity;
use bevy::ecs::event::Events;
use bevy::ecs::system::RunSystemOnce;
use bevy::ecs::world::World;
use bevy::image::Image;
use bevy::math::{UVec2, Vec2, Vec3};
use bevy::render::camera::{
    camera_system, Camera, ManualTextureViews, OrthographicProjection, PerspectiveProjection,
    RenderTarget, Viewport as CameraViewport,
};
use bevy::transform::components::{GlobalTransform, Transform};
use bevy::window::{
    PrimaryWindow, Window, WindowCreated, WindowRef, WindowResized, WindowResolution,
    WindowScaleFactorChanged,
};
use bevy_cursor::geometry::{PhysicalPoint, Viewport};
use bevy_cursor::location::Location;
use bevy_cursor::projection::{project, ProjectionMode, WorldCoordinate};
use bevy_cursor::resolver::resolve;
use bevy_cursor::snapshot::{CameraRecord, Target, WindowRecord};
use bevy_cursor::state::CursorLocation;

fn new_world() -> World {
    let mut world = World::new();
    world.init_resource::<Events<WindowResized>>();
    world.init_resource::<Events<WindowCreated>>();
    world.init_resource::<Events<WindowScaleFactorChanged>>();
    world.init_resource::<Events<AssetEvent<Image>>>();
    world.init_resource::<Assets<Image>>();
    world.init_resource::<ManualTextureViews>();
    world
}

fn spawn_window(world: &mut World, primary: bool, cursor: Option<(f32, f32)>) -> Entity {
    let mut window = Window { resolution: WindowResolution::new(600.0, 400.0), ..Default::default() };
    window.set_cursor_position(cursor.map(|(x, y)| Vec2::new(x, y)));
    if primary {
        world.spawn((window, PrimaryWindow)).id()
    } else {
        world.spawn(window).id()
    }
}

fn camera_on(target: RenderTarget, viewport: Option<(u32, u32, u32, u32)>, order: isize) -> Camera {
    Camera {
        target,
        order,
        viewport: viewport.map(|(x, y, w, h)| CameraViewport {
            physical_position: UVec2::new(x, y),
            physical_size: UVec2::new(w, h),
            ..Default::default()
        }),
        ..Default::default()
    }
}

fn spawn_flat_camera(
    world: &mut World,
    target: RenderTarget,
    viewport: Option<(u32, u32, u32, u32)>,
    order: isize,
) -> Entity {
    world
        .spawn((
            camera_on(target, viewport, order),
            OrthographicProjection::default_2d(),
            GlobalTransform::IDENTITY,
        ))
        .id()
}

fn spawn_deep_camera(world: &mut World, target: RenderTarget, order: isize) -> Entity {
    world
        .spawn((
            camera_on(target, None, order),
            PerspectiveProjection::default(),
            GlobalTransform::from(Transform::from_xyz(0.0, 0.0, 5.0)),
        ))
        .id()
}

fn settle(world: &mut World) {
    world.run_system_once(camera_system::<OrthographicProjection>).unwrap();
    world.run_system_once(camera_system::<PerspectiveProjection>).unwrap();
}

fn window_records(world: &World, windows: &[Entity]) -> Vec<WindowRecord> {
    windows
        .iter()
        .map(|&entity| {
            let window = world.get::<Window>(entity).unwrap();
            WindowRecord {
                id: entity.to_bits(),
                cursor: window.cursor_position(),
                physical_cursor: window
                    .physical_cursor_position()
                    .map(|p| PhysicalPoint { x: p.x as u32, y: p.y as u32 }),
                primary: world.get::<PrimaryWindow>(entity).is_some(),
            }
        })
        .collect()
}

fn camera_records<'a>(world: &'a World, cameras: &[Entity]) -> Vec<CameraRecord<'a>> {
    cameras
        .iter()
        .map(|&entity| {
            let camera = world.get::<Camera>(entity).unwrap();
            CameraRecord {
                id: entity.to_bits(),
                transform: world.get::<GlobalTransform>(entity).unwrap(),
                camera,
                target: match &camera.target {
                    RenderTarget::Window(WindowRef::Primary) => Target::PrimaryWindow,
                    RenderTarget::Window(WindowRef::Entity(window)) => {
                        Target::Window(window.to_bits())
                    }
                    _ => Target::OffScreen,
                },
                viewport: camera.viewport.as_ref().map(|v| Viewport {
                    x: v.physical_position.x,
                    y: v.physical_position.y,
                    width: v.physical_size.x,
                    height: v.physical_size.y,
                }),
                order: camera.order,
            }
        })
        .collect()
}

fn primary() -> RenderTarget {
    RenderTarget::Window(WindowRef::Primary)
}

fn planar(location: &Location) -> Vec2 {
    match location.world {
        WorldCoordinate::Planar(point) => point,
        WorldCoordinate::Ray(_) => panic!("a ray where a point of the plane was asked for"),
    }
}

fn close(a: Vec2, b: Vec2) -> bool {
    (a - b).length() < 1e-3
}

#[test]
fn full_window_camera_on_primary_window_locates_the_pointer() {
    let mut world = new_world();
    let w1 = spawn_window(&mut world, true, Some((100.0, 50.0)));
    let c1 = spawn_flat_camera(&mut world, primary(), None, 0);
    settle(&mut world);
    let windows = window_records(&world, &[w1]);
    let cameras = camera_records(&world, &[c1]);
    assert_eq!(windows[0].physical_cursor, Some(PhysicalPoint { x: 100, y: 50 }));

    let found = resolve(&windows, &cameras, ProjectionMode::Planar).unwrap();
    assert_eq!(found.window, w1.to_bits());
    assert_eq!(found.camera, c1.to_bits());
    assert_eq!(found.position, Vec2::new(100.0, 50.0));
    assert!(close(planar(&found), Vec2::new(-200.0, 150.0)));
}

#[test]
fn higher_order_wins_where_both_viewports_hold_the_pointer() {
    let mut world = new_world();
    let w1 = spawn_window(&mut world, true, Some((50.0, 50.0)));
    let c1 = spawn_flat_camera(&mut world, primary(), Some((0, 0, 300, 400)), 0);
    let c2 = spawn_flat_camera(&mut world, primary(), Some((0, 0, 600, 400)), 1);
    settle(&mut world);
    let windows = window_records(&world, &[w1]);
    assert_eq!(windows[0].physical_cursor, Some(PhysicalPoint { x: 50, y: 50 }));

    let cameras = camera_records(&world, &[c1, c2]);
    let found = resolve(&windows, &cameras, ProjectionMode::Planar).unwrap();
    assert_eq!(found.window, w1.to_bits());
    assert_eq!(found.camera, c2.to_bits());
    assert!(close(planar(&found), Vec2::new(-250.0, 150.0)));
}

#[test]
fn higher_order_wins_whatever_the_order_of_the_list() {
    let mut world = new_world();
    let w1 = spawn_window(&mut world, true, Some((50.0, 50.0)));
    let c1 = spawn_flat_camera(&mut world, primary(), Some((0, 0, 300, 400)), 0);
    let c2 = spawn_flat_camera(&mut world, primary(), Some((0, 0, 600, 400)), 1);
    settle(&mut world);
    let windows = window_records(&world, &[w1]);

    let listed = camera_records(&world, &[c1, c2]);
    let reversed = camera_records(&world, &[c2, c1]);
    let a = resolve(&windows, &listed, ProjectionMode::Planar).unwrap();
    let b = resolve(&windows, &reversed, ProjectionMode::Planar).unwrap();
    assert_eq!(a.camera, c2.to_bits());
    assert_eq!(b.camera, c2.to_bits());
    assert!(a == b);
}

#[test]
fn only_the_wide_viewport_holds_a_pointer_on_the_right() {
    let mut world = new_world();
    let w1 = spawn_window(&mut world, true, Some((500.0, 50.0)));
    let c1 = spawn_flat_camera(&mut world, primary(), Some((0, 0, 300, 400)), 0);
    let c2 = spawn_flat_camera(&mut world, primary(), Some((0, 0, 600, 400)), 1);
    settle(&mut world);
    let windows = window_records(&world, &[w1]);
    assert_eq!(windows[0].physical_cursor, Some(PhysicalPoint { x: 500, y: 50 }));

    let cameras = camera_records(&world, &[c1, c2]);
    let found = resolve(&windows, &cameras, ProjectionMode::Planar).unwrap();
    assert_eq!(found.camera, c2.to_bits());
    assert_eq!(found.position, Vec2::new(500.0, 50.0));
}

#[test]
fn no_location_while_no_window_reports_the_pointer() {
    let mut world = new_world();
    let w1 = spawn_window(&mut world, true, None);
    let w2 = spawn_window(&mut world, false, None);
    let c1 = spawn_flat_camera(&mut world, primary(), None, 0);
    let c2 = spawn_flat_camera(&mut world, RenderTarget::Window(WindowRef::Entity(w2)), None, 0);
    settle(&mut world);
    let windows = window_records(&world, &[w1, w2]);
    let cameras = camera_records(&world, &[c1, c2]);
    assert!(resolve(&windows, &cameras, ProjectionMode::Planar).is_none());
    assert!(resolve(&windows, &cameras, ProjectionMode::Ray).is_none());
}

#[test]
fn no_location_without_windows_or_without_cameras() {
    let mut world = new_world();
    let w1 = spawn_window(&mut world, true, Some((100.0, 50.0)));
    let c1 = spawn_flat_camera(&mut world, primary(), None, 0);
    settle(&mut world);
    let windows = window_records(&world, &[w1]);
    let cameras = camera_records(&world, &[c1]);
    assert!(resolve(&Vec::new(), &cameras, ProjectionMode::Planar).is_none());
    assert!(resolve(&windows, &Vec::new(), ProjectionMode::Planar).is_none());
    assert!(resolve(&Vec::new(), &Vec::new(), ProjectionMode::Planar).is_none());
}

#[test]
fn containment_comes_before_draw_order() {
    let mut world = new_world();
    let w1 = spawn_window(&mut world, true, Some((500.0, 50.0)));
    let small = spawn_flat_camera(&mut world, primary(), Some((0, 0, 100, 100)), 5);
    let full = spawn_flat_camera(&mut world, primary(), None, 0);
    settle(&mut world);
    let windows = window_records(&world, &[w1]);
    let cameras = camera_records(&world, &[small, full]);
    let found = resolve(&windows, &cameras, ProjectionMode::Planar).unwrap();
    assert_eq!(found.camera, full.to_bits());
}

#[test]
fn pointer_on_the_far_edge_of_a_viewport_is_inside_it() {
    let mut world = new_world();
    let w1 = spawn_window(&mut world, true, Some((300.0, 50.0)));
    let narrow = spawn_flat_camera(&mut world, primary(), Some((0, 0, 300, 400)), 3);
    let full = spawn_flat_camera(&mut world, primary(), None, 0);
    settle(&mut world);
    let cameras = camera_records(&world, &[narrow, full]);
    let on_edge = window_records(&world, &[w1]);
    assert_eq!(resolve(&on_edge, &cameras, ProjectionMode::Planar).unwrap().camera, narrow.to_bits());

    world.get_mut::<Window>(w1).unwrap().set_cursor_position(Some(Vec2::new(301.0, 50.0)));
    let cameras = camera_records(&world, &[narrow, full]);
    let past_edge = window_records(&world, &[w1]);
    assert_eq!(resolve(&past_edge, &cameras, ProjectionMode::Planar).unwrap().camera, full.to_bits());
}

#[test]
fn camera_that_cannot_project_gives_way_to_the_next() {
    let mut world = new_world();
    let w1 = spawn_window(&mut world, true, Some((100.0, 50.0)));
    let below = spawn_flat_camera(&mut world, primary(), None, 0);
    settle(&mut world);
    let unsized_camera = camera_on(primary(), None, 9);
    let transform = GlobalTransform::IDENTITY;
    let windows = window_records(&world, &[w1]);
    let mut cameras = camera_records(&world, &[below]);
    cameras.push(CameraRecord {
        id: 77,
        transform: &transform,
        camera: &unsized_camera,
        target: Target::PrimaryWindow,
        viewport: None,
        order: 9,
    });
    let found = resolve(&windows, &cameras, ProjectionMode::Planar).unwrap();
    assert_eq!(found.camera, below.to_bits());
}

#[test]
fn no_location_where_the_only_camera_cannot_project() {
    let mut world = new_world();
    let w1 = spawn_window(&mut world, true, Some((100.0, 50.0)));
    let c1 = spawn_flat_camera(&mut world, primary(), None, 0);
    settle(&mut world);
    let broken = GlobalTransform::from(Transform::from_scale(Vec3::splat(f32::NAN)));
    let windows = window_records(&world, &[w1]);
    let mut cameras = camera_records(&world, &[c1]);
    cameras[0].transform = &broken;
    assert!(resolve(&windows, &cameras, ProjectionMode::Planar).is_none());
    assert!(resolve(&windows, &cameras, ProjectionMode::Ray).is_none());
}

#[test]
fn camera_on_a_named_window_locates_the_pointer_there() {
    let mut world = new_world();
    let w1 = spawn_window(&mut world, true, None);
    let w2 = spawn_window(&mut world, false, Some((10.0, 20.0)));
    let on_primary = spawn_flat_camera(&mut world, primary(), None, 8);
    let on_second = spawn_flat_camera(
        &mut world,
        RenderTarget::Window(WindowRef::Entity(w2)),
        None,
        0,
    );
    settle(&mut world);
    let windows = window_records(&world, &[w1, w2]);
    let cameras = camera_records(&world, &[on_primary, on_second]);
    let found = resolve(&windows, &cameras, ProjectionMode::Planar).unwrap();
    assert_eq!(found.window, w2.to_bits());
    assert_eq!(found.camera, on_second.to_bits());
    assert_eq!(found.position, Vec2::new(10.0, 20.0));
}

#[test]
fn first_window_that_can_locate_the_pointer_wins() {
    let mut world = new_world();
    let w1 = spawn_window(&mut world, true, Some((100.0, 50.0)));
    let w2 = spawn_window(&mut world, false, Some((10.0, 20.0)));
    let on_second = spawn_flat_camera(
        &mut world,
        RenderTarget::Window(WindowRef::Entity(w2)),
        None,
        0,
    );
    let on_first = spawn_flat_camera(&mut world, primary(), None, 0);
    settle(&mut world);
    let cameras = camera_records(&world, &[on_second, on_first]);

    let listed = window_records(&world, &[w1, w2]);
    let found = resolve(&listed, &cameras, ProjectionMode::Planar).unwrap();
    assert_eq!((found.window, found.camera), (w1.to_bits(), on_first.to_bits()));

    let reversed = window_records(&world, &[w2, w1]);
    let found = resolve(&reversed, &cameras, ProjectionMode::Planar).unwrap();
    assert_eq!((found.window, found.camera), (w2.to_bits(), on_second.to_bits()));

    let second_only = camera_records(&world, &[on_second]);
    let found = resolve(&listed, &second_only, ProjectionMode::Planar).unwrap();
    assert_eq!((found.window, found.camera), (w2.to_bits(), on_second.to_bits()));
}

#[test]
fn off_screen_camera_never_locates_the_pointer() {
    let mut world = new_world();
    let w1 = spawn_window(&mut world, true, Some((100.0, 50.0)));
    let c1 = spawn_flat_camera(&mut world, primary(), None, 0);
    settle(&mut world);
    let windows = window_records(&world, &[w1]);
    let mut cameras = camera_records(&world, &[c1]);
    cameras[0].target = Target::OffScreen;
    assert!(resolve(&windows, &cameras, ProjectionMode::Planar).is_none());
}

#[test]
fn resolving_twice_gives_the_same_location() {
    let mut world = new_world();
    let w1 = spawn_window(&mut world, true, Some((50.0, 50.0)));
    let c1 = spawn_flat_camera(&mut world, primary(), Some((0, 0, 300, 400)), 0);
    let c2 = spawn_flat_camera(&mut world, primary(), Some((0, 0, 600, 400)), 1);
    settle(&mut world);
    let windows = window_records(&world, &[w1]);
    let cameras = camera_records(&world, &[c1, c2]);
    let first = resolve(&windows, &cameras, ProjectionMode::Planar);
    let second = resolve(&windows, &cameras, ProjectionMode::Planar);
    assert!(first.is_some());
    assert!(first == second);
}

#[test]
fn planar_projection_is_that_of_the_camera() {
    let mut world = new_world();
    spawn_window(&mut world, true, None);
    let c1 = spawn_flat_camera(&mut world, primary(), None, 0);
    settle(&mut world);
    let camera = world.get::<Camera>(c1).unwrap();
    let transform = GlobalTransform::from(Transform::from_xyz(7.0, -3.0, 0.0));
    let position = Vec2::new(100.0, 50.0);
    let expected = camera.viewport_to_world_2d(&transform, position).unwrap();
    match project(ProjectionMode::Planar, camera, &transform, position) {
        Some(WorldCoordinate::Planar(point)) => {
            assert_eq!(point, expected);
            assert!(close(point, Vec2::new(-193.0, 147.0)));
            assert!(point != position);
        }
        _ => panic!("no point of the plane"),
    }
}

#[test]
fn ray_projection_is_that_of_the_camera() {
    let mut world = new_world();
    spawn_window(&mut world, true, None);
    let c1 = spawn_deep_camera(&mut world, primary(), 0);
    settle(&mut world);
    let camera = world.get::<Camera>(c1).unwrap();
    let transform = *world.get::<GlobalTransform>(c1).unwrap();
    let position = Vec2::new(300.0, 200.0);
    let expected = camera.viewport_to_world(&transform, position).unwrap();
    match project(ProjectionMode::Ray, camera, &transform, position) {
        Some(WorldCoordinate::Ray(ray)) => {
            assert_eq!(ray, expected);
            assert!((ray.direction.as_vec3() - Vec3::new(0.0, 0.0, -1.0)).length() < 1e-3);
            assert!((ray.origin - Vec3::new(0.0, 0.0, 4.9)).length() < 1e-3);
        }
        _ => panic!("no ray"),
    }
}

#[test]
fn projection_fails_for_a_camera_without_size() {
    let camera = Camera::default();
    let transform = GlobalTransform::IDENTITY;
    assert!(project(ProjectionMode::Planar, &camera, &transform, Vec2::new(1.0, 1.0)).is_none());
    assert!(project(ProjectionMode::Ray, &camera, &transform, Vec2::new(1.0, 1.0)).is_none());
}

#[test]
fn ray_mode_publishes_a_ray_and_no_point() {
    let mut world = new_world();
    let w1 = spawn_window(&mut world, true, Some((300.0, 200.0)));
    let c1 = spawn_deep_camera(&mut world, primary(), 0);
    settle(&mut world);
    let windows = window_records(&world, &[w1]);
    let cameras = camera_records(&world, &[c1]);
    let mut state = CursorLocation::new();
    assert!(state.update(&windows, &cameras, ProjectionMode::Ray));
    assert_eq!(state.window(), Some(w1.to_bits()));
    assert_eq!(state.camera(), Some(c1.to_bits()));
    assert_eq!(state.position(), Some(Vec2::new(300.0, 200.0)));
    assert!(state.world_position().is_none());
    let ray = state.ray().unwrap();
    assert_eq!(ray, cameras[0].camera.viewport_to_world(cameras[0].transform, Vec2::new(300.0, 200.0)).unwrap());
}

#[test]
fn planar_mode_publishes_a_point_and_no_ray() {
    let mut world = new_world();
    let w1 = spawn_window(&mut world, true, Some((100.0, 50.0)));
    let c1 = spawn_flat_camera(&mut world, primary(), None, 0);
    settle(&mut world);
    let windows = window_records(&world, &[w1]);
    let cameras = camera_records(&world, &[c1]);
    let mut state = CursorLocation::new();
    assert!(state.get().is_none());
    assert!(state.update(&windows, &cameras, ProjectionMode::Planar));
    let held = *state.get().unwrap();
    assert_eq!(held.window, w1.to_bits());
    assert_eq!(held.camera, c1.to_bits());
    assert_eq!(state.window(), Some(w1.to_bits()));
    assert_eq!(state.camera(), Some(c1.to_bits()));
    assert_eq!(state.position(), Some(Vec2::new(100.0, 50.0)));
    assert!(close(state.world_position().unwrap(), Vec2::new(-200.0, 150.0)));
    assert!(state.ray().is_none());
}

#[test]
fn same_location_written_twice_changes_the_state_once() {
    let mut world = new_world();
    let w1 = spawn_window(&mut world, true, Some((100.0, 50.0)));
    let c1 = spawn_flat_camera(&mut world, primary(), None, 0);
    settle(&mut world);
    let windows = window_records(&world, &[w1]);
    let cameras = camera_records(&world, &[c1]);
    let mut state = CursorLocation::new();
    assert!(state.update(&windows, &cameras, ProjectionMode::Planar));
    assert!(!state.update(&windows, &cameras, ProjectionMode::Planar));
    assert!(!state.update(&windows, &cameras, ProjectionMode::Planar));
    assert_eq!(state.position(), Some(Vec2::new(100.0, 50.0)));
}

#[test]
fn empty_state_written_twice_changes_nothing_the_second_time() {
    let mut world = new_world();
    let w1 = spawn_window(&mut world, true, Some((100.0, 50.0)));
    let c1 = spawn_flat_camera(&mut world, primary(), None, 0);
    settle(&mut world);
    let cameras = camera_records(&world, &[c1]);
    let inside = window_records(&world, &[w1]);
    let mut state = CursorLocation::new();
    assert!(state.update(&inside, &cameras, ProjectionMode::Planar));

    world.get_mut::<Window>(w1).unwrap().set_cursor_position(None);
    let cameras = camera_records(&world, &[c1]);
    let outside = window_records(&world, &[w1]);
    assert!(state.update(&outside, &cameras, ProjectionMode::Planar));
    assert!(state.get().is_none());
    assert!(!state.update(&outside, &cameras, ProjectionMode::Planar));
    assert!(state.get().is_none());
}

#[test]
fn fresh_state_is_empty_and_an_empty_write_leaves_it_unchanged() {
    let mut state = CursorLocation::default();
    assert!(state.get().is_none());
    assert!(state.position().is_none());
    assert!(state.window().is_none());
    assert!(state.camera().is_none());
    assert!(state.world_position().is_none());
    assert!(state.ray().is_none());
    assert!(!state.update(&Vec::new(), &Vec::new(), ProjectionMode::Planar));
    assert!(state.get().is_none());
}

#[test]
fn moved_pointer_changes_the_state() {
    let mut world = new_world();
    let w1 = spawn_window(&mut world, true, Some((100.0, 50.0)));
    let c1 = spawn_flat_camera(&mut world, primary(), None, 0);
    settle(&mut world);
    let cameras = camera_records(&world, &[c1]);
    let before = window_records(&world, &[w1]);
    let mut state = CursorLocation::new();
    assert!(state.update(&before, &cameras, ProjectionMode::Planar));

    world.get_mut::<Window>(w1).unwrap().set_cursor_position(Some(Vec2::new(101.0, 50.0)));
    let cameras = camera_records(&world, &[c1]);
    let after = window_records(&world, &[w1]);
    assert!(state.update(&after, &cameras, ProjectionMode::Planar));
    assert_eq!(state.position(), Some(Vec2::new(101.0, 50.0)));
    assert!(close(state.world_position().unwrap(), Vec2::new(-199.0, 150.0)));
}

#[test]
fn locations_compare_by_all_their_parts() {
    let base = Location {
        position: Vec2::new(1.0, 2.0),
        window: 3,
        camera: 4,
        world: WorldCoordinate::Planar(Vec2::new(5.0, 6.0)),
    };
    assert!(base == base);
    assert!(base != Location { position: Vec2::new(1.0, 2.5), ..base });
    assert!(base != Location { window: 9, ..base });
    assert!(base != Location { camera: 9, ..base });
    assert!(base != Location { world: WorldCoordinate::Planar(Vec2::new(5.0, 7.0)), ..base });
}

#[test]
fn world_coordinates_of_two_forms_differ() {
    let mut world = new_world();
    spawn_window(&mut world, true, None);
    let c1 = spawn_deep_camera(&mut world, primary(), 0);
    settle(&mut world);
    let camera = world.get::<Camera>(c1).unwrap();
    let transform = *world.get::<GlobalTransform>(c1).unwrap();
    let centre = project(ProjectionMode::Ray, camera, &transform, Vec2::new(300.0, 200.0)).unwrap();
    let corner = project(ProjectionMode::Ray, camera, &transform, Vec2::new(0.0, 0.0)).unwrap();
    let point = WorldCoordinate::Planar(Vec2::new(0.0, 0.0));
    assert!(centre == centre);
    assert!(centre != corner);
    assert!(centre != point);
    assert!(point == WorldCoordinate::Planar(Vec2::new(0.0, 0.0)));
    assert!(point != WorldCoordinate::Planar(Vec2::new(0.0, 1.0)));
}
