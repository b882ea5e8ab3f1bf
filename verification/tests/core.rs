use gizmo_core::angle::{min_angle_delta, ANGLE_DEG, ANGLE_HALF, ANGLE_QUARTER};
use gizmo_core::config::{GizmoConfig, GizmoDirection, GizmoMode, Ray};
use gizmo_core::fx::{isqrt_u128, round_to_interval, FX_ONE};
use gizmo_core::mat4::{dist2, world_to_screen, Mat4, Vec4, Viewport};
use gizmo_core::quat::{rotate3, Quat};
use gizmo_core::state::{HandleState, RotationState, TranslationState};
use gizmo_core::subgizmo::{PointerState, SubGizmo, SubGizmoKind};
use gizmo_core::vec3::{dist3, length3, normalize3, Vec3};

fn v(x: i64, y: i64, z: i64) -> Vec3 {
    Vec3 { x, y, z }
}

/// A projection that maps world x and y straight to the screen and never
/// rejects a point.
fn flat_projection() -> Mat4 {
    Mat4 {
        row_x: Vec4 { x: FX_ONE, y: 0, z: 0, w: 0 },
        row_y: Vec4 { x: 0, y: FX_ONE, z: 0, w: 0 },
        row_z: Vec4 { x: 0, y: 0, z: FX_ONE, w: 0 },
        row_w: Vec4 { x: 0, y: 0, z: 0, w: FX_ONE },
    }
}

/// A projection that collapses every point onto one screen position.
fn collapsing_projection() -> Mat4 {
    Mat4 {
        row_x: Vec4 { x: 0, y: 0, z: 0, w: 0 },
        row_y: Vec4 { x: 0, y: 0, z: 0, w: 0 },
        row_z: Vec4 { x: 0, y: 0, z: 0, w: 0 },
        row_w: Vec4 { x: 0, y: 0, z: 0, w: FX_ONE },
    }
}

fn base_config() -> GizmoConfig {
    GizmoConfig {
        translation: v(0, 0, 0),
        rotation: Quat { x: 0, y: 0, z: 0, w: FX_ONE },
        scale: v(FX_ONE, FX_ONE, FX_ONE),
        view_forward: v(FX_ONE, 0, 0),
        view_right: v(0, FX_ONE, 0),
        view_projection: flat_projection(),
        viewport: Viewport { left: 0, top: 0, width: 1_000_000_000, height: 1_000_000_000 },
        local_space: false,
        left_handed: false,
        snapping: false,
        snap_angle: 0,
        snap_distance: 0,
        focus_distance: 1_000_000,
        scale_factor: FX_ONE,
        gizmo_size: 10_000_000,
        stroke_width: 2_000_000,
    }
}

#[test]
fn snap_rounds_to_nearest_multiple() {
    assert_eq!(round_to_interval(7_300_000, 1_000_000), 7_000_000);
    assert_eq!(round_to_interval(7_700_000, 1_000_000), 8_000_000);
    assert_eq!(round_to_interval(-7_300_000, 1_000_000), -7_000_000);
}

#[test]
fn snap_ties_round_away_from_zero() {
    assert_eq!(round_to_interval(7_500_000, 1_000_000), 8_000_000);
    assert_eq!(round_to_interval(-7_500_000, 1_000_000), -8_000_000);
}

#[test]
fn snap_with_non_positive_interval_is_identity() {
    assert_eq!(round_to_interval(1_234_567, 0), 1_234_567);
    assert_eq!(round_to_interval(1_234_567, -5), 1_234_567);
}

#[test]
fn snap_is_idempotent_on_samples() {
    for &x in &[0i64, 1, -1, 499_999, 500_000, 123_456_789, -987_654_321] {
        for &s in &[1i64, 7, 1_000, 1_000_000] {
            let once = round_to_interval(x, s);
            assert_eq!(round_to_interval(once, s), once);
        }
    }
}

#[test]
fn minimal_angle_crosses_the_wrap_without_a_jump() {
    let theta1 = 179 * ANGLE_DEG;
    let theta2 = -179 * ANGLE_DEG;
    assert_eq!(min_angle_delta(theta2 - theta1), 2 * ANGLE_DEG);
    assert_eq!(min_angle_delta(theta1 - theta2), -2 * ANGLE_DEG);
}

#[test]
fn minimal_angle_maps_the_negative_boundary_up() {
    assert_eq!(min_angle_delta(-ANGLE_HALF), ANGLE_HALF);
    assert_eq!(min_angle_delta(ANGLE_HALF), ANGLE_HALF);
    assert_eq!(min_angle_delta(0), 0);
}

#[test]
fn integer_square_root_brackets_the_value() {
    assert_eq!(isqrt_u128(0), 0);
    assert_eq!(isqrt_u128(1), 1);
    assert_eq!(isqrt_u128(24), 4);
    assert_eq!(isqrt_u128(25), 5);
    assert_eq!(isqrt_u128(u128::MAX), u64::MAX);
}

#[test]
fn vector_length_of_a_pythagorean_triple_is_exact() {
    assert_eq!(length3(&v(3_000_000, 4_000_000, 0)), 5_000_000);
    assert_eq!(dist3(&v(1_000_000, 0, 0), &v(1_000_000, 0, 0)), 0);
}

#[test]
fn normalizing_the_zero_vector_fails() {
    assert!(normalize3(&v(0, 0, 0)).is_none());
    let u = normalize3(&v(0, 5_000_000, 0)).unwrap();
    assert_eq!(u, v(0, FX_ONE, 0));
}

#[test]
fn identity_rotation_keeps_a_vector() {
    let q = Quat { x: 0, y: 0, z: 0, w: FX_ONE };
    let p = v(123_456, -654_321, 42);
    assert_eq!(rotate3(&q, &p), p);
}

#[test]
fn projection_maps_the_center_of_the_viewport() {
    let vp = Viewport { left: 0, top: 0, width: 1_000_000_000, height: 1_000_000_000 };
    let m = flat_projection();
    let s = world_to_screen(&vp, &m, &v(0, 0, 0)).unwrap();
    assert_eq!(s.x, 500_000_000);
    assert_eq!(s.y, 500_000_000);
    let d = dist2(&s, &s);
    assert_eq!(d, 0);
}

#[test]
fn projection_rejects_a_point_behind_the_camera() {
    let vp = Viewport { left: 0, top: 0, width: 1_000_000_000, height: 1_000_000_000 };
    let mut m = flat_projection();
    m.row_w = Vec4 { x: 0, y: 0, z: 0, w: -FX_ONE };
    assert!(world_to_screen(&vp, &m, &v(0, 0, 0)).is_none());
}

#[test]
fn local_normal_follows_the_direction() {
    let cfg = base_config();
    let g = SubGizmo::new(cfg, GizmoDirection::Y, SubGizmoKind::TranslationVector);
    assert_eq!(g.local_normal(), v(0, FX_ONE, 0));
    assert_eq!(g.normal(), v(0, FX_ONE, 0));
    let s = SubGizmo::new(cfg, GizmoDirection::Screen, SubGizmoKind::RotationAxis);
    assert_eq!(s.local_normal(), v(-FX_ONE, 0, 0));
}

#[test]
fn axis_pick_through_the_midpoint_hits_exactly() {
    let mut cfg = base_config();
    cfg.view_forward = v(0, 0, -FX_ONE);
    let g = SubGizmo::new(cfg, GizmoDirection::X, SubGizmoKind::TranslationVector);
    let ray = Ray { origin: v(5_000_000, 0, 10_000_000), direction: v(0, 0, -FX_ONE) };
    let mut state = TranslationState::default();
    let hit = gizmo_core::translation::pick_translation(&g, &ray, &mut state);
    assert!(hit.is_some());
    assert_eq!(state.start_point, v(5_000_000, 0, 0));
    assert_eq!(state.last_point, v(5_000_000, 0, 0));
    assert_eq!(state.current_delta, v(0, 0, 0));
    // the closest ray point is the midpoint itself, at zero distance
    assert_eq!(hit.unwrap(), 10_000_000);
}

#[test]
fn axis_pick_outside_the_tolerance_misses() {
    let mut cfg = base_config();
    cfg.view_forward = v(0, 0, -FX_ONE);
    let g = SubGizmo::new(cfg, GizmoDirection::X, SubGizmoKind::TranslationVector);
    // passes 5 units above the axis, tolerance is 1
    let ray = Ray { origin: v(5_000_000, 5_000_000, 10_000_000), direction: v(0, 0, -FX_ONE) };
    let mut state = TranslationState::default();
    assert!(gizmo_core::translation::pick_translation(&g, &ray, &mut state).is_none());
}

#[test]
fn translation_drag_accumulates_and_reseeds_on_the_next_pick() {
    let mut cfg = base_config();
    cfg.view_forward = v(0, 0, -FX_ONE);
    let g = SubGizmo::new(cfg, GizmoDirection::X, SubGizmoKind::TranslationVector);
    let mut state = TranslationState::default();
    let pick_ray = Ray { origin: v(2_000_000, 0, 10_000_000), direction: v(0, 0, -FX_ONE) };
    gizmo_core::translation::pick_translation(&g, &pick_ray, &mut state).unwrap();
    assert_eq!(state.start_point, v(2_000_000, 0, 0));

    let drag_ray = Ray { origin: v(5_000_000, 0, 10_000_000), direction: v(0, 0, -FX_ONE) };
    let result = gizmo_core::translation::update_translation(&g, &drag_ray, &mut state).unwrap();
    // moved by exactly (3, 0, 0)
    assert_eq!(state.current_delta, v(3_000_000, 0, 0));
    assert_eq!(result.translation, v(3_000_000, 0, 0));
    assert_eq!(result.mode, GizmoMode::Translate);
    assert_eq!(result.value, v(3_000_000, 0, 0));

    // releasing is the host ceasing to call update; the next pick reseeds
    gizmo_core::translation::pick_translation(&g, &pick_ray, &mut state).unwrap();
    assert_eq!(state.current_delta, v(0, 0, 0));
    assert_eq!(state.start_point, v(2_000_000, 0, 0));
}

#[test]
fn snapped_translation_rounds_the_offset_length() {
    let mut cfg = base_config();
    cfg.view_forward = v(0, 0, -FX_ONE);
    cfg.snapping = true;
    cfg.snap_distance = 1_000_000;
    let g = SubGizmo::new(cfg, GizmoDirection::X, SubGizmoKind::TranslationVector);
    let mut state = TranslationState::default();
    let pick_ray = Ray { origin: v(2_000_000, 0, 10_000_000), direction: v(0, 0, -FX_ONE) };
    gizmo_core::translation::pick_translation(&g, &pick_ray, &mut state).unwrap();
    let drag_ray = Ray { origin: v(4_600_000, 0, 10_000_000), direction: v(0, 0, -FX_ONE) };
    gizmo_core::translation::update_translation(&g, &drag_ray, &mut state).unwrap();
    // raw offset 2.6 snaps to 3.0
    assert_eq!(state.current_delta, v(3_000_000, 0, 0));
}

#[test]
fn edge_on_planar_handle_never_picks() {
    let mut cfg = base_config();
    cfg.view_projection = collapsing_projection();
    let g = SubGizmo::new(cfg, GizmoDirection::X, SubGizmoKind::TranslationPlane);
    assert!(!gizmo_core::translation::translation_plane_is_visible(&g));
    let rays = [
        Ray { origin: v(5_000_000, 0, 10_000_000), direction: v(0, 0, -FX_ONE) },
        Ray { origin: v(-900_000_000, 7, 1), direction: v(FX_ONE, 0, 0) },
    ];
    for ray in rays.iter() {
        let mut state = TranslationState::default();
        let before = state;
        assert!(gizmo_core::translation::pick_translation_plane(&g, ray, &mut state).is_none());
        assert_eq!(state, before);
    }
}

#[test]
fn parallel_ray_misses_the_plane_and_leaves_state_alone() {
    let cfg = base_config();
    // X-plane handle: normal is the X axis; a ray along Z is parallel to it
    let g = SubGizmo::new(cfg, GizmoDirection::X, SubGizmoKind::TranslationPlane);
    let ray = Ray { origin: v(0, 0, 50_000_000), direction: v(0, 0, -FX_ONE) };
    let mut state = TranslationState::default();
    state.start_point = v(1, 2, 3);
    let before = state;
    let r = gizmo_core::translation::update_translation_plane(&g, &ray, &mut state);
    assert!(r.is_none());
    assert_eq!(state, before);
}

#[test]
fn planar_pick_seeds_the_intersection() {
    let mut cfg = base_config();
    cfg.focus_distance = 100_000_000;
    // Z-plane handle: normal Z, patch origin offset along X and Y
    let g = SubGizmo::new(cfg, GizmoDirection::Z, SubGizmoKind::TranslationPlane);
    let origin = gizmo_core::translation::translation_plane_global_origin(&g);
    let ray = Ray { origin: v(origin.x, origin.y, 10_000_000), direction: v(0, 0, -FX_ONE) };
    let mut state = TranslationState::default();
    let hit = gizmo_core::translation::pick_translation_plane(&g, &ray, &mut state);
    assert!(hit.is_some());
    assert_eq!(state.start_point, v(origin.x, origin.y, 0));
}

#[test]
fn arc_angle_widens_from_half_to_full_circle() {
    let mut cfg = base_config();
    // straight on: view forward along the handle axis
    cfg.view_forward = v(FX_ONE, 0, 0);
    let g = SubGizmo::new(cfg, GizmoDirection::X, SubGizmoKind::RotationAxis);
    assert_eq!(gizmo_core::rotation::arc_angle(&g), ANGLE_HALF);

    // edge on: view forward orthogonal to the axis
    cfg.view_forward = v(0, FX_ONE, 0);
    let g = SubGizmo::new(cfg, GizmoDirection::X, SubGizmoKind::RotationAxis);
    assert_eq!(gizmo_core::rotation::arc_angle(&g), ANGLE_QUARTER);

    // halfway between the thresholds: linear interpolation
    cfg.view_forward = v(992_500, 0, 0);
    let g = SubGizmo::new(cfg, GizmoDirection::X, SubGizmoKind::RotationAxis);
    assert_eq!(gizmo_core::rotation::arc_angle(&g), ANGLE_QUARTER + 18_000 * 2_500);
}

#[test]
fn rotation_drag_survives_the_wrap() {
    let cfg = base_config();
    let g = SubGizmo::new(cfg, GizmoDirection::X, SubGizmoKind::RotationAxis);
    // a ray that meets the rotation circle: the plane x == 0, radius 10
    let ray = Ray { origin: v(10_000_000, 10_000_000, 0), direction: v(-FX_ONE, 0, 0) };
    let mut state = RotationState::default();
    let hit = gizmo_core::rotation::pick_rotation(&g, &ray, Some(0), Some(0), &mut state);
    assert!(hit.is_some());
    assert_eq!(state.start_rotation_angle, 0);
    assert_eq!(state.current_delta, 0);

    let r1 = gizmo_core::rotation::update_rotation(&g, Some(179 * ANGLE_DEG), &mut state)
        .unwrap();
    assert_eq!(r1.rotation_delta, 179 * ANGLE_DEG);
    assert_eq!(state.current_delta, 179 * ANGLE_DEG);

    // crossing the wrap: the increment is +2 degrees, not -358
    let r2 = gizmo_core::rotation::update_rotation(&g, Some(-179 * ANGLE_DEG), &mut state)
        .unwrap();
    assert_eq!(r2.rotation_delta, 2 * ANGLE_DEG);
    assert_eq!(state.current_delta, 181 * ANGLE_DEG);
    assert_eq!(state.last_rotation_angle, -179 * ANGLE_DEG);
    assert_eq!(r2.mode, GizmoMode::Rotate);
    assert_eq!(r2.rotation_axis, v(FX_ONE, 0, 0));
    assert_eq!(r2.value, v(181 * ANGLE_DEG, 0, 0));
}

#[test]
fn rotation_update_without_a_pointer_changes_nothing() {
    let cfg = base_config();
    let g = SubGizmo::new(cfg, GizmoDirection::X, SubGizmoKind::RotationAxis);
    let mut state = RotationState::default();
    state.current_delta = 42;
    let before = state;
    assert!(gizmo_core::rotation::update_rotation(&g, None, &mut state).is_none());
    assert_eq!(state, before);
}

#[test]
fn back_facing_handle_flips_the_pointer_angle() {
    let mut cfg = base_config();
    cfg.view_forward = v(-FX_ONE, 0, 0);
    let g = SubGizmo::new(cfg, GizmoDirection::X, SubGizmoKind::RotationAxis);
    assert_eq!(
        gizmo_core::rotation::resolve_rotation_angle(&g, 30 * ANGLE_DEG),
        -30 * ANGLE_DEG
    );
    assert_eq!(gizmo_core::rotation::resolve_rotation_angle(&g, ANGLE_HALF), ANGLE_HALF);
}

#[test]
fn snapped_rotation_rounds_relative_to_the_start() {
    let mut cfg = base_config();
    cfg.snapping = true;
    cfg.snap_angle = 15 * ANGLE_DEG;
    let g = SubGizmo::new(cfg, GizmoDirection::X, SubGizmoKind::RotationAxis);
    let mut state = RotationState::default();
    state.start_rotation_angle = 10 * ANGLE_DEG;
    state.last_rotation_angle = 10 * ANGLE_DEG;
    // 47 degrees of travel from the start snaps to 45
    let r = gizmo_core::rotation::update_rotation(&g, Some(57 * ANGLE_DEG), &mut state).unwrap();
    assert_eq!(state.last_rotation_angle, 55 * ANGLE_DEG);
    assert_eq!(r.rotation_delta, 45 * ANGLE_DEG);
}

#[test]
fn scale_pick_matches_translation_pick_exactly() {
    let mut cfg = base_config();
    cfg.view_forward = v(0, 0, -FX_ONE);
    let t = SubGizmo::new(cfg, GizmoDirection::X, SubGizmoKind::TranslationVector);
    let s = SubGizmo::new(cfg, GizmoDirection::X, SubGizmoKind::ScaleVector);
    let ray = Ray { origin: v(5_000_000, 0, 10_000_000), direction: v(0, 0, -FX_ONE) };
    let mut st = TranslationState::default();
    let mut ss = TranslationState::default();
    let ht = gizmo_core::translation::pick_translation(&t, &ray, &mut st);
    let hs = gizmo_core::scale::pick_scale(&s, &ray, &mut ss);
    assert_eq!(ht, hs);
    assert_eq!(st, ss);

    let tp = SubGizmo::new(cfg, GizmoDirection::Z, SubGizmoKind::TranslationPlane);
    let sp = SubGizmo::new(cfg, GizmoDirection::Z, SubGizmoKind::ScalePlane);
    let mut st2 = TranslationState::default();
    let mut ss2 = TranslationState::default();
    let ht2 = gizmo_core::translation::pick_translation_plane(&tp, &ray, &mut st2);
    let hs2 = gizmo_core::scale::pick_scale_plane(&sp, &ray, &mut ss2);
    assert_eq!(ht2, hs2);
    assert_eq!(st2, ss2);
}

#[test]
fn scale_drag_turns_the_offset_into_a_factor() {
    let mut cfg = base_config();
    cfg.view_forward = v(0, 0, -FX_ONE);
    let g = SubGizmo::new(cfg, GizmoDirection::X, SubGizmoKind::ScaleVector);
    let mut state = TranslationState::default();
    let pick_ray = Ray { origin: v(2_000_000, 0, 10_000_000), direction: v(0, 0, -FX_ONE) };
    gizmo_core::scale::pick_scale(&g, &pick_ray, &mut state).unwrap();
    let drag_ray = Ray { origin: v(5_000_000, 0, 10_000_000), direction: v(0, 0, -FX_ONE) };
    let r = gizmo_core::scale::update_scale(&g, &drag_ray, &mut state).unwrap();
    // the same offset a translation drag would resolve
    assert_eq!(state.current_delta, v(3_000_000, 0, 0));
    // 3 units along a handle of length 10: factor 1.3 on the X axis
    assert_eq!(r.value, v(1_300_000, FX_ONE, FX_ONE));
    assert_eq!(r.scale, v(1_300_000, FX_ONE, FX_ONE));
    assert_eq!(r.mode, GizmoMode::Scale);
    assert_eq!(r.translation, v(0, 0, 0));
}

#[test]
fn arc_radius_grows_for_the_screen_handle() {
    let cfg = base_config();
    let x = SubGizmo::new(cfg, GizmoDirection::X, SubGizmoKind::RotationAxis);
    let s = SubGizmo::new(cfg, GizmoDirection::Screen, SubGizmoKind::RotationAxis);
    assert_eq!(gizmo_core::rotation::arc_radius(&x), 10_000_000);
    assert_eq!(
        gizmo_core::rotation::arc_radius(&s),
        10_000_000 + 2_000_000 + 5 * FX_ONE
    );
}

#[test]
fn dispatch_routes_each_kind_to_its_family() {
    let mut cfg = base_config();
    cfg.view_forward = v(0, 0, -FX_ONE);
    let input = PointerState {
        ray: Ray { origin: v(5_000_000, 0, 10_000_000), direction: v(0, 0, -FX_ONE) },
        pointer_angle: Some(0),
        axis_angle: Some(0),
    };
    let mut state = HandleState::default();
    let t = SubGizmo::new(cfg, GizmoDirection::X, SubGizmoKind::TranslationVector);
    assert!(t.pick(&input, &mut state).is_some());
    assert_eq!(state.translation.start_point, v(5_000_000, 0, 0));
    let r = t.update(&input, &mut state).unwrap();
    assert_eq!(r.mode, GizmoMode::Translate);

    let mut rs = HandleState::default();
    let rot = SubGizmo::new(cfg, GizmoDirection::Z, SubGizmoKind::RotationAxis);
    let _ = rot.pick(&input, &mut rs);
    let rr = rot.update(&input, &mut rs).unwrap();
    assert_eq!(rr.mode, GizmoMode::Rotate);
}

#[test]
fn axis_angle_inputs_follow_the_tangent_convention() {
    let mut cfg = base_config();
    cfg.view_forward = v(0, 0, -FX_ONE);
    // Z-axis rotation handle viewed along -Z: the circle lies in the XY plane
    let g = SubGizmo::new(cfg, GizmoDirection::Z, SubGizmoKind::RotationAxis);
    let ray = Ray { origin: v(10_000_000, 0, 10_000_000), direction: v(0, 0, -FX_ONE) };
    let (y, x) = gizmo_core::rotation::rotation_axis_angle_inputs(&g, &ray).unwrap();
    // the offset is the unit X direction; forward is -Z (right-handed view):
    // y = (offset x forward) . normal = (unit X x -unit Z) . unit Z = 0
    // x = offset . forward = 0
    assert_eq!(y, 0);
    assert_eq!(x, 0);
}

#[test]
fn planar_snap_rounds_each_axis_independently() {
    let mut cfg = base_config();
    cfg.snapping = true;
    cfg.snap_distance = 1_000_000;
    let g = SubGizmo::new(cfg, GizmoDirection::Z, SubGizmoKind::TranslationPlane);
    let snapped =
        gizmo_core::translation::snap_translation_plane(&g, &v(2_600_000, 3_400_000, 0));
    // 2.6 and 3.4 snap to 3.0 each, independently per in-plane axis
    assert_eq!(snapped, v(3_000_000, 3_000_000, 0));
}

#[test]
fn planar_snap_passes_a_short_offset_through() {
    let mut cfg = base_config();
    cfg.snapping = true;
    cfg.snap_distance = 1_000_000;
    let g = SubGizmo::new(cfg, GizmoDirection::Z, SubGizmoKind::TranslationPlane);
    let tiny = v(5, 0, 0);
    assert_eq!(gizmo_core::translation::snap_translation_plane(&g, &tiny), tiny);
}

#[test]
fn rotation_pick_outside_the_visible_arc_misses() {
    let mut cfg = base_config();
    // edge on: the arc spans only a quarter turn to each side
    cfg.view_forward = v(0, FX_ONE, 0);
    let g = SubGizmo::new(cfg, GizmoDirection::X, SubGizmoKind::RotationAxis);
    let ray = Ray { origin: v(10_000_000, 10_000_000, 0), direction: v(-FX_ONE, 0, 0) };
    let mut state = RotationState::default();
    let wide = gizmo_core::rotation::pick_rotation(&g, &ray, Some(120 * ANGLE_DEG), Some(0),
        &mut state);
    assert!(wide.is_none());
    let narrow = gizmo_core::rotation::pick_rotation(&g, &ray, Some(45 * ANGLE_DEG), Some(0),
        &mut state);
    assert!(narrow.is_some());
}

#[test]
fn planar_scale_drag_scales_both_spanned_axes() {
    let mut cfg = base_config();
    cfg.view_forward = v(0, 0, -FX_ONE);
    cfg.focus_distance = 100_000_000;
    let g = SubGizmo::new(cfg, GizmoDirection::Z, SubGizmoKind::ScalePlane);
    let origin = gizmo_core::translation::translation_plane_global_origin(&g);
    let mut state = TranslationState::default();
    let pick_ray = Ray { origin: v(origin.x, origin.y, 10_000_000), direction: v(0, 0, -FX_ONE) };
    gizmo_core::scale::pick_scale_plane(&g, &pick_ray, &mut state).unwrap();
    let drag_ray = Ray {
        origin: v(origin.x + 3_000_000, origin.y, 10_000_000),
        direction: v(0, 0, -FX_ONE),
    };
    let r = gizmo_core::scale::update_scale_plane(&g, &drag_ray, &mut state).unwrap();
    assert_eq!(state.current_delta, v(3_000_000, 0, 0));
    // patch size 5, mean in-plane offset 1.5: factor 1.3 on the spanned axes
    assert_eq!(r.value, v(1_300_000, 1_300_000, FX_ONE));
    assert_eq!(r.scale, v(1_300_000, 1_300_000, FX_ONE));
    assert_eq!(r.mode, GizmoMode::Scale);
}

#[test]
fn minimal_angle_stays_congruent_modulo_a_full_turn() {
    let full = 360 * ANGLE_DEG;
    for &(t1, t2) in &[
        (179 * ANGLE_DEG, -179 * ANGLE_DEG),
        (-90 * ANGLE_DEG, 90 * ANGLE_DEG),
        (ANGLE_HALF, -ANGLE_HALF + 1),
        (1, -1),
    ] {
        let d = min_angle_delta(t2 - t1);
        assert!(-ANGLE_HALF < d && d <= ANGLE_HALF);
        assert_eq!((d - (t2 - t1)).rem_euclid(full), 0);
    }
}
