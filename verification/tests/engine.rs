use passive_tree::atlas::{draw_asset, UvRect};
use passive_tree::camera::{Camera, PAN_LIMIT, ZOOM_MAX, ZOOM_MIN};
use passive_tree::geom::Pos;
use passive_tree::model::{class_art, CharacterClass};
use passive_tree::orbit::orbit_angle_units;
use passive_tree::scene::{DrawCmd, TextureKind};
use passive_tree::tree::{
    ascendancy_start_position, ascendancy_starts, orbit_angle_16, orbit_angle_40, orbit_nodes,
    orbit_radius, Constants, DataError, FrameType, Group, GroupBackground, Node, Sprite,
    SpriteCoords, Sprites, Spritesheet, TreeExport,
};
use passive_tree::trig::{cos_units, sin_units};

fn blank_node() -> Node {
    Node {
        skill: None,
        name: None,
        icon: None,
        is_notable: false,
        group: None,
        orbit: None,
        orbit_index: None,
        is_proxy: false,
        is_mastery: false,
        inactive_icon: String::new(),
        is_keystone: false,
        out: Vec::new(),
        class_start_index: None,
        ascendancy_name: None,
        is_ascendancy_start: false,
    }
}

fn blank_sprite() -> Sprite {
    Sprite { filename: String::new(), w: 100, h: 100, coords: Vec::new() }
}

fn blank_sheet() -> Spritesheet {
    Spritesheet { sprites: blank_sprite(), worse_sprites: blank_sprite() }
}

fn blank_sprites() -> Sprites {
    Sprites {
        normal_active: blank_sheet(),
        group_background: blank_sheet(),
        frame: blank_sheet(),
        mastery_inactive: blank_sheet(),
        start_node: blank_sheet(),
        notable_active: blank_sheet(),
        keystone_active: blank_sheet(),
        ascendancy_background: blank_sheet(),
    }
}

fn blank_tree(groups: Vec<Group>, nodes: Vec<Node>) -> TreeExport {
    TreeExport {
        tree: String::new(),
        classes: Vec::new(),
        groups,
        nodes,
        min_x: 0,
        min_y: 0,
        max_x: 0,
        max_y: 0,
        sprites: blank_sprites(),
        constants: Constants { orbit_radii: Vec::new() },
    }
}

fn group_at(x: i64, y: i64) -> Group {
    Group { x, y, orbits: Vec::new(), background: None, nodes: Vec::new() }
}

fn identity_camera() -> Camera {
    Camera::new(0, 0, 1000, 0, 0)
}

// ---------------------------------------------------------------------
// Orbit position resolver
// ---------------------------------------------------------------------
#[test]
fn orbit_tables_hold_the_literal_values() {
    assert_eq!(orbit_radius(0), 0);
    assert_eq!(orbit_radius(1), 82);
    assert_eq!(orbit_radius(2), 162);
    assert_eq!(orbit_radius(6), 846);
    assert_eq!(orbit_nodes(0), 1);
    assert_eq!(orbit_nodes(2), 16);
    assert_eq!(orbit_nodes(4), 40);
    assert_eq!(orbit_angle_16(2), 45);
    assert_eq!(orbit_angle_16(4), 90);
    assert_eq!(orbit_angle_16(15), 330);
    assert_eq!(orbit_angle_40(5), 45);
    assert_eq!(orbit_angle_40(39), 350);
}

#[test]
fn quarter_wave_symmetries() {
    assert_eq!(sin_units(0), 0);
    assert_eq!(sin_units(36), 1_000_000);
    assert_eq!(sin_units(72), 0);
    assert_eq!(sin_units(108), -1_000_000);
    assert_eq!(cos_units(0), 1_000_000);
    assert_eq!(cos_units(72), -1_000_000);
    assert_eq!(sin_units(24), 866_025);
    assert_eq!(sin_units(18), 707_107);
}

#[test]
fn sixteen_node_orbit_angles_in_units() {
    assert_eq!(orbit_angle_units(2, 0), 0);
    assert_eq!(orbit_angle_units(2, 2), 18);
    assert_eq!(orbit_angle_units(2, 4), 36);
}

#[test]
fn orbit_zero_sits_on_the_anchor() {
    let mut node = blank_node();
    node.group = Some(0);
    node.orbit = Some(0);
    node.orbit_index = Some(0);
    let tree = TreeExport::new(blank_tree(vec![group_at(12_345, -6_789)], vec![node])).unwrap();
    let p = tree.node_position(&tree.nodes[0]);
    assert_eq!(p, Pos { x: 12_345, y: -6_789 });
}

#[test]
fn sixteen_orbit_slot_zero_points_up() {
    let mut node = blank_node();
    node.group = Some(0);
    node.orbit = Some(2);
    node.orbit_index = Some(0);
    let tree = TreeExport::new(blank_tree(vec![group_at(1_000, 2_000)], vec![node])).unwrap();
    let p = tree.node_position(&tree.nodes[0]);
    assert_eq!(p, Pos { x: 1_000, y: 2_000 - 162_000_000 });
}

#[test]
fn sixteen_orbit_slot_four_points_right() {
    let mut node = blank_node();
    node.group = Some(0);
    node.orbit = Some(2);
    node.orbit_index = Some(4);
    let tree = TreeExport::new(blank_tree(vec![group_at(1_000, 2_000)], vec![node])).unwrap();
    let p = tree.node_position(&tree.nodes[0]);
    assert_eq!(p, Pos { x: 1_000 + 162_000_000, y: 2_000 });
}

#[test]
fn forty_node_orbit_at_forty_five_degrees() {
    let mut node = blank_node();
    node.group = Some(0);
    node.orbit = Some(4);
    node.orbit_index = Some(5);
    let tree = TreeExport::new(blank_tree(vec![group_at(0, 0)], vec![node])).unwrap();
    let p = tree.node_position(&tree.nodes[0]);
    // 493 px radius at 45 degrees: 493 * 707107 micro-pixels, exactly.
    assert_eq!(p, Pos { x: 348_603_751, y: -348_603_751 });
}

#[test]
fn uniform_orbit_at_sixty_degrees() {
    let mut node = blank_node();
    node.group = Some(0);
    node.orbit = Some(1);
    node.orbit_index = Some(1);
    let tree = TreeExport::new(blank_tree(vec![group_at(0, 0)], vec![node])).unwrap();
    let p = tree.node_position(&tree.nodes[0]);
    assert_eq!(p, Pos { x: 71_014_050, y: -41_000_000 });
}

#[test]
fn node_position_is_deterministic() {
    let mut node = blank_node();
    node.group = Some(0);
    node.orbit = Some(5);
    node.orbit_index = Some(17);
    let tree = TreeExport::new(blank_tree(vec![group_at(-4_321, 9_999)], vec![node])).unwrap();
    let a = tree.node_position(&tree.nodes[0]);
    let b = tree.node_position(&tree.nodes[0]);
    assert_eq!(a, b);
}

#[test]
fn node_without_group_sits_at_origin() {
    let tree = TreeExport::new(blank_tree(vec![], vec![blank_node()])).unwrap();
    let p = tree.node_position(&tree.nodes[0]);
    assert_eq!(p, Pos { x: 0, y: 0 });
}

// ---------------------------------------------------------------------
// Camera
// ---------------------------------------------------------------------
#[test]
fn anchor_is_fixed_at_identity() {
    let cam = Camera::new(0, 0, 1000, 400_000_000, 300_000_000);
    let s = cam.world_to_screen(Pos { x: 400_000_000, y: 300_000_000 });
    assert_eq!(s, Pos { x: 400_000_000, y: 300_000_000 });
}

#[test]
fn round_trip_is_exact_at_unit_zoom() {
    let cam = Camera::new(12_000, -7_000, 1000, 400_000_000, 300_000_000);
    for p in [Pos { x: 0, y: 0 }, Pos { x: 123_456, y: -654_321 }, Pos { x: -1, y: 1 }] {
        let w = cam.screen_to_world(p);
        let rt = cam.world_to_screen(w);
        assert_eq!(rt, p);
    }
}

#[test]
fn round_trip_stays_within_the_truncation_bound() {
    let cam = Camera::new(5_000, 9_000, 2_500, 400_000_000, 300_000_000);
    for p in [Pos { x: 1_234, y: 5_678 }, Pos { x: -97_531_000, y: 86_420_000 }] {
        let w = cam.screen_to_world(p);
        let rt = cam.world_to_screen(w);
        assert!(((rt.x - p.x).abs()) * 1000 <= 2_500 + 998);
        assert!(((rt.y - p.y).abs()) * 1000 <= 2_500 + 998);
        // Strictly inside one thousandth of a pixel.
        assert!((rt.x - p.x).abs() < 1000);
        assert!((rt.y - p.y).abs() < 1000);
    }
}

#[test]
fn zoom_keeps_the_anchor_world_point() {
    let mut cam = Camera::new(0, 0, 1000, 400_000_000, 300_000_000);
    let anchor = Pos { x: 123_456_000, y: 78_901_000 };
    let before = cam.screen_to_world(anchor);
    cam.zoom(1_100, anchor);
    let z1 = cam.zoom;
    assert_eq!(z1, 1_100);
    let after = cam.screen_to_world(anchor);
    assert!((after.x - before.x).abs() * z1 <= 2 * z1 + 997);
    assert!((after.y - before.y).abs() * z1 <= 2 * z1 + 997);
    // The anchor's world point stays within a thousandth of a pixel.
    assert!((after.x - before.x).abs() < 1000);
    assert!((after.y - before.y).abs() < 1000);
}

#[test]
fn repeated_zoom_out_keeps_the_anchor_world_point() {
    let mut cam = Camera::new(-44_000, 17_000, 1000, 400_000_000, 300_000_000);
    let anchor = Pos { x: 250_000_000, y: 310_000_000 };
    for _ in 0..5 {
        let before = cam.screen_to_world(anchor);
        cam.zoom(909, anchor);
        let z1 = cam.zoom;
        let after = cam.screen_to_world(anchor);
        assert!((after.x - before.x).abs() * z1 <= 2 * z1 + 997);
        assert!((after.y - before.y).abs() * z1 <= 2 * z1 + 997);
        assert!((after.x - before.x).abs() < 1000);
        assert!((after.y - before.y).abs() < 1000);
    }
}

#[test]
fn zoom_factor_is_clamped() {
    let mut cam = Camera::new(0, 0, ZOOM_MAX, 0, 0);
    cam.zoom(1_100, Pos { x: 0, y: 0 });
    assert_eq!(cam.zoom, ZOOM_MAX);
    let mut cam = Camera::new(0, 0, ZOOM_MIN, 0, 0);
    cam.zoom(500, Pos { x: 0, y: 0 });
    assert_eq!(cam.zoom, ZOOM_MIN);
}

#[test]
fn pan_accumulates_and_saturates() {
    let mut cam = identity_camera();
    cam.pan(Pos { x: 10, y: -20 });
    cam.pan(Pos { x: 5, y: 5 });
    assert_eq!(cam.pan.x, 15);
    assert_eq!(cam.pan.y, -15);
    let mut cam = Camera::new(PAN_LIMIT, 0, 1000, 0, 0);
    cam.pan(Pos { x: 1_000, y: 0 });
    assert_eq!(cam.pan.x, PAN_LIMIT);
}

#[test]
fn world_to_screen_scales_about_the_zoom_center() {
    let cam = Camera::new(0, 0, 2_000, 100_000_000, 0);
    // A point 10 px right of the center lands 20 px right of it.
    let s = cam.world_to_screen(Pos { x: 110_000_000, y: 0 });
    assert_eq!(s, Pos { x: 120_000_000, y: 0 });
}

// ---------------------------------------------------------------------
// Atlas
// ---------------------------------------------------------------------
fn one_sprite_sheet() -> Sprite {
    Sprite {
        filename: String::from("sheet.png"),
        w: 100,
        h: 200,
        coords: vec![(String::from("a"), SpriteCoords { x: 25, y: 50, w: 25, h: 50 })],
    }
}

#[test]
fn uv_rect_is_the_exact_pixel_fraction() {
    let sheet = one_sprite_sheet();
    let (uv, w, h) = sheet.uv_rect(&String::from("a")).unwrap();
    assert_eq!(
        uv,
        UvRect { u_min_num: 25, v_min_num: 50, u_max_num: 50, v_max_num: 100, u_den: 100, v_den: 200 }
    );
    assert_eq!((w, h), (25, 50));
}

#[test]
fn uv_rect_of_a_missing_name_is_none() {
    let sheet = one_sprite_sheet();
    assert!(sheet.uv_rect(&String::from("b")).is_none());
}

#[test]
fn half_image_bottom_swaps_only_the_v_bounds() {
    let sheet = one_sprite_sheet();
    let c = SpriteCoords { x: 10, y: 20, w: 30, h: 40 };
    let parts = draw_asset(&c, &sheet, Pos { x: 0, y: 0 }, true, &identity_camera());
    assert_eq!(parts.len(), 2);
    let top = parts[0].uv;
    let bottom = parts[1].uv;
    assert_eq!(bottom.u_min_num, top.u_min_num);
    assert_eq!(bottom.u_max_num, top.u_max_num);
    assert_eq!(bottom.u_den, top.u_den);
    assert_eq!(bottom.v_den, top.v_den);
    assert_eq!(bottom.v_min_num, top.v_max_num);
    assert_eq!(bottom.v_max_num, top.v_min_num);
}

#[test]
fn half_image_rects_stack_vertically() {
    let sheet = one_sprite_sheet();
    let c = SpriteCoords { x: 10, y: 20, w: 30, h: 40 };
    let parts = draw_asset(&c, &sheet, Pos { x: 0, y: 0 }, true, &identity_camera());
    // Width 30 px and height 40 px scale by 1.33 to 39.9 and 53.2 px.
    assert_eq!(parts[0].rect.min, Pos { x: -39_900_000, y: -106_400_000 });
    assert_eq!(parts[0].rect.max, Pos { x: 39_900_000, y: 0 });
    assert_eq!(parts[1].rect.min, Pos { x: -39_900_000, y: 0 });
    assert_eq!(parts[1].rect.max, Pos { x: 39_900_000, y: 106_400_000 });
}

#[test]
fn full_image_is_one_centered_rect() {
    let sheet = one_sprite_sheet();
    let c = SpriteCoords { x: 0, y: 0, w: 30, h: 40 };
    let parts = draw_asset(&c, &sheet, Pos { x: 1_000, y: 2_000 }, false, &identity_camera());
    assert_eq!(parts.len(), 1);
    assert_eq!(parts[0].rect.min, Pos { x: 1_000 - 39_900_000, y: 2_000 - 53_200_000 });
    assert_eq!(parts[0].rect.max, Pos { x: 1_000 + 39_900_000, y: 2_000 + 53_200_000 });
}

// ---------------------------------------------------------------------
// Validation and fix-up
// ---------------------------------------------------------------------
#[test]
fn dangling_edge_is_rejected() {
    let mut node = blank_node();
    node.out = vec![5];
    let err = TreeExport::new(blank_tree(vec![], vec![node])).unwrap_err();
    assert_eq!(err, DataError::MalformedNode { index: 0 });
}

#[test]
fn orbit_index_beyond_the_table_is_rejected() {
    let mut node = blank_node();
    node.group = Some(0);
    node.orbit = Some(2);
    node.orbit_index = Some(16);
    let err = TreeExport::new(blank_tree(vec![group_at(0, 0)], vec![node])).unwrap_err();
    assert_eq!(err, DataError::MalformedNode { index: 0 });
}

#[test]
fn orbiting_node_needs_a_group() {
    let mut node = blank_node();
    node.orbit = Some(1);
    let err = TreeExport::new(blank_tree(vec![], vec![node])).unwrap_err();
    assert_eq!(err, DataError::MalformedNode { index: 0 });
}

#[test]
fn unknown_ascendancy_is_rejected() {
    let mut node = blank_node();
    node.group = Some(0);
    node.is_ascendancy_start = true;
    node.ascendancy_name = Some(String::from("NoSuchAscendancy"));
    let err = TreeExport::new(blank_tree(vec![group_at(0, 0)], vec![node])).unwrap_err();
    assert_eq!(err, DataError::MalformedNode { index: 0 });
}

#[test]
fn out_of_range_anchor_is_rejected() {
    let tree = blank_tree(vec![group_at(2_000_000_000_000, 0)], vec![]);
    let err = TreeExport::new(tree).unwrap_err();
    assert_eq!(err, DataError::MalformedGroup { index: 0 });
}

#[test]
fn degenerate_sheet_is_rejected() {
    let mut tree = blank_tree(vec![], vec![]);
    tree.sprites.normal_active.sprites.w = 0;
    let err = TreeExport::new(tree).unwrap_err();
    assert_eq!(err, DataError::MalformedSpriteSheet { index: 0 });
}

#[test]
fn the_first_bad_node_is_reported() {
    let mut bad_a = blank_node();
    bad_a.out = vec![9];
    let mut bad_b = blank_node();
    bad_b.out = vec![9];
    let err = TreeExport::new(blank_tree(vec![], vec![blank_node(), bad_a, bad_b])).unwrap_err();
    assert_eq!(err, DataError::MalformedNode { index: 1 });
}

#[test]
fn ascendancy_start_moves_its_group() {
    let mut node = blank_node();
    node.group = Some(0);
    node.is_ascendancy_start = true;
    node.ascendancy_name = Some(String::from("Ascendant"));
    let tree = TreeExport::new(blank_tree(vec![group_at(0, 0)], vec![node])).unwrap();
    assert_eq!(tree.groups[0].x, -7_800_000_000);
    assert_eq!(tree.groups[0].y, 7_200_000_000);
}

#[test]
fn ascendancy_starts_table_lookup() {
    let table = ascendancy_starts();
    assert_eq!(table.len(), 19);
    assert_eq!(
        ascendancy_start_position(&String::from("Juggernaut")),
        Some(Pos { x: -10_400_000_000, y: 5_200_000_000 })
    );
    assert_eq!(ascendancy_start_position(&String::from("Nobody")), None);
}

#[test]
fn get_ascendancy_starts_labels_the_backdrop() {
    let mut node = blank_node();
    node.group = Some(0);
    node.is_ascendancy_start = true;
    node.ascendancy_name = Some(String::from("Trickster"));
    let tree = TreeExport::new(blank_tree(vec![group_at(0, 0)], vec![node])).unwrap();
    let starts = tree.get_ascendancy_starts();
    assert_eq!(starts.len(), 1);
    assert_eq!(starts[0].0, Pos { x: 10_200_000_000, y: -3_700_000_000 });
    assert_eq!(starts[0].1, String::from("ClassesTrickster"));
}

// ---------------------------------------------------------------------
// Line generation
// ---------------------------------------------------------------------
fn orbit_zero_node(group: usize) -> Node {
    let mut n = blank_node();
    n.group = Some(group);
    n.orbit = Some(0);
    n.orbit_index = Some(0);
    n
}

#[test]
fn two_groups_one_edge_one_segment() {
    let mut a = orbit_zero_node(0);
    a.out = vec![1];
    let b = orbit_zero_node(1);
    let tree =
        TreeExport::new(blank_tree(vec![group_at(0, 0), group_at(100_000_000, 0)], vec![a, b]))
            .unwrap();
    let lines = tree.generate_lines();
    assert_eq!(lines, vec![(Pos { x: 0, y: 0 }, Pos { x: 100_000_000, y: 0 })]);
}

#[test]
fn mastery_edges_produce_no_lines() {
    let mut a = orbit_zero_node(0);
    a.out = vec![1];
    let mut b = orbit_zero_node(1);
    b.is_mastery = true;
    let tree =
        TreeExport::new(blank_tree(vec![group_at(0, 0), group_at(100_000_000, 0)], vec![a, b]))
            .unwrap();
    assert!(tree.generate_lines().is_empty());
}

#[test]
fn proxy_edges_produce_no_lines() {
    let mut a = orbit_zero_node(0);
    a.is_proxy = true;
    a.out = vec![1];
    let b = orbit_zero_node(1);
    let tree =
        TreeExport::new(blank_tree(vec![group_at(0, 0), group_at(100_000_000, 0)], vec![a, b]))
            .unwrap();
    assert!(tree.generate_lines().is_empty());
}

#[test]
fn class_start_mismatch_produces_no_lines() {
    let mut a = orbit_zero_node(0);
    a.out = vec![1];
    let mut b = orbit_zero_node(1);
    b.class_start_index = Some(2);
    let tree =
        TreeExport::new(blank_tree(vec![group_at(0, 0), group_at(100_000_000, 0)], vec![a, b]))
            .unwrap();
    assert!(tree.generate_lines().is_empty());
}

#[test]
fn ascendancy_mismatch_produces_no_lines() {
    let mut a = orbit_zero_node(0);
    a.out = vec![1];
    a.ascendancy_name = Some(String::from("Slayer"));
    let b = orbit_zero_node(1);
    let tree =
        TreeExport::new(blank_tree(vec![group_at(0, 0), group_at(100_000_000, 0)], vec![a, b]))
            .unwrap();
    assert!(tree.generate_lines().is_empty());
}

#[test]
fn matching_ascendancy_does_produce_a_line() {
    let mut a = orbit_zero_node(0);
    a.out = vec![1];
    a.ascendancy_name = Some(String::from("Slayer"));
    let mut b = orbit_zero_node(1);
    b.ascendancy_name = Some(String::from("Slayer"));
    let tree =
        TreeExport::new(blank_tree(vec![group_at(0, 0), group_at(100_000_000, 0)], vec![a, b]))
            .unwrap();
    assert_eq!(tree.generate_lines().len(), 1);
}

// ---------------------------------------------------------------------
// Hover and composition
// ---------------------------------------------------------------------
#[test]
fn hover_picks_a_node_inside_the_threshold() {
    let tree = TreeExport::new(blank_tree(vec![group_at(0, 0)], vec![orbit_zero_node(0)]))
        .unwrap();
    let cam = identity_camera();
    assert_eq!(tree.hovered_node(&cam, Pos { x: 10_000_000, y: 0 }), Some(0));
    assert_eq!(tree.hovered_node(&cam, Pos { x: 60_000_000, y: 0 }), None);
}

#[test]
fn hover_picks_the_nearest_node() {
    let tree = TreeExport::new(blank_tree(
        vec![group_at(0, 0), group_at(30_000_000, 0)],
        vec![orbit_zero_node(0), orbit_zero_node(1)],
    ))
    .unwrap();
    let cam = identity_camera();
    assert_eq!(tree.hovered_node(&cam, Pos { x: 20_000_000, y: 0 }), Some(1));
    assert_eq!(tree.hovered_node(&cam, Pos { x: 5_000_000, y: 0 }), Some(0));
}

#[test]
fn hover_threshold_scales_with_zoom() {
    let tree = TreeExport::new(blank_tree(vec![group_at(0, 0)], vec![orbit_zero_node(0)]))
        .unwrap();
    // At double zoom the node at the origin projects to the origin and
    // the threshold doubles to 100 px.
    let cam = Camera::new(0, 0, 2_000, 0, 0);
    assert_eq!(tree.hovered_node(&cam, Pos { x: 90_000_000, y: 0 }), Some(0));
    assert_eq!(tree.hovered_node(&cam, Pos { x: 110_000_000, y: 0 }), None);
}

#[test]
fn compose_draws_backdrop_line_and_node() {
    let mut raw = blank_tree(vec![group_at(0, 0)], vec![orbit_zero_node(0)]);
    raw.groups[0].background =
        Some(GroupBackground { image: String::from("bg"), is_half_image: false });
    raw.sprites.group_background.sprites.coords =
        vec![(String::from("bg"), SpriteCoords { x: 0, y: 0, w: 10, h: 10 })];
    raw.nodes[0].icon = Some(String::from("ic"));
    raw.sprites.normal_active.sprites.coords =
        vec![(String::from("ic"), SpriteCoords { x: 1, y: 2, w: 3, h: 4 })];
    raw.sprites.frame.sprites.coords =
        vec![(String::from("PSSkillFrame"), SpriteCoords { x: 5, y: 6, w: 7, h: 8 })];
    let tree = TreeExport::new(raw).unwrap();
    let cam = identity_camera();
    let lines = vec![(Pos { x: 0, y: 0 }, Pos { x: 100_000_000, y: 0 })];
    let cmds = tree.compose_scene(&cam, &CharacterClass::Scion, None, &lines);
    // One backdrop image, one line, one icon, one frame.
    assert_eq!(cmds.len(), 4);
    assert!(matches!(
        cmds[0],
        DrawCmd::Image { texture: TextureKind::GroupBackground, .. }
    ));
    assert_eq!(
        cmds[1],
        DrawCmd::Line { from: Pos { x: 0, y: 0 }, to: Pos { x: 100_000_000, y: 0 }, width: 5_000_000 }
    );
    assert!(matches!(cmds[2], DrawCmd::Image { texture: TextureKind::InactiveSkills, .. }));
    assert!(matches!(cmds[3], DrawCmd::Image { texture: TextureKind::Frame, .. }));
}

#[test]
fn hovered_node_uses_the_highlighted_texture() {
    let mut raw = blank_tree(vec![group_at(0, 0)], vec![orbit_zero_node(0)]);
    raw.nodes[0].icon = Some(String::from("ic"));
    raw.sprites.normal_active.sprites.coords =
        vec![(String::from("ic"), SpriteCoords { x: 1, y: 2, w: 3, h: 4 })];
    let tree = TreeExport::new(raw).unwrap();
    let cam = identity_camera();
    let cmds = tree.compose_scene(&cam, &CharacterClass::Scion, Some(0), &Vec::new());
    assert!(matches!(cmds[0], DrawCmd::Image { texture: TextureKind::Skills, .. }));
}

#[test]
fn start_node_artwork_follows_the_selected_class() {
    let mut raw = blank_tree(vec![group_at(0, 0)], vec![orbit_zero_node(0)]);
    raw.nodes[0].class_start_index = Some(2);
    raw.sprites.start_node.sprites.coords = vec![
        (String::from("centerranger"), SpriteCoords { x: 0, y: 0, w: 5, h: 5 }),
        (
            String::from("PSStartNodeBackgroundInactive"),
            SpriteCoords { x: 10, y: 10, w: 5, h: 5 },
        ),
    ];
    let tree = TreeExport::new(raw).unwrap();
    let cam = identity_camera();
    let ranger = tree.compose_scene(&cam, &CharacterClass::Ranger, None, &Vec::new());
    let witch = tree.compose_scene(&cam, &CharacterClass::Witch, None, &Vec::new());
    assert_eq!(ranger.len(), 1);
    assert_eq!(witch.len(), 1);
    assert_ne!(ranger[0], witch[0]);
}

#[test]
fn proxies_and_masteries_skip_the_main_icon_pass() {
    let mut raw = blank_tree(
        vec![group_at(0, 0), group_at(50_000_000, 0)],
        vec![orbit_zero_node(0), orbit_zero_node(1)],
    );
    raw.nodes[0].is_proxy = true;
    raw.nodes[0].icon = Some(String::from("ic"));
    raw.nodes[1].is_mastery = true;
    raw.nodes[1].inactive_icon = String::from("m");
    raw.sprites.mastery_inactive.sprites.coords =
        vec![(String::from("m"), SpriteCoords { x: 0, y: 0, w: 2, h: 2 })];
    let tree = TreeExport::new(raw).unwrap();
    let cmds = tree.compose_scene(&identity_camera(), &CharacterClass::Scion, None, &Vec::new());
    assert_eq!(cmds.len(), 1);
    assert!(matches!(cmds[0], DrawCmd::Image { texture: TextureKind::Mastery, .. }));
}

#[test]
fn missing_sprites_are_skipped_silently() {
    let mut raw = blank_tree(vec![group_at(0, 0)], vec![orbit_zero_node(0)]);
    raw.nodes[0].icon = Some(String::from("not-in-any-sheet"));
    let tree = TreeExport::new(raw).unwrap();
    let cmds = tree.compose_scene(&identity_camera(), &CharacterClass::Scion, None, &Vec::new());
    assert!(cmds.is_empty());
}

// ---------------------------------------------------------------------
// Model
// ---------------------------------------------------------------------
#[test]
fn class_ids_count_up_from_scion() {
    assert_eq!(CharacterClass::Scion.id(), 0);
    assert_eq!(CharacterClass::Marauder.id(), 1);
    assert_eq!(CharacterClass::Ranger.id(), 2);
    assert_eq!(CharacterClass::Witch.id(), 3);
    assert_eq!(CharacterClass::Duelist.id(), 4);
    assert_eq!(CharacterClass::Templar.id(), 5);
    assert_eq!(CharacterClass::Shadow.id(), 6);
}

#[test]
fn class_art_names_the_center_pieces() {
    assert_eq!(class_art(0), "centerscion");
    assert_eq!(class_art(3), "centerwitch");
    assert_eq!(class_art(7), "PSStartNodeBackgroundInactive");
}

#[test]
fn frame_types_follow_the_category_flags() {
    let mut n = blank_node();
    assert_eq!(n.frame_type(), FrameType::Normal);
    n.is_keystone = true;
    assert_eq!(n.frame_type(), FrameType::Keystone);
    n.is_notable = true;
    assert_eq!(n.frame_type(), FrameType::Notable);
    let mut p = blank_node();
    p.is_proxy = true;
    assert_eq!(p.frame_type(), FrameType::NoFrame);
}

// ---------------------------------------------------------------------
// Additional composition and camera behavior
// ---------------------------------------------------------------------
#[test]
fn half_image_background_composes_two_mirrored_rects() {
    let mut raw = blank_tree(vec![group_at(0, 0)], vec![]);
    raw.groups[0].background =
        Some(GroupBackground { image: String::from("bg"), is_half_image: true });
    raw.sprites.group_background.sprites.coords =
        vec![(String::from("bg"), SpriteCoords { x: 0, y: 0, w: 10, h: 10 })];
    let tree = TreeExport::new(raw).unwrap();
    let cmds = tree.compose_scene(&identity_camera(), &CharacterClass::Scion, None, &Vec::new());
    assert_eq!(cmds.len(), 2);
    match (&cmds[0], &cmds[1]) {
        (
            DrawCmd::Image { texture: TextureKind::GroupBackground, part: top },
            DrawCmd::Image { texture: TextureKind::GroupBackground, part: bottom },
        ) => {
            assert_eq!(bottom.uv.v_min_num, top.uv.v_max_num);
            assert_eq!(bottom.uv.v_max_num, top.uv.v_min_num);
            assert_eq!(bottom.uv.u_min_num, top.uv.u_min_num);
            assert_eq!(top.rect.max.y, bottom.rect.min.y);
        },
        other => panic!("unexpected commands: {other:?}"),
    }
}

#[test]
fn ascendancy_backdrop_is_composed_at_the_override_anchor() {
    let mut raw = blank_tree(vec![group_at(0, 0)], vec![orbit_zero_node(0)]);
    raw.nodes[0].is_ascendancy_start = true;
    raw.nodes[0].ascendancy_name = Some(String::from("Ascendant"));
    raw.sprites.ascendancy_background.worse_sprites.coords =
        vec![(String::from("ClassesAscendant"), SpriteCoords { x: 0, y: 0, w: 4, h: 4 })];
    let tree = TreeExport::new(raw).unwrap();
    let cmds = tree.compose_scene(&identity_camera(), &CharacterClass::Scion, None, &Vec::new());
    // Only the backdrop: ascendancy start nodes are skipped in the node pass.
    assert_eq!(cmds.len(), 1);
    match &cmds[0] {
        DrawCmd::Image { texture: TextureKind::Ascendancy, part } => {
            // Centered on the override anchor, 4 px scaled by 1.33 per side.
            assert_eq!(part.rect.min, Pos { x: -7_800_000_000 - 5_320_000, y: 7_200_000_000 - 5_320_000 });
        },
        other => panic!("unexpected command: {other:?}"),
    }
}

#[test]
fn keystone_frame_overlay_tracks_hover_state() {
    let mut raw = blank_tree(vec![group_at(0, 0)], vec![orbit_zero_node(0)]);
    raw.nodes[0].is_keystone = true;
    raw.nodes[0].icon = Some(String::from("k"));
    raw.sprites.keystone_active.sprites.coords =
        vec![(String::from("k"), SpriteCoords { x: 0, y: 0, w: 2, h: 2 })];
    // The frame sheet only holds the unhovered keystone frame.
    raw.sprites.frame.sprites.coords = vec![(
        String::from("KeystoneFrameUnallocated"),
        SpriteCoords { x: 0, y: 0, w: 2, h: 2 },
    )];
    let tree = TreeExport::new(raw).unwrap();
    let cam = identity_camera();
    let plain = tree.compose_scene(&cam, &CharacterClass::Scion, None, &Vec::new());
    assert_eq!(plain.len(), 2);
    assert!(matches!(plain[1], DrawCmd::Image { texture: TextureKind::Frame, .. }));
    // Hovered, the overlay name changes and is missing: only the icon.
    let hovered = tree.compose_scene(&cam, &CharacterClass::Scion, Some(0), &Vec::new());
    assert_eq!(hovered.len(), 1);
}

#[test]
fn notable_icons_come_from_the_notable_sheet() {
    let mut raw = blank_tree(vec![group_at(0, 0)], vec![orbit_zero_node(0)]);
    raw.nodes[0].is_notable = true;
    raw.nodes[0].icon = Some(String::from("ic"));
    // The icon exists only in the normal sheet, so the notable draws nothing.
    raw.sprites.normal_active.sprites.coords =
        vec![(String::from("ic"), SpriteCoords { x: 0, y: 0, w: 2, h: 2 })];
    let tree = TreeExport::new(raw).unwrap();
    let cmds = tree.compose_scene(&identity_camera(), &CharacterClass::Scion, None, &Vec::new());
    assert!(cmds.is_empty());
}

#[test]
fn rect_with_size_keeps_corner_order_under_zoom() {
    let cam = Camera::new(-3_000, 8_000, 7_300, 400_000, 300_000);
    let r = cam.rect_with_size(Pos { x: -50_000, y: -60_000 }, 120_000, 90_000);
    assert!(r.min.x <= r.max.x);
    assert!(r.min.y <= r.max.y);
    assert_eq!(r.min, cam.world_to_screen(Pos { x: -50_000, y: -60_000 }));
    assert_eq!(r.max, cam.world_to_screen(Pos { x: 70_000, y: 30_000 }));
}

#[test]
fn round_trip_bound_holds_at_extreme_zooms() {
    for zoom in [ZOOM_MIN, 137, 999, 1_001, ZOOM_MAX] {
        let cam = Camera::new(1_000, -2_000, zoom, 400_000_000, 300_000_000);
        let p = Pos { x: 87_654_000, y: -12_345_000 };
        let w = cam.screen_to_world(p);
        let rt = cam.world_to_screen(w);
        assert!((rt.x - p.x).abs() * 1000 <= zoom + 998, "zoom {zoom}");
        assert!((rt.y - p.y).abs() * 1000 <= zoom + 998, "zoom {zoom}");
        // The round trip stays strictly inside one thousandth of a pixel
        // at every legal zoom.
        assert!((rt.x - p.x).abs() < 1000, "zoom {zoom}");
        assert!((rt.y - p.y).abs() < 1000, "zoom {zoom}");
    }
}
