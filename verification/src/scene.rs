//! Per-frame scene composition: turn the dataset, the camera and the
//! transient input state into a flat list of draw commands — textured
//! rectangles and line segments in screen space — that a renderer can
//! paint without further decisions.
//!
//! The pass order matches the painter's: group backgrounds, ascendancy
//! backdrops, connection lines, then the nodes (start-node artwork,
//! mastery icons, and regular icons with their frame overlays). A sprite
//! name missing from its sheet skips that element and never fails.

use vstd::prelude::*;

use crate::atlas::{
    draw_asset, spec_asset_parts, spec_asset_pos_ok, spec_sprite_lookup, TexturedRect,
};
use crate::camera::Camera;
use crate::geom::{in_coord_range, Pos};
use crate::lines::{lemma_asc_entries_in_range, spec_asc_start_entries};
use crate::model::{spec_class_art, CharacterClass};
use crate::orbit::spec_node_position;
use crate::tree::{spec_node_ok, spec_sprite_ok, FrameType, Sprite, SpriteCoords, TreeExport};

verus! {

/// Which texture atlas a rectangle samples from. The renderer maps each
/// kind to the texture it uploaded for that sheet; start-node artwork
/// shares the group-background texture.
#[derive(Debug, PartialEq, Eq, Structural, Clone, Copy)]
pub enum TextureKind {
    GroupBackground,
    Ascendancy,
    Skills,
    InactiveSkills,
    Frame,
    Mastery,
}

/// One drawing instruction, fully resolved to screen space.
#[derive(Debug, PartialEq, Eq, Structural, Clone, Copy)]
pub enum DrawCmd {
    /// Fill `part.rect` with the `part.uv` region of a texture.
    Image { texture: TextureKind, part: TexturedRect },
    /// A line segment with a stroke width in micro-pixels. The width
    /// scales with the zoom factor, so lines thicken as the view zooms
    /// in — deliberate, observed behavior.
    Line { from: Pos, to: Pos, width: i64 },
}

/// Whether node `i` has a resolvable position: it references a group
/// that exists.
pub open spec fn spec_has_position(t: TreeExport, i: int) -> bool {
    match t.nodes@[i].group {
        Option::Some(g) => (g as int) < t.groups@.len(),
        Option::None => false,
    }
}

/// Squared screen-space distance between two points.
pub open spec fn spec_dist2(a: Pos, b: Pos) -> int {
    (a.x - b.x) * (a.x - b.x) + (a.y - b.y) * (a.y - b.y)
}

/// Squared screen-space distance from node `i` to the pointer.
pub open spec fn spec_node_dist2(t: TreeExport, cam: Camera, pointer: Pos, i: int) -> int {
    spec_dist2(cam.spec_world_to_screen(spec_node_position(t, t.nodes@[i])), pointer)
}

/// Squared hover threshold: fifty pixels scaled by the zoom factor,
/// in micro-pixels.
pub open spec fn spec_hover_threshold2(cam: Camera) -> int {
    (50_000 * cam.zoom) * (50_000 * cam.zoom)
}

/// Whether node `i` is under the pointer: it has a resolvable position
/// and its screen distance to the pointer is below the threshold
/// (compared in squared form; both sides are exact integers).
pub open spec fn spec_hover_candidate(t: TreeExport, cam: Camera, pointer: Pos, i: int) -> bool {
    &&& 0 <= i < t.nodes@.len()
    &&& spec_has_position(t, i)
    &&& spec_node_dist2(t, cam, pointer, i) < spec_hover_threshold2(cam)
}

impl TreeExport {
    /// The hovered node: among all nodes with a resolvable position and
    /// screen distance to the pointer below fifty pixels scaled by zoom,
    /// the nearest one; ties go to the lowest arena index. `None` when
    /// no node is near the pointer.
    pub fn hovered_node(&self, camera: &Camera, pointer: Pos) -> (r: Option<usize>)
        requires
            self.wf(),
            camera.wf(),
            in_coord_range(pointer),
        ensures
            match r {
                Option::Some(bi) => spec_hover_candidate(*self, *camera, pointer, bi as int) && (
                forall|j: int|
                    #[trigger] spec_hover_candidate(*self, *camera, pointer, j)
                        ==> spec_node_dist2(*self, *camera, pointer, bi as int)
                        <= spec_node_dist2(*self, *camera, pointer, j)) && (forall|j: int|
                    #[trigger] spec_hover_candidate(*self, *camera, pointer, j)
                        && spec_node_dist2(*self, *camera, pointer, j) == spec_node_dist2(
                        *self,
                        *camera,
                        pointer,
                        bi as int,
                    ) ==> bi <= j),
                Option::None => forall|j: int|
                    !(#[trigger] spec_hover_candidate(*self, *camera, pointer, j)),
            },
    {
        let mut best: Option<(usize, i128)> = Option::None;
        let mut i: usize = 0;
        while i < self.nodes.len()
            invariant
                self.wf(),
                camera.wf(),
                in_coord_range(pointer),
                0 <= i <= self.nodes@.len(),
                best is None ==> forall|j: int|
                    j < i ==> !(#[trigger] spec_hover_candidate(*self, *camera, pointer, j)),
                best matches Option::Some((bi, bd)) ==> {
                    &&& 0 <= bi < i
                    &&& spec_hover_candidate(*self, *camera, pointer, bi as int)
                    &&& bd == spec_node_dist2(*self, *camera, pointer, bi as int)
                    &&& forall|j: int|
                        j < i && #[trigger] spec_hover_candidate(*self, *camera, pointer, j)
                            ==> bd <= spec_node_dist2(*self, *camera, pointer, j)
                    &&& forall|j: int|
                        j < i && #[trigger] spec_hover_candidate(*self, *camera, pointer, j)
                            && spec_node_dist2(*self, *camera, pointer, j) == bd ==> bi <= j
                },
            decreases self.nodes@.len() - i,
        {
            let node = &self.nodes[i];
            proof {
                assert(spec_node_ok(*self, self.nodes@[i as int]));
            }
            if node.group.is_some() {
                let pos = self.node_position(node);
                let sp = camera.world_to_screen(pos);
                proof {
                    assert(sp == camera.spec_world_to_screen(pos));
                }
                let dx = sp.x - pointer.x;
                let dy = sp.y - pointer.y;
                proof {
                    assert((dx as int) * (dx as int) <= 0x1000_0000_0000_0000_0000_0000_0000_0000int
                        && (dx as int) * (dx as int) >= 0) by (nonlinear_arith)
                        requires
                            -300_000_000_000_000_000 <= dx <= 300_000_000_000_000_000,
                    ;
                    assert((dy as int) * (dy as int) <= 0x1000_0000_0000_0000_0000_0000_0000_0000int
                        && (dy as int) * (dy as int) >= 0) by (nonlinear_arith)
                        requires
                            -300_000_000_000_000_000 <= dy <= 300_000_000_000_000_000,
                    ;
                }
                let d2 = (dx as i128) * (dx as i128) + (dy as i128) * (dy as i128);
                let thr = 50_000 * camera.zoom;
                proof {
                    assert(0 <= (thr as int) * (thr as int) <= 25_000_000_000_000_000_000int)
                        by (nonlinear_arith)
                        requires
                            0 <= thr <= 5_000_000_000,
                    ;
                }
                let t2 = (thr as i128) * (thr as i128);
                if d2 < t2 {
                    match best {
                        Option::None => {
                            best = Option::Some((i, d2));
                        },
                        Option::Some((_bi, bd)) => {
                            if d2 < bd {
                                best = Option::Some((i, d2));
                            }
                        },
                    }
                }
            }
            i = i + 1;
        }
        match best {
            Option::Some((bi, _)) => Option::Some(bi),
            Option::None => Option::None,
        }
    }
}

// ---------------------------------------------------------------------
// Scene composition
// ---------------------------------------------------------------------
/// The draw commands for one placed sprite: its textured parts tagged
/// with the atlas they sample from.
pub open spec fn spec_asset_cmds(
    tex: TextureKind,
    c: SpriteCoords,
    sheet_w: usize,
    sheet_h: usize,
    pos: Pos,
    is_half: bool,
    cam: Camera,
) -> Seq<DrawCmd> {
    let parts = spec_asset_parts(c, sheet_w, sheet_h, pos, is_half, cam);
    if is_half {
        seq![
            DrawCmd::Image { texture: tex, part: parts[0] },
            DrawCmd::Image { texture: tex, part: parts[1] },
        ]
    } else {
        seq![DrawCmd::Image { texture: tex, part: parts[0] }]
    }
}

/// Backdrop commands of the first `upto` groups: each group with a
/// background whose sprite resolves contributes its placement.
pub open spec fn spec_group_bg_cmds(t: TreeExport, cam: Camera, upto: int) -> Seq<DrawCmd>
    decreases upto,
{
    if upto <= 0 {
        Seq::empty()
    } else {
        spec_group_bg_cmds(t, cam, upto - 1) + {
            let g = t.groups@[upto - 1];
            let sheet = t.sprites.group_background.sprites;
            match g.background {
                Option::Some(bg) => match spec_sprite_lookup(sheet.coords@, bg.image@) {
                    Option::Some(c) => spec_asset_cmds(
                        TextureKind::GroupBackground,
                        c,
                        sheet.w,
                        sheet.h,
                        Pos { x: g.x, y: g.y },
                        bg.is_half_image,
                        cam,
                    ),
                    Option::None => Seq::empty(),
                },
                Option::None => Seq::empty(),
            }
        }
    }
}

/// Backdrop commands of the first `upto` ascendancy starts, drawn from
/// the lower-quality ascendancy sheet at the override anchors.
pub open spec fn spec_asc_cmds(t: TreeExport, cam: Camera, upto: int) -> Seq<DrawCmd>
    decreases upto,
{
    if upto <= 0 {
        Seq::empty()
    } else {
        spec_asc_cmds(t, cam, upto - 1) + {
            let e = spec_asc_start_entries(t, t.nodes@.len() as int)[upto - 1];
            let sheet = t.sprites.ascendancy_background.worse_sprites;
            match spec_sprite_lookup(sheet.coords@, e.1) {
                Option::Some(c) => spec_asset_cmds(
                    TextureKind::Ascendancy,
                    c,
                    sheet.w,
                    sheet.h,
                    e.0,
                    false,
                    cam,
                ),
                Option::None => Seq::empty(),
            }
        }
    }
}

/// Segment commands for the first `upto` cached lines, stroked at five
/// pixels scaled by the zoom factor.
pub open spec fn spec_line_cmds(cam: Camera, lines: Seq<(Pos, Pos)>, upto: int) -> Seq<DrawCmd>
    decreases upto,
{
    if upto <= 0 {
        Seq::empty()
    } else {
        spec_line_cmds(cam, lines, upto - 1).push(
            DrawCmd::Line {
                from: cam.spec_world_to_screen(lines[upto - 1].0),
                to: cam.spec_world_to_screen(lines[upto - 1].1),
                width: (5_000 * cam.zoom) as i64,
            },
        )
    }
}

/// The icon sheet a node's category selects.
pub open spec fn spec_icon_sheet(t: TreeExport, ft: FrameType) -> Sprite {
    match ft {
        FrameType::Keystone => t.sprites.keystone_active.sprites,
        FrameType::Notable => t.sprites.notable_active.sprites,
        _ => t.sprites.normal_active.sprites,
    }
}

/// The frame overlay a node's category and hover state select.
pub open spec fn spec_frame_name(ft: FrameType, hovered: bool) -> Option<Seq<char>> {
    match ft {
        FrameType::Keystone => Option::Some(
            if hovered {
                "KeystoneFrameCanAllocate"@
            } else {
                "KeystoneFrameUnallocated"@
            },
        ),
        FrameType::Notable => Option::Some(
            if hovered {
                "NotableFrameAllocated"@
            } else {
                "NotableFrameCanAllocate"@
            },
        ),
        FrameType::Normal => Option::Some(
            if hovered {
                "PSSkillFrameHighlighted"@
            } else {
                "PSSkillFrame"@
            },
        ),
        FrameType::NoFrame => Option::None,
    }
}

/// Commands for a class start node: the class's own center artwork when
/// it belongs to the selected class, the generic inactive backdrop
/// otherwise, drawn from the start-node sheet onto the group-background
/// texture.
pub open spec fn spec_start_cmds(t: TreeExport, cam: Camera, selected: int, i: int) -> Seq<
    DrawCmd,
> {
    let n = t.nodes@[i];
    let csi = match n.class_start_index {
        Option::Some(c) => c as int,
        Option::None => 7,
    };
    let name = if csi == selected {
        spec_class_art(csi)
    } else {
        spec_class_art(7)
    };
    let sheet = t.sprites.start_node.sprites;
    match spec_sprite_lookup(sheet.coords@, name) {
        Option::Some(c) => spec_asset_cmds(
            TextureKind::GroupBackground,
            c,
            sheet.w,
            sheet.h,
            spec_node_position(t, n),
            false,
            cam,
        ),
        Option::None => Seq::empty(),
    }
}

/// Commands for a regular node: its icon from the category's sheet —
/// highlighted texture when hovered — followed by the category's frame
/// overlay.
pub open spec fn spec_regular_cmds(t: TreeExport, cam: Camera, hovered: bool, i: int) -> Seq<
    DrawCmd,
> {
    let n = t.nodes@[i];
    match n.icon {
        Option::Some(icon) => {
            let sheet = spec_icon_sheet(t, n.spec_frame_type());
            match spec_sprite_lookup(sheet.coords@, icon@) {
                Option::Some(c) => {
                    let tex = if hovered {
                        TextureKind::Skills
                    } else {
                        TextureKind::InactiveSkills
                    };
                    let icon_cmds = spec_asset_cmds(
                        tex,
                        c,
                        sheet.w,
                        sheet.h,
                        spec_node_position(t, n),
                        false,
                        cam,
                    );
                    match spec_frame_name(n.spec_frame_type(), hovered) {
                        Option::Some(fname) => match spec_sprite_lookup(
                            t.sprites.frame.sprites.coords@,
                            fname,
                        ) {
                            Option::Some(fc) => icon_cmds + spec_asset_cmds(
                                TextureKind::Frame,
                                fc,
                                t.sprites.frame.sprites.w,
                                t.sprites.frame.sprites.h,
                                spec_node_position(t, n),
                                false,
                                cam,
                            ),
                            Option::None => icon_cmds,
                        },
                        Option::None => icon_cmds,
                    }
                },
                Option::None => Seq::empty(),
            }
        },
        Option::None => Seq::empty(),
    }
}

/// Commands for one node of the main pass: start nodes draw only their
/// start artwork; proxies and ascendancy starts draw nothing; masteries
/// draw a single inactive icon; every other node draws icon and frame.
pub open spec fn spec_one_node_cmds(
    t: TreeExport,
    cam: Camera,
    selected: int,
    hovered: Option<usize>,
    i: int,
) -> Seq<DrawCmd> {
    let n = t.nodes@[i];
    if n.class_start_index is Some {
        spec_start_cmds(t, cam, selected, i)
    } else if n.is_proxy {
        Seq::empty()
    } else if n.is_ascendancy_start {
        Seq::empty()
    } else if n.is_mastery {
        let sheet = t.sprites.mastery_inactive.sprites;
        match spec_sprite_lookup(sheet.coords@, n.inactive_icon@) {
            Option::Some(c) => spec_asset_cmds(
                TextureKind::Mastery,
                c,
                sheet.w,
                sheet.h,
                spec_node_position(t, n),
                false,
                cam,
            ),
            Option::None => Seq::empty(),
        }
    } else {
        spec_regular_cmds(
            t,
            cam,
            match hovered {
                Option::Some(h) => h == i,
                Option::None => false,
            },
            i,
        )
    }
}

/// Commands of the first `upto` nodes of the main pass.
pub open spec fn spec_node_cmds(
    t: TreeExport,
    cam: Camera,
    selected: int,
    hovered: Option<usize>,
    upto: int,
) -> Seq<DrawCmd>
    decreases upto,
{
    if upto <= 0 {
        Seq::empty()
    } else {
        spec_node_cmds(t, cam, selected, hovered, upto - 1) + spec_one_node_cmds(
            t,
            cam,
            selected,
            hovered,
            upto - 1,
        )
    }
}

/// The whole frame: group backdrops, ascendancy backdrops, connection
/// lines, then the node pass.
pub open spec fn spec_scene(
    t: TreeExport,
    cam: Camera,
    selected: int,
    hovered: Option<usize>,
    lines: Seq<(Pos, Pos)>,
) -> Seq<DrawCmd> {
    spec_group_bg_cmds(t, cam, t.groups@.len() as int) + spec_asc_cmds(
        t,
        cam,
        spec_asc_start_entries(t, t.nodes@.len() as int).len() as int,
    ) + spec_line_cmds(cam, lines, lines.len() as int) + spec_node_cmds(
        t,
        cam,
        selected,
        hovered,
        t.nodes@.len() as int,
    )
}

/// Append one placed sprite's commands.
fn push_asset(
    cmds: &mut Vec<DrawCmd>,
    tex: TextureKind,
    sprite: SpriteCoords,
    sheet: &Sprite,
    pos: Pos,
    is_half: bool,
    camera: &Camera,
)
    requires
        spec_sprite_ok(*sheet),
        sprite.x + sprite.w <= sheet.w,
        sprite.y + sprite.h <= sheet.h,
        camera.wf(),
        spec_asset_pos_ok(pos),
    ensures
        final(cmds)@ == old(cmds)@ + spec_asset_cmds(
            tex,
            sprite,
            sheet.w,
            sheet.h,
            pos,
            is_half,
            *camera,
        ),
{
    let parts = draw_asset(&sprite, sheet, pos, is_half, camera);
    if is_half {
        cmds.push(DrawCmd::Image { texture: tex, part: parts[0] });
        cmds.push(DrawCmd::Image { texture: tex, part: parts[1] });
    } else {
        cmds.push(DrawCmd::Image { texture: tex, part: parts[0] });
    }
    proof {
        assert(cmds@ =~= old(cmds)@ + spec_asset_cmds(
            tex,
            sprite,
            sheet.w,
            sheet.h,
            pos,
            is_half,
            *camera,
        ));
    }
}

impl TreeExport {
    /// Backdrop pass: one or two rectangles per group background.
    fn group_bg_phase(&self, camera: &Camera, cmds: &mut Vec<DrawCmd>)
        requires
            self.wf(),
            camera.wf(),
        ensures
            final(cmds)@ == old(cmds)@ + spec_group_bg_cmds(
                *self,
                *camera,
                self.groups@.len() as int,
            ),
    {
        let mut i: usize = 0;
        proof {
            assert(cmds@ =~= old(cmds)@ + spec_group_bg_cmds(*self, *camera, 0));
        }
        while i < self.groups.len()
            invariant
                self.wf(),
                camera.wf(),
                0 <= i <= self.groups@.len(),
                cmds@ == old(cmds)@ + spec_group_bg_cmds(*self, *camera, i as int),
            decreases self.groups@.len() - i,
        {
            let g = &self.groups[i];
            proof {
                assert(crate::tree::spec_group_ok(*self, self.groups@[i as int]));
                assert(spec_sprite_ok(crate::tree::spec_sheet_at(self.sprites, 2)));
            }
            match &g.background {
                Option::Some(bg) => {
                    let sheet = &self.sprites.group_background.sprites;
                    match sheet.get(&bg.image) {
                        Option::Some(c) => {
                            proof {
                                crate::atlas::lemma_lookup_in_sheet(*sheet, bg.image@);
                            }
                            push_asset(
                                cmds,
                                TextureKind::GroupBackground,
                                c,
                                sheet,
                                Pos { x: g.x, y: g.y },
                                bg.is_half_image,
                                camera,
                            );
                        },
                        Option::None => {},
                    }
                },
                Option::None => {},
            }
            proof {
                assert(cmds@ =~= old(cmds)@ + spec_group_bg_cmds(*self, *camera, i as int + 1));
            }
            i = i + 1;
        }
    }

    /// Ascendancy backdrop pass: one rectangle per start node whose
    /// backdrop sprite resolves.
    fn asc_phase(&self, camera: &Camera, cmds: &mut Vec<DrawCmd>)
        requires
            self.wf(),
            camera.wf(),
        ensures
            final(cmds)@ == old(cmds)@ + spec_asc_cmds(
                *self,
                *camera,
                spec_asc_start_entries(*self, self.nodes@.len() as int).len() as int,
            ),
    {
        let starts = self.get_ascendancy_starts();
        let ghost entries = spec_asc_start_entries(*self, self.nodes@.len() as int);
        proof {
            lemma_asc_entries_in_range(*self, self.nodes@.len() as int);
            assert(cmds@ =~= old(cmds)@ + spec_asc_cmds(*self, *camera, 0));
        }
        let mut m: usize = 0;
        while m < starts.len()
            invariant
                self.wf(),
                camera.wf(),
                entries == spec_asc_start_entries(*self, self.nodes@.len() as int),
                starts@.len() == entries.len(),
                forall|k: int|
                    0 <= k < starts@.len() ==> (#[trigger] starts@[k]).0 == entries[k].0
                        && starts@[k].1@ == entries[k].1,
                forall|k: int|
                    0 <= k < entries.len() ==> crate::geom::in_tree_range(
                        (#[trigger] entries[k]).0.x as int,
                        entries[k].0.y as int,
                    ),
                0 <= m <= starts@.len(),
                cmds@ == old(cmds)@ + spec_asc_cmds(*self, *camera, m as int),
            decreases starts@.len() - m,
        {
            let p = starts[m].0;
            let name = &starts[m].1;
            let sheet = &self.sprites.ascendancy_background.worse_sprites;
            proof {
                assert(spec_sprite_ok(crate::tree::spec_sheet_at(self.sprites, 15)));
            }
            match sheet.get(name) {
                Option::Some(c) => {
                    proof {
                        crate::atlas::lemma_lookup_in_sheet(*sheet, name@);
                    }
                    push_asset(cmds, TextureKind::Ascendancy, c, sheet, p, false, camera);
                },
                Option::None => {},
            }
            proof {
                assert(cmds@ =~= old(cmds)@ + spec_asc_cmds(*self, *camera, m as int + 1));
            }
            m = m + 1;
        }
    }

    /// One main-pass node: start artwork, nothing for proxies and
    /// ascendancy starts, a single icon for masteries, icon and frame
    /// for everything else.
    fn push_one_node(
        &self,
        camera: &Camera,
        selected_class: &CharacterClass,
        hovered: Option<usize>,
        i: usize,
        cmds: &mut Vec<DrawCmd>,
    )
        requires
            self.wf(),
            camera.wf(),
            (i as int) < self.nodes@.len(),
        ensures
            final(cmds)@ == old(cmds)@ + spec_one_node_cmds(
                *self,
                *camera,
                selected_class.spec_id(),
                hovered,
                i as int,
            ),
    {
        let node = &self.nodes[i];
        proof {
            assert(spec_node_ok(*self, self.nodes@[i as int]));
        }
        match node.class_start_index {
            Option::Some(csi) => {
                let selected_id = selected_class.id();
                let name_lit: &str = if csi == selected_id as usize {
                    crate::model::class_art(csi)
                } else {
                    crate::model::class_art(7)
                };
                let name = name_lit.to_owned();
                let sheet = &self.sprites.start_node.sprites;
                proof {
                    assert(spec_sprite_ok(crate::tree::spec_sheet_at(self.sprites, 8)));
                }
                let pos = self.node_position(node);
                match sheet.get(&name) {
                    Option::Some(c) => {
                        proof {
                            crate::atlas::lemma_lookup_in_sheet(*sheet, name@);
                        }
                        push_asset(cmds, TextureKind::GroupBackground, c, sheet, pos, false, camera);
                    },
                    Option::None => {},
                }
            },
            Option::None => {
                if node.is_proxy {
                } else if node.is_ascendancy_start {
                } else if node.is_mastery {
                    let sheet = &self.sprites.mastery_inactive.sprites;
                    proof {
                        assert(spec_sprite_ok(crate::tree::spec_sheet_at(self.sprites, 6)));
                    }
                    let pos = self.node_position(node);
                    match sheet.get(&node.inactive_icon) {
                        Option::Some(c) => {
                            proof {
                                crate::atlas::lemma_lookup_in_sheet(*sheet, node.inactive_icon@);
                            }
                            push_asset(cmds, TextureKind::Mastery, c, sheet, pos, false, camera);
                        },
                        Option::None => {},
                    }
                } else {
                    let node_is_hovered = match hovered {
                        Option::Some(h) => h == i,
                        Option::None => false,
                    };
                    self.push_regular_node(camera, node_is_hovered, i, cmds);
                }
            },
        }
    }

    /// A regular node: its icon from the category's sheet — highlighted
    /// when hovered — then the category's frame overlay.
    fn push_regular_node(
        &self,
        camera: &Camera,
        node_is_hovered: bool,
        i: usize,
        cmds: &mut Vec<DrawCmd>,
    )
        requires
            self.wf(),
            camera.wf(),
            (i as int) < self.nodes@.len(),
            !self.nodes@[i as int].is_proxy,
        ensures
            final(cmds)@ == old(cmds)@ + spec_regular_cmds(
                *self,
                *camera,
                node_is_hovered,
                i as int,
            ),
    {
        let node = &self.nodes[i];
        proof {
            assert(spec_node_ok(*self, self.nodes@[i as int]));
        }
        match &node.icon {
            Option::Some(icon) => {
                let ft = node.frame_type();
                let sheet = match ft {
                    FrameType::Keystone => &self.sprites.keystone_active.sprites,
                    FrameType::Notable => &self.sprites.notable_active.sprites,
                    _ => &self.sprites.normal_active.sprites,
                };
                proof {
                    assert(spec_sprite_ok(crate::tree::spec_sheet_at(self.sprites, 12)));
                    assert(spec_sprite_ok(crate::tree::spec_sheet_at(self.sprites, 10)));
                    assert(spec_sprite_ok(crate::tree::spec_sheet_at(self.sprites, 0)));
                }
                match sheet.get(icon) {
                    Option::Some(c) => {
                        proof {
                            crate::atlas::lemma_lookup_in_sheet(*sheet, icon@);
                        }
                        let pos = self.node_position(node);
                        let tex = if node_is_hovered {
                            TextureKind::Skills
                        } else {
                            TextureKind::InactiveSkills
                        };
                        push_asset(cmds, tex, c, sheet, pos, false, camera);
                        let frame_lit: &str = match ft {
                            FrameType::Keystone => if node_is_hovered {
                                "KeystoneFrameCanAllocate"
                            } else {
                                "KeystoneFrameUnallocated"
                            },
                            FrameType::Notable => if node_is_hovered {
                                "NotableFrameAllocated"
                            } else {
                                "NotableFrameCanAllocate"
                            },
                            _ => if node_is_hovered {
                                "PSSkillFrameHighlighted"
                            } else {
                                "PSSkillFrame"
                            },
                        };
                        let fname = frame_lit.to_owned();
                        let fsheet = &self.sprites.frame.sprites;
                        proof {
                            assert(spec_sprite_ok(crate::tree::spec_sheet_at(self.sprites, 4)));
                        }
                        match fsheet.get(&fname) {
                            Option::Some(fc) => {
                                proof {
                                    crate::atlas::lemma_lookup_in_sheet(*fsheet, fname@);
                                }
                                push_asset(cmds, TextureKind::Frame, fc, fsheet, pos, false, camera);
                            },
                            Option::None => {},
                        }
                    },
                    Option::None => {},
                }
            },
            Option::None => {},
        }
    }

    /// Node pass: start artwork, mastery icons, and regular icons with
    /// frame overlays.
    fn node_phase(
        &self,
        camera: &Camera,
        selected_class: &CharacterClass,
        hovered: Option<usize>,
        cmds: &mut Vec<DrawCmd>,
    )
        requires
            self.wf(),
            camera.wf(),
        ensures
            final(cmds)@ == old(cmds)@ + spec_node_cmds(
                *self,
                *camera,
                selected_class.spec_id(),
                hovered,
                self.nodes@.len() as int,
            ),
    {
        let ghost sel = selected_class.spec_id();
        proof {
            assert(cmds@ =~= old(cmds)@ + spec_node_cmds(*self, *camera, sel, hovered, 0));
        }
        let mut i: usize = 0;
        while i < self.nodes.len()
            invariant
                self.wf(),
                camera.wf(),
                sel == selected_class.spec_id(),
                0 <= i <= self.nodes@.len(),
                cmds@ == old(cmds)@ + spec_node_cmds(*self, *camera, sel, hovered, i as int),
            decreases self.nodes@.len() - i,
        {
            self.push_one_node(camera, selected_class, hovered, i, cmds);
            proof {
                assert(cmds@ =~= old(cmds)@ + spec_node_cmds(
                    *self,
                    *camera,
                    sel,
                    hovered,
                    i as int + 1,
                ));
            }
            i = i + 1;
        }
    }

    /// Compose one frame: every backdrop, line and node icon resolved to
    /// screen-space draw commands, in painting order.
    pub fn compose_scene(
        &self,
        camera: &Camera,
        selected_class: &CharacterClass,
        hovered: Option<usize>,
        lines: &Vec<(Pos, Pos)>,
    ) -> (cmds: Vec<DrawCmd>)
        requires
            self.wf(),
            camera.wf(),
            forall|k: int|
                0 <= k < lines@.len() ==> in_coord_range((#[trigger] lines@[k]).0)
                    && in_coord_range(lines@[k].1),
        ensures
            cmds@ == spec_scene(*self, *camera, selected_class.spec_id(), hovered, lines@),
    {
        let mut cmds: Vec<DrawCmd> = Vec::new();
        self.group_bg_phase(camera, &mut cmds);
        self.asc_phase(camera, &mut cmds);
        line_phase(camera, lines, &mut cmds);
        self.node_phase(camera, selected_class, hovered, &mut cmds);
        proof {
            assert(cmds@ =~= spec_scene(
                *self,
                *camera,
                selected_class.spec_id(),
                hovered,
                lines@,
            ));
        }
        cmds
    }
}

/// Line pass: both endpoints of every cached segment mapped to the
/// screen, stroked at five pixels scaled by zoom.
fn line_phase(camera: &Camera, lines: &Vec<(Pos, Pos)>, cmds: &mut Vec<DrawCmd>)
    requires
        camera.wf(),
        forall|k: int|
            0 <= k < lines@.len() ==> in_coord_range((#[trigger] lines@[k]).0) && in_coord_range(
                lines@[k].1,
            ),
    ensures
        final(cmds)@ == old(cmds)@ + spec_line_cmds(*camera, lines@, lines@.len() as int),
{
    proof {
        assert(cmds@ =~= old(cmds)@ + spec_line_cmds(*camera, lines@, 0));
    }
    let mut k: usize = 0;
    while k < lines.len()
        invariant
            camera.wf(),
            forall|j: int|
                0 <= j < lines@.len() ==> in_coord_range((#[trigger] lines@[j]).0)
                    && in_coord_range(lines@[j].1),
            0 <= k <= lines@.len(),
            cmds@ == old(cmds)@ + spec_line_cmds(*camera, lines@, k as int),
        decreases lines@.len() - k,
    {
        let a = lines[k].0;
        let b = lines[k].1;
        let from = camera.world_to_screen(a);
        let to = camera.world_to_screen(b);
        proof {
            assert(from == camera.spec_world_to_screen(a));
            assert(to == camera.spec_world_to_screen(b));
        }
        cmds.push(DrawCmd::Line { from, to, width: 5_000 * camera.zoom });
        k = k + 1;
    }
}

} // verus!
