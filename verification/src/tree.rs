//! The static skill-tree dataset: groups anchored in world space, nodes
//! placed on orbits around them, sprite-sheet metadata, and the orbit
//! constants.
//!
//! The dataset arrives fully parsed, with group and node references
//! already resolved to indices into the two arenas. `TreeExport::new`
//! validates every reference, orbit bound, coordinate range and sprite
//! rectangle once, then applies the one-time ascendancy fix-up pass;
//! everything downstream relies on the resulting well-formedness and
//! never fails on data again.

use vstd::prelude::*;

use crate::geom::{in_tree_range, Pos};
use crate::text::string_eq;

verus! {

/// Largest sprite-sheet pixel dimension accepted at load time.
pub const SHEET_DIM_LIMIT: usize = 1_000_000;

// ---------------------------------------------------------------------
// Orbit constants
// ---------------------------------------------------------------------
/// Pixel radius of each of the seven orbit levels.
pub open spec fn spec_orbit_radius(orbit: int) -> int {
    if orbit == 0 {
        0
    } else if orbit == 1 {
        82
    } else if orbit == 2 {
        162
    } else if orbit == 3 {
        335
    } else if orbit == 4 {
        493
    } else if orbit == 5 {
        662
    } else {
        846
    }
}

/// Canonical node count of each orbit level; picks the angle formula.
pub open spec fn spec_orbit_nodes(orbit: int) -> int {
    if orbit == 0 {
        1
    } else if orbit == 1 {
        6
    } else if orbit == 2 {
        16
    } else if orbit == 3 {
        16
    } else if orbit == 4 {
        40
    } else if orbit == 5 {
        72
    } else {
        72
    }
}

/// Pixel radius of an orbit level.
pub fn orbit_radius(orbit: usize) -> (r: i64)
    requires
        orbit < 7,
    ensures
        r == spec_orbit_radius(orbit as int),
        0 <= r <= 846,
{
    match orbit {
        0 => 0,
        1 => 82,
        2 => 162,
        3 => 335,
        4 => 493,
        5 => 662,
        _ => 846,
    }
}

/// Canonical node count of an orbit level.
pub fn orbit_nodes(orbit: usize) -> (n: u32)
    requires
        orbit < 7,
    ensures
        n == spec_orbit_nodes(orbit as int),
        1 <= n <= 72,
{
    match orbit {
        0 => 1,
        1 => 6,
        2 => 16,
        3 => 16,
        4 => 40,
        5 => 72,
        _ => 72,
    }
}

/// Hand-tuned angles, in whole degrees, for orbits hosting exactly
/// sixteen nodes. Not evenly spaced; reproduced literally.
pub open spec fn spec_orbit_angle_16(i: int) -> int {
    if i == 0 {
        0
    } else if i == 1 {
        30
    } else if i == 2 {
        45
    } else if i == 3 {
        60
    } else if i == 4 {
        90
    } else if i == 5 {
        120
    } else if i == 6 {
        135
    } else if i == 7 {
        150
    } else if i == 8 {
        180
    } else if i == 9 {
        210
    } else if i == 10 {
        225
    } else if i == 11 {
        240
    } else if i == 12 {
        270
    } else if i == 13 {
        300
    } else if i == 14 {
        315
    } else {
        330
    }
}

/// Hand-tuned angles, in whole degrees, for orbits hosting exactly
/// forty nodes. Not evenly spaced; reproduced literally.
pub open spec fn spec_orbit_angle_40(i: int) -> int {
    if i < 5 {
        i * 10
    } else if i == 5 {
        45
    } else if i < 15 {
        (i - 1) * 10
    } else if i == 15 {
        135
    } else if i < 25 {
        (i - 2) * 10
    } else if i == 25 {
        225
    } else if i < 35 {
        (i - 3) * 10
    } else if i == 35 {
        315
    } else {
        (i - 4) * 10
    }
}

/// Angle table for sixteen-node orbits, in whole degrees.
pub fn orbit_angle_16(i: usize) -> (d: u32)
    requires
        i < 16,
    ensures
        d == spec_orbit_angle_16(i as int),
        d <= 330,
        d % 5 == 0,
{
    match i {
        0 => 0,
        1 => 30,
        2 => 45,
        3 => 60,
        4 => 90,
        5 => 120,
        6 => 135,
        7 => 150,
        8 => 180,
        9 => 210,
        10 => 225,
        11 => 240,
        12 => 270,
        13 => 300,
        14 => 315,
        _ => 330,
    }
}

/// Angle table for forty-node orbits, in whole degrees.
pub fn orbit_angle_40(i: usize) -> (d: u32)
    requires
        i < 40,
    ensures
        d == spec_orbit_angle_40(i as int),
        d <= 350,
        d % 5 == 0,
{
    let d: u32 = if i < 5 {
        (i as u32) * 10
    } else if i == 5 {
        45
    } else if i < 15 {
        ((i - 1) as u32) * 10
    } else if i == 15 {
        135
    } else if i < 25 {
        ((i - 2) as u32) * 10
    } else if i == 25 {
        225
    } else if i < 35 {
        ((i - 3) as u32) * 10
    } else if i == 35 {
        315
    } else {
        ((i - 4) as u32) * 10
    };
    d
}

// ---------------------------------------------------------------------
// Dataset entities
// ---------------------------------------------------------------------
/// Per-class metadata slot; the dataset carries one entry per class but
/// the engine reads nothing from it.
#[derive(Debug)]
pub struct Class {}

/// Decorative backdrop of a group. A half-image asset stores only the
/// top half of the picture; the composer mirrors it vertically.
#[derive(Debug)]
pub struct GroupBackground {
    pub image: String,
    pub is_half_image: bool,
}

/// An anchor point in world space (micro-pixels) owning orbits and the
/// nodes placed on them.
#[derive(Debug)]
pub struct Group {
    pub x: i64,
    pub y: i64,
    pub orbits: Vec<usize>,
    pub background: Option<GroupBackground>,
    pub nodes: Vec<usize>,
}

/// Pixel sub-rectangle of a sprite inside its sheet.
#[derive(Debug, PartialEq, Eq, Structural, Clone, Copy)]
pub struct SpriteCoords {
    pub x: usize,
    pub y: usize,
    pub w: usize,
    pub h: usize,
}

/// One texture atlas: pixel dimensions, source file name, and the named
/// sub-rectangles it contains (keys unique, as in the source data).
#[derive(Debug)]
pub struct Sprite {
    pub filename: String,
    pub w: usize,
    pub h: usize,
    pub coords: Vec<(String, SpriteCoords)>,
}

/// A sheet at two quality levels; the engine mostly reads the better one.
#[derive(Debug)]
pub struct Spritesheet {
    pub sprites: Sprite,
    pub worse_sprites: Sprite,
}

/// All sprite sheets the composer draws from.
#[derive(Debug)]
pub struct Sprites {
    pub normal_active: Spritesheet,
    pub group_background: Spritesheet,
    pub frame: Spritesheet,
    pub mastery_inactive: Spritesheet,
    pub start_node: Spritesheet,
    pub notable_active: Spritesheet,
    pub keystone_active: Spritesheet,
    pub ascendancy_background: Spritesheet,
}

/// One node of the tree. `group`, `out` and the orbit fields are indices
/// into the arenas; the category flags default to `false` when the
/// source data omits them.
#[derive(Debug)]
pub struct Node {
    pub skill: Option<usize>,
    pub name: Option<String>,
    pub icon: Option<String>,
    pub is_notable: bool,
    pub group: Option<usize>,
    pub orbit: Option<usize>,
    pub orbit_index: Option<usize>,
    pub is_proxy: bool,
    pub is_mastery: bool,
    pub inactive_icon: String,
    pub is_keystone: bool,
    pub out: Vec<usize>,
    pub class_start_index: Option<usize>,
    pub ascendancy_name: Option<String>,
    pub is_ascendancy_start: bool,
}

/// Orbit radii as carried in the dataset; the engine uses the fixed
/// tables above, which the real data matches.
#[derive(Debug)]
pub struct Constants {
    pub orbit_radii: Vec<usize>,
}

/// The whole dataset: both arenas, world bounds, sheets and constants.
#[derive(Debug)]
pub struct TreeExport {
    pub tree: String,
    pub classes: Vec<Class>,
    pub groups: Vec<Group>,
    pub nodes: Vec<Node>,
    pub min_x: i64,
    pub min_y: i64,
    pub max_x: i64,
    pub max_y: i64,
    pub sprites: Sprites,
    pub constants: Constants,
}

/// Which frame overlay a node's category calls for.
#[derive(Debug, PartialEq, Eq, Structural, Clone, Copy)]
pub enum FrameType {
    Normal,
    Notable,
    Keystone,
    NoFrame,
}

/// Why a dataset was rejected at load time.
#[derive(Debug, PartialEq, Eq, Structural, Clone, Copy)]
pub enum DataError {
    /// The node at this arena index breaks a reference or orbit bound.
    MalformedNode { index: usize },
    /// The group at this arena index breaks a reference or its anchor is
    /// out of range.
    MalformedGroup { index: usize },
    /// The sheet at this position of the fixed sheet order breaks a
    /// dimension or sub-rectangle bound.
    MalformedSpriteSheet { index: usize },
}

impl Node {
    /// Frame category of this node: notables and keystones take their
    /// dedicated frames, ordinary nodes the plain one, proxies none.
    pub open spec fn spec_frame_type(self) -> FrameType {
        if self.is_notable {
            FrameType::Notable
        } else if self.is_keystone {
            FrameType::Keystone
        } else if !self.is_proxy {
            FrameType::Normal
        } else {
            FrameType::NoFrame
        }
    }

    pub fn frame_type(&self) -> (f: FrameType)
        ensures
            f == self.spec_frame_type(),
    {
        if self.is_notable {
            return FrameType::Notable;
        }
        if self.is_keystone {
            return FrameType::Keystone;
        }
        if !self.is_proxy {
            return FrameType::Normal;
        }
        FrameType::NoFrame
    }
}

// ---------------------------------------------------------------------
// Ascendancy start override table
// ---------------------------------------------------------------------
/// Name of the ascendancy at position `i` of the override table.
pub open spec fn spec_asc_name(i: int) -> Seq<char> {
    if i == 0 {
        "Juggernaut"@
    } else if i == 1 {
        "Berserker"@
    } else if i == 2 {
        "Chieftain"@
    } else if i == 3 {
        "Raider"@
    } else if i == 4 {
        "Deadeye"@
    } else if i == 5 {
        "Pathfinder"@
    } else if i == 6 {
        "Occultist"@
    } else if i == 7 {
        "Elementalist"@
    } else if i == 8 {
        "Necromancer"@
    } else if i == 9 {
        "Slayer"@
    } else if i == 10 {
        "Gladiator"@
    } else if i == 11 {
        "Champion"@
    } else if i == 12 {
        "Inquisitor"@
    } else if i == 13 {
        "Hierophant"@
    } else if i == 14 {
        "Guardian"@
    } else if i == 15 {
        "Assassin"@
    } else if i == 16 {
        "Trickster"@
    } else if i == 17 {
        "Saboteur"@
    } else {
        "Ascendant"@
    }
}

/// Hand-tuned world anchor (micro-pixels) for the ascendancy at position
/// `i` of the override table.
pub open spec fn spec_asc_pos(i: int) -> Pos {
    if i == 0 {
        Pos { x: -10_400_000_000i64, y: 5_200_000_000i64 }
    } else if i == 1 {
        Pos { x: -10_400_000_000i64, y: 3_700_000_000i64 }
    } else if i == 2 {
        Pos { x: -10_400_000_000i64, y: 2_200_000_000i64 }
    } else if i == 3 {
        Pos { x: 10_200_000_000i64, y: 5_200_000_000i64 }
    } else if i == 4 {
        Pos { x: 10_200_000_000i64, y: 2_200_000_000i64 }
    } else if i == 5 {
        Pos { x: 10_200_000_000i64, y: 3_700_000_000i64 }
    } else if i == 6 {
        Pos { x: -1_500_000_000i64, y: -9_850_000_000i64 }
    } else if i == 7 {
        Pos { x: 0i64, y: -9_850_000_000i64 }
    } else if i == 8 {
        Pos { x: 1_500_000_000i64, y: -9_850_000_000i64 }
    } else if i == 9 {
        Pos { x: -1_500_000_000i64, y: 9_850_000_000i64 }
    } else if i == 10 {
        Pos { x: 0i64, y: 9_850_000_000i64 }
    } else if i == 11 {
        Pos { x: 1_500_000_000i64, y: 9_850_000_000i64 }
    } else if i == 12 {
        Pos { x: -10_400_000_000i64, y: -2_200_000_000i64 }
    } else if i == 13 {
        Pos { x: -10_400_000_000i64, y: -3_700_000_000i64 }
    } else if i == 14 {
        Pos { x: -10_400_000_000i64, y: -5_200_000_000i64 }
    } else if i == 15 {
        Pos { x: 10_200_000_000i64, y: -5_200_000_000i64 }
    } else if i == 16 {
        Pos { x: 10_200_000_000i64, y: -3_700_000_000i64 }
    } else if i == 17 {
        Pos { x: 10_200_000_000i64, y: -2_200_000_000i64 }
    } else {
        Pos { x: -7_800_000_000i64, y: 7_200_000_000i64 }
    }
}

/// The override anchor for an ascendancy name, if the name is known:
/// the table position of the first matching name.
pub open spec fn spec_ascendancy_start(name: Seq<char>) -> Option<Pos> {
    spec_ascendancy_start_from(name, 0)
}

/// Table lookup starting at position `i`.
pub open spec fn spec_ascendancy_start_from(name: Seq<char>, i: int) -> Option<Pos>
    decreases 19 - i,
{
    if i >= 19 {
        Option::None
    } else if spec_asc_name(i) == name {
        Option::Some(spec_asc_pos(i))
    } else {
        spec_ascendancy_start_from(name, i + 1)
    }
}

/// The ascendancy override table: every name with its hand-tuned world
/// anchor, in the fixed order the lookup uses.
pub fn ascendancy_starts() -> (table: Vec<(String, Pos)>)
    ensures
        table@.len() == 19,
        forall|i: int|
            0 <= i < 19 ==> #[trigger] table@[i].0@ == spec_asc_name(i) && table@[i].1
                == spec_asc_pos(i),
{
    let mut table: Vec<(String, Pos)> = Vec::new();
    table.push(("Juggernaut".to_owned(), Pos { x: -10_400_000_000, y: 5_200_000_000 }));
    table.push(("Berserker".to_owned(), Pos { x: -10_400_000_000, y: 3_700_000_000 }));
    table.push(("Chieftain".to_owned(), Pos { x: -10_400_000_000, y: 2_200_000_000 }));
    table.push(("Raider".to_owned(), Pos { x: 10_200_000_000, y: 5_200_000_000 }));
    table.push(("Deadeye".to_owned(), Pos { x: 10_200_000_000, y: 2_200_000_000 }));
    table.push(("Pathfinder".to_owned(), Pos { x: 10_200_000_000, y: 3_700_000_000 }));
    table.push(("Occultist".to_owned(), Pos { x: -1_500_000_000, y: -9_850_000_000 }));
    table.push(("Elementalist".to_owned(), Pos { x: 0, y: -9_850_000_000 }));
    table.push(("Necromancer".to_owned(), Pos { x: 1_500_000_000, y: -9_850_000_000 }));
    table.push(("Slayer".to_owned(), Pos { x: -1_500_000_000, y: 9_850_000_000 }));
    table.push(("Gladiator".to_owned(), Pos { x: 0, y: 9_850_000_000 }));
    table.push(("Champion".to_owned(), Pos { x: 1_500_000_000, y: 9_850_000_000 }));
    table.push(("Inquisitor".to_owned(), Pos { x: -10_400_000_000, y: -2_200_000_000 }));
    table.push(("Hierophant".to_owned(), Pos { x: -10_400_000_000, y: -3_700_000_000 }));
    table.push(("Guardian".to_owned(), Pos { x: -10_400_000_000, y: -5_200_000_000 }));
    table.push(("Assassin".to_owned(), Pos { x: 10_200_000_000, y: -5_200_000_000 }));
    table.push(("Trickster".to_owned(), Pos { x: 10_200_000_000, y: -3_700_000_000 }));
    table.push(("Saboteur".to_owned(), Pos { x: 10_200_000_000, y: -2_200_000_000 }));
    table.push(("Ascendant".to_owned(), Pos { x: -7_800_000_000, y: 7_200_000_000 }));
    table
}

/// The override anchor for an ascendancy name, if the table knows it.
pub fn ascendancy_start_position(name: &String) -> (r: Option<Pos>)
    ensures
        r == spec_ascendancy_start(name@),
{
    let table = ascendancy_starts();
    let mut i: usize = 0;
    while i < 19
        invariant
            0 <= i <= 19,
            table@.len() == 19,
            forall|k: int|
                0 <= k < 19 ==> #[trigger] table@[k].0@ == spec_asc_name(k) && table@[k].1
                    == spec_asc_pos(k),
            spec_ascendancy_start(name@) == spec_ascendancy_start_from(name@, i as int),
        decreases 19 - i,
    {
        let entry = &table[i];
        if string_eq(&entry.0, name) {
            return Option::Some(entry.1);
        }
        i = i + 1;
    }
    Option::None
}

/// A successful lookup returns an anchor within the tree range.
pub proof fn lemma_ascendancy_start_in_range(name: Seq<char>)
    ensures
        spec_ascendancy_start(name) matches Option::Some(p) ==> in_tree_range(
            p.x as int,
            p.y as int,
        ),
{
    lemma_ascendancy_start_from_in_range(name, 0);
}

proof fn lemma_ascendancy_start_from_in_range(name: Seq<char>, i: int)
    ensures
        spec_ascendancy_start_from(name, i) matches Option::Some(p) ==> in_tree_range(
            p.x as int,
            p.y as int,
        ),
    decreases 19 - i,
{
    if i < 19 {
        lemma_ascendancy_start_from_in_range(name, i + 1);
    }
}

// ---------------------------------------------------------------------
// Well-formedness
// ---------------------------------------------------------------------
/// The node's orbit fields are inside the tables they index: a present
/// orbit names one of the seven levels, a present orbit index stays
/// below that level's node count, and an orbiting node has a group.
pub open spec fn spec_node_orbit_ok(n: Node) -> bool {
    match n.orbit {
        Option::Some(o) => o < 7 && (match n.orbit_index {
            Option::Some(x) => (x as int) < spec_orbit_nodes(o as int),
            Option::None => true,
        }) && n.group is Some,
        Option::None => true,
    }
}

/// Every reference and bound carried by one node is intact.
pub open spec fn spec_node_ok(t: TreeExport, n: Node) -> bool {
    &&& match n.group {
        Option::Some(g) => (g as int) < t.groups@.len(),
        Option::None => true,
    }
    &&& forall|k: int| 0 <= k < n.out@.len() ==> (#[trigger] n.out@[k] as int) < t.nodes@.len()
    &&& spec_node_orbit_ok(n)
    &&& (n.is_ascendancy_start ==> match n.ascendancy_name {
        Option::Some(nm) => spec_ascendancy_start(nm@) is Some && n.group is Some,
        Option::None => false,
    })
    &&& match n.class_start_index {
        Option::Some(c) => c < 7,
        Option::None => true,
    }
}

/// The group's anchor is in range and its member lists reference only
/// existing nodes and orbit levels.
pub open spec fn spec_group_ok(t: TreeExport, g: Group) -> bool {
    &&& in_tree_range(g.x as int, g.y as int)
    &&& forall|k: int| 0 <= k < g.nodes@.len() ==> (#[trigger] g.nodes@[k] as int) < t.nodes@.len()
    &&& forall|k: int| 0 <= k < g.orbits@.len() ==> (#[trigger] g.orbits@[k]) < 7
}

/// The sheet has positive, bounded dimensions and every named
/// sub-rectangle lies inside it.
pub open spec fn spec_sprite_ok(s: Sprite) -> bool {
    &&& 1 <= s.w <= SHEET_DIM_LIMIT
    &&& 1 <= s.h <= SHEET_DIM_LIMIT
    &&& forall|k: int|
        0 <= k < s.coords@.len() ==> (#[trigger] s.coords@[k]).1.x + s.coords@[k].1.w <= s.w
            && s.coords@[k].1.y + s.coords@[k].1.h <= s.h
}

/// The sixteen atlases in a fixed order: both quality levels of each
/// sheet, in declaration order.
pub open spec fn spec_sheet_at(s: Sprites, i: int) -> Sprite {
    if i == 0 {
        s.normal_active.sprites
    } else if i == 1 {
        s.normal_active.worse_sprites
    } else if i == 2 {
        s.group_background.sprites
    } else if i == 3 {
        s.group_background.worse_sprites
    } else if i == 4 {
        s.frame.sprites
    } else if i == 5 {
        s.frame.worse_sprites
    } else if i == 6 {
        s.mastery_inactive.sprites
    } else if i == 7 {
        s.mastery_inactive.worse_sprites
    } else if i == 8 {
        s.start_node.sprites
    } else if i == 9 {
        s.start_node.worse_sprites
    } else if i == 10 {
        s.notable_active.sprites
    } else if i == 11 {
        s.notable_active.worse_sprites
    } else if i == 12 {
        s.keystone_active.sprites
    } else if i == 13 {
        s.keystone_active.worse_sprites
    } else if i == 14 {
        s.ascendancy_background.sprites
    } else {
        s.ascendancy_background.worse_sprites
    }
}

impl TreeExport {
    /// A fully-checked dataset: every node, group and sheet intact.
    pub open spec fn wf(self) -> bool {
        &&& forall|i: int|
            0 <= i < self.nodes@.len() ==> spec_node_ok(self, #[trigger] self.nodes@[i])
        &&& forall|i: int|
            0 <= i < self.groups@.len() ==> spec_group_ok(self, #[trigger] self.groups@[i])
        &&& forall|i: int| 0 <= i < 16 ==> spec_sprite_ok(#[trigger] spec_sheet_at(self.sprites, i))
    }
}

fn check_node(t: &TreeExport, n: &Node) -> (r: bool)
    ensures
        r == spec_node_ok(*t, *n),
{
    match n.group {
        Option::Some(g) => {
            if g >= t.groups.len() {
                return false;
            }
        },
        Option::None => {},
    }
    let mut k: usize = 0;
    while k < n.out.len()
        invariant
            0 <= k <= n.out@.len(),
            forall|j: int| 0 <= j < k ==> (#[trigger] n.out@[j] as int) < t.nodes@.len(),
        decreases n.out@.len() - k,
    {
        if n.out[k] >= t.nodes.len() {
            return false;
        }
        k = k + 1;
    }
    match n.orbit {
        Option::Some(o) => {
            if o >= 7 {
                return false;
            }
            match n.orbit_index {
                Option::Some(x) => {
                    if x >= orbit_nodes(o) as usize {
                        return false;
                    }
                },
                Option::None => {},
            }
            if n.group.is_none() {
                return false;
            }
        },
        Option::None => {},
    }
    if n.is_ascendancy_start {
        match &n.ascendancy_name {
            Option::Some(nm) => {
                if ascendancy_start_position(nm).is_none() {
                    return false;
                }
                if n.group.is_none() {
                    return false;
                }
            },
            Option::None => {
                return false;
            },
        }
    }
    match n.class_start_index {
        Option::Some(c) => {
            if c >= 7 {
                return false;
            }
        },
        Option::None => {},
    }
    true
}

fn check_group(t: &TreeExport, g: &Group) -> (r: bool)
    ensures
        r == spec_group_ok(*t, *g),
{
    if g.x < -crate::geom::TREE_COORD_LIMIT || g.x > crate::geom::TREE_COORD_LIMIT {
        return false;
    }
    if g.y < -crate::geom::TREE_COORD_LIMIT || g.y > crate::geom::TREE_COORD_LIMIT {
        return false;
    }
    let mut k: usize = 0;
    while k < g.nodes.len()
        invariant
            0 <= k <= g.nodes@.len(),
            forall|j: int| 0 <= j < k ==> (#[trigger] g.nodes@[j] as int) < t.nodes@.len(),
        decreases g.nodes@.len() - k,
    {
        if g.nodes[k] >= t.nodes.len() {
            return false;
        }
        k = k + 1;
    }
    let mut k2: usize = 0;
    while k2 < g.orbits.len()
        invariant
            0 <= k2 <= g.orbits@.len(),
            forall|j: int| 0 <= j < g.nodes@.len() ==> (#[trigger] g.nodes@[j] as int) < t.nodes@.len(),
            forall|j: int| 0 <= j < k2 ==> (#[trigger] g.orbits@[j]) < 7,
        decreases g.orbits@.len() - k2,
    {
        if g.orbits[k2] >= 7 {
            return false;
        }
        k2 = k2 + 1;
    }
    true
}

fn check_sprite(s: &Sprite) -> (r: bool)
    ensures
        r == spec_sprite_ok(*s),
{
    if s.w < 1 || s.w > SHEET_DIM_LIMIT {
        return false;
    }
    if s.h < 1 || s.h > SHEET_DIM_LIMIT {
        return false;
    }
    let mut k: usize = 0;
    while k < s.coords.len()
        invariant
            0 <= k <= s.coords@.len(),
            forall|j: int|
                0 <= j < k ==> (#[trigger] s.coords@[j]).1.x + s.coords@[j].1.w <= s.w
                    && s.coords@[j].1.y + s.coords@[j].1.h <= s.h,
        decreases s.coords@.len() - k,
    {
        let c = &s.coords[k].1;
        if c.w > s.w || c.x > s.w - c.w {
            return false;
        }
        if c.h > s.h || c.y > s.h - c.h {
            return false;
        }
        k = k + 1;
    }
    true
}

/// The sheet at position `i` of the fixed order.
fn sheet_at<'a>(s: &'a Sprites, i: usize) -> (r: &'a Sprite)
    requires
        i < 16,
    ensures
        *r == spec_sheet_at(*s, i as int),
{
    match i {
        0 => &s.normal_active.sprites,
        1 => &s.normal_active.worse_sprites,
        2 => &s.group_background.sprites,
        3 => &s.group_background.worse_sprites,
        4 => &s.frame.sprites,
        5 => &s.frame.worse_sprites,
        6 => &s.mastery_inactive.sprites,
        7 => &s.mastery_inactive.worse_sprites,
        8 => &s.start_node.sprites,
        9 => &s.start_node.worse_sprites,
        10 => &s.notable_active.sprites,
        11 => &s.notable_active.worse_sprites,
        12 => &s.keystone_active.sprites,
        13 => &s.keystone_active.worse_sprites,
        14 => &s.ascendancy_background.sprites,
        _ => &s.ascendancy_background.worse_sprites,
    }
}

// ---------------------------------------------------------------------
// Ascendancy fix-up pass
// ---------------------------------------------------------------------
/// The group arena after the first `upto` nodes have been scanned for
/// ascendancy starts: each start node re-anchors its group at the
/// override table's position for its ascendancy.
pub open spec fn spec_fixed_groups(t: TreeExport, upto: int) -> Seq<Group>
    decreases upto,
{
    if upto <= 0 {
        t.groups@
    } else {
        let prev = spec_fixed_groups(t, upto - 1);
        let n = t.nodes@[upto - 1];
        if n.is_ascendancy_start {
            let gi = match n.group {
                Option::Some(g) => g as int,
                Option::None => 0,
            };
            let p = match n.ascendancy_name {
                Option::Some(nm) => match spec_ascendancy_start(nm@) {
                    Option::Some(p) => p,
                    Option::None => Pos { x: 0i64, y: 0i64 },
                },
                Option::None => Pos { x: 0i64, y: 0i64 },
            };
            prev.update(
                gi,
                Group {
                    x: p.x,
                    y: p.y,
                    orbits: prev[gi].orbits,
                    background: prev[gi].background,
                    nodes: prev[gi].nodes,
                },
            )
        } else {
            prev
        }
    }
}

/// The fixed-up arena keeps its length and every group stays intact.
pub proof fn lemma_fixed_groups_ok(t: TreeExport, upto: int)
    requires
        t.wf(),
        0 <= upto <= t.nodes@.len(),
    ensures
        spec_fixed_groups(t, upto).len() == t.groups@.len(),
        forall|k: int|
            0 <= k < t.groups@.len() ==> spec_group_ok(t, #[trigger] spec_fixed_groups(t, upto)[k]),
    decreases upto,
{
    if upto > 0 {
        lemma_fixed_groups_ok(t, upto - 1);
        let n = t.nodes@[upto - 1];
        if n.is_ascendancy_start {
            assert(spec_node_ok(t, n));
            match n.ascendancy_name {
                Option::Some(nm) => {
                    lemma_ascendancy_start_in_range(nm@);
                },
                Option::None => {},
            }
        }
    }
}

/// Relocate the group anchor of every ascendancy start node to the
/// override table's hand-tuned position; everything else is kept.
pub fn fix_export(tree: TreeExport) -> (fixed: TreeExport)
    requires
        tree.wf(),
    ensures
        fixed.groups@ == spec_fixed_groups(tree, tree.nodes@.len() as int),
        fixed.nodes == tree.nodes,
        fixed.tree == tree.tree,
        fixed.classes == tree.classes,
        fixed.sprites == tree.sprites,
        fixed.constants == tree.constants,
        fixed.min_x == tree.min_x,
        fixed.min_y == tree.min_y,
        fixed.max_x == tree.max_x,
        fixed.max_y == tree.max_y,
        fixed.wf(),
{
    let ghost t0 = tree;
    let mut fixed_tree = tree;
    let mut i: usize = 0;
    while i < fixed_tree.nodes.len()
        invariant
            t0.wf(),
            fixed_tree.nodes == t0.nodes,
            fixed_tree.tree == t0.tree,
            fixed_tree.classes == t0.classes,
            fixed_tree.sprites == t0.sprites,
            fixed_tree.constants == t0.constants,
            fixed_tree.min_x == t0.min_x,
            fixed_tree.min_y == t0.min_y,
            fixed_tree.max_x == t0.max_x,
            fixed_tree.max_y == t0.max_y,
            0 <= i <= t0.nodes@.len(),
            fixed_tree.groups@ == spec_fixed_groups(t0, i as int),
            fixed_tree.groups@.len() == t0.groups@.len(),
        decreases t0.nodes@.len() - i,
    {
        proof {
            assert(spec_node_ok(t0, t0.nodes@[i as int]));
            lemma_fixed_groups_ok(t0, i as int + 1);
        }
        if fixed_tree.nodes[i].is_ascendancy_start {
            let gi = match fixed_tree.nodes[i].group {
                Option::Some(g) => g,
                Option::None => {
                    proof {
                        assert(false);
                    }
                    0
                },
            };
            let p = match &fixed_tree.nodes[i].ascendancy_name {
                Option::Some(nm) => match ascendancy_start_position(nm) {
                    Option::Some(p) => p,
                    Option::None => {
                        proof {
                            assert(false);
                        }
                        Pos { x: 0, y: 0 }
                    },
                },
                Option::None => {
                    proof {
                        assert(false);
                    }
                    Pos { x: 0, y: 0 }
                },
            };
            let old_g = fixed_tree.groups.remove(gi);
            let new_g = Group {
                x: p.x,
                y: p.y,
                orbits: old_g.orbits,
                background: old_g.background,
                nodes: old_g.nodes,
            };
            fixed_tree.groups.insert(gi, new_g);
            proof {
                assert(fixed_tree.groups@ =~= spec_fixed_groups(t0, i as int + 1));
            }
        } else {
            proof {
                assert(fixed_tree.groups@ =~= spec_fixed_groups(t0, i as int + 1));
            }
        }
        i = i + 1;
    }
    proof {
        lemma_fixed_groups_ok(t0, t0.nodes@.len() as int);
        assert forall|k: int| 0 <= k < fixed_tree.nodes@.len() implies spec_node_ok(
            fixed_tree,
            #[trigger] fixed_tree.nodes@[k],
        ) by {
            assert(spec_node_ok(t0, t0.nodes@[k]));
        }
        assert forall|k: int| 0 <= k < fixed_tree.groups@.len() implies spec_group_ok(
            fixed_tree,
            #[trigger] fixed_tree.groups@[k],
        ) by {
            assert(spec_group_ok(t0, spec_fixed_groups(t0, t0.nodes@.len() as int)[k]));
        }
        assert forall|k: int| 0 <= k < 16 implies spec_sprite_ok(
            #[trigger] spec_sheet_at(fixed_tree.sprites, k),
        ) by {
            assert(spec_sprite_ok(spec_sheet_at(t0.sprites, k)));
        }
    }
    fixed_tree
}

impl TreeExport {
    /// Validate a freshly parsed dataset, then apply the one-time
    /// ascendancy fix-up pass.
    ///
    /// Succeeds exactly on well-formed input. On failure the error names
    /// the first offending node, group or sheet, scanning nodes first,
    /// then groups, then the sheets in their fixed order.
    pub fn new(raw: TreeExport) -> (r: Result<TreeExport, DataError>)
        ensures
            r is Ok <==> raw.wf(),
            r matches Ok(t) ==> {
                &&& t.groups@ == spec_fixed_groups(raw, raw.nodes@.len() as int)
                &&& t.nodes == raw.nodes
                &&& t.tree == raw.tree
                &&& t.classes == raw.classes
                &&& t.sprites == raw.sprites
                &&& t.constants == raw.constants
                &&& t.min_x == raw.min_x
                &&& t.min_y == raw.min_y
                &&& t.max_x == raw.max_x
                &&& t.max_y == raw.max_y
                &&& t.wf()
            },
            r matches Err(e) ==> match e {
                DataError::MalformedNode { index } => (index as int) < raw.nodes@.len()
                    && !spec_node_ok(raw, raw.nodes@[index as int]) && forall|j: int|
                    0 <= j < index ==> spec_node_ok(raw, #[trigger] raw.nodes@[j]),
                DataError::MalformedGroup { index } => (forall|j: int|
                    0 <= j < raw.nodes@.len() ==> spec_node_ok(raw, #[trigger] raw.nodes@[j])) && (
                index as int) < raw.groups@.len() && !spec_group_ok(raw, raw.groups@[index as int])
                    && forall|j: int|
                    0 <= j < index ==> spec_group_ok(raw, #[trigger] raw.groups@[j]),
                DataError::MalformedSpriteSheet { index } => (forall|j: int|
                    0 <= j < raw.nodes@.len() ==> spec_node_ok(raw, #[trigger] raw.nodes@[j])) && (
                forall|j: int|
                    0 <= j < raw.groups@.len() ==> spec_group_ok(raw, #[trigger] raw.groups@[j]))
                    && index < 16 && !spec_sprite_ok(spec_sheet_at(raw.sprites, index as int))
                    && forall|j: int|
                    0 <= j < index ==> spec_sprite_ok(#[trigger] spec_sheet_at(raw.sprites, j)),
            },
    {
        let mut i: usize = 0;
        while i < raw.nodes.len()
            invariant
                0 <= i <= raw.nodes@.len(),
                forall|j: int| 0 <= j < i ==> spec_node_ok(raw, #[trigger] raw.nodes@[j]),
            decreases raw.nodes@.len() - i,
        {
            if !check_node(&raw, &raw.nodes[i]) {
                return Result::Err(DataError::MalformedNode { index: i });
            }
            i = i + 1;
        }
        let mut i2: usize = 0;
        while i2 < raw.groups.len()
            invariant
                0 <= i2 <= raw.groups@.len(),
                forall|j: int| 0 <= j < i2 ==> spec_group_ok(raw, #[trigger] raw.groups@[j]),
                forall|j: int|
                    0 <= j < raw.nodes@.len() ==> spec_node_ok(raw, #[trigger] raw.nodes@[j]),
            decreases raw.groups@.len() - i2,
        {
            if !check_group(&raw, &raw.groups[i2]) {
                return Result::Err(DataError::MalformedGroup { index: i2 });
            }
            i2 = i2 + 1;
        }
        let mut i3: usize = 0;
        while i3 < 16
            invariant
                0 <= i3 <= 16,
                forall|j: int|
                    0 <= j < i3 ==> spec_sprite_ok(#[trigger] spec_sheet_at(raw.sprites, j)),
                forall|j: int|
                    0 <= j < raw.nodes@.len() ==> spec_node_ok(raw, #[trigger] raw.nodes@[j]),
                forall|j: int|
                    0 <= j < raw.groups@.len() ==> spec_group_ok(raw, #[trigger] raw.groups@[j]),
            decreases 16 - i3,
        {
            if !check_sprite(sheet_at(&raw.sprites, i3)) {
                return Result::Err(DataError::MalformedSpriteSheet { index: i3 });
            }
            i3 = i3 + 1;
        }
        Result::Ok(fix_export(raw))
    }
}

} // verus!
