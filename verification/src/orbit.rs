//! The orbit position resolver: a node's world position is its group
//! anchor displaced by the orbit radius at the orbit's angle.
//!
//! Angle zero points straight up and angles grow clockwise, so the
//! displacement is `(radius * sin, -radius * cos)` — the pairing is
//! deliberate and load-bearing; swapping it would rotate the whole tree
//! by a quarter turn. The position is a pure function of the node and
//! its group: resolving it twice gives identical output.

use vstd::prelude::*;

use crate::geom::{in_coord_range, in_tree_range, Pos};
use crate::tree::{
    orbit_angle_16, orbit_angle_40, orbit_nodes, orbit_radius, spec_node_orbit_ok,
    spec_orbit_angle_16, spec_orbit_angle_40, spec_orbit_nodes, spec_orbit_radius, Group, Node,
    TreeExport,
};
use crate::trig::{cos_units, sin_units, spec_cos_units, spec_sin_units};

verus! {

/// Largest magnitude of a resolved node position, in micro-pixels: a
/// group anchor plus the largest orbit radius.
pub const POSITION_LIMIT: i64 = 1_001_000_000_000;

/// Orbit level the node is placed on; absent means level zero.
pub open spec fn spec_eff_orbit(n: Node) -> int {
    match n.orbit {
        Option::Some(o) => o as int,
        Option::None => 0,
    }
}

/// Position on the orbit; absent means the first slot.
pub open spec fn spec_eff_orbit_index(n: Node) -> int {
    match n.orbit_index {
        Option::Some(x) => x as int,
        Option::None => 0,
    }
}

/// Angle, in 2.5-degree units, of slot `idx` on an orbit level: the
/// literal sixteen- or forty-entry table when the level hosts exactly
/// that many nodes, uniform spacing otherwise.
pub open spec fn spec_orbit_angle_units(orbit: int, idx: int) -> int
    recommends
        0 <= orbit < 7,
        0 <= idx,
{
    let count = spec_orbit_nodes(orbit);
    if count == 16 {
        spec_orbit_angle_16(idx) * 2 / 5
    } else if count == 40 {
        spec_orbit_angle_40(idx) * 2 / 5
    } else {
        (144int / count) * (idx % count)
    }
}

/// A node's world position around its group anchor. The radius is in
/// pixels and the sine in millionths, so their product is exactly the
/// displacement in micro-pixels: the table is the only approximation.
pub open spec fn spec_orbit_position(n: Node, g: Group) -> Pos {
    let orbit = spec_eff_orbit(n);
    let idx = spec_eff_orbit_index(n);
    let r = spec_orbit_radius(orbit);
    let u = spec_orbit_angle_units(orbit, idx);
    Pos { x: (g.x + r * spec_sin_units(u)) as i64, y: (g.y - r * spec_cos_units(u)) as i64 }
}

/// A node's world position inside a dataset: resolved against its
/// group's anchor, or the origin when it has no (valid) group.
pub open spec fn spec_node_position(t: TreeExport, n: Node) -> Pos {
    match n.group {
        Option::Some(gi) => if (gi as int) < t.groups@.len() {
            spec_orbit_position(n, t.groups@[gi as int])
        } else {
            Pos { x: 0, y: 0 }
        },
        Option::None => Pos { x: 0, y: 0 },
    }
}

/// Angle of slot `idx` on orbit level `orbit`, in 2.5-degree units.
pub fn orbit_angle_units(orbit: usize, orbit_index: usize) -> (u: u32)
    requires
        orbit < 7,
        spec_orbit_nodes(orbit as int) == 16 ==> orbit_index < 16,
        spec_orbit_nodes(orbit as int) == 40 ==> orbit_index < 40,
    ensures
        u == spec_orbit_angle_units(orbit as int, orbit_index as int),
        u < 144,
{
    let count = orbit_nodes(orbit);
    if count == 16 {
        let d = orbit_angle_16(orbit_index);
        d * 2 / 5
    } else if count == 40 {
        let d = orbit_angle_40(orbit_index);
        d * 2 / 5
    } else {
        let step = 144 / count;
        let slot = (orbit_index % (count as usize)) as u32;
        proof {
            assert(count == 1 || count == 6 || count == 72);
            assert(slot < count);
            assert((step as int) * (slot as int) < 144) by (nonlinear_arith)
                requires
                    count == 1 || count == 6 || count == 72,
                    step == 144 as int / (count as int),
                    0 <= slot < count,
            ;
        }
        step * slot
    }
}

/// Resolve a node's world position around a group anchor.
pub fn orbit_position(node: &Node, group: &Group) -> (p: Pos)
    requires
        spec_node_orbit_ok(*node),
        in_tree_range(group.x as int, group.y as int),
    ensures
        p == spec_orbit_position(*node, *group),
        -POSITION_LIMIT <= p.x <= POSITION_LIMIT,
        -POSITION_LIMIT <= p.y <= POSITION_LIMIT,
        in_coord_range(p),
{
    let orbit: usize = match node.orbit {
        Option::Some(o) => o,
        Option::None => 0,
    };
    let idx: usize = match node.orbit_index {
        Option::Some(x) => x,
        Option::None => 0,
    };
    let radius = orbit_radius(orbit);
    let u = orbit_angle_units(orbit, idx);
    let s = sin_units(u);
    let c = cos_units(u);
    proof {
        assert(-846_000_000 <= (radius as int) * (s as int) <= 846_000_000) by (nonlinear_arith)
            requires
                0 <= radius <= 846,
                -1_000_000 <= s <= 1_000_000,
        ;
        assert(-846_000_000 <= (radius as int) * (c as int) <= 846_000_000) by (nonlinear_arith)
            requires
                0 <= radius <= 846,
                -1_000_000 <= c <= 1_000_000,
        ;
    }
    let off_x = radius * s;
    let off_y = radius * c;
    Pos { x: group.x + off_x, y: group.y - off_y }
}

impl TreeExport {
    /// Resolve a node's world position inside this dataset. A pure
    /// function of the dataset and the node: two calls on the same
    /// arguments return the same point.
    pub fn node_position(&self, node: &Node) -> (p: Pos)
        requires
            self.wf(),
            spec_node_orbit_ok(*node),
        ensures
            p == spec_node_position(*self, *node),
            -POSITION_LIMIT <= p.x <= POSITION_LIMIT,
            -POSITION_LIMIT <= p.y <= POSITION_LIMIT,
            in_coord_range(p),
    {
        match node.group {
            Option::Some(gi) => {
                if gi < self.groups.len() {
                    let g = &self.groups[gi];
                    proof {
                        assert(crate::tree::spec_group_ok(*self, self.groups@[gi as int]));
                    }
                    orbit_position(node, g)
                } else {
                    Pos { x: 0, y: 0 }
                }
            },
            Option::None => Pos { x: 0, y: 0 },
        }
    }
}

/// Orbit level zero has radius zero: the node sits exactly on its group
/// anchor, whatever its orbit index.
pub proof fn lemma_orbit_zero_at_anchor(n: Node, g: Group)
    requires
        spec_eff_orbit(n) == 0,
    ensures
        spec_orbit_position(n, g) == (Pos { x: g.x, y: g.y }),
{
    let u = spec_orbit_angle_units(0, spec_eff_orbit_index(n));
    assert(0 * spec_sin_units(u) == 0) by (nonlinear_arith);
    assert(0 * spec_cos_units(u) == 0) by (nonlinear_arith);
}

/// On a sixteen-node orbit, slot zero sits at angle zero: straight up,
/// exactly one radius above the anchor.
pub proof fn lemma_sixteen_slot_zero(n: Node, g: Group)
    requires
        spec_orbit_nodes(spec_eff_orbit(n)) == 16,
        spec_eff_orbit_index(n) == 0,
        in_tree_range(g.x as int, g.y as int),
    ensures
        spec_orbit_position(n, g) == (Pos {
            x: g.x,
            y: (g.y - 1_000_000 * spec_orbit_radius(spec_eff_orbit(n))) as i64,
        }),
{
    let orbit = spec_eff_orbit(n);
    let r = spec_orbit_radius(orbit);
    let u = spec_orbit_angle_units(orbit, 0);
    assert(u == 0);
    assert(spec_sin_units(0) == 0);
    assert(spec_cos_units(0) == 1_000_000);
    assert(r * 0 == 0) by (nonlinear_arith);
    assert(r * 1_000_000 == 1_000_000 * r) by (nonlinear_arith);
}

/// On a sixteen-node orbit, slot four sits at a right angle: exactly one
/// radius to the right of the anchor.
pub proof fn lemma_sixteen_slot_four(n: Node, g: Group)
    requires
        spec_orbit_nodes(spec_eff_orbit(n)) == 16,
        spec_eff_orbit_index(n) == 4,
        in_tree_range(g.x as int, g.y as int),
    ensures
        spec_orbit_position(n, g) == (Pos {
            x: (g.x + 1_000_000 * spec_orbit_radius(spec_eff_orbit(n))) as i64,
            y: g.y,
        }),
{
    let orbit = spec_eff_orbit(n);
    let r = spec_orbit_radius(orbit);
    let u = spec_orbit_angle_units(orbit, 4);
    assert(u == 36);
    assert(spec_sin_units(36) == 1_000_000);
    assert(spec_cos_units(36) == 0);
    assert(r * 0 == 0) by (nonlinear_arith);
    assert(r * 1_000_000 == 1_000_000 * r) by (nonlinear_arith);
}

} // verus!
