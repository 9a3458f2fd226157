//! Connection lines: one world-space segment per qualifying directed
//! edge, precomputed once after the fix-up pass.
//!
//! An edge qualifies only when neither endpoint is a mastery or proxy
//! node and both ends agree on class start index and ascendancy name;
//! edges in or out of masteries or proxies, and edges crossing class or
//! ascendancy boundaries, never produce a line.

use vstd::prelude::*;
use vstd::string::StringExecFns;

use crate::geom::{in_coord_range, Pos};
use crate::orbit::{spec_node_position, POSITION_LIMIT};
use crate::text::{opt_string_eq, opt_usize_eq, spec_opt_name_eq};
use crate::tree::{spec_ascendancy_start, spec_node_ok, Node, TreeExport};

verus! {

/// Whether the directed edge from `a` to `b` produces a line.
pub open spec fn spec_edge_qualifies(a: Node, b: Node) -> bool {
    &&& !a.is_mastery
    &&& !b.is_mastery
    &&& !a.is_proxy
    &&& !b.is_proxy
    &&& a.class_start_index == b.class_start_index
    &&& spec_opt_name_eq(a.ascendancy_name, b.ascendancy_name)
}

/// Lines contributed by the first `upto` out-edges of node `i`.
pub open spec fn spec_node_lines(t: TreeExport, i: int, upto: int) -> Seq<(Pos, Pos)>
    decreases upto,
{
    if upto <= 0 {
        Seq::empty()
    } else {
        let s = spec_node_lines(t, i, upto - 1);
        let a = t.nodes@[i];
        let j = a.out@[upto - 1] as int;
        if 0 <= j < t.nodes@.len() && spec_edge_qualifies(a, t.nodes@[j]) {
            s.push((spec_node_position(t, a), spec_node_position(t, t.nodes@[j])))
        } else {
            s
        }
    }
}

/// Lines contributed by the first `n` nodes, in arena order.
pub open spec fn spec_lines_upto(t: TreeExport, n: int) -> Seq<(Pos, Pos)>
    decreases n,
{
    if n <= 0 {
        Seq::empty()
    } else {
        spec_lines_upto(t, n - 1) + spec_node_lines(
            t,
            n - 1,
            t.nodes@[n - 1].out@.len() as int,
        )
    }
}

/// All connection lines of the dataset.
pub open spec fn spec_lines(t: TreeExport) -> Seq<(Pos, Pos)> {
    spec_lines_upto(t, t.nodes@.len() as int)
}

impl TreeExport {
    /// Precompute the connection lines: for each node in arena order,
    /// one segment per qualifying out-edge, from the node's position to
    /// the neighbor's.
    pub fn generate_lines(&self) -> (lines: Vec<(Pos, Pos)>)
        requires
            self.wf(),
        ensures
            lines@ == spec_lines(*self),
            forall|k: int|
                0 <= k < lines@.len() ==> spec_line_endpoints_in_range(#[trigger] lines@[k]),
    {
        let mut lines: Vec<(Pos, Pos)> = Vec::new();
        let mut i: usize = 0;
        while i < self.nodes.len()
            invariant
                self.wf(),
                0 <= i <= self.nodes@.len(),
                lines@ == spec_lines_upto(*self, i as int),
                forall|k: int|
                    0 <= k < lines@.len() ==> spec_line_endpoints_in_range(#[trigger] lines@[k]),
            decreases self.nodes@.len() - i,
        {
            let node = &self.nodes[i];
            proof {
                assert(spec_node_ok(*self, self.nodes@[i as int]));
            }
            let node_pos = self.node_position(node);
            let mut k: usize = 0;
            while k < node.out.len()
                invariant
                    self.wf(),
                    0 <= i < self.nodes@.len(),
                    *node == self.nodes@[i as int],
                    node_pos == spec_node_position(*self, self.nodes@[i as int]),
                    -POSITION_LIMIT <= node_pos.x <= POSITION_LIMIT,
                    -POSITION_LIMIT <= node_pos.y <= POSITION_LIMIT,
                    0 <= k <= node.out@.len(),
                    lines@ == spec_lines_upto(*self, i as int) + spec_node_lines(
                        *self,
                        i as int,
                        k as int,
                    ),
                    forall|m: int|
                        0 <= m < lines@.len() ==> spec_line_endpoints_in_range(
                            #[trigger] lines@[m],
                        ),
                decreases node.out@.len() - k,
            {
                proof {
                    assert(spec_node_ok(*self, self.nodes@[i as int]));
                }
                let j = node.out[k];
                let other = &self.nodes[j];
                proof {
                    assert(spec_node_ok(*self, self.nodes@[j as int]));
                }
                if !node.is_mastery && !other.is_mastery && !node.is_proxy && !other.is_proxy
                    && opt_usize_eq(&node.class_start_index, &other.class_start_index)
                    && opt_string_eq(&node.ascendancy_name, &other.ascendancy_name) {
                    let other_pos = self.node_position(other);
                    lines.push((node_pos, other_pos));
                }
                k = k + 1;
            }
            i = i + 1;
        }
        lines
    }
}

/// Both endpoints of a segment lie within the position range, so the
/// cached lines can be handed straight to the scene composer.
pub open spec fn spec_line_endpoints_in_range(l: (Pos, Pos)) -> bool {
    &&& -POSITION_LIMIT <= l.0.x <= POSITION_LIMIT
    &&& -POSITION_LIMIT <= l.0.y <= POSITION_LIMIT
    &&& -POSITION_LIMIT <= l.1.x <= POSITION_LIMIT
    &&& -POSITION_LIMIT <= l.1.y <= POSITION_LIMIT
    &&& in_coord_range(l.0)
    &&& in_coord_range(l.1)
}

/// Whether out-edge `k` of node `i` references a valid neighbor that
/// qualifies for a line.
pub open spec fn spec_edge_ok_at(t: TreeExport, i: int, k: int) -> bool {
    let j = t.nodes@[i].out@[k] as int;
    0 <= j < t.nodes@.len() && spec_edge_qualifies(t.nodes@[i], t.nodes@[j])
}

/// The segment produced by out-edge `k` of node `i`.
pub open spec fn spec_line_from_edge(t: TreeExport, i: int, k: int) -> (Pos, Pos) {
    (
        spec_node_position(t, t.nodes@[i]),
        spec_node_position(t, t.nodes@[t.nodes@[i].out@[k] as int]),
    )
}

/// Line `m` of node `i`'s first `upto` edges comes from some
/// qualifying edge among them.
pub open spec fn spec_node_line_sound(t: TreeExport, i: int, upto: int, m: int) -> bool {
    exists|k: int|
        0 <= k < upto && #[trigger] spec_edge_ok_at(t, i, k) && spec_node_lines(t, i, upto)[m]
            == spec_line_from_edge(t, i, k)
}

/// Line `m` of the first `n` nodes' lines comes from some qualifying
/// edge of one of those nodes.
pub open spec fn spec_line_sound(t: TreeExport, n: int, m: int) -> bool {
    exists|i: int, k: int|
        0 <= i < n && 0 <= k < t.nodes@[i].out@.len() && #[trigger] spec_edge_ok_at(t, i, k)
            && spec_lines_upto(t, n)[m] == spec_line_from_edge(t, i, k)
}

/// Soundness of one node's lines: each comes from a qualifying out-edge.
proof fn lemma_node_lines_sound(t: TreeExport, i: int, upto: int)
    requires
        0 <= i < t.nodes@.len(),
        0 <= upto <= t.nodes@[i].out@.len(),
    ensures
        forall|m: int|
            0 <= m < spec_node_lines(t, i, upto).len() ==> #[trigger] spec_node_line_sound(
                t,
                i,
                upto,
                m,
            ),
    decreases upto,
{
    if upto > 0 {
        lemma_node_lines_sound(t, i, upto - 1);
        let prev = spec_node_lines(t, i, upto - 1);
        let cur = spec_node_lines(t, i, upto);
        assert forall|m: int| 0 <= m < cur.len() implies #[trigger] spec_node_line_sound(
            t,
            i,
            upto,
            m,
        ) by {
            if m < prev.len() {
                assert(spec_node_line_sound(t, i, upto - 1, m));
                let k = choose|k: int|
                    0 <= k < upto - 1 && #[trigger] spec_edge_ok_at(t, i, k) && prev[m]
                        == spec_line_from_edge(t, i, k);
                assert(cur[m] == prev[m]);
                assert(spec_edge_ok_at(t, i, k));
                assert(cur[m] == spec_line_from_edge(t, i, k));
            } else {
                assert(spec_edge_ok_at(t, i, upto - 1));
                assert(cur[m] == spec_line_from_edge(t, i, upto - 1));
            }
        }
    }
}

/// Soundness of the first `n` nodes' lines.
proof fn lemma_lines_upto_sound(t: TreeExport, n: int)
    requires
        0 <= n <= t.nodes@.len(),
    ensures
        forall|m: int|
            0 <= m < spec_lines_upto(t, n).len() ==> #[trigger] spec_line_sound(t, n, m),
    decreases n,
{
    if n > 0 {
        lemma_lines_upto_sound(t, n - 1);
        lemma_node_lines_sound(t, n - 1, t.nodes@[n - 1].out@.len() as int);
        let prev = spec_lines_upto(t, n - 1);
        let tail = spec_node_lines(t, n - 1, t.nodes@[n - 1].out@.len() as int);
        let cur = spec_lines_upto(t, n);
        assert forall|m: int| 0 <= m < cur.len() implies #[trigger] spec_line_sound(t, n, m) by {
            if m < prev.len() {
                assert(spec_line_sound(t, n - 1, m));
                let (i, k) = choose|i: int, k: int|
                    0 <= i < n - 1 && 0 <= k < t.nodes@[i].out@.len() && #[trigger] spec_edge_ok_at(
                        t,
                        i,
                        k,
                    ) && prev[m] == spec_line_from_edge(t, i, k);
                assert(cur[m] == prev[m]);
                assert(spec_edge_ok_at(t, i, k));
                assert(cur[m] == spec_line_from_edge(t, i, k));
            } else {
                assert(spec_node_line_sound(t, n - 1, t.nodes@[n - 1].out@.len() as int, m - prev.len()));
                let k = choose|k: int|
                    0 <= k < t.nodes@[n - 1].out@.len() && #[trigger] spec_edge_ok_at(t, n - 1, k)
                        && tail[m - prev.len()] == spec_line_from_edge(t, n - 1, k);
                assert(cur[m] == tail[m - prev.len()]);
                assert(spec_edge_ok_at(t, n - 1, k));
                assert(cur[m] == spec_line_from_edge(t, n - 1, k));
            }
        }
    }
}

/// Line generation filters edges: every generated line is the pair of
/// endpoint positions of an edge whose two nodes qualify — so an edge
/// touching a mastery node, touching a proxy node, or joining nodes with
/// different class start indices or ascendancy names never produces a
/// line.
pub proof fn lemma_lines_only_qualifying_edges(t: TreeExport)
    ensures
        forall|m: int|
            0 <= m < spec_lines(t).len() ==> #[trigger] spec_line_sound(
                t,
                t.nodes@.len() as int,
                m,
            ),
{
    lemma_lines_upto_sound(t, t.nodes@.len() as int);
}

/// The ascendancy-start backdrops: for the first `upto` nodes, each
/// ascendancy start contributes its override anchor and the backdrop
/// sprite name `Classes` followed by the ascendancy's name.
pub open spec fn spec_asc_start_entries(t: TreeExport, upto: int) -> Seq<(Pos, Seq<char>)>
    decreases upto,
{
    if upto <= 0 {
        Seq::empty()
    } else {
        let s = spec_asc_start_entries(t, upto - 1);
        let n = t.nodes@[upto - 1];
        if n.is_ascendancy_start {
            match n.ascendancy_name {
                Option::Some(nm) => match spec_ascendancy_start(nm@) {
                    Option::Some(p) => s.push((p, "Classes"@ + nm@)),
                    Option::None => s,
                },
                Option::None => s,
            }
        } else {
            s
        }
    }
}

/// Every backdrop anchor comes from the override table, so it lies
/// within the tree coordinate range.
pub proof fn lemma_asc_entries_in_range(t: TreeExport, upto: int)
    ensures
        forall|m: int|
            0 <= m < spec_asc_start_entries(t, upto).len() ==> crate::geom::in_tree_range(
                (#[trigger] spec_asc_start_entries(t, upto)[m]).0.x as int,
                spec_asc_start_entries(t, upto)[m].0.y as int,
            ),
    decreases upto,
{
    if upto > 0 {
        lemma_asc_entries_in_range(t, upto - 1);
        let n = t.nodes@[upto - 1];
        if n.is_ascendancy_start {
            match n.ascendancy_name {
                Option::Some(nm) => {
                    crate::tree::lemma_ascendancy_start_in_range(nm@);
                },
                Option::None => {},
            }
        }
        let prev = spec_asc_start_entries(t, upto - 1);
        let cur = spec_asc_start_entries(t, upto);
        assert forall|m: int| 0 <= m < cur.len() implies crate::geom::in_tree_range(
            (#[trigger] cur[m]).0.x as int,
            cur[m].0.y as int,
        ) by {
            if m < prev.len() {
                assert(cur[m] == prev[m]);
            }
        }
    }
}

impl TreeExport {
    /// The backdrop placements for every ascendancy start node, in arena
    /// order: the override anchor and the backdrop sprite name.
    pub fn get_ascendancy_starts(&self) -> (starts: Vec<(Pos, String)>)
        requires
            self.wf(),
        ensures
            starts@.len() == spec_asc_start_entries(*self, self.nodes@.len() as int).len(),
            forall|m: int|
                0 <= m < starts@.len() ==> (#[trigger] starts@[m]).0 == spec_asc_start_entries(
                    *self,
                    self.nodes@.len() as int,
                )[m].0 && starts@[m].1@ == spec_asc_start_entries(
                    *self,
                    self.nodes@.len() as int,
                )[m].1,
    {
        let mut starts: Vec<(Pos, String)> = Vec::new();
        let mut i: usize = 0;
        while i < self.nodes.len()
            invariant
                self.wf(),
                0 <= i <= self.nodes@.len(),
                starts@.len() == spec_asc_start_entries(*self, i as int).len(),
                forall|m: int|
                    0 <= m < starts@.len() ==> (#[trigger] starts@[m]).0 == spec_asc_start_entries(
                        *self,
                        i as int,
                    )[m].0 && starts@[m].1@ == spec_asc_start_entries(*self, i as int)[m].1,
            decreases self.nodes@.len() - i,
        {
            let node = &self.nodes[i];
            proof {
                assert(spec_node_ok(*self, self.nodes@[i as int]));
            }
            if node.is_ascendancy_start {
                match &node.ascendancy_name {
                    Option::Some(nm) => {
                        match crate::tree::ascendancy_start_position(nm) {
                            Option::Some(p) => {
                                let label = String::from_str("Classes").concat(nm.as_str());
                                starts.push((p, label));
                            },
                            Option::None => {
                                proof {
                                    assert(false);
                                }
                            },
                        }
                    },
                    Option::None => {
                        proof {
                            assert(false);
                        }
                    },
                }
            }
            i = i + 1;
        }
        starts
    }
}

} // verus!
