//! A placed operation node: its canvas geometry, its ports, and the
//! per-node drag/drop detection over them.
//!
//! All geometry is in integer canvas coordinates.  A node's body is a
//! `NODE_WIDTH` by `NODE_HEIGHT` rectangle; input port anchors are evenly
//! spaced along its left edge and output port anchors along its right edge:
//! for `n` ports, anchor `i` sits at fractional offset `(i + 1/2) / n` of the
//! edge, rounded down.

use vstd::prelude::*;

verus! {

use crate::dl_ui::{Button, Event, Mouse, MouseButton};
use crate::graph_builder::NodeId;
use crate::op::OpKind;
use crate::var_store::VarIndex;

/// Width of a node's body rectangle, in canvas units.
pub const NODE_WIDTH: i64 = 64;

/// Height of a node's body rectangle, in canvas units.
pub const NODE_HEIGHT: i64 = 32;

/// Diameter of a port's hit circle, in canvas units.
pub const PORT_RADIUS: i64 = 5;

/// Bound on the coordinates the hit tests accept; large enough for any
/// canvas while keeping their arithmetic within `i128`.
pub const MAX_COORD: i64 = 0x1_0000_0000_0000;

/// Whether a point lies within half `radius` of the given center: the
/// `radius` argument is the diameter of the hit circle.
pub open spec fn over_circle(cx: int, cy: int, radius: int, mx: int, my: int) -> bool {
    4 * ((mx - cx) * (mx - cx) + (my - cy) * (my - cy)) <= radius * radius
}

/// Whether a point lies within the rectangle with corner `(rx, ry)`, width
/// `rw` and height `rh` (borders included).
pub open spec fn over_rect(rx: int, ry: int, rw: int, rh: int, mx: int, my: int) -> bool {
    rx <= mx <= rx + rw && ry <= my <= ry + rh
}

/// Return whether or not a given point is over a circle at a given point on
/// a Cartesian plane; used to decide whether the pointer is over a port.
pub fn is_over_circle(circ_center: [i64; 2], radius: i64, mouse_point: [i64; 2]) -> (r: bool)
    requires
        -MAX_COORD <= circ_center[0] <= MAX_COORD,
        -MAX_COORD <= circ_center[1] <= MAX_COORD,
        -MAX_COORD <= mouse_point[0] <= MAX_COORD,
        -MAX_COORD <= mouse_point[1] <= MAX_COORD,
        0 <= radius <= MAX_COORD,
    ensures
        r == over_circle(
            circ_center[0] as int,
            circ_center[1] as int,
            radius as int,
            mouse_point[0] as int,
            mouse_point[1] as int,
        ),
{
    let dx: i128 = mouse_point[0] as i128 - circ_center[0] as i128;
    let dy: i128 = mouse_point[1] as i128 - circ_center[1] as i128;
    let rr: i128 = radius as i128;
    proof {
        assert(0 <= dx * dx <= 0x4_0000_0000_0000_0000_0000_0000) by (nonlinear_arith)
            requires
                -0x2_0000_0000_0000 <= dx <= 0x2_0000_0000_0000,
        ;
        assert(0 <= dy * dy <= 0x4_0000_0000_0000_0000_0000_0000) by (nonlinear_arith)
            requires
                -0x2_0000_0000_0000 <= dy <= 0x2_0000_0000_0000,
        ;
        assert(0 <= rr * rr <= 0x1_0000_0000_0000_0000_0000_0000) by (nonlinear_arith)
            requires
                0 <= rr <= 0x1_0000_0000_0000,
        ;
    }
    4 * (dx * dx + dy * dy) <= rr * rr
}

/// Return whether or not a given point is inside a rectangle given as
/// `[x, y, width, height]`.
pub fn is_over_rect(r: [i64; 4], m: [i64; 2]) -> (b: bool)
    requires
        -MAX_COORD <= r[0] <= MAX_COORD,
        -MAX_COORD <= r[1] <= MAX_COORD,
        -MAX_COORD <= r[2] <= MAX_COORD,
        -MAX_COORD <= r[3] <= MAX_COORD,
        -MAX_COORD <= m[0] <= MAX_COORD,
        -MAX_COORD <= m[1] <= MAX_COORD,
    ensures
        b == over_rect(r[0] as int, r[1] as int, r[2] as int, r[3] as int, m[0] as int, m[1] as int),
{
    if m[0] >= r[0] && m[0] <= r[0] + r[2] && m[1] >= r[1] && m[1] <= r[1] + r[3] {
        true
    } else {
        false
    }
}

/// Offset of port anchor `i` along an edge of `count` evenly spaced ports:
/// the edge has height `NODE_HEIGHT`, and anchor `i` sits at fractional
/// offset `(i + 1/2) / count` of it, rounded down.
pub open spec fn port_offset(count: int, i: int) -> int
    recommends
        0 <= i < count,
{
    (16 * (2 * i + 1)) / count
}

/// The single latched interaction of a node's port, for one dispatch cycle.
#[derive(Copy, Clone, Debug, PartialEq, Eq, Structural)]
pub enum NodeAction {
    Drag,
    DragInput(usize),
    DragOutput(usize),
    DropInput(usize),
    DropOutput(usize),
}

/// What a pair of latched actions across two nodes resolves to.
#[derive(Copy, Clone, Debug, PartialEq, Eq, Structural)]
pub enum NodeResponse {
    Select,
    SelectInput(usize),
    SelectOutput(usize),
    /// Connect sender's output to receiver's input:
    /// `(send_node, output_index, recv_node, input_index)`.
    Connect(NodeId, usize, NodeId, usize),
}

/// The pairing rule for a two-step cross-node gesture, keyed on the kinds of
/// the earlier and the later action.  It is direction-agnostic: the sender
/// is whichever side holds the output, regardless of which node the gesture
/// started on.  A drop on a port of the same kind selects that port instead.
pub open spec fn pairing(first: NodeAction, second: NodeAction, first_node: NodeId, second_node: NodeId) -> Option<
    NodeResponse,
> {
    match first {
        NodeAction::DragOutput(send_index) => match second {
            NodeAction::DropInput(recv_index) => Some(
                NodeResponse::Connect(first_node, send_index, second_node, recv_index),
            ),
            NodeAction::DropOutput(i) => Some(NodeResponse::SelectOutput(i)),
            _ => None,
        },
        NodeAction::DragInput(recv_index) => match second {
            NodeAction::DropOutput(send_index) => Some(
                NodeResponse::Connect(second_node, send_index, first_node, recv_index),
            ),
            NodeAction::DropInput(i) => Some(NodeResponse::SelectInput(i)),
            _ => None,
        },
        _ => None,
    }
}

impl NodeAction {
    /// Resolve this action, latched in an earlier cycle on `nodes.0`,
    /// against `other`, produced this cycle on `nodes.1`.
    pub fn happened_before(&self, other: &Self, nodes: (NodeId, NodeId)) -> (r: Option<NodeResponse>)
        ensures
            r == pairing(*self, *other, nodes.0, nodes.1),
    {
        match *self {
            NodeAction::DragOutput(send_index) => match *other {
                NodeAction::DropInput(recv_index) => Some(
                    NodeResponse::Connect(nodes.0, send_index, nodes.1, recv_index),
                ),
                NodeAction::DropOutput(i) => Some(NodeResponse::SelectOutput(i)),
                _ => None,
            },
            NodeAction::DragInput(recv_index) => match *other {
                NodeAction::DropOutput(send_index) => Some(
                    NodeResponse::Connect(nodes.1, send_index, nodes.0, recv_index),
                ),
                NodeAction::DropInput(i) => Some(NodeResponse::SelectInput(i)),
                _ => None,
            },
            _ => None,
        }
    }
}

/// A placed operation instance: a canvas position, the operation tag, one
/// slot per input port (holding the connected variable, if any), one
/// eagerly allocated variable per output port, and the transient per-cycle
/// interaction state.
pub struct Node {
    pub name: String,
    pub op: OpKind,
    pub inputs: Vec<Option<VarIndex>>,
    pub outputs: Vec<VarIndex>,
    pub pos: [i32; 2],
    pub action: Option<NodeAction>,
}

/// First port of `count` evenly spaced ports at horizontal position `ax`
/// and vertical base `py`, at or after index `k`, whose anchor circle the
/// pointer is over.
pub open spec fn first_port_hit(ax: int, py: int, count: int, m: Mouse, k: int) -> Option<usize>
    decreases count - k,
{
    if !(0 <= k < count) {
        None
    } else if over_circle(
        ax,
        py + port_offset(count, k),
        PORT_RADIUS as int,
        m.pos[0] as int,
        m.pos[1] as int,
    ) {
        Some(k as usize)
    } else {
        first_port_hit(ax, py, count, m, k + 1)
    }
}

/// First input port of `n` the pointer is over, scanning by index.
pub open spec fn first_input_hit(n: Node, m: Mouse) -> Option<usize> {
    first_port_hit(n.pos[0] as int, n.pos[1] as int, n.inputs@.len() as int, m, 0)
}

/// First output port of `n` the pointer is over, scanning by index.
pub open spec fn first_output_hit(n: Node, m: Mouse) -> Option<usize> {
    first_port_hit(n.pos[0] + NODE_WIDTH, n.pos[1] as int, n.outputs@.len() as int, m, 0)
}

/// A drop latched in an earlier cycle is terminal: it is cleared before the
/// node looks at a new event.  Drags stay armed.
pub open spec fn cleared_action(a: Option<NodeAction>) -> Option<NodeAction> {
    match a {
        Some(NodeAction::DropInput(_)) => None,
        Some(NodeAction::DropOutput(_)) => None,
        _ => a,
    }
}

/// The action latched on a primary-button press: the first input port hit,
/// else the first output port hit, else whatever was latched before.
pub open spec fn press_action(n: Node, m: Mouse, prior: Option<NodeAction>) -> Option<NodeAction> {
    match first_input_hit(n, m) {
        Some(i) => Some(NodeAction::DragInput(i)),
        None => match first_output_hit(n, m) {
            Some(i) => Some(NodeAction::DragOutput(i)),
            None => prior,
        },
    }
}

/// The action latched on a primary-button release: the latch is cleared
/// first, then a port hit yields a drop on that port.
pub open spec fn release_action(n: Node, m: Mouse) -> Option<NodeAction> {
    match first_input_hit(n, m) {
        Some(i) => Some(NodeAction::DropInput(i)),
        None => match first_output_hit(n, m) {
            Some(i) => Some(NodeAction::DropOutput(i)),
            None => None,
        },
    }
}

/// The node's latched action after it sees one event: stale drops are
/// cleared, then a primary press or release re-scans the ports.
pub open spec fn action_after(n: Node, ev: Event, m: Mouse) -> Option<NodeAction> {
    match ev {
        Event::Press(Button::Mouse(MouseButton::Left)) => press_action(n, m, cleared_action(n.action)),
        Event::Release(Button::Mouse(MouseButton::Left)) => release_action(n, m),
        _ => cleared_action(n.action),
    }
}

/// Whether an action's port index is a port of `n`.
pub open spec fn action_in_bounds(a: NodeAction, n: Node) -> bool {
    match a {
        NodeAction::Drag => true,
        NodeAction::DragInput(i) => i < n.inputs@.len(),
        NodeAction::DropInput(i) => i < n.inputs@.len(),
        NodeAction::DragOutput(i) => i < n.outputs@.len(),
        NodeAction::DropOutput(i) => i < n.outputs@.len(),
    }
}

/// A hit found at or after `k` names a port index below `count`.
pub proof fn lemma_first_port_hit_in_bounds(ax: int, py: int, count: int, m: Mouse, k: int)
    requires
        count <= usize::MAX,
    ensures
        first_port_hit(ax, py, count, m, k) matches Some(i) ==> k <= i < count,
    decreases count - k,
{
    if 0 <= k < count {
        lemma_first_port_hit_in_bounds(ax, py, count, m, k + 1);
    }
}

/// Dispatching an event to a node whose latched action is a port of the
/// node leaves an action that is again a port of the node.
pub proof fn lemma_action_after_in_bounds(n: Node, ev: Event, m: Mouse)
    requires
        n.action matches Some(a) ==> action_in_bounds(a, n),
    ensures
        action_after(n, ev, m) matches Some(a) ==> action_in_bounds(a, n),
{
    vstd::std_specs::vec::axiom_spec_len(&n.inputs);
    vstd::std_specs::vec::axiom_spec_len(&n.outputs);
    lemma_first_port_hit_in_bounds(n.pos[0] as int, n.pos[1] as int, n.inputs@.len() as int, m, 0);
    lemma_first_port_hit_in_bounds(
        n.pos[0] + NODE_WIDTH,
        n.pos[1] as int,
        n.outputs@.len() as int,
        m,
        0,
    );
}

impl Node {
    pub fn new(name: String, pos: [i32; 2], op: OpKind, num_in: u64, outs: Vec<VarIndex>) -> (n: Node)
        requires
            num_in <= usize::MAX,
        ensures
            n.name == name,
            n.op == op,
            n.inputs@.len() == num_in,
            forall|i: int| 0 <= i < n.inputs@.len() ==> n.inputs@[i] is None,
            n.outputs == outs,
            n.pos == pos,
            n.action is None,
    {
        Node {
            name,
            op,
            inputs: vec![None; num_in as usize],
            outputs: outs,
            pos,
            action: None,
        }
    }

    pub fn name(&self) -> (r: &str)
        ensures
            r@ == self.name@,
    {
        self.name.as_str()
    }

    /// The node's body rectangle `[x, y, width, height]` in canvas space,
    /// for hit-testing and for the renderer to query.
    pub fn bounding_rect(&self) -> (r: [i64; 4])
        ensures
            r[0] == self.pos[0] as int,
            r[1] == self.pos[1] as int,
            r[2] == NODE_WIDTH,
            r[3] == NODE_HEIGHT,
    {
        [self.pos[0] as i64, self.pos[1] as i64, NODE_WIDTH, NODE_HEIGHT]
    }

    /// Canvas position of input port anchor `i`.
    pub fn get_input_pos(&self, i: usize) -> (p: [i64; 2])
        requires
            i < self.inputs@.len(),
        ensures
            p[0] == self.pos[0] as int,
            p[1] == self.pos[1] + port_offset(self.inputs@.len() as int, i as int),
            0 <= port_offset(self.inputs@.len() as int, i as int) < NODE_HEIGHT,
    {
        let count = self.inputs.len();
        let off: u128 = (16u128 * (2u128 * (i as u128) + 1)) / (count as u128);
        proof {
            let ii = i as int;
            let cc = count as int;
            assert(0 <= (16 * (2 * ii + 1)) / cc < 32) by (nonlinear_arith)
                requires
                    0 <= ii < cc,
            ;
        }
        [self.pos[0] as i64, self.pos[1] as i64 + off as i64]
    }

    /// Canvas position of output port anchor `i`.
    pub fn get_output_pos(&self, i: usize) -> (p: [i64; 2])
        requires
            i < self.outputs@.len(),
        ensures
            p[0] == self.pos[0] + NODE_WIDTH,
            p[1] == self.pos[1] + port_offset(self.outputs@.len() as int, i as int),
            0 <= port_offset(self.outputs@.len() as int, i as int) < NODE_HEIGHT,
    {
        let count = self.outputs.len();
        let off: u128 = (16u128 * (2u128 * (i as u128) + 1)) / (count as u128);
        proof {
            let ii = i as int;
            let cc = count as int;
            assert(0 <= (16 * (2 * ii + 1)) / cc < 32) by (nonlinear_arith)
                requires
                    0 <= ii < cc,
            ;
        }
        [self.pos[0] as i64 + NODE_WIDTH, self.pos[1] as i64 + off as i64]
    }

    /// First input port the pointer is over, if any.
    fn first_input_port_hit(&self, mouse: &Mouse) -> (r: Option<usize>)
        ensures
            r == first_input_hit(*self, *mouse),
    {
        let count = self.inputs.len();
        let mut k: usize = 0;
        while k < count
            invariant
                k <= count,
                count == self.inputs@.len(),
                first_input_hit(*self, *mouse) == first_port_hit(
                    self.pos[0] as int,
                    self.pos[1] as int,
                    count as int,
                    *mouse,
                    k as int,
                ),
            decreases count - k,
        {
            let p = self.get_input_pos(k);
            if is_over_circle(p, PORT_RADIUS, [mouse.pos[0] as i64, mouse.pos[1] as i64]) {
                return Some(k);
            }
            k = k + 1;
        }
        None
    }

    /// First output port the pointer is over, if any.
    fn first_output_port_hit(&self, mouse: &Mouse) -> (r: Option<usize>)
        ensures
            r == first_output_hit(*self, *mouse),
    {
        let count = self.outputs.len();
        let mut k: usize = 0;
        while k < count
            invariant
                k <= count,
                count == self.outputs@.len(),
                first_output_hit(*self, *mouse) == first_port_hit(
                    self.pos[0] + NODE_WIDTH,
                    self.pos[1] as int,
                    count as int,
                    *mouse,
                    k as int,
                ),
            decreases count - k,
        {
            let p = self.get_output_pos(k);
            if is_over_circle(p, PORT_RADIUS, [mouse.pos[0] as i64, mouse.pos[1] as i64]) {
                return Some(k);
            }
            k = k + 1;
        }
        None
    }

    /// Primary-button press: scan input ports, then output ports; the first
    /// port hit latches a drag on it.  With no hit the latch is kept.
    #[allow(unused_variables)]
    pub fn on_lmb_clicked(&mut self, mouse: &Mouse, mouse_over: bool)
        ensures
            final(self).name == old(self).name,
            final(self).op == old(self).op,
            final(self).inputs == old(self).inputs,
            final(self).outputs == old(self).outputs,
            final(self).pos == old(self).pos,
            final(self).action == press_action(*old(self), *mouse, old(self).action),
    {
        match self.first_input_port_hit(mouse) {
            Some(i) => {
                self.action = Some(NodeAction::DragInput(i));
            },
            None => {
                match self.first_output_port_hit(mouse) {
                    Some(i) => {
                        self.action = Some(NodeAction::DragOutput(i));
                    },
                    None => {},
                }
            },
        }
    }

    /// Primary-button release: the latch is cleared, then a port hit
    /// latches a drop on it; releasing over no port ends the gesture with
    /// no action.
    #[allow(unused_variables)]
    pub fn on_lmb_released(&mut self, mouse: &Mouse, mouse_over: bool)
        ensures
            final(self).name == old(self).name,
            final(self).op == old(self).op,
            final(self).inputs == old(self).inputs,
            final(self).outputs == old(self).outputs,
            final(self).pos == old(self).pos,
            final(self).action == release_action(*old(self), *mouse),
    {
        self.action = None;
        match self.first_input_port_hit(mouse) {
            Some(i) => {
                self.action = Some(NodeAction::DropInput(i));
            },
            None => {
                match self.first_output_port_hit(mouse) {
                    Some(i) => {
                        self.action = Some(NodeAction::DropOutput(i));
                    },
                    None => {},
                }
            },
        }
    }

    /// Let the node see one event: stale drops are cleared, then a primary
    /// press or release updates the latched action from the port scan.
    pub fn event(&mut self, event: &Event, mouse: &Mouse)
        ensures
            final(self).name == old(self).name,
            final(self).op == old(self).op,
            final(self).inputs == old(self).inputs,
            final(self).outputs == old(self).outputs,
            final(self).pos == old(self).pos,
            final(self).action == action_after(*old(self), *event, *mouse),
    {
        match self.action {
            Some(NodeAction::DropInput(_)) => {
                self.action = None;
            },
            Some(NodeAction::DropOutput(_)) => {
                self.action = None;
            },
            _ => {},
        }
        let mouse_over = is_over_rect(
            self.bounding_rect(),
            [mouse.pos[0] as i64, mouse.pos[1] as i64],
        );
        match *event {
            Event::Press(Button::Mouse(MouseButton::Left)) => {
                self.on_lmb_clicked(mouse, mouse_over);
            },
            Event::Release(Button::Mouse(MouseButton::Left)) => {
                self.on_lmb_released(mouse, mouse_over);
            },
            _ => {},
        }
    }
}

} // verus!
