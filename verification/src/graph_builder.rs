//! The graph builder: owns the placed nodes, routes input events to them,
//! pairs drag/drop gestures across nodes into connections, and compiles the
//! authored graph into the backend graph.

use vstd::prelude::*;

verus! {

use crate::backend::{GpuNodeIndex, GpuNodeModel, GpuVarIndex, Graph, GraphModel};
use crate::dl_ui::{Event, Mouse};
use crate::node::{
    action_after, action_in_bounds, lemma_action_after_in_bounds, pairing, Node, NodeAction,
    NodeResponse,
};
use crate::op::OpKind;
use crate::var_store::{materialize_from, VarIndex, VarStore, Variable};

/// A stable handle of a placed node.
#[derive(Copy, Clone, Debug, PartialEq, Eq, Structural)]
pub struct NodeId(pub usize);

/// A stable handle of a dimension variable.
#[derive(Copy, Clone, Debug, PartialEq, Eq, Structural)]
pub struct DimVar(pub usize);

/// The discrete outcome of one dispatch cycle, surfaced to the host: a
/// connection was committed, a node was selected, or a port's variable was
/// selected.  A cycle with nothing to report yields no outcome.
#[derive(Copy, Clone, Debug, PartialEq, Eq, Structural)]
pub enum GraphAction {
    SelectNode(NodeId),
    SelectVariable(VarIndex),
    /// A connection was committed: sender node and output index, receiver
    /// node and input index.
    ConnectionMade(NodeId, usize, NodeId, usize),
}

/// A committed connection, kept for rendering: sender node and output
/// index, receiver node and input index.  The receiver's input slot is the
/// authoritative record of the wiring.
pub type Edge = (NodeId, usize, NodeId, usize);

/// Port arrays sized to the operation's arities, variable references into
/// the store, and a latched action naming a port of the node.
pub open spec fn node_ports_wf(n: Node, num_vars: nat) -> bool {
    &&& n.inputs@.len() == n.op.arity_in()
    &&& n.outputs@.len() == n.op.arity_out()
    &&& forall|i: int|
        0 <= i < n.inputs@.len() ==> ((#[trigger] n.inputs@[i]) matches Some(v) ==> v.0 < num_vars)
    &&& forall|i: int| 0 <= i < n.outputs@.len() ==> (#[trigger] n.outputs@[i]).0 < num_vars
    &&& (n.action matches Some(a) ==> action_in_bounds(a, n))
}

/// What placing an operation does to the builder: one node is appended
/// whose output variables are fresh store entries (managed exactly for a
/// trainable `Variable` operation), and nothing else moves.
pub open spec fn add_node_post(pre: GraphBuilder, post: GraphBuilder, pos: [i32; 2], op: OpKind) -> bool {
    &&& post.nodes@.len() == pre.nodes@.len() + 1
    &&& forall|j: int| 0 <= j < pre.nodes@.len() ==> post.nodes@[j] == pre.nodes@[j]
    &&& ({
        let n = post.nodes@[pre.nodes@.len() as int];
        &&& n.op == op
        &&& n.pos == pos
        &&& n.action is None
        &&& n.inputs@.len() == op.arity_in()
        &&& forall|i: int| 0 <= i < n.inputs@.len() ==> n.inputs@[i] is None
        &&& n.outputs@.len() == op.arity_out()
        &&& forall|i: int|
            0 <= i < n.outputs@.len() ==> (#[trigger] n.outputs@[i]).0 == pre.vars@.len() + i
    })
    &&& post.vars@.len() == pre.vars@.len() + op.arity_out()
    &&& forall|v: int| 0 <= v < pre.vars@.len() ==> post.vars@[v] == pre.vars@[v]
    &&& forall|v: int|
        pre.vars@.len() <= v < post.vars@.len() ==> post.vars@[v] == (Variable {
            shape: (1usize, 1usize),
            gpu: None,
            managed: op is Variable,
        })
    &&& post.graph == pre.graph
    &&& post.edges == pre.edges
    &&& post.dim_vars == pre.dim_vars
    &&& post.node_action == pre.node_action
}

/// The graph builder.  `nodes` is in insertion order; `node_action` is the
/// latched `(node, action)` of the previous dispatch cycle, armed for the
/// two-step cross-node gesture.
pub struct GraphBuilder {
    pub graph: Graph,
    pub vars: VarStore,
    pub dim_vars: Vec<usize>,
    pub nodes: Vec<Node>,
    pub edges: Vec<Edge>,
    pub node_action: Option<(NodeId, NodeAction)>,
}

impl GraphBuilder {
    /// Every node's ports are consistent with its operation and reference
    /// variables of the store, and the latched action names a port of an
    /// existing node.
    pub open spec fn wf(self) -> bool {
        &&& forall|j: int|
            0 <= j < self.nodes@.len() ==> node_ports_wf(
                #[trigger] self.nodes@[j],
                self.vars@.len(),
            )
        &&& (self.node_action matches Some((nid, a)) ==> nid.0 < self.nodes@.len()
            && action_in_bounds(a, self.nodes@[nid.0 as int]))
    }

    pub fn new() -> (b: GraphBuilder)
        ensures
            b.wf(),
            b.graph@.vars.len() == 0,
            b.graph@.nodes.len() == 0,
            b.graph@.gradients.len() == 0,
            b.vars@.len() == 0,
            b.dim_vars@.len() == 0,
            b.nodes@.len() == 0,
            b.edges@.len() == 0,
            b.node_action is None,
    {
        GraphBuilder {
            graph: Graph::new(),
            vars: VarStore::new(),
            dim_vars: Vec::new(),
            nodes: Vec::new(),
            edges: Vec::new(),
            node_action: None,
        }
    }

    /// Place an operation on the canvas.  The node's output variables are
    /// allocated from the store up front, one per output port, shaped 1 by
    /// 1 until the host adjusts them; the outputs of a trainable `Variable`
    /// operation are registered managed, so the store's own compile pass
    /// materializes them.
    pub fn add_node(&mut self, name: String, pos: [i32; 2], op: OpKind)
        requires
            old(self).wf(),
        ensures
            final(self).wf(),
            add_node_post(*old(self), *final(self), pos, op),
            final(self).nodes@[old(self).nodes@.len() as int].name == name,
    {
        let num_in = op.num_inputs();
        let num_out = op.num_outputs();
        let mut outs: Vec<VarIndex> = Vec::new();
        let mut i: usize = 0;
        while i < num_out
            invariant
                i <= num_out,
                num_out == op.arity_out(),
                self.vars@.len() == old(self).vars@.len() + i,
                forall|v: int|
                    0 <= v < old(self).vars@.len() ==> self.vars@[v] == old(self).vars@[v],
                forall|v: int|
                    old(self).vars@.len() <= v < self.vars@.len() ==> self.vars@[v] == (Variable {
                        shape: (1usize, 1usize),
                        gpu: None,
                        managed: op is Variable,
                    }),
                outs@.len() == i,
                forall|x: int|
                    0 <= x < i ==> (#[trigger] outs@[x]).0 == old(self).vars@.len() + x,
                self.graph == old(self).graph,
                self.nodes == old(self).nodes,
                self.edges == old(self).edges,
                self.dim_vars == old(self).dim_vars,
                self.node_action == old(self).node_action,
            decreases num_out - i,
        {
            let v = match op {
                OpKind::Variable => self.vars.add_managed((1, 1)),
                _ => self.vars.add((1, 1)),
            };
            outs.push(v);
            i = i + 1;
        }
        let node = Node::new(name, pos, op, num_in as u64, outs);
        self.nodes.push(node);
        proof {
            assert forall|j: int| 0 <= j < self.nodes@.len() implies node_ports_wf(
                #[trigger] self.nodes@[j],
                self.vars@.len(),
            ) by {
                if j < old(self).nodes@.len() {
                    assert(node_ports_wf(old(self).nodes@[j], old(self).vars@.len()));
                }
            }
        }
    }
}

/// The first node, in insertion order at or after `k`, whose latched action
/// is non-empty once every node has seen the event.
pub open spec fn first_action_from(nodes: Seq<Node>, ev: Event, m: Mouse, k: int) -> Option<
    (NodeId, NodeAction),
>
    decreases nodes.len() - k,
{
    if !(0 <= k < nodes.len()) {
        None
    } else {
        match action_after(nodes[k], ev, m) {
            Some(a) => Some((NodeId(k as usize), a)),
            None => first_action_from(nodes, ev, m, k + 1),
        }
    }
}

/// The `(node, action)` this cycle records: the first node, in insertion
/// order, whose latched action is non-empty after the dispatch.
pub open spec fn first_action(nodes: Seq<Node>, ev: Event, m: Mouse) -> Option<
    (NodeId, NodeAction),
> {
    first_action_from(nodes, ev, m, 0)
}

/// The cross-node resolution of this cycle: the previously latched action
/// paired against the action the cycle produced, if the pairing rule gives
/// an outcome.
pub open spec fn resolution(pre: GraphBuilder, ev: Event, m: Mouse) -> Option<
    (NodeId, NodeResponse),
> {
    match pre.node_action {
        Some((old_node, old_action)) => match first_action(pre.nodes@, ev, m) {
            Some((new_node, new_action)) => match pairing(
                old_action,
                new_action,
                old_node,
                new_node,
            ) {
                Some(resp) => Some((new_node, resp)),
                None => None,
            },
            None => None,
        },
        None => None,
    }
}

/// The outcome surfaced for a resolution: the committed connection, the
/// selected node, or the variable of the selected port.  Selecting an input
/// that was never wired is a benign no-op, not an error.
pub open spec fn outcome_of(nodes: Seq<Node>, new_node: NodeId, resp: NodeResponse) -> Option<
    GraphAction,
>
    recommends
        new_node.0 < nodes.len(),
{
    match resp {
        NodeResponse::Connect(s, si, r, ri) => Some(GraphAction::ConnectionMade(s, si, r, ri)),
        NodeResponse::Select => Some(GraphAction::SelectNode(new_node)),
        NodeResponse::SelectInput(i) => match nodes[new_node.0 as int].inputs@[i as int] {
            Some(v) => Some(GraphAction::SelectVariable(v)),
            None => None,
        },
        NodeResponse::SelectOutput(i) => Some(
            GraphAction::SelectVariable(nodes[new_node.0 as int].outputs@[i as int]),
        ),
    }
}

/// Drops are terminal: an unpaired drop never persists as the latch to wait
/// for a future event.
pub open spec fn drop_filtered(a: Option<(NodeId, NodeAction)>) -> Option<(NodeId, NodeAction)> {
    match a {
        Some((n, NodeAction::DropInput(_))) => None,
        Some((n, NodeAction::DropOutput(_))) => None,
        _ => a,
    }
}

/// The latch carried to the next cycle: cleared when a pairing resolved,
/// else this cycle's recorded action with unpaired drops filtered out.
pub open spec fn latch_after(pre: GraphBuilder, ev: Event, m: Mouse) -> Option<
    (NodeId, NodeAction),
> {
    if resolution(pre, ev, m) is Some {
        None
    } else {
        drop_filtered(first_action(pre.nodes@, ev, m))
    }
}

/// The outcome `event` returns for this cycle.
pub open spec fn event_outcome(pre: GraphBuilder, ev: Event, m: Mouse) -> Option<GraphAction> {
    match resolution(pre, ev, m) {
        Some((new_node, resp)) => outcome_of(pre.nodes@, new_node, resp),
        None => None,
    }
}

/// The full relation between the builder before and after one dispatch
/// cycle: every node sees the event and updates its own latched action;
/// a resolved connection writes the sender's output handle into the
/// receiver's input slot (overwriting prior wiring there) and appends the
/// edge; everything else is untouched.
pub open spec fn event_post(
    pre: GraphBuilder,
    post: GraphBuilder,
    ev: Event,
    m: Mouse,
    r: Option<GraphAction>,
) -> bool {
    &&& post.nodes@.len() == pre.nodes@.len()
    &&& forall|j: int|
        #![trigger post.nodes@[j]]
        0 <= j < pre.nodes@.len() ==> {
            &&& post.nodes@[j].name == pre.nodes@[j].name
            &&& post.nodes@[j].op == pre.nodes@[j].op
            &&& post.nodes@[j].pos == pre.nodes@[j].pos
            &&& post.nodes@[j].outputs == pre.nodes@[j].outputs
            &&& post.nodes@[j].action == action_after(pre.nodes@[j], ev, m)
        }
    &&& post.vars == pre.vars
    &&& post.graph == pre.graph
    &&& post.dim_vars == pre.dim_vars
    &&& post.node_action == latch_after(pre, ev, m)
    &&& r == event_outcome(pre, ev, m)
    &&& match resolution(pre, ev, m) {
        Some((nn, NodeResponse::Connect(s, si, rv, ri))) => {
            &&& post.nodes@[rv.0 as int].inputs@ == pre.nodes@[rv.0 as int].inputs@.update(
                ri as int,
                Some(pre.nodes@[s.0 as int].outputs@[si as int]),
            )
            &&& forall|j: int|
                #![trigger post.nodes@[j].inputs]
                0 <= j < pre.nodes@.len() && j != rv.0 ==> post.nodes@[j].inputs
                    == pre.nodes@[j].inputs
            &&& post.edges@ == pre.edges@.push((s, si, rv, ri))
        },
        _ => {
            &&& forall|j: int|
                #![trigger post.nodes@[j].inputs]
                0 <= j < pre.nodes@.len() ==> post.nodes@[j].inputs == pre.nodes@[j].inputs
            &&& post.edges == pre.edges
        },
    }
}

/// The action this cycle records names an existing node and one of its
/// ports, provided every node's own latched action already did.
pub proof fn lemma_first_action_in_bounds(nodes: Seq<Node>, ev: Event, m: Mouse, k: int)
    requires
        nodes.len() <= usize::MAX,
        forall|j: int|
            0 <= j < nodes.len() ==> ((#[trigger] nodes[j]).action matches Some(a)
                ==> action_in_bounds(a, nodes[j])),
    ensures
        first_action_from(nodes, ev, m, k) matches Some((nid, a)) ==> k <= nid.0 < nodes.len()
            && action_in_bounds(a, nodes[nid.0 as int]),
    decreases nodes.len() - k,
{
    if 0 <= k < nodes.len() {
        lemma_action_after_in_bounds(nodes[k], ev, m);
        lemma_first_action_in_bounds(nodes, ev, m, k + 1);
    }
}

impl GraphBuilder {
    /// Route one input event to every node in insertion order, then resolve
    /// at most one cross-node outcome: the previously latched action paired
    /// against the first action this cycle produced.  A resolved connection
    /// writes the sender's output handle into the receiver's input slot;
    /// a resolved selection surfaces the selected port's variable.
    pub fn event(&mut self, event: &Event, mouse: &Mouse) -> (r: Option<GraphAction>)
        requires
            old(self).wf(),
        ensures
            final(self).wf(),
            event_post(*old(self), *final(self), *event, *mouse, r),
    {
        let ghost pre = *old(self);

        let mut new_action: Option<(NodeId, NodeAction)> = None;
        let mut i: usize = 0;
        while i < self.nodes.len()
            invariant
                i <= pre.nodes@.len(),
                self.nodes@.len() == pre.nodes@.len(),
                self.vars == pre.vars,
                self.graph == pre.graph,
                self.dim_vars == pre.dim_vars,
                self.edges == pre.edges,
                self.node_action == pre.node_action,
                forall|j: int|
                    #![trigger self.nodes@[j]]
                    0 <= j < i ==> {
                        &&& self.nodes@[j].name == pre.nodes@[j].name
                        &&& self.nodes@[j].op == pre.nodes@[j].op
                        &&& self.nodes@[j].pos == pre.nodes@[j].pos
                        &&& self.nodes@[j].inputs == pre.nodes@[j].inputs
                        &&& self.nodes@[j].outputs == pre.nodes@[j].outputs
                        &&& self.nodes@[j].action == action_after(pre.nodes@[j], *event, *mouse)
                    },
                forall|j: int| i <= j < pre.nodes@.len() ==> self.nodes@[j] == pre.nodes@[j],
                match new_action {
                    Some(x) => first_action(pre.nodes@, *event, *mouse) == Some(x),
                    None => first_action(pre.nodes@, *event, *mouse) == first_action_from(
                        pre.nodes@,
                        *event,
                        *mouse,
                        i as int,
                    ),
                },
            decreases pre.nodes@.len() - i,
        {
            self.nodes[i].event(event, mouse);
            if new_action.is_none() {
                let latched = self.nodes[i].action;
                match latched {
                    Some(action) => {
                        new_action = Some((NodeId(i), action));
                    },
                    None => {},
                }
            }
            i = i + 1;
        }

        proof {
            vstd::std_specs::vec::axiom_spec_len(&pre.nodes);
            lemma_first_action_in_bounds(pre.nodes@, *event, *mouse, 0);
            assert(new_action == first_action(pre.nodes@, *event, *mouse));
        }

        let mut graph_action: Option<GraphAction> = None;
        if let Some((old_node, old_action)) = self.node_action {
            if let Some((new_node, na)) = new_action {
                if let Some(response) = old_action.happened_before(&na, (old_node, new_node)) {
                    match response {
                        NodeResponse::Connect(send_node, send_index, recv_node, recv_index) => {
                            proof {
                                assert(send_node.0 < pre.nodes@.len() && recv_node.0
                                    < pre.nodes@.len());
                                assert(send_index < self.nodes@[send_node.0 as int].outputs@.len());
                                assert(recv_index < self.nodes@[recv_node.0 as int].inputs@.len());
                            }
                            let v = self.nodes[send_node.0].outputs[send_index];
                            self.nodes[recv_node.0].inputs[recv_index] = Some(v);
                            self.edges.push((send_node, send_index, recv_node, recv_index));
                            graph_action = Some(
                                GraphAction::ConnectionMade(
                                    send_node,
                                    send_index,
                                    recv_node,
                                    recv_index,
                                ),
                            );
                        },
                        NodeResponse::Select => {
                            graph_action = Some(GraphAction::SelectNode(new_node));
                        },
                        NodeResponse::SelectInput(idx) => {
                            if let Some(v) = self.nodes[new_node.0].inputs[idx] {
                                graph_action = Some(GraphAction::SelectVariable(v));
                            }
                        },
                        NodeResponse::SelectOutput(idx) => {
                            let v = self.nodes[new_node.0].outputs[idx];
                            graph_action = Some(GraphAction::SelectVariable(v));
                        },
                    }
                    new_action = None;
                }
            }
        }

        if let Some((_, a)) = new_action {
            match a {
                NodeAction::DropInput(_) => {
                    new_action = None;
                },
                NodeAction::DropOutput(_) => {
                    new_action = None;
                },
                _ => {},
            }
        }
        self.node_action = new_action;

        proof {
            assert forall|j: int| 0 <= j < self.nodes@.len() implies node_ports_wf(
                #[trigger] self.nodes@[j],
                self.vars@.len(),
            ) by {
                assert(node_ports_wf(pre.nodes@[j], pre.vars@.len()));
                lemma_action_after_in_bounds(pre.nodes@[j], *event, *mouse);
            }
        }

        graph_action
    }
}

impl NodeId {
    pub fn get<'a>(&self, graph: &'a GraphBuilder) -> (r: &'a Node)
        requires
            self.0 < graph.nodes@.len(),
        ensures
            *r == graph.nodes@[self.0 as int],
    {
        &graph.nodes[self.0]
    }
}

impl DimVar {
    pub fn get<'a>(&self, graph: &'a GraphBuilder) -> (r: &'a usize)
        requires
            self.0 < graph.dim_vars@.len(),
        ensures
            *r == graph.dim_vars@[self.0 as int],
    {
        &graph.dim_vars[self.0]
    }
}

/// Law: dragging from an output and dropping on an input always commits a
/// connection, writing the sender's output handle into the receiver's input
/// slot — regardless of any wiring already at that slot, which is
/// overwritten (an input accepts only the most recent connection).
pub proof fn lemma_drag_output_drop_input_connects(
    pre: GraphBuilder,
    post: GraphBuilder,
    ev: Event,
    m: Mouse,
    r: Option<GraphAction>,
    a: NodeId,
    o: usize,
    b: NodeId,
    i: usize,
)
    requires
        pre.wf(),
        pre.node_action == Some((a, NodeAction::DragOutput(o))),
        first_action(pre.nodes@, ev, m) == Some((b, NodeAction::DropInput(i))),
        event_post(pre, post, ev, m, r),
    ensures
        resolution(pre, ev, m) == Some((b, NodeResponse::Connect(a, o, b, i))),
        post.nodes@[b.0 as int].inputs@[i as int] == Some(pre.nodes@[a.0 as int].outputs@[o as int]),
        r == Some(GraphAction::ConnectionMade(a, o, b, i)),
{
    vstd::std_specs::vec::axiom_spec_len(&pre.nodes);
    lemma_first_action_in_bounds(pre.nodes@, ev, m, 0);
}

/// Law: repeating a connection gesture onto the same input slot from a
/// different output overwrites the prior wiring.  After a first connection
/// into slot `i` of node `b`, a fresh drag from output `o2` of node `a2`
/// dropped on that same slot leaves it wired to `a2`'s output, whatever it
/// held before.
pub proof fn lemma_reconnect_overwrites(
    s0: GraphBuilder,
    s1: GraphBuilder,
    s1b: GraphBuilder,
    s2: GraphBuilder,
    ev1: Event,
    m1: Mouse,
    ev2: Event,
    m2: Mouse,
    ev3: Event,
    m3: Mouse,
    r1: Option<GraphAction>,
    r2: Option<GraphAction>,
    r3: Option<GraphAction>,
    a1: NodeId,
    o1: usize,
    a2: NodeId,
    o2: usize,
    b: NodeId,
    i: usize,
)
    requires
        s0.wf(),
        s1.wf(),
        s1b.wf(),
        // first gesture: a drag latched from a1's output o1 is dropped on b's input i
        s0.node_action == Some((a1, NodeAction::DragOutput(o1))),
        first_action(s0.nodes@, ev1, m1) == Some((b, NodeAction::DropInput(i))),
        event_post(s0, s1, ev1, m1, r1),
        // second gesture: a press latches a drag from a2's output o2 ...
        first_action(s1.nodes@, ev2, m2) == Some((a2, NodeAction::DragOutput(o2))),
        event_post(s1, s1b, ev2, m2, r2),
        // ... and a release drops it on the same input slot
        first_action(s1b.nodes@, ev3, m3) == Some((b, NodeAction::DropInput(i))),
        event_post(s1b, s2, ev3, m3, r3),
    ensures
        s1.nodes@[b.0 as int].inputs@[i as int] == Some(
            s0.nodes@[a1.0 as int].outputs@[o1 as int],
        ),
        s2.nodes@[b.0 as int].inputs@[i as int] == Some(
            s0.nodes@[a2.0 as int].outputs@[o2 as int],
        ),
        r3 == Some(GraphAction::ConnectionMade(a2, o2, b, i)),
{
    vstd::std_specs::vec::axiom_spec_len(&s0.nodes);
    vstd::std_specs::vec::axiom_spec_len(&s1.nodes);
    vstd::std_specs::vec::axiom_spec_len(&s1b.nodes);
    lemma_drag_output_drop_input_connects(s0, s1, ev1, m1, r1, a1, o1, b, i);
    // the press cycle pairs nothing (a drag is not a drop), so the drag is
    // latched for the release cycle
    lemma_first_action_in_bounds(s0.nodes@, ev1, m1, 0);
    lemma_first_action_in_bounds(s1.nodes@, ev2, m2, 0);
    assert(resolution(s1, ev2, m2) is None);
    assert(s1b.node_action == Some((a2, NodeAction::DragOutput(o2))));
    lemma_drag_output_drop_input_connects(s1b, s2, ev3, m3, r3, a2, o2, b, i);
    // outputs are never rewritten by dispatch, so the handle written into
    // the slot is the one a2 was created with
    assert(s1b.nodes@[a2.0 as int].outputs == s1.nodes@[a2.0 as int].outputs);
    assert(s1.nodes@[a2.0 as int].outputs == s0.nodes@[a2.0 as int].outputs);
}

/// Law: the pairing is direction-agnostic.  Dragging from an input and
/// dropping on an output resolves to the same connection as the symmetric
/// gesture begun on the output side, and wires the same slot to the same
/// handle: the sender is whichever side holds the output.
pub proof fn lemma_drag_input_drop_output_connects(
    pre: GraphBuilder,
    post: GraphBuilder,
    ev: Event,
    m: Mouse,
    r: Option<GraphAction>,
    a: NodeId,
    i: usize,
    b: NodeId,
    o: usize,
)
    requires
        pre.wf(),
        pre.node_action == Some((a, NodeAction::DragInput(i))),
        first_action(pre.nodes@, ev, m) == Some((b, NodeAction::DropOutput(o))),
        event_post(pre, post, ev, m, r),
    ensures
        pairing(NodeAction::DragInput(i), NodeAction::DropOutput(o), a, b) == pairing(
            NodeAction::DragOutput(o),
            NodeAction::DropInput(i),
            b,
            a,
        ),
        resolution(pre, ev, m) == Some((b, NodeResponse::Connect(b, o, a, i))),
        post.nodes@[a.0 as int].inputs@[i as int] == Some(pre.nodes@[b.0 as int].outputs@[o as int]),
        r == Some(GraphAction::ConnectionMade(b, o, a, i)),
{
    vstd::std_specs::vec::axiom_spec_len(&pre.nodes);
    lemma_first_action_in_bounds(pre.nodes@, ev, m, 0);
}

/// Law: a drop with no preceding drag yields no connection and no
/// selection: the cycle has no outcome, no input slot changes, no edge is
/// added, and the unpaired drop does not stay armed for a later event.
pub proof fn lemma_drop_without_drag_is_noop(
    pre: GraphBuilder,
    post: GraphBuilder,
    ev: Event,
    m: Mouse,
    r: Option<GraphAction>,
)
    requires
        pre.node_action is None,
        event_post(pre, post, ev, m, r),
    ensures
        r is None,
        forall|j: int|
            0 <= j < pre.nodes@.len() ==> (#[trigger] post.nodes@[j]).inputs == pre.nodes@[j].inputs,
        post.edges == pre.edges,
        (first_action(pre.nodes@, ev, m) matches Some((n, act)) && (act is DropInput || act
            is DropOutput)) ==> post.node_action is None,
{
}

/// Law: dragging an output and dropping on another output selects that
/// output's variable — the one allocated for it in the store — and commits
/// no connection: no input slot changes and no edge is added.
pub proof fn lemma_drop_on_output_selects(
    pre: GraphBuilder,
    post: GraphBuilder,
    ev: Event,
    m: Mouse,
    r: Option<GraphAction>,
    a: NodeId,
    o1: usize,
    b: NodeId,
    o2: usize,
)
    requires
        pre.wf(),
        pre.node_action == Some((a, NodeAction::DragOutput(o1))),
        first_action(pre.nodes@, ev, m) == Some((b, NodeAction::DropOutput(o2))),
        event_post(pre, post, ev, m, r),
    ensures
        resolution(pre, ev, m) == Some((b, NodeResponse::SelectOutput(o2))),
        r == Some(GraphAction::SelectVariable(pre.nodes@[b.0 as int].outputs@[o2 as int])),
        forall|j: int|
            0 <= j < pre.nodes@.len() ==> (#[trigger] post.nodes@[j]).inputs == pre.nodes@[j].inputs,
        post.edges == pre.edges,
{
    vstd::std_specs::vec::axiom_spec_len(&pre.nodes);
    lemma_first_action_in_bounds(pre.nodes@, ev, m, 0);
}

/// A fatal compilation fault: the node and input slot at which the build
/// had to abort.
#[derive(Copy, Clone, Debug, PartialEq, Eq, Structural)]
pub enum BuildError {
    /// The input slot was never connected.
    MissingInput { node: NodeId, input: usize },
    /// The connected variable has no backend handle: its producer was
    /// neither built earlier in insertion order nor materialized.
    UnbuiltInput { node: NodeId, input: usize },
}

/// Resolve one input slot of a node to the backend handle of its variable.
pub open spec fn input_handle(vars: Seq<Variable>, n: Node, nid: NodeId, i: int) -> Result<
    GpuVarIndex,
    BuildError,
>
    recommends
        0 <= i < n.inputs@.len(),
{
    match n.inputs@[i] {
        None => Err(BuildError::MissingInput { node: nid, input: i as usize }),
        Some(v) => match vars[v.0 as int].gpu {
            None => Err(BuildError::UnbuiltInput { node: nid, input: i as usize }),
            Some(h) => Ok(h),
        },
    }
}

/// The common effect of building an operation node once its input handles
/// are resolved: one backend node is recorded, reading `handles` and
/// writing a freshly allocated backend tensor of the output variable's
/// shape, whose handle is written back into the store entry of the node's
/// output.
pub open spec fn op_node_model(vars: Seq<Variable>, g: GraphModel, n: Node, handles: Seq<GpuVarIndex>) -> (
    Seq<Variable>,
    GraphModel,
)
    recommends
        n.outputs@.len() == 1,
        n.outputs@[0].0 < vars.len(),
{
    let out = n.outputs@[0];
    let out_shape = vars[out.0 as int].shape;
    let out_handle = GpuVarIndex(g.vars.len() as usize);
    let vars2 = vars.update(
        out.0 as int,
        (Variable { shape: out_shape, gpu: Some(out_handle), managed: vars[out.0 as int].managed }),
    );
    let g2 = GraphModel {
        vars: g.vars.push(out_shape),
        nodes: g.nodes.push((GpuNodeModel { op: n.op, inputs: handles, outputs: seq![out_handle] })),
        gradients: g.gradients,
    };
    (vars2, g2)
}

/// What building one node does to the store and the backend graph, or the
/// fault it aborts on.  Dispatch is by operation kind, one build procedure
/// per variant; a `Variable` node allocates backend storage for its output
/// unless the store pass already materialized it, and a loss node also
/// receives a gradient tensor seeded by the host.
pub open spec fn build_node_model(vars: Seq<Variable>, g: GraphModel, n: Node, nid: NodeId) -> Result<
    (Seq<Variable>, GraphModel),
    BuildError,
> {
    match n.op {
        OpKind::MatMul => match input_handle(vars, n, nid, 0) {
            Err(e) => Err(e),
            Ok(h0) => match input_handle(vars, n, nid, 1) {
                Err(e) => Err(e),
                Ok(h1) => Ok(op_node_model(vars, g, n, seq![h0, h1])),
            },
        },
        OpKind::Relu => match input_handle(vars, n, nid, 0) {
            Err(e) => Err(e),
            Ok(h0) => Ok(op_node_model(vars, g, n, seq![h0])),
        },
        OpKind::Mse => match input_handle(vars, n, nid, 0) {
            Err(e) => Err(e),
            Ok(h0) => match input_handle(vars, n, nid, 1) {
                Err(e) => Err(e),
                Ok(h1) => {
                    let built = op_node_model(vars, g, n, seq![h0, h1]);
                    let out_shape = vars[n.outputs@[0].0 as int].shape;
                    let g2 = built.1;
                    Ok(
                        (
                            built.0,
                            GraphModel {
                                vars: g2.vars.push(out_shape),
                                nodes: g2.nodes,
                                gradients: g2.gradients.push(
                                    (
                                        GpuNodeIndex(g.nodes.len() as usize),
                                        0usize,
                                        GpuVarIndex(g2.vars.len() as usize),
                                    ),
                                ),
                            },
                        ),
                    )
                },
            },
        },
        OpKind::Variable => {
            let out = n.outputs@[0];
            if vars[out.0 as int].gpu is Some {
                Ok((vars, g))
            } else {
                let shape = vars[out.0 as int].shape;
                let handle = GpuVarIndex(g.vars.len() as usize);
                Ok(
                    (
                        vars.update(
                            out.0 as int,
                            (Variable {
                                shape,
                                gpu: Some(handle),
                                managed: vars[out.0 as int].managed,
                            }),
                        ),
                        GraphModel { vars: g.vars.push(shape), nodes: g.nodes, gradients: g.gradients },
                    ),
                )
            }
        },
    }
}

/// The store and the backend graph after building the nodes from position
/// `k` on, in insertion order, stopping at the first fault; the state
/// reached so far is kept either way (compilation is not transactional).
pub open spec fn build_nodes_from(vars: Seq<Variable>, g: GraphModel, nodes: Seq<Node>, k: int) -> (
    Seq<Variable>,
    GraphModel,
    Option<BuildError>,
)
    decreases nodes.len() - k,
{
    if !(0 <= k < nodes.len()) {
        (vars, g, None)
    } else {
        match build_node_model(vars, g, nodes[k], NodeId(k as usize)) {
            Ok(res) => build_nodes_from(res.0, res.1, nodes, k + 1),
            Err(e) => (vars, g, Some(e)),
        }
    }
}

/// Everything `gpu_build` does: the store's materialization pass, then each
/// node's build step in insertion order.
pub open spec fn build_all(pre: GraphBuilder) -> (Seq<Variable>, GraphModel, Option<BuildError>) {
    let m = materialize_from(pre.vars@, pre.graph@, 0);
    build_nodes_from(m.0, m.1, pre.nodes@, 0)
}

/// The relation between the builder before and after compilation.
pub open spec fn build_post(pre: GraphBuilder, post: GraphBuilder, r: Result<(), BuildError>) -> bool {
    &&& post.vars@ == build_all(pre).0
    &&& post.graph@ == build_all(pre).1
    &&& r == match build_all(pre).2 {
        None => Ok::<(), BuildError>(()),
        Some(e) => Err::<(), BuildError>(e),
    }
    &&& post.nodes == pre.nodes
    &&& post.edges == pre.edges
    &&& post.dim_vars == pre.dim_vars
    &&& post.node_action == pre.node_action
}

/// A variable's backend handle is available when the first `k` nodes have
/// been built: it already had one before compilation, or the store pass
/// materializes it (managed), or it is the output of a node built earlier.
pub open spec fn avail(vars0: Seq<Variable>, nodes: Seq<Node>, k: int, v: VarIndex) -> bool {
    ||| vars0[v.0 as int].gpu is Some
    ||| vars0[v.0 as int].managed
    ||| exists|l: int| 0 <= l < k && (#[trigger] nodes[l]).outputs@[0] == v
}

/// Input slot `i` of node `j` is wired, and its variable's handle is
/// available by the time node `j` is built.
pub open spec fn input_ready(vars0: Seq<Variable>, nodes: Seq<Node>, j: int, i: int) -> bool {
    match nodes[j].inputs@[i] {
        Some(v) => avail(vars0, nodes, j, v),
        None => false,
    }
}

/// The topological precondition of compilation: every input of every node
/// references a variable whose handle is available when that node is
/// built.  Compilation succeeds exactly on graphs satisfying this.
pub open spec fn inputs_ready(pre: GraphBuilder) -> bool {
    forall|j: int, i: int|
        #![trigger input_ready(pre.vars@, pre.nodes@, j, i)]
        0 <= j < pre.nodes@.len() && 0 <= i < pre.nodes@[j].inputs@.len() ==> input_ready(
            pre.vars@,
            pre.nodes@,
            j,
            i,
        )
}

/// Building node `k` succeeds exactly when each of its inputs is ready,
/// given that handle availability describes the store's current state.
proof fn lemma_build_step_ready(
    vars0: Seq<Variable>,
    varsk: Seq<Variable>,
    g: GraphModel,
    nodes: Seq<Node>,
    k: int,
)
    requires
        0 <= k < nodes.len(),
        nodes.len() <= usize::MAX,
        vars0.len() <= usize::MAX,
        varsk.len() == vars0.len(),
        node_ports_wf(nodes[k], vars0.len()),
        forall|v: int|
            0 <= v < vars0.len() ==> ((#[trigger] varsk[v]).gpu is Some <==> avail(
                vars0,
                nodes,
                k,
                VarIndex(v as usize),
            )),
    ensures
        build_node_model(varsk, g, nodes[k], NodeId(k as usize)) is Ok <==> (forall|i: int|
            0 <= i < nodes[k].inputs@.len() ==> input_ready(vars0, nodes, k, i)),
{
    let n = nodes[k];
    let nid = NodeId(k as usize);
    assert forall|i: int| 0 <= i < n.inputs@.len() implies (input_handle(varsk, n, nid, i) is Ok
        <==> input_ready(vars0, nodes, k, i)) by {
        match n.inputs@[i] {
            Some(v) => {
                assert(v.0 < vars0.len());
                assert(VarIndex(v.0 as usize) == v);
                assert(varsk[v.0 as int].gpu is Some <==> avail(vars0, nodes, k, v));
            },
            None => {},
        }
    }
    match n.op {
        OpKind::MatMul => {
            assert(n.inputs@.len() == 2);
            if build_node_model(varsk, g, n, nid) is Ok {
                assert forall|i: int| 0 <= i < n.inputs@.len() implies input_ready(
                    vars0,
                    nodes,
                    k,
                    i,
                ) by {
                    assert(input_handle(varsk, n, nid, 0) is Ok);
                    assert(input_handle(varsk, n, nid, 1) is Ok);
                }
            } else {
                assert(input_handle(varsk, n, nid, 0) is Err || input_handle(varsk, n, nid, 1)
                    is Err);
                assert(!input_ready(vars0, nodes, k, 0) || !input_ready(vars0, nodes, k, 1));
            }
        },
        OpKind::Mse => {
            assert(n.inputs@.len() == 2);
            if build_node_model(varsk, g, n, nid) is Ok {
                assert forall|i: int| 0 <= i < n.inputs@.len() implies input_ready(
                    vars0,
                    nodes,
                    k,
                    i,
                ) by {
                    assert(input_handle(varsk, n, nid, 0) is Ok);
                    assert(input_handle(varsk, n, nid, 1) is Ok);
                }
            } else {
                assert(!input_ready(vars0, nodes, k, 0) || !input_ready(vars0, nodes, k, 1));
            }
        },
        OpKind::Relu => {
            assert(n.inputs@.len() == 1);
            if build_node_model(varsk, g, n, nid) is Ok {
                assert forall|i: int| 0 <= i < n.inputs@.len() implies input_ready(
                    vars0,
                    nodes,
                    k,
                    i,
                ) by {
                    assert(input_handle(varsk, n, nid, 0) is Ok);
                }
            } else {
                assert(!input_ready(vars0, nodes, k, 0));
            }
        },
        OpKind::Variable => {
            assert(n.inputs@.len() == 0);
        },
    }
}

/// After node `k` builds successfully, handle availability again describes
/// the store: node `k`'s output gained its handle, nothing else changed.
proof fn lemma_build_step_avail(
    vars0: Seq<Variable>,
    varsk: Seq<Variable>,
    g: GraphModel,
    nodes: Seq<Node>,
    k: int,
    vars_next: Seq<Variable>,
)
    requires
        0 <= k < nodes.len(),
        vars0.len() <= usize::MAX,
        varsk.len() == vars0.len(),
        node_ports_wf(nodes[k], vars0.len()),
        forall|v: int|
            0 <= v < vars0.len() ==> ((#[trigger] varsk[v]).gpu is Some <==> avail(
                vars0,
                nodes,
                k,
                VarIndex(v as usize),
            )),
        build_node_model(varsk, g, nodes[k], NodeId(k as usize)) matches Ok(res) && res.0
            == vars_next,
    ensures
        vars_next.len() == vars0.len(),
        forall|v: int|
            0 <= v < vars0.len() ==> ((#[trigger] vars_next[v]).gpu is Some <==> avail(
                vars0,
                nodes,
                k + 1,
                VarIndex(v as usize),
            )),
{
    let n = nodes[k];
    let out = n.outputs@[0];
    assert(out.0 < vars0.len());
    assert(vars_next[out.0 as int].gpu is Some);
    assert forall|v: int| 0 <= v < vars0.len() implies ((#[trigger] vars_next[v]).gpu is Some
        <==> avail(vars0, nodes, k + 1, VarIndex(v as usize))) by {
        let vi = VarIndex(v as usize);
        if v == out.0 {
            assert(nodes[k].outputs@[0] == vi);
            assert(avail(vars0, nodes, k + 1, vi));
        } else {
            assert(vars_next[v] == varsk[v]);
            if avail(vars0, nodes, k + 1, vi) {
                if !(vars0[v].gpu is Some) && !vars0[v].managed {
                    let l = choose|l: int| 0 <= l < k + 1 && (#[trigger] nodes[l]).outputs@[0]
                        == vi;
                    assert(l != k);
                    assert(avail(vars0, nodes, k, vi));
                }
            }
            if avail(vars0, nodes, k, vi) {
                if !(vars0[v].gpu is Some) && !vars0[v].managed {
                    let l = choose|l: int| 0 <= l < k && (#[trigger] nodes[l]).outputs@[0] == vi;
                    assert(0 <= l < k + 1 && nodes[l].outputs@[0] == vi);
                }
            }
        }
    }
}

/// Build one node against the store and the backend graph; on a fault the
/// step aborts with both untouched.
fn build_node(vars: &mut VarStore, graph: &mut Graph, node: &Node, nid: NodeId) -> (r: Result<
    (),
    BuildError,
>)
    requires
        node_ports_wf(*node, old(vars)@.len()),
    ensures
        final(vars)@.len() == old(vars)@.len(),
        match build_node_model(old(vars)@, old(graph)@, *node, nid) {
            Ok(res) => r is Ok && final(vars)@ == res.0 && final(graph)@ == res.1,
            Err(e) => r == Err::<(), BuildError>(e) && final(vars)@ == old(vars)@ && final(graph)@
                == old(graph)@,
        },
{
    match node.op {
        OpKind::MatMul => {
            let a = match node.inputs[0] {
                Some(v) => v,
                None => {
                    return Err(BuildError::MissingInput { node: nid, input: 0 });
                },
            };
            let ga = match vars.get(a).gpu {
                Some(h) => h,
                None => {
                    return Err(BuildError::UnbuiltInput { node: nid, input: 0 });
                },
            };
            let b = match node.inputs[1] {
                Some(v) => v,
                None => {
                    return Err(BuildError::MissingInput { node: nid, input: 1 });
                },
            };
            let gb = match vars.get(b).gpu {
                Some(h) => h,
                None => {
                    return Err(BuildError::UnbuiltInput { node: nid, input: 1 });
                },
            };
            let out = node.outputs[0];
            let out_shape = vars.get(out).shape;
            let mut handles: Vec<GpuVarIndex> = Vec::new();
            handles.push(ga);
            handles.push(gb);
            let mut out_shapes: Vec<(usize, usize)> = Vec::new();
            out_shapes.push(out_shape);
            proof {
                assert(handles@ =~= seq![ga, gb]);
            }
            let gpu_node = graph.add_node(OpKind::MatMul, handles, &out_shapes);
            let h = graph.get_node(gpu_node).outputs[0];
            vars.get_mut(out).gpu = Some(h);
            proof {
                let m = op_node_model(old(vars)@, old(graph)@, *node, seq![ga, gb]);
                assert(graph@.vars =~= m.1.vars);
                assert(graph@.nodes =~~= m.1.nodes);
                assert(vars@ =~= m.0);
            }
            Ok(())
        },
        OpKind::Relu => {
            let a = match node.inputs[0] {
                Some(v) => v,
                None => {
                    return Err(BuildError::MissingInput { node: nid, input: 0 });
                },
            };
            let ga = match vars.get(a).gpu {
                Some(h) => h,
                None => {
                    return Err(BuildError::UnbuiltInput { node: nid, input: 0 });
                },
            };
            let out = node.outputs[0];
            let out_shape = vars.get(out).shape;
            let mut handles: Vec<GpuVarIndex> = Vec::new();
            handles.push(ga);
            let mut out_shapes: Vec<(usize, usize)> = Vec::new();
            out_shapes.push(out_shape);
            proof {
                assert(handles@ =~= seq![ga]);
            }
            let gpu_node = graph.add_node(OpKind::Relu, handles, &out_shapes);
            let h = graph.get_node(gpu_node).outputs[0];
            vars.get_mut(out).gpu = Some(h);
            proof {
                let m = op_node_model(old(vars)@, old(graph)@, *node, seq![ga]);
                assert(graph@.vars =~= m.1.vars);
                assert(graph@.nodes =~~= m.1.nodes);
                assert(vars@ =~= m.0);
            }
            Ok(())
        },
        OpKind::Mse => {
            let a = match node.inputs[0] {
                Some(v) => v,
                None => {
                    return Err(BuildError::MissingInput { node: nid, input: 0 });
                },
            };
            let ga = match vars.get(a).gpu {
                Some(h) => h,
                None => {
                    return Err(BuildError::UnbuiltInput { node: nid, input: 0 });
                },
            };
            let b = match node.inputs[1] {
                Some(v) => v,
                None => {
                    return Err(BuildError::MissingInput { node: nid, input: 1 });
                },
            };
            let gb = match vars.get(b).gpu {
                Some(h) => h,
                None => {
                    return Err(BuildError::UnbuiltInput { node: nid, input: 1 });
                },
            };
            let out = node.outputs[0];
            let out_shape = vars.get(out).shape;
            let mut handles: Vec<GpuVarIndex> = Vec::new();
            handles.push(ga);
            handles.push(gb);
            let mut out_shapes: Vec<(usize, usize)> = Vec::new();
            out_shapes.push(out_shape);
            proof {
                assert(handles@ =~= seq![ga, gb]);
            }
            let gpu_node = graph.add_node(OpKind::Mse, handles, &out_shapes);
            let h = graph.get_node(gpu_node).outputs[0];
            vars.get_mut(out).gpu = Some(h);
            // The gradient of the loss output; seeding it with the initial
            // error signal is device work the host performs after building.
            let _gradient = graph.add_gradient(gpu_node, 0);
            proof {
                let m = build_node_model(old(vars)@, old(graph)@, *node, nid);
                assert(m is Ok);
                assert(graph@.vars =~= m->Ok_0.1.vars);
                assert(graph@.nodes =~~= m->Ok_0.1.nodes);
                assert(graph@.gradients =~= m->Ok_0.1.gradients);
                assert(vars@ =~= m->Ok_0.0);
            }
            Ok(())
        },
        OpKind::Variable => {
            let out = node.outputs[0];
            if vars.get(out).gpu.is_none() {
                let shape = vars.get(out).shape;
                let h = graph.add_variable(shape);
                vars.get_mut(out).gpu = Some(h);
                proof {
                    let m = build_node_model(old(vars)@, old(graph)@, *node, nid);
                    assert(m is Ok);
                    assert(vars@ =~= m->Ok_0.0);
                    assert(graph@.vars =~= m->Ok_0.1.vars);
                }
            }
            Ok(())
        },
    }
}

impl GraphBuilder {
    /// Compile the authored graph, once per session: first the store's
    /// materialization pass, then each node's build step in insertion
    /// order.  Insertion order is the de facto topological constraint: a
    /// node's inputs must be produced by nodes built earlier, or be
    /// materialized variables.  The first unset input slot or unbuilt input
    /// variable is fatal; compilation aborts there, keeping the state built
    /// so far (it is not transactional), and reports the node and slot.
    pub fn gpu_build(&mut self) -> (r: Result<(), BuildError>)
        requires
            old(self).wf(),
        ensures
            final(self).wf(),
            build_post(*old(self), *final(self), r),
            r is Ok <==> inputs_ready(*old(self)),
    {
        let ghost pre = *old(self);
        let ghost vars0 = self.vars@;
        let ghost g0 = self.graph@;
        let n_store_vars = self.vars.len();
        proof {
            assert(vars0.len() == n_store_vars);
        }
        self.vars.gpu_build(&mut self.graph);
        let ghost vars1 = self.vars@;
        let ghost g1 = self.graph@;
        proof {
            vstd::std_specs::vec::axiom_spec_len(&pre.nodes);
            crate::var_store::lemma_materialize_pointwise(vars0, g0, 0);
            assert forall|v: int| 0 <= v < vars0.len() implies ((#[trigger] vars1[v]).gpu is Some
                <==> avail(vars0, pre.nodes@, 0, VarIndex(v as usize))) by {
                assert(!(exists|l: int|
                    0 <= l < 0 && (#[trigger] pre.nodes@[l]).outputs@[0] == VarIndex(v as usize)));
            }
        }
        let n_nodes = self.nodes.len();
        let mut k: usize = 0;
        while k < n_nodes
            invariant
                k <= pre.nodes@.len(),
                n_nodes == pre.nodes@.len(),
                pre == *old(self),
                pre.nodes@.len() <= usize::MAX,
                vars0.len() <= usize::MAX,
                pre.wf(),
                vars0 == pre.vars@,
                g0 == pre.graph@,
                (vars1, g1) == materialize_from(vars0, g0, 0),
                self.nodes == pre.nodes,
                self.edges == pre.edges,
                self.dim_vars == pre.dim_vars,
                self.node_action == pre.node_action,
                self.vars@.len() == vars0.len(),
                build_nodes_from(vars1, g1, pre.nodes@, 0) == build_nodes_from(
                    self.vars@,
                    self.graph@,
                    pre.nodes@,
                    k as int,
                ),
                forall|v: int|
                    0 <= v < vars0.len() ==> ((#[trigger] self.vars@[v]).gpu is Some <==> avail(
                        vars0,
                        pre.nodes@,
                        k as int,
                        VarIndex(v as usize),
                    )),
                forall|j: int, i: int|
                    #![trigger input_ready(vars0, pre.nodes@, j, i)]
                    0 <= j < k && 0 <= i < pre.nodes@[j].inputs@.len() ==> input_ready(
                        vars0,
                        pre.nodes@,
                        j,
                        i,
                    ),
            decreases n_nodes - k,
        {
            let ghost varsk = self.vars@;
            let ghost gk = self.graph@;
            proof {
                assert(node_ports_wf(pre.nodes@[k as int], vars0.len()));
            }
            let res = build_node(&mut self.vars, &mut self.graph, &self.nodes[k], NodeId(k));
            proof {
                lemma_build_step_ready(vars0, varsk, gk, pre.nodes@, k as int);
            }
            match res {
                Err(e) => {
                    proof {
                        assert(build_nodes_from(varsk, gk, pre.nodes@, k as int) == (
                            varsk,
                            gk,
                            Some(e),
                        ));
                        assert(!(forall|i: int|
                            0 <= i < pre.nodes@[k as int].inputs@.len() ==> input_ready(
                                vars0,
                                pre.nodes@,
                                k as int,
                                i,
                            )));
                        let i = choose|i: int|
                            !(0 <= i < pre.nodes@[k as int].inputs@.len() ==> input_ready(
                                vars0,
                                pre.nodes@,
                                k as int,
                                i,
                            ));
                        assert(!input_ready(vars0, pre.nodes@, k as int, i));
                        assert(!inputs_ready(pre));
                    }
                    return Err(e);
                },
                Ok(_) => {
                    proof {
                        lemma_build_step_avail(
                            vars0,
                            varsk,
                            gk,
                            pre.nodes@,
                            k as int,
                            self.vars@,
                        );
                        assert forall|j: int, i: int|
                            #![trigger input_ready(vars0, pre.nodes@, j, i)]
                            0 <= j < k + 1 && 0 <= i
                                < pre.nodes@[j].inputs@.len() implies input_ready(
                            vars0,
                            pre.nodes@,
                            j,
                            i,
                        ) by {
                            if j == k {
                                assert(build_node_model(
                                    varsk,
                                    gk,
                                    pre.nodes@[k as int],
                                    NodeId(k),
                                ) is Ok);
                            }
                        }
                    }
                },
            }
            k = k + 1;
        }
        proof {
            assert(build_nodes_from(self.vars@, self.graph@, pre.nodes@, pre.nodes@.len() as int)
                == (self.vars@, self.graph@, Option::<BuildError>::None));
            assert forall|j: int, i: int|
                #![trigger input_ready(pre.vars@, pre.nodes@, j, i)]
                0 <= j < pre.nodes@.len() && 0 <= i
                    < pre.nodes@[j].inputs@.len() implies input_ready(
                pre.vars@,
                pre.nodes@,
                j,
                i,
            ) by {
                assert(input_ready(vars0, pre.nodes@, j, i));
            }
        }
        Ok(())
    }
}

} // verus!

