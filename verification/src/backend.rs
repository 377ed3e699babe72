//! The deferred execution graph the editor compiles into.
//!
//! The numeric backend that would run this graph on a device is outside the
//! core: compilation only assembles the structure below, recording which
//! backend tensors exist and which operations read and write them.  Handles
//! into the structure are issued sequentially, so a compiled graph is a pure
//! function of the build calls made against it.

use vstd::prelude::*;

verus! {

use crate::op::OpKind;

/// Handle of a tensor resident in the backend graph.
#[derive(Copy, Clone, Debug, PartialEq, Eq, Structural)]
pub struct GpuVarIndex(pub usize);

/// Handle of an operation node of the backend graph.
#[derive(Copy, Clone, Debug, PartialEq, Eq, Structural)]
pub struct GpuNodeIndex(pub usize);

/// One operation recorded in the backend graph: its kind, the backend
/// tensors it reads, and the backend tensors it writes.
pub struct GpuNode {
    pub op: OpKind,
    pub inputs: Vec<GpuVarIndex>,
    pub outputs: Vec<GpuVarIndex>,
}

/// Mathematical model of one recorded operation.
#[verifier::ext_equal]
pub struct GpuNodeModel {
    pub op: OpKind,
    pub inputs: Seq<GpuVarIndex>,
    pub outputs: Seq<GpuVarIndex>,
}

/// Mathematical model of the backend graph: the shapes of its tensors, the
/// operations recorded so far, and the gradient tensors that were attached
/// to node outputs.
#[verifier::ext_equal]
pub struct GraphModel {
    pub vars: Seq<(usize, usize)>,
    pub nodes: Seq<GpuNodeModel>,
    pub gradients: Seq<(GpuNodeIndex, usize, GpuVarIndex)>,
}

/// The backend graph under construction.
pub struct Graph {
    vars: Vec<(usize, usize)>,
    nodes: Vec<GpuNode>,
    gradients: Vec<(GpuNodeIndex, usize, GpuVarIndex)>,
}

impl View for Graph {
    type V = GraphModel;

    closed spec fn view(&self) -> GraphModel {
        GraphModel {
            vars: self.vars@,
            nodes: Seq::new(
                self.nodes@.len(),
                |i: int|
                    GpuNodeModel {
                        op: self.nodes@[i].op,
                        inputs: self.nodes@[i].inputs@,
                        outputs: self.nodes@[i].outputs@,
                    },
            ),
            gradients: self.gradients@,
        }
    }
}

impl Graph {
    pub fn new() -> (g: Graph)
        ensures
            g@.vars.len() == 0,
            g@.nodes.len() == 0,
            g@.gradients.len() == 0,
    {
        Graph { vars: Vec::new(), nodes: Vec::new(), gradients: Vec::new() }
    }

    pub fn num_vars(&self) -> (n: usize)
        ensures
            n == self@.vars.len(),
    {
        self.vars.len()
    }

    pub fn num_nodes(&self) -> (n: usize)
        ensures
            n == self@.nodes.len(),
    {
        self.nodes.len()
    }

    pub fn num_gradients(&self) -> (n: usize)
        ensures
            n == self@.gradients.len(),
    {
        self.gradients.len()
    }

    /// Shape of a backend tensor.
    pub fn var_shape(&self, v: GpuVarIndex) -> (s: (usize, usize))
        requires
            v.0 < self@.vars.len(),
        ensures
            s == self@.vars[v.0 as int],
    {
        self.vars[v.0]
    }

    /// Allocate backend storage for a tensor of the given shape and return
    /// its handle.  Handles are issued sequentially.
    pub fn add_variable(&mut self, shape: (usize, usize)) -> (v: GpuVarIndex)
        ensures
            final(self)@.vars == old(self)@.vars.push(shape),
            final(self)@.nodes == old(self)@.nodes,
            final(self)@.gradients == old(self)@.gradients,
            v.0 == old(self)@.vars.len(),
    {
        let v = GpuVarIndex(self.vars.len());
        self.vars.push(shape);
        v
    }

    /// Record an operation node.  Output tensors are allocated eagerly, one
    /// per entry of `out_shapes`, and receive the next sequential handles.
    pub fn add_node(&mut self, op: OpKind, inputs: Vec<GpuVarIndex>, out_shapes: &Vec<(usize, usize)>) -> (n: GpuNodeIndex)
        ensures
            final(self)@.vars == old(self)@.vars + out_shapes@,
            final(self)@.nodes == old(self)@.nodes.push(
                (GpuNodeModel {
                    op: op,
                    inputs: inputs@,
                    outputs: Seq::new(
                        out_shapes@.len(),
                        |i: int| GpuVarIndex((old(self)@.vars.len() + i) as usize),
                    ),
                }),
            ),
            final(self)@.gradients == old(self)@.gradients,
            n.0 == old(self)@.nodes.len(),
    {
        let n = GpuNodeIndex(self.nodes.len());
        let ghost inputs0 = inputs@;
        let mut outputs: Vec<GpuVarIndex> = Vec::new();
        let mut i: usize = 0;
        while i < out_shapes.len()
            invariant
                i <= out_shapes@.len(),
                self@.vars =~= old(self)@.vars + out_shapes@.subrange(0, i as int),
                self@.nodes == old(self)@.nodes,
                self@.gradients == old(self)@.gradients,
                outputs@ =~= Seq::new(
                    i as nat,
                    |j: int| GpuVarIndex((old(self)@.vars.len() + j) as usize),
                ),
            decreases out_shapes@.len() - i,
        {
            let v = self.add_variable(out_shapes[i]);
            outputs.push(v);
            i = i + 1;
            proof {
                assert(self@.vars =~= old(self)@.vars + out_shapes@.subrange(0, i as int));
                assert(outputs@ =~= Seq::new(
                    i as nat,
                    |j: int| GpuVarIndex((old(self)@.vars.len() + j) as usize),
                ));
            }
        }
        proof {
            assert(out_shapes@.subrange(0, out_shapes@.len() as int) =~= out_shapes@);
        }
        let ghost outputs0 = outputs@;
        self.nodes.push(GpuNode { op, inputs, outputs });
        proof {
            assert(self@.vars =~= old(self)@.vars + out_shapes@);
            assert(self@.nodes =~= old(self)@.nodes.push(
                (GpuNodeModel { op: op, inputs: inputs0, outputs: outputs0 }),
            ));
        }
        n
    }

    /// Read back a recorded operation node.
    pub fn get_node(&self, n: GpuNodeIndex) -> (r: &GpuNode)
        requires
            n.0 < self@.nodes.len(),
        ensures
            r.op == self@.nodes[n.0 as int].op,
            r.inputs@ == self@.nodes[n.0 as int].inputs,
            r.outputs@ == self@.nodes[n.0 as int].outputs,
    {
        &self.nodes[n.0]
    }

    /// Attach a gradient tensor to one output of a recorded node.  The
    /// gradient gets backend storage of the same shape as that output and
    /// the next sequential handle.
    pub fn add_gradient(&mut self, n: GpuNodeIndex, output: usize) -> (g: GpuVarIndex)
        requires
            n.0 < old(self)@.nodes.len(),
            output < old(self)@.nodes[n.0 as int].outputs.len(),
            old(self)@.nodes[n.0 as int].outputs[output as int].0 < old(self)@.vars.len(),
        ensures
            final(self)@.vars == old(self)@.vars.push(
                old(self)@.vars[old(self)@.nodes[n.0 as int].outputs[output as int].0 as int],
            ),
            final(self)@.nodes == old(self)@.nodes,
            final(self)@.gradients == old(self)@.gradients.push((n, output, g)),
            g.0 == old(self)@.vars.len(),
    {
        let out_var = self.nodes[n.0].outputs[output];
        let shape = self.vars[out_var.0];
        let g = self.add_variable(shape);
        self.gradients.push((n, output, g));
        g
    }
}

impl GpuNodeIndex {
    pub fn get<'a>(&self, graph: &'a Graph) -> (r: &'a GpuNode)
        requires
            self.0 < graph@.nodes.len(),
        ensures
            r.op == graph@.nodes[self.0 as int].op,
            r.inputs@ == graph@.nodes[self.0 as int].inputs,
            r.outputs@ == graph@.nodes[self.0 as int].outputs,
    {
        graph.get_node(*self)
    }
}

} // verus!
