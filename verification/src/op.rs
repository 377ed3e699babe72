//! Operation descriptors: the closed set of operation kinds the editor can
//! place, together with their declared arities.

use vstd::prelude::*;

verus! {

/// The kind of an operation.  Nodes store this tag; the build step of the
/// graph builder dispatches on it, one build procedure per variant.
#[derive(Copy, Clone, Debug, PartialEq, Eq, Structural)]
pub enum OpKind {
    /// Matrix multiply: two inputs, one output.
    MatMul,
    /// Rectified linear activation: one input, one output.
    Relu,
    /// Mean squared error loss: two inputs, one output.
    Mse,
    /// A trainable variable: no inputs, one output.
    Variable,
}

impl OpKind {
    /// Number of input ports an operation of this kind declares.
    pub open spec fn arity_in(self) -> nat {
        match self {
            OpKind::MatMul => 2,
            OpKind::Relu => 1,
            OpKind::Mse => 2,
            OpKind::Variable => 0,
        }
    }

    /// Number of output ports an operation of this kind declares.
    pub open spec fn arity_out(self) -> nat {
        1
    }

    pub fn num_inputs(self) -> (n: usize)
        ensures
            n == self.arity_in(),
    {
        match self {
            OpKind::MatMul => 2,
            OpKind::Relu => 1,
            OpKind::Mse => 2,
            OpKind::Variable => 0,
        }
    }

    pub fn num_outputs(self) -> (n: usize)
        ensures
            n == self.arity_out(),
    {
        1
    }
}

/// The display name of an operation kind.
pub open spec fn kind_name(kind: OpKind) -> Seq<char> {
    match kind {
        OpKind::MatMul => "MatMul"@,
        OpKind::Relu => "ReLU"@,
        OpKind::Mse => "MSE"@,
        OpKind::Variable => "Variable"@,
    }
}

/// An immutable description of an operation: its display name, its arities,
/// and the tag its build procedure is dispatched on.  One descriptor stands
/// for an operation kind; many placed nodes may share it.
pub struct Operation {
    pub name: String,
    pub num_inputs: usize,
    pub num_outputs: usize,
    pub kind: OpKind,
}

impl Operation {
    pub fn new(name: String, num_inputs: usize, num_outputs: usize, kind: OpKind) -> (op: Operation)
        ensures
            op.name == name,
            op.num_inputs == num_inputs,
            op.num_outputs == num_outputs,
            op.kind == kind,
    {
        Operation { name, num_inputs, num_outputs, kind }
    }

    /// The registry entry for a kind: its canonical descriptor, with the
    /// arities the kind declares.
    pub fn of_kind(kind: OpKind) -> (op: Operation)
        ensures
            op.kind == kind,
            op.name@ == kind_name(kind),
            op.num_inputs == kind.arity_in(),
            op.num_outputs == kind.arity_out(),
    {
        let name = match kind {
            OpKind::MatMul => "MatMul".to_owned(),
            OpKind::Relu => "ReLU".to_owned(),
            OpKind::Mse => "MSE".to_owned(),
            OpKind::Variable => "Variable".to_owned(),
        };
        Operation::new(name, kind.num_inputs(), kind.num_outputs(), kind)
    }
}

} // verus!
