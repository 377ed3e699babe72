//! Scenario tests for the variable store, the backend graph recording, and
//! the deferred compilation pass.

use deep_lab::backend::{Graph, GpuVarIndex};
use deep_lab::dl_ui::{Button, DeepLabUi, Event, MouseButton};
use deep_lab::graph_builder::{BuildError, GraphBuilder, NodeId};
use deep_lab::op::{OpKind, Operation};
use deep_lab::var_store::VarStore;

#[test]
fn operation_descriptors() {
    let mm = Operation::of_kind(OpKind::MatMul);
    assert_eq!(mm.name, "MatMul");
    assert_eq!(mm.num_inputs, 2);
    assert_eq!(mm.num_outputs, 1);
    let relu = Operation::of_kind(OpKind::Relu);
    assert_eq!(relu.name, "ReLU");
    assert_eq!(relu.num_inputs, 1);
    let mse = Operation::of_kind(OpKind::Mse);
    assert_eq!(mse.name, "MSE");
    assert_eq!(mse.num_inputs, 2);
    let var = Operation::of_kind(OpKind::Variable);
    assert_eq!(var.name, "Variable");
    assert_eq!(var.num_inputs, 0);
    assert_eq!(var.num_outputs, 1);
    let custom = Operation::new("Twice".to_owned(), 1, 1, OpKind::Relu);
    assert_eq!(custom.name, "Twice");
}

#[test]
fn store_handles_stay_valid() {
    let mut store = VarStore::new();
    assert_eq!(store.len(), 0);
    let a = store.add((1, 2));
    let b = store.add_managed((3, 4));
    assert_eq!(store.len(), 2);
    assert_eq!(store.get(a).shape, (1, 2));
    assert!(!store.get(a).managed);
    assert_eq!(b.get(&store).shape, (3, 4));
    assert!(b.get(&store).managed);
    store.get_mut(a).shape = (5, 6);
    assert_eq!(a.get(&store).shape, (5, 6));
    b.get_mut(&mut store).shape = (7, 8);
    assert_eq!(store.get(b).shape, (7, 8));
}

#[test]
fn store_pass_materializes_only_managed() {
    let mut store = VarStore::new();
    let transient = store.add((1, 2));
    let managed = store.add_managed((3, 4));
    let mut graph = Graph::new();
    store.gpu_build(&mut graph);
    assert!(store.get(transient).gpu.is_none());
    let handle = store.get(managed).gpu.expect("managed variable materialized");
    assert_eq!(graph.num_vars(), 1);
    assert_eq!(graph.var_shape(handle), (3, 4));
    assert_eq!(graph.num_nodes(), 0);
}

#[test]
fn store_pass_keeps_existing_handles() {
    let mut store = VarStore::new();
    let managed = store.add_managed((2, 2));
    let mut graph = Graph::new();
    store.gpu_build(&mut graph);
    let first = store.get(managed).gpu;
    // a second pass must not reassign the handle nor allocate again
    store.gpu_build(&mut graph);
    assert_eq!(store.get(managed).gpu, first);
    assert_eq!(graph.num_vars(), 1);
}

#[test]
fn backend_graph_issues_sequential_handles() {
    let mut g = Graph::new();
    let v0 = g.add_variable((2, 3));
    let v1 = g.add_variable((3, 4));
    assert_eq!(v0, GpuVarIndex(0));
    assert_eq!(v1, GpuVarIndex(1));
    assert_eq!(g.var_shape(v0), (2, 3));
    let mut inputs = Vec::new();
    inputs.push(v0);
    inputs.push(v1);
    let mut out_shapes = Vec::new();
    out_shapes.push((2, 4));
    let n = g.add_node(OpKind::MatMul, inputs, &out_shapes);
    assert_eq!(g.num_nodes(), 1);
    let recorded = g.get_node(n);
    assert_eq!(recorded.inputs, vec![v0, v1]);
    assert_eq!(recorded.outputs, vec![GpuVarIndex(2)]);
    assert_eq!(g.var_shape(GpuVarIndex(2)), (2, 4));
    let grad = g.add_gradient(n, 0);
    assert_eq!(grad, GpuVarIndex(3));
    assert_eq!(g.var_shape(grad), (2, 4));
    assert_eq!(g.num_gradients(), 1);
}

/// A source node wired to a consumer compiles, and both variables end up
/// with backend handles.
#[test]
fn compile_wired_graph_succeeds() {
    let mut b = GraphBuilder::new();
    b.add_node("w".to_owned(), [0, 0], OpKind::Variable);
    b.add_node("act".to_owned(), [200, 0], OpKind::Relu);
    let w_out = b.nodes[0].outputs[0];
    b.vars.get_mut(w_out).shape = (2, 2);
    let act_out = b.nodes[1].outputs[0];
    b.nodes[1].inputs[0] = Some(w_out);
    let r = b.gpu_build();
    assert!(r.is_ok());
    let w_handle = b.vars.get(w_out).gpu.expect("managed source materialized");
    assert!(b.vars.get(act_out).gpu.is_some());
    // the managed 2-by-2 tensor plus the consumer's output tensor
    assert_eq!(b.graph.num_vars(), 2);
    assert_eq!(b.graph.var_shape(w_handle), (2, 2));
    assert_eq!(b.graph.num_nodes(), 1);
}

/// An unconnected input is fatal: compilation aborts at the offending node
/// and keeps what nodes before it built (it is not transactional).
#[test]
fn compile_missing_input_aborts() {
    let mut b = GraphBuilder::new();
    b.add_node("w".to_owned(), [0, 0], OpKind::Variable);
    b.add_node("act".to_owned(), [200, 0], OpKind::Relu);
    b.add_node("loose".to_owned(), [400, 0], OpKind::Relu);
    let w_out = b.nodes[0].outputs[0];
    b.nodes[1].inputs[0] = Some(w_out);
    // node 2's input stays unconnected
    let r = b.gpu_build();
    assert_eq!(r, Err(BuildError::MissingInput { node: NodeId(2), input: 0 }));
    // node 1 was built before the fault and retains its side effects
    assert_eq!(b.graph.num_nodes(), 1);
    assert_eq!(b.graph.num_vars(), 2);
    assert!(b.vars.get(b.nodes[1].outputs[0]).gpu.is_some());
    // nothing was built for the offending node
    assert!(b.vars.get(b.nodes[2].outputs[0]).gpu.is_none());
}

/// An input wired to the output of a node that is built later violates the
/// insertion-order precondition and is fatal before anything is built.
#[test]
fn compile_unbuilt_input_aborts() {
    let mut b = GraphBuilder::new();
    b.add_node("early".to_owned(), [0, 0], OpKind::Relu);
    b.add_node("late".to_owned(), [200, 0], OpKind::Relu);
    let late_out = b.nodes[1].outputs[0];
    b.nodes[0].inputs[0] = Some(late_out);
    let r = b.gpu_build();
    assert_eq!(r, Err(BuildError::UnbuiltInput { node: NodeId(0), input: 0 }));
    assert_eq!(b.graph.num_nodes(), 0);
    assert_eq!(b.graph.num_vars(), 0);
}

#[test]
fn compile_matmul_reads_both_inputs() {
    let mut b = GraphBuilder::new();
    b.add_node("a".to_owned(), [0, 0], OpKind::Variable);
    b.add_node("b".to_owned(), [0, 100], OpKind::Variable);
    b.add_node("prod".to_owned(), [200, 0], OpKind::MatMul);
    let a_out = b.nodes[0].outputs[0];
    let b_out = b.nodes[1].outputs[0];
    b.nodes[2].inputs[0] = Some(a_out);
    b.nodes[2].inputs[1] = Some(b_out);
    assert!(b.gpu_build().is_ok());
    assert_eq!(b.graph.num_nodes(), 1);
    let a_handle = b.vars.get(a_out).gpu.unwrap();
    let b_handle = b.vars.get(b_out).gpu.unwrap();
    let recorded = b.graph.get_node(deep_lab::backend::GpuNodeIndex(0));
    assert_eq!(recorded.inputs, vec![a_handle, b_handle]);
    assert_eq!(recorded.outputs, vec![b.vars.get(b.nodes[2].outputs[0]).gpu.unwrap()]);
}

#[test]
fn compile_second_input_missing_is_reported() {
    let mut b = GraphBuilder::new();
    b.add_node("a".to_owned(), [0, 0], OpKind::Variable);
    b.add_node("prod".to_owned(), [200, 0], OpKind::MatMul);
    let a_out = b.nodes[0].outputs[0];
    b.nodes[1].inputs[0] = Some(a_out);
    let r = b.gpu_build();
    assert_eq!(r, Err(BuildError::MissingInput { node: NodeId(1), input: 1 }));
}

/// A loss node also receives a gradient tensor of its output's shape.
#[test]
fn compile_loss_adds_gradient() {
    let mut b = GraphBuilder::new();
    b.add_node("pred".to_owned(), [0, 0], OpKind::Variable);
    b.add_node("target".to_owned(), [0, 100], OpKind::Variable);
    b.add_node("loss".to_owned(), [200, 0], OpKind::Mse);
    let pred_out = b.nodes[0].outputs[0];
    let target_out = b.nodes[1].outputs[0];
    b.nodes[2].inputs[0] = Some(pred_out);
    b.nodes[2].inputs[1] = Some(target_out);
    assert!(b.gpu_build().is_ok());
    assert_eq!(b.graph.num_nodes(), 1);
    assert_eq!(b.graph.num_gradients(), 1);
    // two materialized sources, the loss output, and its gradient
    assert_eq!(b.graph.num_vars(), 4);
}

/// The full session: place operations with the pointer, wire them with a
/// drag, compile, and inspect a selection.
#[test]
fn session_place_wire_and_build() {
    let mut ui = DeepLabUi::new();
    assert_eq!(ui.activation_blocks[0][0], OpKind::MatMul);
    assert_eq!(ui.activation_blocks[1][0], OpKind::Variable);

    // place a Variable at (0, 0)
    ui.set_place_op(OpKind::Variable);
    ui.event(&Event::MouseCursor(0, 0));
    ui.event(&Event::Release(Button::Mouse(MouseButton::Left)));
    assert_eq!(ui.graph.nodes.len(), 1);
    assert_eq!(ui.graph.nodes[0].op, OpKind::Variable);
    // the secondary button cancels placement
    ui.event(&Event::Press(Button::Mouse(MouseButton::Right)));
    ui.event(&Event::Release(Button::Mouse(MouseButton::Right)));
    assert!(ui.place_op.is_none());

    // place a Relu at (200, 0)
    ui.set_place_op(OpKind::Relu);
    ui.event(&Event::MouseCursor(200, 0));
    ui.event(&Event::Release(Button::Mouse(MouseButton::Left)));
    ui.event(&Event::Press(Button::Mouse(MouseButton::Right)));
    ui.event(&Event::Release(Button::Mouse(MouseButton::Right)));
    assert_eq!(ui.graph.nodes.len(), 2);

    // drag from the source's output to the consumer's input
    ui.event(&Event::MouseCursor(64, 16));
    ui.event(&Event::Press(Button::Mouse(MouseButton::Left)));
    ui.event(&Event::MouseCursor(200, 16));
    ui.event(&Event::Release(Button::Mouse(MouseButton::Left)));
    let source_out = ui.graph.nodes[0].outputs[0];
    assert_eq!(ui.graph.nodes[1].inputs[0], Some(source_out));

    // compile: both variables get backend handles
    assert!(ui.build().is_ok());
    assert!(ui.graph.vars.get(source_out).gpu.is_some());
    assert!(ui.graph.vars.get(ui.graph.nodes[1].outputs[0]).gpu.is_some());

    // clicking the source's output selects its variable
    ui.event(&Event::MouseCursor(64, 16));
    ui.event(&Event::Press(Button::Mouse(MouseButton::Left)));
    ui.event(&Event::Release(Button::Mouse(MouseButton::Left)));
    let (sel, coords) = ui.sel_var.clone().expect("a variable was selected");
    assert_eq!(sel, source_out);
    assert_eq!(coords, vec![0, 0]);
}

#[test]
fn dim_var_reads_through_builder() {
    let mut b = GraphBuilder::new();
    b.dim_vars.push(42);
    let d = deep_lab::graph_builder::DimVar(0);
    assert_eq!(*d.get(&b), 42);
}

#[test]
fn mouse_tracking_follows_events() {
    let mut ui = DeepLabUi::new();
    assert_eq!(ui.mouse.pos, [0, 0]);
    assert!(!ui.mouse.lmb);
    ui.event(&Event::MouseCursor(12, -7));
    assert_eq!(ui.mouse.pos, [12, -7]);
    ui.event(&Event::Press(Button::Mouse(MouseButton::Left)));
    assert!(ui.mouse.lmb);
    ui.event(&Event::Release(Button::Mouse(MouseButton::Left)));
    assert!(!ui.mouse.lmb);
    ui.event(&Event::Press(Button::Mouse(MouseButton::Right)));
    assert!(ui.mouse.rmb);
    ui.event(&Event::Release(Button::Mouse(MouseButton::Right)));
    assert!(!ui.mouse.rmb);
}

#[test]
fn compile_empty_graph_succeeds() {
    let mut b = GraphBuilder::new();
    assert!(b.gpu_build().is_ok());
    assert_eq!(b.graph.num_vars(), 0);
    assert_eq!(b.graph.num_nodes(), 0);
}
