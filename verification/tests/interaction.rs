//! Scenario tests for the port interaction state machine and the graph
//! builder's event resolution.

use deep_lab::dl_ui::{Button, Event, Mouse, MouseButton};
use deep_lab::graph_builder::{GraphAction, GraphBuilder, NodeId};
use deep_lab::node::{
    is_over_circle, is_over_rect, Node, NodeAction, NodeResponse, NODE_HEIGHT, NODE_WIDTH,
    PORT_RADIUS,
};
use deep_lab::node_block::{get_new_interaction, Interaction};
use deep_lab::op::OpKind;

fn mouse_at(x: i32, y: i32) -> Mouse {
    Mouse { pos: [x, y], lmb: false, rmb: false }
}

fn press() -> Event {
    Event::Press(Button::Mouse(MouseButton::Left))
}

fn release() -> Event {
    Event::Release(Button::Mouse(MouseButton::Left))
}

/// A graph with node 0 = Variable (one output) at (0, 0) and node 1 = Relu
/// (one input, one output) at (200, 0).
fn two_node_graph() -> GraphBuilder {
    let mut b = GraphBuilder::new();
    b.add_node("source".to_owned(), [0, 0], OpKind::Variable);
    b.add_node("act".to_owned(), [200, 0], OpKind::Relu);
    b
}

#[test]
fn geometry_constants() {
    assert_eq!(NODE_WIDTH, 64);
    assert_eq!(NODE_HEIGHT, 32);
    assert_eq!(PORT_RADIUS, 5);
}

#[test]
fn circle_hit_test_is_half_radius() {
    // the radius argument is the diameter: hits within 2.5 of the center
    assert!(is_over_circle([0, 0], 5, [0, 0]));
    assert!(is_over_circle([0, 0], 5, [0, 2]));
    assert!(is_over_circle([0, 0], 5, [-2, 0]));
    assert!(!is_over_circle([0, 0], 5, [0, 3]));
    assert!(!is_over_circle([0, 0], 5, [2, 2]));
    assert!(is_over_circle([100, -50], 5, [101, -51]));
}

#[test]
fn rect_hit_test_includes_borders() {
    let r = [10, 20, 64, 32];
    assert!(is_over_rect(r, [10, 20]));
    assert!(is_over_rect(r, [74, 52]));
    assert!(is_over_rect(r, [40, 30]));
    assert!(!is_over_rect(r, [9, 20]));
    assert!(!is_over_rect(r, [75, 52]));
    assert!(!is_over_rect(r, [40, 53]));
}

#[test]
fn port_anchors_evenly_spaced() {
    let b = two_node_graph();
    let source = NodeId(0).get(&b);
    // one output: anchor at the middle of the right edge
    assert_eq!(source.get_output_pos(0), [64, 16]);
    let act = NodeId(1).get(&b);
    // one input: anchor at the middle of the left edge
    assert_eq!(act.get_input_pos(0), [200, 16]);
    assert_eq!(act.get_output_pos(0), [264, 16]);

    let mut c = GraphBuilder::new();
    c.add_node("mm".to_owned(), [200, 0], OpKind::MatMul);
    let mm = NodeId(0).get(&c);
    // two inputs: anchors at 1/4 and 3/4 of the left edge
    assert_eq!(mm.get_input_pos(0), [200, 8]);
    assert_eq!(mm.get_input_pos(1), [200, 24]);
}

#[test]
fn node_new_allocates_ports() {
    let b = two_node_graph();
    let source = NodeId(0).get(&b);
    assert_eq!(source.name(), "source");
    assert_eq!(source.inputs.len(), 0);
    assert_eq!(source.outputs.len(), 1);
    assert!(source.action.is_none());
    let act = NodeId(1).get(&b);
    assert_eq!(act.inputs.len(), 1);
    assert_eq!(act.inputs[0], None);
    assert_eq!(act.outputs.len(), 1);
}

#[test]
fn press_over_output_latches_drag() {
    let mut b = two_node_graph();
    let r = b.event(&press(), &mouse_at(64, 16));
    assert!(r.is_none());
    assert_eq!(b.node_action, Some((NodeId(0), NodeAction::DragOutput(0))));
}

#[test]
fn press_over_input_latches_drag() {
    let mut b = two_node_graph();
    let r = b.event(&press(), &mouse_at(200, 16));
    assert!(r.is_none());
    assert_eq!(b.node_action, Some((NodeId(1), NodeAction::DragInput(0))));
}

#[test]
fn drag_output_drop_input_wires_slot() {
    let mut b = two_node_graph();
    b.event(&press(), &mouse_at(64, 16));
    let r = b.event(&release(), &mouse_at(200, 16));
    assert_eq!(r, Some(GraphAction::ConnectionMade(NodeId(0), 0, NodeId(1), 0)));
    let wired = NodeId(1).get(&b).inputs[0];
    let source_out = NodeId(0).get(&b).outputs[0];
    assert_eq!(wired, Some(source_out));
    assert_eq!(b.edges.len(), 1);
    assert_eq!(b.edges[0], (NodeId(0), 0, NodeId(1), 0));
    assert!(b.node_action.is_none());
}

#[test]
fn drag_survives_pointer_moves() {
    let mut b = two_node_graph();
    b.event(&press(), &mouse_at(64, 16));
    b.event(&Event::MouseCursor(120, 40), &mouse_at(120, 40));
    b.event(&Event::MouseCursor(180, 20), &mouse_at(180, 20));
    assert_eq!(b.node_action, Some((NodeId(0), NodeAction::DragOutput(0))));
    let r = b.event(&release(), &mouse_at(200, 16));
    assert_eq!(r, Some(GraphAction::ConnectionMade(NodeId(0), 0, NodeId(1), 0)));
}

#[test]
fn drag_input_drop_output_wires_same_slot() {
    // the symmetric gesture: start on the receiver's input
    let mut b = two_node_graph();
    b.event(&press(), &mouse_at(200, 16));
    let r = b.event(&release(), &mouse_at(64, 16));
    assert_eq!(r, Some(GraphAction::ConnectionMade(NodeId(0), 0, NodeId(1), 0)));
    let wired = NodeId(1).get(&b).inputs[0];
    let source_out = NodeId(0).get(&b).outputs[0];
    assert_eq!(wired, Some(source_out));
}

#[test]
fn reconnect_overwrites_prior_wiring() {
    let mut b = GraphBuilder::new();
    b.add_node("v1".to_owned(), [0, 0], OpKind::Variable);
    b.add_node("v2".to_owned(), [0, 100], OpKind::Variable);
    b.add_node("act".to_owned(), [200, 0], OpKind::Relu);
    // wire v1 -> act
    b.event(&press(), &mouse_at(64, 16));
    b.event(&release(), &mouse_at(200, 16));
    assert_eq!(NodeId(2).get(&b).inputs[0], Some(NodeId(0).get(&b).outputs[0]));
    // re-wire from v2's output (anchor at (64, 116)): the slot is overwritten
    b.event(&press(), &mouse_at(64, 116));
    let r = b.event(&release(), &mouse_at(200, 16));
    assert_eq!(r, Some(GraphAction::ConnectionMade(NodeId(1), 0, NodeId(2), 0)));
    assert_eq!(NodeId(2).get(&b).inputs[0], Some(NodeId(1).get(&b).outputs[0]));
}

#[test]
fn drop_without_drag_is_no_outcome() {
    let mut b = two_node_graph();
    let r1 = b.event(&press(), &mouse_at(500, 500));
    let r2 = b.event(&release(), &mouse_at(500, 500));
    assert!(r1.is_none());
    assert!(r2.is_none());
    assert!(b.node_action.is_none());
    assert_eq!(NodeId(1).get(&b).inputs[0], None);
    assert!(b.edges.is_empty());
}

#[test]
fn unpaired_drop_does_not_stay_armed() {
    let mut b = two_node_graph();
    // release over a port with no preceding drag: the drop is terminal
    let r1 = b.event(&release(), &mouse_at(200, 16));
    assert!(r1.is_none());
    assert!(b.node_action.is_none());
    // a later release over the source's output pairs with nothing
    let r2 = b.event(&release(), &mouse_at(64, 16));
    assert!(r2.is_none());
    assert_eq!(NodeId(1).get(&b).inputs[0], None);
}

#[test]
fn drop_on_other_output_selects_its_variable() {
    let mut b = two_node_graph();
    b.event(&press(), &mouse_at(64, 16));
    let r = b.event(&release(), &mouse_at(264, 16));
    let act_out = NodeId(1).get(&b).outputs[0];
    assert_eq!(r, Some(GraphAction::SelectVariable(act_out)));
    assert_eq!(NodeId(1).get(&b).inputs[0], None);
    assert!(b.edges.is_empty());
}

#[test]
fn click_on_same_output_selects_it() {
    let mut b = two_node_graph();
    b.event(&press(), &mouse_at(64, 16));
    let r = b.event(&release(), &mouse_at(64, 16));
    let source_out = NodeId(0).get(&b).outputs[0];
    assert_eq!(r, Some(GraphAction::SelectVariable(source_out)));
    assert!(b.edges.is_empty());
}

#[test]
fn selecting_unwired_input_is_benign() {
    let mut b = two_node_graph();
    b.event(&press(), &mouse_at(200, 16));
    let r = b.event(&release(), &mouse_at(200, 16));
    assert!(r.is_none());
    assert!(b.node_action.is_none());
}

#[test]
fn node_event_clears_stale_drop() {
    let mut b = two_node_graph();
    b.event(&release(), &mouse_at(200, 16));
    // the drop was latched on the node itself for one cycle
    assert_eq!(NodeId(1).get(&b).action, Some(NodeAction::DropInput(0)));
    // any next event clears it before re-scanning
    b.event(&Event::MouseCursor(0, 0), &mouse_at(0, 0));
    assert!(NodeId(1).get(&b).action.is_none());
}

#[test]
fn happened_before_pairing_table() {
    let a = NodeId(3);
    let b = NodeId(7);
    let r = NodeAction::DragOutput(1).happened_before(&NodeAction::DropInput(0), (a, b));
    assert_eq!(r, Some(NodeResponse::Connect(a, 1, b, 0)));
    let r = NodeAction::DragInput(2).happened_before(&NodeAction::DropOutput(1), (a, b));
    assert_eq!(r, Some(NodeResponse::Connect(b, 1, a, 2)));
    let r = NodeAction::DragOutput(0).happened_before(&NodeAction::DropOutput(1), (a, b));
    assert_eq!(r, Some(NodeResponse::SelectOutput(1)));
    let r = NodeAction::DragInput(0).happened_before(&NodeAction::DropInput(1), (a, b));
    assert_eq!(r, Some(NodeResponse::SelectInput(1)));
    assert_eq!(NodeAction::DragOutput(0).happened_before(&NodeAction::DragInput(0), (a, b)), None);
    assert_eq!(NodeAction::DragInput(0).happened_before(&NodeAction::DragOutput(0), (a, b)), None);
    assert_eq!(NodeAction::DropInput(0).happened_before(&NodeAction::DropOutput(0), (a, b)), None);
    assert_eq!(NodeAction::Drag.happened_before(&NodeAction::DropInput(0), (a, b)), None);
    assert_eq!(NodeAction::DragOutput(0).happened_before(&NodeAction::Drag, (a, b)), None);
}

#[test]
fn direction_agnostic_pairing() {
    let a = NodeId(0);
    let b = NodeId(1);
    // starting from the input side resolves to the same connection as the
    // symmetric gesture started from the output side
    let from_input = NodeAction::DragInput(0).happened_before(&NodeAction::DropOutput(1), (a, b));
    let from_output = NodeAction::DragOutput(1).happened_before(&NodeAction::DropInput(0), (b, a));
    assert_eq!(from_input, from_output);
}

#[test]
fn standalone_node_press_and_release() {
    let mut b = GraphBuilder::new();
    b.add_node("mm".to_owned(), [0, 0], OpKind::MatMul);
    let mut n: Node = {
        let src = NodeId(0).get(&b);
        Node::new(
            "copy".to_owned(),
            [0, 0],
            OpKind::MatMul,
            2,
            src.outputs.clone(),
        )
    };
    n.event(&press(), &mouse_at(0, 24));
    assert_eq!(n.action, Some(NodeAction::DragInput(1)));
    n.event(&release(), &mouse_at(64, 16));
    assert_eq!(n.action, Some(NodeAction::DropOutput(0)));
    n.event(&Event::Other, &mouse_at(64, 16));
    assert!(n.action.is_none());
}

#[test]
fn block_interaction_transitions() {
    let up = mouse_at(0, 0);
    let down = Mouse { pos: [0, 0], lmb: true, rmb: false };
    assert_eq!(get_new_interaction(true, Interaction::Normal, &down), Interaction::Normal);
    assert_eq!(get_new_interaction(true, Interaction::Highlighted, &down), Interaction::Drag);
    assert_eq!(get_new_interaction(true, Interaction::Drag, &down), Interaction::Drag);
    assert_eq!(get_new_interaction(false, Interaction::Drag, &down), Interaction::Drag);
    assert_eq!(get_new_interaction(true, Interaction::Drag, &up), Interaction::Selected);
    assert_eq!(get_new_interaction(false, Interaction::Drag, &up), Interaction::Selected);
    assert_eq!(get_new_interaction(true, Interaction::Selected, &up), Interaction::Selected);
    assert_eq!(get_new_interaction(false, Interaction::Selected, &up), Interaction::Selected);
    assert_eq!(get_new_interaction(false, Interaction::Selected, &down), Interaction::Normal);
    assert_eq!(get_new_interaction(true, Interaction::Selected, &down), Interaction::Drag);
    assert_eq!(get_new_interaction(true, Interaction::Normal, &up), Interaction::Highlighted);
    assert_eq!(get_new_interaction(true, Interaction::Highlighted, &up), Interaction::Highlighted);
    assert_eq!(get_new_interaction(false, Interaction::Normal, &up), Interaction::Normal);
    assert_eq!(get_new_interaction(false, Interaction::Highlighted, &down), Interaction::Normal);
}

#[test]
fn event_on_empty_graph_is_noop() {
    let mut b = GraphBuilder::new();
    assert!(b.event(&press(), &mouse_at(0, 0)).is_none());
    assert!(b.event(&release(), &mouse_at(0, 0)).is_none());
    assert!(b.node_action.is_none());
}

#[test]
fn bounding_rect_matches_position() {
    let b = two_node_graph();
    assert_eq!(NodeId(1).get(&b).bounding_rect(), [200, 0, 64, 32]);
}
