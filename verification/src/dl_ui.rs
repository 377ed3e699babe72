//! The editor session: pointer state, the operation palette, and the
//! top-level event routing around the graph builder.
//!
//! The host windowing layer hands the core plain input events in canvas
//! coordinates; everything the core decides from them is verified here.

use vstd::prelude::*;

verus! {

use crate::graph_builder::{
    add_node_post, build_post, event_post, inputs_ready, BuildError, GraphAction, GraphBuilder,
};
use crate::op::{OpKind, Operation};
use crate::var_store::VarIndex;

/// A logical pointer button.
#[derive(Copy, Clone, Debug, PartialEq, Eq, Structural)]
pub enum MouseButton {
    Left,
    Right,
    Other,
}

/// A logical input button: a key or a pointer button.
#[derive(Copy, Clone, Debug, PartialEq, Eq, Structural)]
pub enum Button {
    Keyboard,
    Mouse(MouseButton),
}

/// One input event in canvas space, as the host event loop delivers it.
#[derive(Copy, Clone, Debug, PartialEq, Eq, Structural)]
pub enum Event {
    /// The pointer moved to the given canvas position.
    MouseCursor(i32, i32),
    Press(Button),
    Release(Button),
    /// Any event the core does not react to (render, update, focus, ...).
    Other,
}

/// The tracked pointer state: position and which buttons are held.
#[derive(Copy, Clone, Debug)]
pub struct Mouse {
    pub pos: [i32; 2],
    pub lmb: bool,
    pub rmb: bool,
}

impl Mouse {
    pub fn new() -> (m: Mouse)
        ensures
            m.pos[0] == 0,
            m.pos[1] == 0,
            !m.lmb,
            !m.rmb,
    {
        Mouse { pos: [0, 0], lmb: false, rmb: false }
    }
}

/// How one event updates which operation is armed for placement: the
/// secondary button cancels placement; nothing else changes it.
pub open spec fn place_op_after(p: Option<OpKind>, ev: Event) -> Option<OpKind> {
    match ev {
        Event::Press(Button::Mouse(MouseButton::Right)) => None,
        _ => p,
    }
}

/// How one event updates the tracked pointer state.
pub open spec fn mouse_after_ok(m0: Mouse, ev: Event, m1: Mouse) -> bool {
    match ev {
        Event::MouseCursor(x, y) => m1.pos[0] == x && m1.pos[1] == y && m1.lmb == m0.lmb && m1.rmb
            == m0.rmb,
        Event::Press(Button::Mouse(MouseButton::Left)) => m1.pos == m0.pos && m1.lmb && m1.rmb
            == m0.rmb,
        Event::Press(Button::Mouse(MouseButton::Right)) => m1.pos == m0.pos && m1.lmb == m0.lmb
            && m1.rmb,
        Event::Release(Button::Mouse(MouseButton::Left)) => m1.pos == m0.pos && !m1.lmb && m1.rmb
            == m0.rmb,
        Event::Release(Button::Mouse(MouseButton::Right)) => m1.pos == m0.pos && m1.lmb == m0.lmb
            && !m1.rmb,
        _ => m1.pos == m0.pos && m1.lmb == m0.lmb && m1.rmb == m0.rmb,
    }
}

/// The editor session: the graph under construction, the operation palette,
/// the operation armed for placement, the selected variable (with the cell
/// coordinates a value inspector would show), and the tracked pointer.
pub struct DeepLabUi {
    pub activation_blocks: [[OpKind; 2]; 2],
    pub graph: GraphBuilder,
    pub place_op: Option<OpKind>,
    pub sel_var: Option<(VarIndex, Vec<usize>)>,
    pub mouse: Mouse,
}

impl DeepLabUi {
    pub fn new() -> (ui: DeepLabUi)
        ensures
            ui.graph.wf(),
            ui.graph.nodes@.len() == 0,
            ui.graph.vars@.len() == 0,
            ui.graph.edges@.len() == 0,
            ui.graph.graph@.vars.len() == 0,
            ui.graph.graph@.nodes.len() == 0,
            ui.graph.graph@.gradients.len() == 0,
            ui.graph.node_action is None,
            ui.place_op is None,
            ui.sel_var is None,
            ui.mouse.pos[0] == 0 && ui.mouse.pos[1] == 0,
            !ui.mouse.lmb && !ui.mouse.rmb,
            ui.activation_blocks[0][0] is MatMul,
            ui.activation_blocks[0][1] is Relu,
            ui.activation_blocks[1][0] is Variable,
            ui.activation_blocks[1][1] is Mse,
    {
        DeepLabUi {
            activation_blocks: [
                [OpKind::MatMul, OpKind::Relu],
                [OpKind::Variable, OpKind::Mse],
            ],
            graph: GraphBuilder::new(),
            place_op: None,
            sel_var: None,
            mouse: Mouse::new(),
        }
    }

    /// Arm an operation of the palette for placement; the next primary
    /// release places it at the pointer.
    pub fn set_place_op(&mut self, op: OpKind)
        ensures
            final(self).place_op == Some(op),
            final(self).graph == old(self).graph,
            final(self).sel_var == old(self).sel_var,
            final(self).mouse == old(self).mouse,
            final(self).activation_blocks == old(self).activation_blocks,
    {
        self.place_op = Some(op);
    }

    /// Route one host event through the session: track the pointer, place
    /// the armed operation on a primary release, dispatch the event to the
    /// graph builder, and remember a selected variable.
    pub fn event(&mut self, event: &Event)
        requires
            old(self).graph.wf(),
        ensures
            final(self).graph.wf(),
            mouse_after_ok(old(self).mouse, *event, final(self).mouse),
            final(self).place_op == place_op_after(old(self).place_op, *event),
            final(self).activation_blocks == old(self).activation_blocks,
            ({
                let m1 = final(self).mouse;
                let placed = (*event matches Event::Release(Button::Mouse(MouseButton::Left)))
                    && old(self).place_op is Some;
                exists|mid: GraphBuilder, ga: Option<GraphAction>|
                    #![trigger event_post(mid, final(self).graph, *event, m1, ga)]
                    {
                        &&& if placed {
                            add_node_post(old(self).graph, mid, m1.pos, old(self).place_op->0)
                        } else {
                            mid == old(self).graph
                        }
                        &&& event_post(mid, final(self).graph, *event, m1, ga)
                        &&& match ga {
                            Some(GraphAction::SelectVariable(v)) => final(self).sel_var matches Some(
                                (sv, coords),
                            ) && sv == v && coords@ == seq![0usize, 0usize],
                            _ => final(self).sel_var == old(self).sel_var,
                        }
                    }
            }),
    {
        match *event {
            Event::MouseCursor(x, y) => {
                self.mouse.pos = [x, y];
            },
            Event::Press(Button::Mouse(MouseButton::Left)) => {
                self.mouse.lmb = true;
            },
            Event::Press(Button::Mouse(MouseButton::Right)) => {
                self.mouse.rmb = true;
                self.place_op = None;
            },
            Event::Release(Button::Mouse(MouseButton::Left)) => {
                self.mouse.lmb = false;
                if let Some(op) = self.place_op {
                    let descriptor = Operation::of_kind(op);
                    self.graph.add_node(descriptor.name, self.mouse.pos, op);
                }
            },
            Event::Release(Button::Mouse(MouseButton::Right)) => {
                self.mouse.rmb = false;
            },
            _ => {},
        }
        let ghost mid = self.graph;
        let ga = self.graph.event(event, &self.mouse);
        if let Some(action) = ga {
            match action {
                GraphAction::SelectVariable(v) => {
                    let mut coords: Vec<usize> = Vec::new();
                    coords.push(0);
                    coords.push(0);
                    proof {
                        assert(coords@ =~= seq![0usize, 0usize]);
                    }
                    self.sel_var = Some((v, coords));
                },
                _ => {},
            }
        }
        proof {
            let m1 = self.mouse;
            assert(event_post(mid, self.graph, *event, m1, ga));
        }
    }

    /// The Build action: compile the authored graph into the backend graph.
    pub fn build(&mut self) -> (r: Result<(), BuildError>)
        requires
            old(self).graph.wf(),
        ensures
            final(self).graph.wf(),
            build_post(old(self).graph, final(self).graph, r),
            r is Ok <==> inputs_ready(old(self).graph),
            final(self).place_op == old(self).place_op,
            final(self).sel_var == old(self).sel_var,
            final(self).mouse == old(self).mouse,
            final(self).activation_blocks == old(self).activation_blocks,
    {
        self.graph.gpu_build()
    }
}

} // verus!
