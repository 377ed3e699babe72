//! Core of a visual editor for tensor-operation graphs.
//!
//! A user places operation nodes on a canvas, drags connections between their
//! input and output ports, and finally compiles the assembled graph into a
//! backend execution graph.  This crate holds the verified core of that
//! editor: the per-node port interaction state machine, the graph builder
//! that pairs drag/drop gestures across nodes into connections, the variable
//! store, and the deferred compilation pass.  Rendering, windowing and the
//! numeric backend that would execute the compiled graph live outside this
//! crate; the core works on plain canvas coordinates and exposes the
//! geometry a renderer needs to query.

pub mod backend;
pub mod dl_ui;
pub mod graph_builder;
pub mod node;
pub mod node_block;
pub mod op;
pub mod var_store;
