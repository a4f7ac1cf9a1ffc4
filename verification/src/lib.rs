//! A minimal GPU presentation harness, modelled and verified.
//!
//! The crate captures the state and the decisions of a render loop: the
//! presentation surface's configuration and its resize rules, the fixed
//! render-pipeline parameters, the per-frame command protocol, and the
//! event-loop policy (when to exit, when to reconfigure, when to draw,
//! when to ask for another redraw). An embedding application owns the
//! window and the GPU handles and carries out each decision.

#![allow(unused_imports)]

pub mod context;
pub mod counting;
pub mod events;
pub mod frame;
pub mod pipeline;
pub mod state;
pub mod surface;
