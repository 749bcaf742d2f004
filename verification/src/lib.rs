//! Core of a keyboard-driven terminal client for composing ad-hoc HTTP
//! requests: a focus-navigation graph over the interactive panes, a modal
//! input-routing state machine, cursor-tracked text buffers for the URL and
//! body editors, and the pre-dispatch validation of the request body.
//!
//! Rendering and the actual network call live outside this crate; the types
//! here describe and prove the state transitions those collaborators drive.

pub mod app;
pub mod json;
pub mod ui_graph;
