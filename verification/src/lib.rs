//! Core of an immediate-mode GUI toolkit: widget identity, layout stacking,
//! per-container draw-command buffering with clip rectangles, the window/popup
//! activity state machine, and frame orchestration with z-order and focus
//! arbitration.

pub mod canvas;
pub mod command;
pub mod container;
pub mod geometry;
pub mod ids;
pub mod input;
pub mod laws;
pub mod layout;
pub mod options;
pub mod style;
pub mod window;
