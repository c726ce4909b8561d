//! Verilog project management and a waveform trace engine.
//!
//! The trace engine decodes value-change trace text into signals with their change histories
//! (`trace`), maps raw values to display levels (`level`), samples signals for display and answers
//! point-in-time queries (`signal`), and keeps the view state of a waveform session (`viewer`).
//! The project side holds the state of creating (`create`), editing (`edit`) and compiling
//! (`compile`) projects, and of the menu-driven shell around them (`shell`).

pub mod compile;
pub mod create;
pub mod edit;
pub mod level;
pub mod paths;
pub mod shell;
pub mod signal;
pub mod text;
pub mod trace;
pub mod viewer;
