//! The renderer's side of the pipeline: display state, dispatch, and
//! the render-loop state machine.

pub mod ui_handler;
pub mod ui_measurements;
