//! Input-and-screen state machine of an interactive terminal dashboard:
//! keystrokes become screen transitions, in-place edits of the per-screen
//! fields, and requests for long-running operations that the caller performs.
pub mod app;
pub mod laws;
pub mod selection;
mod text;
