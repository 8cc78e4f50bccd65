//! Core of an interactive terminal menu: a registry that maps action names to
//! zero-argument handlers, a selectable-list navigation state machine that
//! turns key events into a bounded, wrapping cursor and a "select" signal, and
//! a dispatcher that looks a selected name up and invokes its handler.
//!
//! Rendering, terminal handling and the outer event loop are the host's
//! concern; this crate holds only the state, the transition rules and their
//! proofs.

mod actions;
mod dispatch;
mod nav;
mod registry;

pub use actions::test_function_1;
pub use actions::test_function_2;
pub use actions::DemoAction;
pub use dispatch::dispatch;
pub use dispatch::Handler;
pub use nav::down_steps;
pub use nav::lemma_wraparound_cycle;
pub use nav::step_down;
pub use nav::step_up;
pub use nav::up_steps;
pub use nav::ListBoxState;
pub use nav::ListItem;
pub use nav::NavKey;
pub use registry::lemma_last_writer_wins;
pub use registry::MenuError;
pub use registry::Registry;
