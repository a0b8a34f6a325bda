//! Command queue with cursor-based undo, and a listener registry.

pub mod command;
pub mod observer;
