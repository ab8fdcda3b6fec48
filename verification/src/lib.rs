//! A small task list: tasks with an identifier, a description and a completion
//! flag, kept in insertion order, with the operations of a personal task
//! tracker and the laws that hold of them.
//!
//! The store works on values in memory. Reading and writing the backing
//! storage is left to the caller, who tells the store what was found
//! ([`Stored`]) and learns from each [`Outcome`] whether to write the list back.

pub mod command;
pub mod laws;
pub mod model;
pub mod render;
pub mod storage;
pub mod store;
pub mod task;

pub use command::{Command, Outcome};
pub use storage::Stored;
pub use store::TaskStore;
pub use task::Task;
