//! An issue tracker for one local user: epics that own stories, kept as one
//! document in a store, and a stack of pages to move through them.
//!
//! The repository ([`data_base::JiraDatabase`]) reads the whole state, edits
//! it in memory and writes it back; the edits themselves are functions of
//! [`models::DataBaseState`] alone. The navigator ([`navigator::Navigator`])
//! turns the actions that pages hand out into edits and into pushes and pops
//! of its page stack.

pub mod data_base;
pub mod models;
pub mod navigator;
pub mod user_interface;
