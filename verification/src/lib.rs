//! Read-only access to another process's memory through a memflow backend.
//!
//! A [`backend::Backend`] resolves processes; a [`session::Session`] holds at
//! most one process handle and a lazily built list of the address ranges that
//! the process's modules occupy. The four entry points `yc_attach`,
//! `yc_read`, `yc_can_read` and `yc_detach` operate on a session and report
//! every failure as a value.

pub mod backend;
pub mod bootstrap;
pub mod ranges;
pub mod session;

pub use session::{yc_attach, yc_can_read, yc_detach, yc_read};
