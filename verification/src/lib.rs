//! Session and login-manager coordination for a Linux host.
//!
//! The crate keeps a registry of desktop sessions (each under a unique
//! registration name), a default session, a one-shot override that preempts
//! the default exactly once, and the identity of the external login manager.
//! The login manager is always pointed at a fixed redirect session per
//! display protocol, so changing the selected session never touches the
//! manager's own configuration format except through [`manager`].
//!
//! All state is held in plain values ([`config::Configuration`],
//! [`session::SystemSessions`], [`lock::LockSpace`]); the binary around the
//! library performs the file, process and bus I/O and hands the results in.

mod util;

pub mod config;
pub mod errors;
pub mod ini_doc;
pub mod lock;
pub mod manager;
pub mod session;
pub mod protocol;
