//! Platform services: discovery of the League Client's credentials and the
//! run-at-startup entry. The decisions are kept here; the process query and
//! the registry access happen in the application around the library.
pub mod windows;

pub use windows::{lcu_auth, startup};
