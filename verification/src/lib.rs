//! Decisions of a small networked station: bringing a Wi-Fi link up and
//! carrying out plain HTTP exchanges over it.
//!
//! The crate performs no I/O. Its owner performs each action that the
//! state machines here ask for and reports back what the platform
//! answered; everything that is decided in between is decided, and proved,
//! here.

pub mod decimal;
pub mod exchange;
pub mod request;
pub mod stream;
pub mod wifi;
