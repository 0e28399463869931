//! Early-boot bootstrapper logic: classify the boot topology, provision a
//! writable executable directory, inject the runtime and hand control over to
//! the real init. Every kernel or filesystem operation is described as an
//! [`action::Action`]; the state machines here decide which one comes next.
pub mod action;
pub mod classify;
pub mod layout;
pub mod text;
pub mod provision;
pub mod install;
pub mod handoff;
pub mod boot;
