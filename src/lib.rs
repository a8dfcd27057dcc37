//! Bookkeeping and decision logic for hosting pseudo-terminal sessions:
//! the session registry, the per-session lifecycle machine, the read bridge
//! and the folding of session events into per-session terminal state.
pub mod bridge;
pub mod error;
pub mod lifecycle;
pub mod registry;
pub mod session;
pub mod view;
