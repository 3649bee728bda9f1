//! A rock-paper-scissors betting game, played for a native coin and a cw20
//! token, as a state machine whose every step is stated and proved.
//!
//! The chain (storage, address validation, message dispatch) stays outside:
//! each step takes what was read from storage and returns what is to be
//! written and sent.

pub mod state;
pub mod msg;
pub mod error;
pub mod types;
pub mod external;
pub mod contract;
pub mod query;
pub mod store;
pub mod laws;
pub mod step_laws;
