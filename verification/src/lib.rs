//! A rotating savings and credit association (tontine): members pay a fixed
//! contribution each cycle and one scheduled recipient receives the pot.
//! The state machine, its checks and its arithmetic are verified here; the
//! host plumbing (storage, address validation, responses) lives outside.

pub mod state;
pub mod keyed_map;
pub mod msg;
pub mod storage;
pub mod error;
pub mod response;
pub mod model;
pub mod lists;
pub mod contract;
pub mod answers;
pub mod laws;
