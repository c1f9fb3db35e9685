//! An adapter that serves the legacy two-asset pair interface on top of a
//! native-denom pool backend, wrapping token assets through a denom adapter.
//!
//! Each operation is a verified function from the stored state, the call and
//! the backend's simulated answer to the new state and the ordered effects.
pub mod asset;
pub mod bootstrap;
pub mod contract;
pub mod decimal;
pub mod error;
pub mod execute;
pub mod legacy_pair_wrapper;
pub mod pair_new;
pub mod pool_new;
pub mod pool_stable;
pub mod pool_xyk;
pub mod query;
pub mod response;
pub mod state;
pub mod text;
