//! In-memory simulator of chain application modules: token issuance, NFT
//! lifecycle and the generic query bridge, with verified state transitions.
pub mod addr;
pub mod bank;
pub mod dispatch;
pub mod denom;
pub mod errors;
pub mod laws;
pub mod msgs;
pub mod queries;
pub mod state;
pub mod store;
pub mod text;
pub mod token_factory;
pub mod token_factory_coreum;
pub mod unified_stargate;
pub mod wire;

use vstd::prelude::*;

verus! {

/// Marker bound for module handlers plugged into a test harness.
pub trait MultiTestStargateBound: 'static {

}

impl<T: 'static> MultiTestStargateBound for T {

}

} // verus!
