//! Session routing for a terminal browser of on-chain bots.
//!
//! The library holds the decisions of the browser: the per-session action
//! state that the engine's callbacks fill, the parsing of the operator's menu
//! choice, the registry of sessions keyed by address, and the router that
//! drains the shared message queue before it shows the next menu.
use vstd::prelude::*;

pub mod input;
pub mod registry;
pub mod router;
pub mod routing;
pub mod state;

verus! {

} // verus!
