//! Messages between strategies and the strategy registry.
use vstd::prelude::*;

verus! {

/// A strategy's answer to the registry.
#[derive(Clone, Copy, Debug, PartialEq, Eq, Structural)]
pub enum StrategyResponse {
    ShutDownAcknowledged,
}

/// What the registry forwards to a strategy.
#[derive(Clone, Copy, Debug, PartialEq, Eq, Structural)]
pub enum StrategyRegistryForward {
    /// Shut down; the number identifies the strategy.
    ShutDown(i64),
}

} // verus!
