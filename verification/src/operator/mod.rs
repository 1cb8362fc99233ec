//! What the radio does: gossip an upgrade until it is sent, and sum up how
//! far the indexers have come.

use crate::config::Config;
use vstd::prelude::*;

pub mod dispatch;
pub mod operation;

verus! {

/// Radio operator contains all states needed for radio operations
pub struct RadioOperator {
    config: Config,
}

impl View for RadioOperator {
    type V = Config;

    /// The configuration that the operator works under.
    closed spec fn view(&self) -> Config {
        self.config
    }
}

impl RadioOperator {
    /// Create a radio operator with radio configurations
    pub fn new(config: Config) -> (operator: RadioOperator)
        ensures
            operator@ == config,
    {
        RadioOperator { config }
    }

    /// The configuration that the operator works under.
    pub fn config(&self) -> (config: &Config)
        ensures
            *config == self@,
    {
        &self.config
    }
}

} // verus!
