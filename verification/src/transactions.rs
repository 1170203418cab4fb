//! Settings of the transaction methods.

use vstd::prelude::*;

verus! {

/// The resolved settings of the transaction methods: every field has a value.
#[derive(Clone, Copy, Debug, PartialEq, Eq, Structural)]
pub struct TransactionsConfig {
    /// The page size used when a request names none.
    pub default_page_size: usize,
    /// The largest page size that a request may ask for.
    pub max_page_size: usize,
}

impl TransactionsConfig {
    /// The settings that apply when a configuration says nothing.
    pub open spec fn built_in() -> Self {
        TransactionsConfig { default_page_size: 50, max_page_size: 100 }
    }
}

impl Default for TransactionsConfig {
    fn default() -> (config: Self)
        ensures
            config == Self::built_in(),
    {
        TransactionsConfig { default_page_size: 50, max_page_size: 100 }
    }
}

} // verus!
