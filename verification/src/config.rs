//! Configuration layers and their merge over a baseline.

use crate::extras::{check_extra, emitted, extras_view, ExtrasView};
use crate::transactions::TransactionsConfig;
use vstd::prelude::*;
use vstd::std_specs::convert::FromSpecImpl;

verus! {

/// The value of one field after a merge: the layer's value where it has one, the baseline's
/// otherwise.
pub open spec fn overlay<T>(patch: Option<T>, fallback: T) -> T {
    match patch {
        Some(value) => value,
        None => fallback,
    }
}

/// The layer of the transaction methods: each setting may be absent, and `extra` holds every
/// key found at this scope that names no setting.
#[derive(Debug)]
pub struct TransactionsLayer {
    pub default_page_size: Option<usize>,
    pub max_page_size: Option<usize>,
    pub extra: toml::Table,
}

/// The top-level layer: one layer per group of methods, and in `extra` every key found at the
/// top level that names no group.
#[derive(Debug)]
pub struct RpcConfig {
    /// Configuration for transaction-related RPC methods.
    pub transactions: TransactionsLayer,
    pub extra: toml::Table,
}

/// The resolved configuration of the whole service: one resolved record per group of methods.
#[derive(Clone, Copy, Debug, PartialEq, Eq, Structural)]
pub struct ResolvedConfig {
    pub transactions: TransactionsConfig,
}

/// The model of a [`TransactionsLayer`].
pub struct TransactionsLayerView {
    pub default_page_size: Option<usize>,
    pub max_page_size: Option<usize>,
    pub extra: ExtrasView,
}

/// The model of an [`RpcConfig`].
pub struct RpcConfigView {
    pub transactions: TransactionsLayerView,
    pub extra: ExtrasView,
}

impl View for TransactionsLayer {
    type V = TransactionsLayerView;

    open spec fn view(&self) -> TransactionsLayerView {
        TransactionsLayerView {
            default_page_size: self.default_page_size,
            max_page_size: self.max_page_size,
            extra: extras_view(self.extra),
        }
    }
}

impl View for RpcConfig {
    type V = RpcConfigView;

    open spec fn view(&self) -> RpcConfigView {
        RpcConfigView { transactions: self.transactions@, extra: extras_view(self.extra) }
    }
}

impl TransactionsLayerView {
    /// The scope under which this layer reports unrecognised keys.
    pub open spec fn scope() -> Seq<char> {
        "transactions"@
    }

    /// A layer is well formed when no unrecognised key bears the name of a setting.
    pub open spec fn wf(self) -> bool {
        &&& !self.extra.keys.contains("default-page-size"@)
        &&& !self.extra.keys.contains("max-page-size"@)
    }

    /// The merge of this layer over `base`, field by field.
    pub open spec fn resolve(self, base: TransactionsConfig) -> TransactionsConfig {
        TransactionsConfig {
            default_page_size: overlay(self.default_page_size, base.default_page_size),
            max_page_size: overlay(self.max_page_size, base.max_page_size),
        }
    }

    /// The warnings that merging this layer adds to the log.
    pub open spec fn warnings(self) -> Seq<Seq<char>> {
        emitted(self.extra.warning(Self::scope()))
    }

    /// This layer sets nothing and holds no unrecognised key.
    pub open spec fn is_blank(self) -> bool {
        &&& self.default_page_size is None
        &&& self.max_page_size is None
        &&& self.extra.keys.len() == 0
    }

    /// This layer sets every field to the value it has in `config`, and holds no other key.
    pub open spec fn mirrors(self, config: TransactionsConfig) -> bool {
        &&& self.default_page_size == Some(config.default_page_size)
        &&& self.max_page_size == Some(config.max_page_size)
        &&& self.extra.keys.len() == 0
    }
}

impl RpcConfigView {
    /// The scope under which the top level reports unrecognised keys.
    pub open spec fn scope() -> Seq<char> {
        "top-level"@
    }

    /// The top-level layer is well formed when every layer in it is, and no unrecognised key
    /// bears the name of one of them.
    pub open spec fn wf(self) -> bool {
        &&& self.transactions.wf()
        &&& !self.extra.keys.contains("transactions"@)
    }

    /// The merge of this layer over `base`: each group's layer over that group's baseline.
    pub open spec fn resolve(self, base: ResolvedConfig) -> ResolvedConfig {
        ResolvedConfig { transactions: self.transactions.resolve(base.transactions) }
    }

    /// The warnings that merging this layer adds to the log: first the top level's own, then
    /// those of each group.
    pub open spec fn warnings(self) -> Seq<Seq<char>> {
        emitted(self.extra.warning(Self::scope())) + self.transactions.warnings()
    }

    /// This layer sets nothing and holds no unrecognised key at any scope.
    pub open spec fn is_blank(self) -> bool {
        &&& self.transactions.is_blank()
        &&& self.extra.keys.len() == 0
    }

    /// This layer sets every field of every group to the value it has in `config`, and holds
    /// no other key at any scope.
    pub open spec fn mirrors(self, config: ResolvedConfig) -> bool {
        &&& self.transactions.mirrors(config.transactions)
        &&& self.extra.keys.len() == 0
    }
}

impl ResolvedConfig {
    /// The configuration that applies when a file says nothing: every group's own defaults.
    pub open spec fn built_in() -> Self {
        ResolvedConfig { transactions: TransactionsConfig::built_in() }
    }
}

impl Default for ResolvedConfig {
    fn default() -> (config: Self)
        ensures
            config == Self::built_in(),
    {
        ResolvedConfig { transactions: TransactionsConfig::default() }
    }
}

impl TransactionsLayer {
    /// Merges this layer over `base`: each field takes the layer's value where the layer has
    /// one and the baseline's value otherwise. Unrecognised keys change nothing of the result;
    /// if there are any, one warning is appended to `log`.
    pub fn finish(
        self,
        base: TransactionsConfig,
        log: &mut Vec<String>,
    ) -> (config: TransactionsConfig)
        ensures
            config == self@.resolve(base),
            self.default_page_size is None ==> config.default_page_size == base.default_page_size,
            self.max_page_size is None ==> config.max_page_size == base.max_page_size,
            self.default_page_size matches Some(value) ==> config.default_page_size == value,
            self.max_page_size matches Some(value) ==> config.max_page_size == value,
            final(log).deep_view() == old(log).deep_view() + self@.warnings(),
    {
        check_extra("transactions", self.extra, log);
        TransactionsConfig {
            default_page_size: match self.default_page_size {
                Some(value) => value,
                None => base.default_page_size,
            },
            max_page_size: match self.max_page_size {
                Some(value) => value,
                None => base.max_page_size,
            },
        }
    }
}

impl Clone for TransactionsLayer {
    fn clone(&self) -> (copy: Self)
        ensures
            copy@ == self@,
    {
        TransactionsLayer {
            default_page_size: self.default_page_size,
            max_page_size: self.max_page_size,
            extra: self.extra.clone(),
        }
    }
}

impl Default for TransactionsLayer {
    /// The layer of a scope that the file leaves out: nothing set, nothing unrecognised.
    fn default() -> (layer: Self)
        ensures
            layer@.is_blank(),
            layer@.wf(),
    {
        TransactionsLayer {
            default_page_size: None,
            max_page_size: None,
            extra: toml::Table::new(),
        }
    }
}

impl FromSpecImpl<TransactionsConfig> for TransactionsLayer {
    /// The conversion makes a table of its own, of which only the model is known, so no one
    /// value stands for its result: `from` states what holds of it instead.
    open spec fn obeys_from_spec() -> bool {
        false
    }

    open spec fn from_spec(config: TransactionsConfig) -> Self {
        arbitrary()
    }
}

impl From<TransactionsConfig> for TransactionsLayer {
    /// The layer that spells out `config`: every field set, nothing unrecognised.
    fn from(config: TransactionsConfig) -> (layer: Self)
        ensures
            layer@.mirrors(config),
            layer@.wf(),
    {
        TransactionsLayer {
            default_page_size: Some(config.default_page_size),
            max_page_size: Some(config.max_page_size),
            extra: toml::Table::new(),
        }
    }
}

impl RpcConfig {
    /// Generate an example configuration, suitable for demonstrating the fields available to
    /// configure: every field is set, to its built-in default, and nothing is unrecognised.
    pub fn example() -> (layer: Self)
        ensures
            layer@.mirrors(ResolvedConfig::built_in()),
            layer@.wf(),
    {
        RpcConfig {
            transactions: TransactionsLayer::from(TransactionsConfig::default()),
            extra: toml::Table::new(),
        }
    }

    /// Merges this layer over `base`: every group's layer is merged over that group's
    /// baseline, and the results make up the resolved configuration. Unrecognised keys change
    /// nothing of the result; each scope that holds any appends one warning to `log`, the top
    /// level first.
    pub fn finish(self, base: ResolvedConfig, log: &mut Vec<String>) -> (config: ResolvedConfig)
        ensures
            config == self@.resolve(base),
            final(log).deep_view() == old(log).deep_view() + self@.warnings(),
    {
        check_extra("top-level", self.extra, log);
        let transactions = self.transactions.finish(base.transactions, log);
        assert(log.deep_view() =~= old(log).deep_view() + self@.warnings());
        ResolvedConfig { transactions }
    }
}

impl Clone for RpcConfig {
    fn clone(&self) -> (copy: Self)
        ensures
            copy@ == self@,
    {
        RpcConfig { transactions: self.transactions.clone(), extra: self.extra.clone() }
    }
}

impl Default for RpcConfig {
    /// The layer of an empty file: nothing set, nothing unrecognised.
    fn default() -> (layer: Self)
        ensures
            layer@.is_blank(),
            layer@.wf(),
    {
        RpcConfig { transactions: TransactionsLayer::default(), extra: toml::Table::new() }
    }
}

} // verus!
