//! Laws of the merge, stated over the models that the contracts of `finish` use.

use crate::config::{ResolvedConfig, RpcConfigView, TransactionsLayerView};
use crate::extras::{extras_warning, warning_text};
use crate::transactions::TransactionsConfig;
use vstd::prelude::*;

verus! {

/// Overrides are per field: a layer that sets the default page size and leaves the maximum
/// absent resolves to its own default page size beside the baseline's maximum.
pub proof fn lemma_override_default_page_size_only(
    layer: TransactionsLayerView,
    base: TransactionsConfig,
    value: usize,
)
    requires
        layer.default_page_size == Some(value),
        layer.max_page_size is None,
    ensures
        layer.resolve(base) == (TransactionsConfig {
            default_page_size: value,
            max_page_size: base.max_page_size,
        }),
{
}

/// Overrides are per field: a layer that sets the maximum page size and leaves the default
/// absent resolves to its own maximum beside the baseline's default page size.
pub proof fn lemma_override_max_page_size_only(
    layer: TransactionsLayerView,
    base: TransactionsConfig,
    value: usize,
)
    requires
        layer.default_page_size is None,
        layer.max_page_size == Some(value),
    ensures
        layer.resolve(base) == (TransactionsConfig {
            default_page_size: base.default_page_size,
            max_page_size: value,
        }),
{
}

/// Each resolved field depends on that field alone: two merges that agree on a field, in the
/// layer and in the baseline, agree on it in the result, whatever the other fields hold.
pub proof fn lemma_fields_resolve_independently(
    a: TransactionsLayerView,
    b: TransactionsLayerView,
    base_a: TransactionsConfig,
    base_b: TransactionsConfig,
)
    ensures
        a.default_page_size == b.default_page_size && base_a.default_page_size
            == base_b.default_page_size ==> a.resolve(base_a).default_page_size == b.resolve(
            base_b,
        ).default_page_size,
        a.max_page_size == b.max_page_size && base_a.max_page_size == base_b.max_page_size
            ==> a.resolve(base_a).max_page_size == b.resolve(base_b).max_page_size,
{
}

/// Unrecognised keys never influence the result: two layers that agree on every setting
/// resolve alike over any baseline, whatever their buckets of unrecognised keys hold.
pub proof fn lemma_extras_do_not_affect_resolution(
    a: TransactionsLayerView,
    b: TransactionsLayerView,
    base: TransactionsConfig,
)
    requires
        a.default_page_size == b.default_page_size,
        a.max_page_size == b.max_page_size,
    ensures
        a.resolve(base) == b.resolve(base),
{
}

/// The same at the top level: two layers that agree on every setting of every group resolve
/// alike, whatever is unrecognised at any scope.
pub proof fn lemma_extras_do_not_affect_top_level_resolution(
    a: RpcConfigView,
    b: RpcConfigView,
    base: ResolvedConfig,
)
    requires
        a.transactions.default_page_size == b.transactions.default_page_size,
        a.transactions.max_page_size == b.transactions.max_page_size,
    ensures
        a.resolve(base) == b.resolve(base),
{
}

/// A layer that sets nothing resolves to the baseline itself; one that is blank warns of
/// nothing besides.
pub proof fn lemma_blank_layer_resolves_to_baseline(layer: RpcConfigView, base: ResolvedConfig)
    requires
        layer.transactions.default_page_size is None,
        layer.transactions.max_page_size is None,
    ensures
        layer.transactions.resolve(base.transactions) == base.transactions,
        layer.resolve(base) == base,
        layer.transactions.is_blank() ==> layer.transactions.warnings() == Seq::<
            Seq<char>,
        >::empty(),
        layer.is_blank() ==> layer.warnings() == Seq::<Seq<char>>::empty(),
{
}

/// Turning a resolved record into a layer loses nothing: the layer that mirrors `config`
/// resolves to `config` over every baseline, warns of nothing, and is well formed.
pub proof fn lemma_mirror_resolves_to_its_source(
    layer: TransactionsLayerView,
    config: TransactionsConfig,
    base: TransactionsConfig,
)
    requires
        layer.mirrors(config),
    ensures
        layer.resolve(base) == config,
        layer.warnings() == Seq::<Seq<char>>::empty(),
        layer.wf(),
{
}

/// The same at the top level: the layer that mirrors `config` resolves to `config` over every
/// baseline, warns of nothing at any scope, and is well formed.
pub proof fn lemma_top_level_mirror_resolves_to_its_source(
    layer: RpcConfigView,
    config: ResolvedConfig,
    base: ResolvedConfig,
)
    requires
        layer.mirrors(config),
    ensures
        layer.resolve(base) == config,
        layer.warnings() == Seq::<Seq<char>>::empty(),
        layer.wf(),
{
}

/// A merge appends at most one warning per scope, and exactly as many as there are scopes
/// with unrecognised keys.
pub proof fn lemma_one_warning_per_scope(layer: RpcConfigView)
    ensures
        layer.transactions.warnings().len() == (if layer.transactions.extra.keys.len() == 0 {
            0int
        } else {
            1int
        }),
        layer.warnings().len() == (if layer.extra.keys.len() == 0 {
            0int
        } else {
            1int
        }) + layer.transactions.warnings().len(),
{
}

/// A bucket warrants a warning exactly when it is not empty, and the warning reads "field"
/// for exactly one key and "fields" for any other count.
pub proof fn lemma_warning_counts_and_plural(scope: Seq<char>, count: nat, rendering: Seq<char>)
    ensures
        extras_warning(scope, count, rendering) is None <==> count == 0,
        count != 0 ==> extras_warning(scope, count, rendering) == Some(
            warning_text(scope, count, rendering),
        ),
        count == 1 ==> warning_text(scope, count, rendering) == "Found unrecognized "@ + scope
            + " field which will be ignored. This could be because of a typo, or because it was introduced in a newer version of the indexer:\n"@
            + rendering,
        count != 1 ==> warning_text(scope, count, rendering) == "Found unrecognized "@ + scope
            + " fields which will be ignored. This could be because of a typo, or because it was introduced in a newer version of the indexer:\n"@
            + rendering,
{
    reveal_strlit("s");
    reveal_strlit(" field");
    reveal_strlit(
        " which will be ignored. This could be because of a typo, or because it was introduced in a newer version of the indexer:\n",
    );
    reveal_strlit(
        " field which will be ignored. This could be because of a typo, or because it was introduced in a newer version of the indexer:\n",
    );
    reveal_strlit(
        " fields which will be ignored. This could be because of a typo, or because it was introduced in a newer version of the indexer:\n",
    );
    if count == 1 {
        assert(warning_text(scope, count, rendering) =~= "Found unrecognized "@ + scope
            + " field which will be ignored. This could be because of a typo, or because it was introduced in a newer version of the indexer:\n"@
            + rendering);
    } else {
        assert(warning_text(scope, count, rendering) =~= "Found unrecognized "@ + scope
            + " fields which will be ignored. This could be because of a typo, or because it was introduced in a newer version of the indexer:\n"@
            + rendering);
    }
}

} // verus!
