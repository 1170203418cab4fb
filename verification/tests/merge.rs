use rpc_config::config::{ResolvedConfig, RpcConfig, TransactionsLayer};
use rpc_config::transactions::TransactionsConfig;

const NEWER_VERSION: &str = " which will be ignored. This could be because of a typo, or because it was introduced in a newer version of the indexer:\n";

fn baseline() -> TransactionsConfig {
    TransactionsConfig {
        default_page_size: 50,
        max_page_size: 100,
    }
}

fn table_of(entries: &[(&str, toml::Value)]) -> toml::Table {
    let mut table = toml::Table::new();
    for (key, value) in entries {
        table.insert(key.to_string(), value.clone());
    }
    table
}

fn layer(
    default_page_size: Option<usize>,
    max_page_size: Option<usize>,
    extra: toml::Table,
) -> TransactionsLayer {
    TransactionsLayer {
        default_page_size,
        max_page_size,
        extra,
    }
}

#[test]
fn absent_fields_fall_back_to_the_baseline() {
    let mut log = Vec::new();
    let config = layer(None, Some(7), toml::Table::new()).finish(baseline(), &mut log);
    assert_eq!(config.default_page_size, 50);

    let config = layer(Some(7), None, toml::Table::new()).finish(baseline(), &mut log);
    assert_eq!(config.max_page_size, 100);
    assert!(log.is_empty());
}

#[test]
fn present_fields_override_the_baseline() {
    let mut log = Vec::new();
    let config = layer(Some(20), Some(40), toml::Table::new()).finish(baseline(), &mut log);
    assert_eq!(
        config,
        TransactionsConfig {
            default_page_size: 20,
            max_page_size: 40,
        }
    );

    let other_base = TransactionsConfig {
        default_page_size: 1,
        max_page_size: usize::MAX,
    };
    let config = layer(Some(20), Some(40), toml::Table::new()).finish(other_base, &mut log);
    assert_eq!(
        config,
        TransactionsConfig {
            default_page_size: 20,
            max_page_size: 40,
        }
    );
    assert!(log.is_empty());
}

#[test]
fn overrides_apply_field_by_field() {
    let mut log = Vec::new();
    let config = layer(Some(5), None, toml::Table::new()).finish(baseline(), &mut log);
    assert_eq!(
        config,
        TransactionsConfig {
            default_page_size: 5,
            max_page_size: 100,
        }
    );

    let config = layer(None, Some(500), toml::Table::new()).finish(baseline(), &mut log);
    assert_eq!(
        config,
        TransactionsConfig {
            default_page_size: 50,
            max_page_size: 500,
        }
    );
}

#[test]
fn override_may_be_zero_or_the_largest_value() {
    let mut log = Vec::new();
    let config = layer(Some(0), Some(usize::MAX), toml::Table::new()).finish(baseline(), &mut log);
    assert_eq!(config.default_page_size, 0);
    assert_eq!(config.max_page_size, usize::MAX);
}

#[test]
fn extras_do_not_change_the_result() {
    let extra = table_of(&[
        ("default_page_size", toml::Value::Integer(1)),
        ("max-pagesize", toml::Value::Integer(2)),
    ]);
    let mut noisy_log = Vec::new();
    let noisy = layer(Some(20), None, extra).finish(baseline(), &mut noisy_log);

    let mut quiet_log = Vec::new();
    let quiet = layer(Some(20), None, toml::Table::new()).finish(baseline(), &mut quiet_log);

    assert_eq!(noisy, quiet);
    assert_eq!(noisy_log.len(), 1);
    assert!(quiet_log.is_empty());
}

#[test]
fn override_with_one_unrecognised_key() {
    let extra = table_of(&[("foo", toml::Value::String("bar".to_string()))]);
    let mut log = Vec::new();
    let config = layer(Some(20), None, extra).finish(baseline(), &mut log);

    assert_eq!(
        config,
        TransactionsConfig {
            default_page_size: 20,
            max_page_size: 100,
        }
    );
    assert_eq!(log.len(), 1);
    assert!(log[0].contains("transactions"));
    assert!(log[0].contains("foo"));
    assert_eq!(
        log[0],
        format!("Found unrecognized transactions field{NEWER_VERSION}foo = \"bar\"\n")
    );
}

#[test]
fn empty_layer_returns_the_baseline() {
    let mut log = Vec::new();
    let config = layer(None, None, toml::Table::new()).finish(baseline(), &mut log);
    assert_eq!(config, baseline());
    assert!(log.is_empty());

    let odd = TransactionsConfig {
        default_page_size: 3,
        max_page_size: 1,
    };
    let config = TransactionsLayer::default().finish(odd, &mut log);
    assert_eq!(config, odd);
    assert!(log.is_empty());
}

#[test]
fn finish_keeps_what_the_log_already_holds() {
    let mut log = vec!["earlier".to_string()];
    let extra = table_of(&[("foo", toml::Value::Boolean(true))]);
    layer(None, None, extra).finish(baseline(), &mut log);
    assert_eq!(log.len(), 2);
    assert_eq!(log[0], "earlier");
    assert_eq!(
        log[1],
        format!("Found unrecognized transactions field{NEWER_VERSION}foo = true\n")
    );
}

#[test]
fn top_level_finish_resolves_each_group() {
    let top = RpcConfig {
        transactions: layer(None, Some(10), toml::Table::new()),
        extra: toml::Table::new(),
    };
    let mut log = Vec::new();
    let config = top.finish(ResolvedConfig::default(), &mut log);
    assert_eq!(
        config,
        ResolvedConfig {
            transactions: TransactionsConfig {
                default_page_size: 50,
                max_page_size: 10,
            },
        }
    );
    assert!(log.is_empty());
}

#[test]
fn top_level_finish_uses_the_baseline_it_is_given() {
    let base = ResolvedConfig {
        transactions: TransactionsConfig {
            default_page_size: 8,
            max_page_size: 9,
        },
    };
    let mut log = Vec::new();
    let config = RpcConfig::default().finish(base, &mut log);
    assert_eq!(config, base);
    assert!(log.is_empty());
}

#[test]
fn top_level_finish_warns_once_per_scope_top_level_first() {
    let mut pipeline = toml::Table::new();
    pipeline.insert("size".to_string(), toml::Value::Integer(3));
    let top = RpcConfig {
        transactions: layer(
            Some(1),
            None,
            table_of(&[
                ("foo", toml::Value::Integer(1)),
                ("bar", toml::Value::Integer(2)),
            ]),
        ),
        extra: table_of(&[("pipeline", toml::Value::Table(pipeline))]),
    };
    let mut log = Vec::new();
    let config = top.finish(ResolvedConfig::default(), &mut log);

    assert_eq!(config.transactions.default_page_size, 1);
    assert_eq!(config.transactions.max_page_size, 100);
    assert_eq!(
        log,
        vec![
            format!("Found unrecognized top-level field{NEWER_VERSION}[pipeline]\nsize = 3\n"),
            format!("Found unrecognized transactions fields{NEWER_VERSION}foo = 1\nbar = 2\n"),
        ]
    );
}

#[test]
fn top_level_finish_warns_for_the_group_alone() {
    let top = RpcConfig {
        transactions: layer(None, None, table_of(&[("foo", toml::Value::Integer(1))])),
        extra: toml::Table::new(),
    };
    let mut log = Vec::new();
    top.finish(ResolvedConfig::default(), &mut log);
    assert_eq!(
        log,
        vec![format!(
            "Found unrecognized transactions field{NEWER_VERSION}foo = 1\n"
        )]
    );
}

#[test]
fn built_in_defaults() {
    assert_eq!(
        TransactionsConfig::default(),
        TransactionsConfig {
            default_page_size: 50,
            max_page_size: 100,
        }
    );
    assert_eq!(
        ResolvedConfig::default().transactions,
        TransactionsConfig::default()
    );
}

#[test]
fn default_layers_are_empty() {
    let leaf = TransactionsLayer::default();
    assert_eq!(leaf.default_page_size, None);
    assert_eq!(leaf.max_page_size, None);
    assert!(leaf.extra.is_empty());

    let top = RpcConfig::default();
    assert_eq!(top.transactions.default_page_size, None);
    assert_eq!(top.transactions.max_page_size, None);
    assert!(top.transactions.extra.is_empty());
    assert!(top.extra.is_empty());
}

#[test]
fn clone_keeps_settings_and_extras() {
    let source = RpcConfig {
        transactions: layer(
            Some(4),
            None,
            table_of(&[("foo", toml::Value::Integer(1))]),
        ),
        extra: table_of(&[("bar", toml::Value::Boolean(false))]),
    };
    let copy = source.clone();
    assert_eq!(copy.transactions.default_page_size, Some(4));
    assert_eq!(copy.transactions.max_page_size, None);
    assert_eq!(copy.transactions.extra, source.transactions.extra);
    assert_eq!(copy.extra, source.extra);

    let mut first = Vec::new();
    let mut second = Vec::new();
    let a = source.finish(ResolvedConfig::default(), &mut first);
    let b = copy.finish(ResolvedConfig::default(), &mut second);
    assert_eq!(a, b);
    assert_eq!(first, second);
    assert_eq!(first.len(), 2);
}
