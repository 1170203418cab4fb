//! Detection and reporting of unrecognised configuration keys.
//!
//! Unrecognised keys never fail a merge. Each scope that holds any adds one warning to the
//! diagnostics log, and the caller hands the log to whatever sink it uses.

use crate::table::{render_table, table_keys, table_text};
use vstd::prelude::*;
use vstd::string::StringExecFns;

verus! {

/// The model of a bucket of unrecognised keys: all that the library tells of a table.
pub struct ExtrasView {
    /// The keys, in the order in which the table iterates over them.
    pub keys: Seq<Seq<char>>,
    /// The keys and their values as TOML text, if the table can be written as TOML.
    pub text: Option<Seq<char>>,
}

/// The model of the table `extra`.
pub open spec fn extras_view(extra: toml::Table) -> ExtrasView {
    ExtrasView { keys: table_keys(extra), text: table_text(extra) }
}

impl ExtrasView {
    /// What a warning shows of the bucket: its TOML text, or nothing where it has none.
    pub open spec fn rendering(self) -> Seq<char> {
        match self.text {
            Some(text) => text,
            None => Seq::empty(),
        }
    }

    /// The warning owed for this bucket when it is found at `scope`.
    pub open spec fn warning(self, scope: Seq<char>) -> Option<Seq<char>> {
        extras_warning(scope, self.keys.len(), self.rendering())
    }
}

/// The plural ending of "field": empty for exactly one key, "s" for any other count.
pub open spec fn plural_suffix(count: nat) -> Seq<char> {
    if count == 1 {
        Seq::empty()
    } else {
        "s"@
    }
}

/// The text of the warning for `count` unrecognised keys found at `scope`, followed by the
/// `rendering` of those keys and their values.
pub open spec fn warning_text(scope: Seq<char>, count: nat, rendering: Seq<char>) -> Seq<char> {
    "Found unrecognized "@ + scope + " field"@ + plural_suffix(count)
        + " which will be ignored. This could be because of a typo, or because it was introduced in a newer version of the indexer:\n"@
        + rendering
}

/// The warning owed for `count` unrecognised keys at `scope`: none for an empty bucket,
/// exactly one otherwise.
pub open spec fn extras_warning(scope: Seq<char>, count: nat, rendering: Seq<char>) -> Option<
    Seq<char>,
> {
    if count == 0 {
        None
    } else {
        Some(warning_text(scope, count, rendering))
    }
}

/// The entries that a warning adds to the diagnostics log.
pub open spec fn emitted(warning: Option<Seq<char>>) -> Seq<Seq<char>> {
    match warning {
        Some(text) => seq![text],
        None => Seq::empty(),
    }
}

/// Builds the warning for `count` unrecognised keys at `scope`, given the `rendering` of the
/// bucket that holds them: nothing for no keys, otherwise the text that names the scope, says
/// "field" for one key and "fields" for more, and ends with the rendering.
pub fn compose_warning(scope: &str, count: usize, rendering: &str) -> (warning: Option<String>)
    ensures
        warning.deep_view() == extras_warning(scope@, count as nat, rendering@),
        warning is None <==> count == 0,
{
    if count == 0 {
        return None;
    }
    let mut text = String::new();
    text.append("Found unrecognized ");
    text.append(scope);
    text.append(" field");
    if count != 1 {
        text.append("s");
    }
    text.append(
        " which will be ignored. This could be because of a typo, or because it was introduced in a newer version of the indexer:\n",
    );
    text.append(rendering);
    assert(text@ =~= warning_text(scope@, count as nat, rendering@));
    Some(text)
}

/// Checks the bucket `extra` of unrecognised keys found at `scope`: an empty bucket leaves
/// the log as it is, any other appends one warning that names the scope and shows the bucket
/// as TOML. A bucket that cannot be written as TOML is shown as nothing; its warning is
/// appended all the same.
pub fn check_extra(scope: &str, extra: toml::Table, log: &mut Vec<String>)
    ensures
        final(log).deep_view() == old(log).deep_view() + emitted(
            extras_view(extra).warning(scope@),
        ),
        final(log).len() == old(log).len() + (if extras_view(extra).keys.len() == 0 {
            0int
        } else {
            1int
        }),
{
    let count = extra.len();
    if count == 0 {
        assert(log.deep_view() =~= old(log).deep_view() + emitted(
            extras_view(extra).warning(scope@),
        ));
        return ;
    }
    let rendering = match render_table(&extra) {
        Some(text) => text,
        None => String::new(),
    };
    match compose_warning(scope, count, rendering.as_str()) {
        Some(warning) => {
            log.push(warning);
        },
        None => {},
    }
    assert(log.deep_view() =~= old(log).deep_view() + emitted(extras_view(extra).warning(scope@)));
}

} // verus!
