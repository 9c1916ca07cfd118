//! The validated policy configuration of one run: the rename mapping and the
//! two visibility pattern sets. Validation is pure and runs to completion
//! before any file is touched, so a bad configuration has no side effects.

use vstd::prelude::*;
use crate::error::Error;
use crate::pattern::{PatternSet, regex_compile_ok};
use crate::rename::{RenameMap, all_pairs_fit, pairs_entries};

verus! {

/// Whether an optional pattern list compiles; an absent list always does.
pub open spec fn opt_patterns_ok(patterns: Option<Seq<Seq<char>>>) -> bool {
    match patterns {
        Option::None => true,
        Option::Some(ps) => regex_compile_ok(ps),
    }
}

/// The full policy configuration of one run, validated on construction.
pub struct Config {
    /// Emit a diagnostic line for each visibility change.
    pub verbose: bool,
    /// Names matching this set are forced to default visibility; it takes
    /// precedence over the hidden set.
    pub force_default: PatternSet,
    /// Names matching this set are forced to hidden visibility.
    pub force_hidden: PatternSet,
    /// The validated rename mapping.
    pub renames: RenameMap,
}

impl Config {
    /// Well-formedness: every rename replacement fits its original's span.
    pub open spec fn wf(self) -> bool {
        self.renames.all_fit()
    }

    /// Compile and validate a raw configuration, in the run's order: the
    /// hidden patterns, the default patterns, then the rename pairs. The
    /// first failure aborts the run before any file is opened.
    pub fn build(
        verbose: bool,
        rename_pairs: &Vec<(String, String)>,
        hidden_patterns: &Option<Vec<String>>,
        default_patterns: &Option<Vec<String>>,
    ) -> (r: Result<Config, Error>)
        ensures
            r is Ok <==> opt_patterns_ok(hidden_patterns.deep_view()) && opt_patterns_ok(
                default_patterns.deep_view(),
            ) && all_pairs_fit(rename_pairs.deep_view()),
            r matches Ok(cfg) ==> cfg.verbose == verbose && cfg.force_hidden.built_from(
                hidden_patterns.deep_view(),
            ) && cfg.force_default.built_from(default_patterns.deep_view())
                && cfg.renames.spec_entries() == pairs_entries(rename_pairs.deep_view())
                && cfg.wf(),
            r matches Err(e) ==> e.is_pattern_error() || e.is_config_error(),
            r matches Err(e) && e.is_config_error() ==> !all_pairs_fit(rename_pairs.deep_view()),
            r matches Err(e) && e.is_pattern_error() ==> !(opt_patterns_ok(
                hidden_patterns.deep_view(),
            ) && opt_patterns_ok(default_patterns.deep_view())),
            !(opt_patterns_ok(hidden_patterns.deep_view()) && opt_patterns_ok(
                default_patterns.deep_view(),
            )) ==> (r matches Err(e) && e.is_pattern_error()),
    {
        let force_hidden = match hidden_patterns {
            Option::Some(ps) => match PatternSet::compile(ps) {
                Ok(s) => s,
                Err(e) => { return Err(e); },
            },
            Option::None => PatternSet::none(),
        };
        let force_default = match default_patterns {
            Option::Some(ps) => match PatternSet::compile(ps) {
                Ok(s) => s,
                Err(e) => { return Err(e); },
            },
            Option::None => PatternSet::none(),
        };
        let renames = match RenameMap::build(rename_pairs) {
            Ok(m) => m,
            Err(e) => { return Err(e); },
        };
        Ok(Config { verbose, force_default, force_hidden, renames })
    }
}

} // verus!
