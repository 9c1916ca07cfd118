//! The per-symbol policy engine: the rename resolver and the visibility
//! classifier, and the laws that govern them.

use vstd::prelude::*;
use std::io::Write;
use crate::config::Config;
use crate::record::SymbolFlags;
use crate::rename::fits;

verus! {

/// One symbol's decision: an optional replacement name and an optional
/// edited record; either, both, or neither may be present.
pub struct Decision {
    /// The replacement name bytes, when the rename mapping has the symbol.
    pub new_name: Option<String>,
    /// The record with changed visibility, when a pattern set forces one.
    pub new_flags: Option<SymbolFlags>,
}

/// What the rename resolver answers: the mapped replacement exactly when the
/// symbol has a name and the mapping has that name; never for unnamed ones.
pub open spec fn spec_new_name(cfg: Config, name: Option<Seq<char>>) -> Option<Seq<char>> {
    match name {
        Option::None => Option::None,
        Option::Some(n) => if cfg.renames.spec_entries().contains_key(n) {
            Option::Some(cfg.renames.spec_entries()[n])
        } else {
            Option::None
        },
    }
}

/// What the visibility classifier answers: nothing for a debug-only record;
/// else, for a named symbol, the record forced to default when the default
/// set matches (strictly first), forced to hidden when only the hidden set
/// matches; nothing otherwise, and nothing for unnamed symbols.
pub open spec fn spec_new_flags(cfg: Config, name: Option<Seq<char>>, flags: SymbolFlags) -> Option<
    SymbolFlags,
> {
    if flags.is_debug() {
        Option::None
    } else {
        match name {
            Option::Some(n) => if cfg.force_default.spec_matches(n) {
                Option::Some(flags.spec_default())
            } else if cfg.force_hidden.spec_matches(n) {
                Option::Some(flags.spec_hidden())
            } else {
                Option::None
            },
            Option::None => Option::None,
        }
    }
}

/// Relies on writeln to standard output: the diagnostic side channel of
/// verbose runs, one line per visibility change.
#[verifier::external_body]
fn log_visibility(state: &str, name: &str) {
    let _ = writeln!(std::io::stdout(), "Set visibility {}: {}", state, name);
}

/// Decide the new visibility, if any, for one symbol record. In verbose
/// configurations a diagnostic line is printed for each change.
pub fn classify(cfg: &Config, name: &Option<String>, flags: &SymbolFlags) -> (r: Option<
    SymbolFlags,
>)
    ensures
        r == spec_new_flags(*cfg, name.deep_view(), *flags),
{
    if flags.is_debug_entry() {
        return None;
    }
    match name {
        Option::Some(n) => {
            if cfg.force_default.matches(n.as_str()) {
                if cfg.verbose {
                    log_visibility("default", n.as_str());
                }
                Some(flags.with_default())
            } else if cfg.force_hidden.matches(n.as_str()) {
                if cfg.verbose {
                    log_visibility("hidden", n.as_str());
                }
                Some(flags.with_hidden())
            } else {
                None
            }
        },
        Option::None => None,
    }
}

/// Decide the new name, if any, for one symbol: a pure lookup in the rename
/// mapping; unnamed symbols are never renamed.
pub fn resolve(cfg: &Config, name: &Option<String>) -> (r: Option<String>)
    ensures
        r.deep_view() == spec_new_name(*cfg, name.deep_view()),
{
    match name {
        Option::Some(n) => match cfg.renames.lookup(n.as_str()) {
            Option::Some(v) => Option::Some(v.clone()),
            Option::None => Option::None,
        },
        Option::None => Option::None,
    }
}

/// Decide rename and visibility for one symbol, in that order.
pub fn decide(cfg: &Config, name: &Option<String>, flags: &SymbolFlags) -> (d: Decision)
    ensures
        d.new_name.deep_view() == spec_new_name(*cfg, name.deep_view()),
        d.new_flags == spec_new_flags(*cfg, name.deep_view(), *flags),
        d.new_name is Some ==> name is Some,
{
    let new_name = resolve(cfg, name);
    let new_flags = classify(cfg, name, flags);
    Decision { new_name, new_flags }
}

/// A name matching both pattern sets always ends up with default visibility,
/// never hidden: the force-default set takes strict precedence.
pub proof fn lemma_default_precedence(cfg: Config, name: Seq<char>, flags: SymbolFlags)
    requires
        !flags.is_debug(),
        cfg.force_default.spec_matches(name),
        cfg.force_hidden.spec_matches(name),
    ensures
        spec_new_flags(cfg, Option::Some(name), flags) == Option::Some(flags.spec_default()),
{
}

/// A debug-only record never receives a visibility change, whatever the
/// pattern sets match — even a pattern matching every name.
pub proof fn lemma_debug_untouched(cfg: Config, name: Option<Seq<char>>, flags: SymbolFlags)
    requires
        flags.is_debug(),
    ensures
        spec_new_flags(cfg, name, flags) is None,
{
}

/// An unnamed symbol is never renamed, whatever the mapping holds.
pub proof fn lemma_unnamed_never_renamed(cfg: Config)
    ensures
        spec_new_name(cfg, Option::None) is None,
{
}

/// With a validated configuration, every resolved replacement name fits the
/// original name's byte span, so the rename patch always fits in place.
pub proof fn lemma_resolved_name_fits(cfg: Config, name: Seq<char>, renamed: Seq<char>)
    requires
        cfg.wf(),
        spec_new_name(cfg, Option::Some(name)) == Option::Some(renamed),
    ensures
        fits(name, renamed),
{
    assert(cfg.renames.spec_entries().contains_key(name));
}

/// Forcing visibility with a hidden-only configuration is idempotent: when a
/// first pass changed a record, a second pass over the changed record (the
/// name is unchanged) decides the very same record again, so it writes the
/// same bytes and the output does not change further.
pub proof fn lemma_hidden_transform_idempotent(
    cfg: Config,
    name: Seq<char>,
    flags: SymbolFlags,
    changed: SymbolFlags,
)
    requires
        forall|t: Seq<char>| !cfg.force_default.spec_matches(t),
        spec_new_flags(cfg, Option::Some(name), flags) == Option::Some(changed),
    ensures
        spec_new_flags(cfg, Option::Some(name), changed) == Option::Some(changed),
{
    crate::record::lemma_visibility_preserves_debug_class(flags);
    crate::record::lemma_set_visibility_idempotent(flags);
}

} // verus!
