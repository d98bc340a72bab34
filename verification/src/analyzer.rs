//! The analyzer and its configuration.

use vstd::prelude::*;

verus! {

/// Size limit, in bytes, of a ledger entry that a new analyzer warns at.
pub const DEFAULT_LEDGER_LIMIT: usize = 64000;

/// Holds the configuration of the analyses and offers them as methods.
pub struct Analyzer {
    /// In strict mode a ledger entry is reported once it passes half the limit.
    pub strict_mode: bool,
    /// Size, in bytes, above which a ledger entry is reported.
    pub ledger_limit: usize,
}

impl Analyzer {
    /// An analyzer with the given strictness and the default ledger limit.
    pub fn new(strict_mode: bool) -> (analyzer: Self)
        ensures
            analyzer.strict_mode == strict_mode,
            analyzer.ledger_limit == DEFAULT_LEDGER_LIMIT,
    {
        Self { strict_mode, ledger_limit: DEFAULT_LEDGER_LIMIT }
    }

    /// Scans for entry points that change state without authorization.
    ///
    /// No such scan exists yet: the result is empty for every input.
    pub fn scan_auth_gaps(&self, _code: &str) -> (gaps: Vec<String>)
        ensures
            gaps@.len() == 0,
    {
        Vec::new()
    }

    /// Checks a set of storage keys for collisions.
    ///
    /// No such check exists yet: the result is `false` for every input.
    pub fn check_storage_collisions(&self, _keys: Vec<String>) -> (collision: bool)
        ensures
            !collision,
    {
        false
    }
}

} // verus!
