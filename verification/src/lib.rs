//! Static analysis of smart-contract source code: abort-prone call sites and
//! oversized ledger entries.

pub mod analyzer;
pub mod guard;
pub mod laws;
pub mod ledger;
pub mod patterns;
pub mod source;
pub mod syntax;
pub mod text;

pub use analyzer::{Analyzer, DEFAULT_LEDGER_LIMIT};
pub use guard::{Error, SanctifiedGuard};
pub use ledger::SizeWarning;
pub use patterns::{PatternType, UnsafePattern};
