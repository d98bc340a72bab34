//! Call sites that can abort execution: `panic!`, `unwrap` and `expect`.

use crate::analyzer::Analyzer;
use crate::source::{call_sites, file_call_sites, parse_file, parsed_file};
use crate::syntax::{CallSite, CallSiteView};
use crate::text::same_text;
use vstd::prelude::*;

verus! {

/// The kind of an abort-prone call site.
#[derive(Debug, Clone, Copy, PartialEq, Eq, Structural)]
pub enum PatternType {
    /// An invocation of `panic!`, which always aborts.
    Panic,
    /// A call of `unwrap`, which aborts where there is no value.
    Unwrap,
    /// A call of `expect`, which aborts with a message where there is no value.
    Expect,
}

/// One abort-prone call site.
#[derive(Debug)]
pub struct UnsafePattern {
    /// What was found.
    pub pattern_type: PatternType,
    /// The line of the call site in the source text, counted from 1.
    pub line: usize,
    /// A short label: `panic!`, `unwrap` or `expect`.
    pub snippet: String,
}

/// Mathematical counterpart of [`UnsafePattern`].
pub struct UnsafePatternView {
    pub pattern_type: PatternType,
    pub line: nat,
    pub snippet: Seq<char>,
}

impl DeepView for UnsafePattern {
    type V = UnsafePatternView;

    open spec fn deep_view(&self) -> UnsafePatternView {
        UnsafePatternView {
            pattern_type: self.pattern_type,
            line: self.line as nat,
            snippet: self.snippet@,
        }
    }
}

/// The pattern that a call site gives rise to, if any.
///
/// A macro named by the bare identifier `panic` is a [`PatternType::Panic`],
/// labelled `panic!`. A method named `unwrap` or `expect` is a
/// [`PatternType::Unwrap`] or a [`PatternType::Expect`], labelled with the
/// name of the method. The line is that of the identifier.
pub open spec fn pattern_for(site: CallSiteView) -> Option<UnsafePatternView> {
    match site {
        CallSiteView::MacroCall(Some(ident)) => if ident.name == "panic"@ {
            Some(
                UnsafePatternView {
                    pattern_type: PatternType::Panic,
                    line: ident.line,
                    snippet: "panic!"@,
                },
            )
        } else {
            None
        },
        CallSiteView::MacroCall(None) => None,
        CallSiteView::MethodCall(ident) => if ident.name == "unwrap"@ {
            Some(
                UnsafePatternView {
                    pattern_type: PatternType::Unwrap,
                    line: ident.line,
                    snippet: ident.name,
                },
            )
        } else if ident.name == "expect"@ {
            Some(
                UnsafePatternView {
                    pattern_type: PatternType::Expect,
                    line: ident.line,
                    snippet: ident.name,
                },
            )
        } else {
            None
        },
    }
}

/// The patterns of a sequence of call sites: the pattern of each call site
/// that has one, in the order of the call sites.
pub open spec fn patterns_for(sites: Seq<CallSiteView>) -> Seq<UnsafePatternView>
    decreases sites.len(),
{
    if sites.len() == 0 {
        Seq::empty()
    } else {
        let before = patterns_for(sites.drop_last());
        match pattern_for(sites.last()) {
            Some(pattern) => before.push(pattern),
            None => before,
        }
    }
}

/// The patterns of a source text: those of its call sites, and none where
/// the text does not parse.
pub open spec fn pattern_analysis(source: Seq<char>) -> Seq<UnsafePatternView> {
    match parsed_file(source) {
        Some(file) => patterns_for(file_call_sites(file)),
        None => Seq::empty(),
    }
}

impl Analyzer {
    /// Parses the source text and reports every `panic!`, `unwrap` and
    /// `expect` in it, in the order in which the walk over the syntax tree
    /// meets them. A text that does not parse gives no patterns.
    pub fn analyze_unsafe_patterns(&self, source: &str) -> (patterns: Vec<UnsafePattern>)
        ensures
            patterns.deep_view() == pattern_analysis(source@),
            parsed_file(source@) is None ==> patterns@.len() == 0,
    {
        match parse_file(source) {
            Some(file) => {
                let sites = call_sites(&file);
                unsafe_patterns(&sites)
            },
            None => {
                let patterns: Vec<UnsafePattern> = Vec::new();
                assert(patterns.deep_view() =~= Seq::empty());
                patterns
            },
        }
    }
}

/// Classifies one call site.
pub fn classify_call_site(site: &CallSite) -> (pattern: Option<UnsafePattern>)
    ensures
        pattern.deep_view() == pattern_for(site.deep_view()),
{
    match site {
        CallSite::MacroCall(Some(ident)) => {
            if same_text(ident.name.as_str(), "panic") {
                Some(
                    UnsafePattern {
                        pattern_type: PatternType::Panic,
                        line: ident.line,
                        snippet: "panic!".to_owned(),
                    },
                )
            } else {
                None
            }
        },
        CallSite::MacroCall(None) => None,
        CallSite::MethodCall(ident) => {
            if same_text(ident.name.as_str(), "unwrap") {
                Some(
                    UnsafePattern {
                        pattern_type: PatternType::Unwrap,
                        line: ident.line,
                        snippet: ident.name.clone(),
                    },
                )
            } else if same_text(ident.name.as_str(), "expect") {
                Some(
                    UnsafePattern {
                        pattern_type: PatternType::Expect,
                        line: ident.line,
                        snippet: ident.name.clone(),
                    },
                )
            } else {
                None
            }
        },
    }
}

/// The abort-prone call sites among the given ones, in the order given.
pub fn unsafe_patterns(sites: &Vec<CallSite>) -> (patterns: Vec<UnsafePattern>)
    ensures
        patterns.deep_view() == patterns_for(sites.deep_view()),
{
    let mut patterns: Vec<UnsafePattern> = Vec::new();
    let mut i: usize = 0;
    assert(patterns.deep_view() =~= Seq::empty());
    while i < sites.len()
        invariant
            i <= sites.len(),
            patterns.deep_view() == patterns_for(sites.deep_view().take(i as int)),
        decreases sites.len() - i,
    {
        proof {
            let all = sites.deep_view();
            assert(all.take(i + 1).drop_last() =~= all.take(i as int));
            assert(all.take(i + 1).last() == sites[i as int].deep_view());
        }
        if let Some(pattern) = classify_call_site(&sites[i]) {
            let ghost before = patterns.deep_view();
            patterns.push(pattern);
            assert(patterns.deep_view() =~= before.push(pattern.deep_view()));
        }
        i += 1;
    }
    proof {
        let all = sites.deep_view();
        assert(all.take(i as int) =~= all);
    }
    patterns
}

} // verus!
