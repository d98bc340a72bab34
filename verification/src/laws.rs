//! What holds of the analyses for every input.

use crate::analyzer::Analyzer;
use crate::ledger::{
    estimated_size, fields_size, is_ledger_entry, over_limit, SizeWarning, SizeWarningView,
    STRICT_DIVISOR,
};
use crate::patterns::{
    pattern_analysis, pattern_for, patterns_for, PatternType, UnsafePattern, UnsafePatternView,
};
use crate::source::{file_call_sites, file_structures, parsed_file};
use crate::syntax::{CallSiteView, FieldTypeView, StructDeclView};
use vstd::prelude::*;

verus! {

/// Whether a call site is an invocation of `panic!`.
pub open spec fn is_abort(site: CallSiteView) -> bool {
    site matches CallSiteView::MacroCall(Some(ident)) && ident.name == "panic"@
}

/// Whether a call site is a call of the method with the given name.
pub open spec fn is_call_of(site: CallSiteView, method: Seq<char>) -> bool {
    site matches CallSiteView::MethodCall(ident) && ident.name == method
}

/// Whether a call site is a call of `unwrap` or of `expect`.
pub open spec fn is_fallible_access(site: CallSiteView) -> bool {
    is_call_of(site, "unwrap"@) || is_call_of(site, "expect"@)
}

/// The patterns of two runs of call sites, one after the other, are the
/// patterns of the first followed by those of the second: the order in which
/// the call sites are met is the order of the patterns.
pub proof fn lemma_patterns_keep_order(first: Seq<CallSiteView>, second: Seq<CallSiteView>)
    ensures
        patterns_for(first + second) == patterns_for(first) + patterns_for(second),
    decreases second.len(),
{
    if second.len() == 0 {
        assert(first + second =~= first);
        assert(patterns_for(first) + patterns_for(second) =~= patterns_for(first));
    } else {
        lemma_patterns_keep_order(first, second.drop_last());
        assert((first + second).drop_last() =~= first + second.drop_last());
        assert((first + second).last() == second.last());
        match pattern_for(second.last()) {
            Some(pattern) => {
                assert(patterns_for(first + second) =~= patterns_for(first) + patterns_for(
                    second,
                ));
            },
            None => {},
        }
    }
}

/// Call sites that are neither a `panic!` nor an `unwrap` nor an `expect`
/// give no patterns.
pub proof fn lemma_harmless_sites_give_nothing(sites: Seq<CallSiteView>)
    requires
        forall|i: int| 0 <= i < sites.len() ==> !is_abort(sites[i]) && !is_fallible_access(sites[i]),
    ensures
        patterns_for(sites) == Seq::<UnsafePatternView>::empty(),
    decreases sites.len(),
{
    if sites.len() > 0 {
        lemma_harmless_sites_give_nothing(sites.drop_last());
        assert(!is_abort(sites.last()) && !is_fallible_access(sites.last()));
    }
}

/// Among call sites that hold one `panic!`, at `at`, and no `unwrap` or
/// `expect`, exactly one pattern is found: the `panic!`.
pub proof fn lemma_single_abort(sites: Seq<CallSiteView>, at: int)
    requires
        0 <= at < sites.len(),
        is_abort(sites[at]),
        forall|i: int| 0 <= i < sites.len() && i != at ==> !is_abort(sites[i]),
        forall|i: int| 0 <= i < sites.len() ==> !is_fallible_access(sites[i]),
    ensures
        patterns_for(sites).len() == 1,
        patterns_for(sites)[0].pattern_type == PatternType::Panic,
        Some(patterns_for(sites)[0]) == pattern_for(sites[at]),
{
    let before = sites.take(at);
    let here = seq![sites[at]];
    let after = sites.skip(at + 1);
    assert(sites =~= before + here + after);
    lemma_patterns_keep_order(before + here, after);
    lemma_patterns_keep_order(before, here);
    lemma_harmless_sites_give_nothing(before);
    lemma_harmless_sites_give_nothing(after);
    assert(here.drop_last() =~= Seq::<CallSiteView>::empty());
    assert(patterns_for(here) =~= seq![pattern_for(sites[at])->0]) by {
        reveal_with_fuel(patterns_for, 2);
    }
}

/// A source text that parses, and whose call sites hold one `panic!` and no
/// `unwrap` or `expect`, gives exactly one pattern, of kind
/// [`PatternType::Panic`].
pub proof fn lemma_single_abort_in_source(source: Seq<char>, at: int)
    requires
        parsed_file(source) is Some,
        ({
            let sites = file_call_sites(parsed_file(source)->0);
            &&& 0 <= at < sites.len()
            &&& is_abort(sites[at])
            &&& forall|i: int| 0 <= i < sites.len() && i != at ==> !is_abort(sites[i])
            &&& forall|i: int| 0 <= i < sites.len() ==> !is_fallible_access(sites[i])
        }),
    ensures
        pattern_analysis(source).len() == 1,
        pattern_analysis(source)[0].pattern_type == PatternType::Panic,
{
    lemma_single_abort(file_call_sites(parsed_file(source)->0), at);
}

/// Among call sites that hold one `unwrap`, one `expect` after it and
/// nothing else that aborts, exactly two patterns are found: the `unwrap`,
/// then the `expect`.
pub proof fn lemma_unwrap_then_expect(sites: Seq<CallSiteView>, first: int, second: int)
    requires
        0 <= first < second < sites.len(),
        is_call_of(sites[first], "unwrap"@),
        is_call_of(sites[second], "expect"@),
        forall|i: int|
            0 <= i < sites.len() && i != first && i != second ==> !is_abort(sites[i])
                && !is_fallible_access(sites[i]),
    ensures
        patterns_for(sites).len() == 2,
        patterns_for(sites)[0].pattern_type == PatternType::Unwrap,
        patterns_for(sites)[1].pattern_type == PatternType::Expect,
        Some(patterns_for(sites)[0]) == pattern_for(sites[first]),
        Some(patterns_for(sites)[1]) == pattern_for(sites[second]),
{
    let head = sites.take(first);
    let one = seq![sites[first]];
    let middle = sites.subrange(first + 1, second);
    let two = seq![sites[second]];
    let tail = sites.skip(second + 1);
    assert(sites =~= head + one + middle + two + tail);
    lemma_patterns_keep_order(head + one + middle + two, tail);
    lemma_patterns_keep_order(head + one + middle, two);
    lemma_patterns_keep_order(head + one, middle);
    lemma_patterns_keep_order(head, one);
    lemma_harmless_sites_give_nothing(head);
    lemma_harmless_sites_give_nothing(middle);
    lemma_harmless_sites_give_nothing(tail);
    assert(one.drop_last() =~= Seq::<CallSiteView>::empty());
    assert(two.drop_last() =~= Seq::<CallSiteView>::empty());
    assert(patterns_for(one) =~= seq![pattern_for(sites[first])->0]) by {
        reveal_with_fuel(patterns_for, 2);
    }
    assert(patterns_for(two) =~= seq![pattern_for(sites[second])->0]) by {
        reveal_with_fuel(patterns_for, 2);
    }
    assert("expect"@ != "unwrap"@) by {
        reveal_strlit("expect");
        reveal_strlit("unwrap");
        assert("expect"@[0] != "unwrap"@[0]);
    }
}

/// A source text that does not parse gives no patterns and no warnings.
pub proof fn lemma_unparsable_gives_nothing(analyzer: Analyzer, source: Seq<char>)
    requires
        parsed_file(source) is None,
    ensures
        pattern_analysis(source) == Seq::<UnsafePatternView>::empty(),
        analyzer.ledger_analysis(source) == Seq::<SizeWarningView>::empty(),
{
}

/// The estimate of a run of fields is the sum of the estimates of its
/// parts, so a structure never shrinks by gaining a field.
pub proof fn lemma_fields_size_adds_up(first: Seq<FieldTypeView>, second: Seq<FieldTypeView>)
    ensures
        fields_size(first + second) == fields_size(first) + fields_size(second),
        fields_size(first) <= fields_size(first + second),
    decreases second.len(),
{
    if second.len() == 0 {
        assert(first + second =~= first);
    } else {
        lemma_fields_size_adds_up(first, second.drop_last());
        assert((first + second).drop_last() =~= first + second.drop_last());
        assert((first + second).last() == second.last());
    }
}

/// A structure's estimate never shrinks by gaining fields.
pub proof fn lemma_estimate_grows_with_fields(decl: StructDeclView, more: Seq<FieldTypeView>)
    ensures
        estimated_size(decl) <= estimated_size(
            StructDeclView { fields: decl.fields + more, ..decl },
        ),
{
    lemma_fields_size_adds_up(decl.fields, more);
}

/// Strict mode lowers the threshold to the limit divided by
/// [`STRICT_DIVISOR`]; without it the threshold is the limit itself.
pub proof fn lemma_strict_mode_threshold(limit: nat, size: nat)
    ensures
        over_limit(true, limit, size) <==> size > limit / (STRICT_DIVISOR as nat),
        over_limit(false, limit, size) <==> size > limit,
{
}

/// The warnings of two runs of structures, one after the other, are the
/// warnings of the first followed by those of the second.
pub proof fn lemma_warnings_keep_order(
    analyzer: Analyzer,
    first: Seq<StructDeclView>,
    second: Seq<StructDeclView>,
)
    ensures
        analyzer.warnings_for(first + second) == analyzer.warnings_for(first)
            + analyzer.warnings_for(second),
    decreases second.len(),
{
    if second.len() == 0 {
        assert(first + second =~= first);
        assert(analyzer.warnings_for(first) + analyzer.warnings_for(second)
            =~= analyzer.warnings_for(first));
    } else {
        lemma_warnings_keep_order(analyzer, first, second.drop_last());
        assert((first + second).drop_last() =~= first + second.drop_last());
        assert((first + second).last() == second.last());
        match analyzer.warning_for(second.last()) {
            Some(warning) => {
                assert(analyzer.warnings_for(first + second) =~= analyzer.warnings_for(first)
                    + analyzer.warnings_for(second));
            },
            None => {},
        }
    }
}

/// One structure gives at most one warning: the one that
/// [`Analyzer::warning_for`] names.
pub proof fn lemma_one_structure(analyzer: Analyzer, decl: StructDeclView)
    ensures
        analyzer.warnings_for(seq![decl]) == match analyzer.warning_for(decl) {
            Some(warning) => seq![warning],
            None => Seq::empty(),
        },
        analyzer.warnings_for(seq![decl]).len() <= 1,
{
    reveal_with_fuel(Analyzer::warnings_for, 2);
    assert(seq![decl].drop_last() =~= Seq::<StructDeclView>::empty());
    match analyzer.warning_for(decl) {
        Some(warning) => {
            assert(analyzer.warnings_for(seq![decl]) =~= seq![warning]);
        },
        None => {},
    }
}

/// A ledger entry whose estimated size is over the limit in force gives
/// exactly one warning, which carries its name, its estimated size and the
/// configured limit, also where both thresholds are passed.
pub proof fn lemma_oversized_entry_warned_once(analyzer: Analyzer, decl: StructDeclView)
    requires
        is_ledger_entry(decl),
        over_limit(analyzer.strict_mode, analyzer.ledger_limit as nat, estimated_size(decl)),
    ensures
        analyzer.warnings_for(seq![decl]) == seq![
            SizeWarningView {
                struct_name: decl.name,
                estimated_size: estimated_size(decl),
                limit: analyzer.ledger_limit as nat,
            },
        ],
{
    lemma_one_structure(analyzer, decl);
}

/// A ledger entry whose estimated size is above the limit gives exactly one
/// warning, in strict mode or not.
pub proof fn lemma_above_limit_warned_once(analyzer: Analyzer, decl: StructDeclView)
    requires
        is_ledger_entry(decl),
        estimated_size(decl) > analyzer.ledger_limit,
    ensures
        analyzer.warnings_for(seq![decl]).len() == 1,
        analyzer.warnings_for(seq![decl])[0].limit
            == analyzer.ledger_limit,
{
    lemma_oversized_entry_warned_once(analyzer, decl);
}

/// In strict mode a ledger entry whose estimated size is above the limit
/// divided by [`STRICT_DIVISOR`] gives exactly one warning, which carries
/// the whole limit.
pub proof fn lemma_strict_above_threshold_warned_once(analyzer: Analyzer, decl: StructDeclView)
    requires
        analyzer.strict_mode,
        is_ledger_entry(decl),
        estimated_size(decl) > (analyzer.ledger_limit as nat) / (STRICT_DIVISOR as nat),
    ensures
        analyzer.warnings_for(seq![decl]).len() == 1,
        analyzer.warnings_for(seq![decl])[0].limit
            == analyzer.ledger_limit,
{
    lemma_oversized_entry_warned_once(analyzer, decl);
}

/// A ledger entry whose estimated size is within the limit in force gives
/// no warning.
pub proof fn lemma_small_entry_not_warned(analyzer: Analyzer, decl: StructDeclView)
    requires
        !over_limit(analyzer.strict_mode, analyzer.ledger_limit as nat, estimated_size(decl)),
    ensures
        analyzer.warnings_for(seq![decl]) == Seq::<
            SizeWarningView,
        >::empty(),
{
    lemma_one_structure(analyzer, decl);
}

/// A ledger entry whose estimated size is at most the limit divided by
/// [`STRICT_DIVISOR`] gives no warning, in strict mode or not.
pub proof fn lemma_up_to_threshold_not_warned(analyzer: Analyzer, decl: StructDeclView)
    requires
        estimated_size(decl) <= (analyzer.ledger_limit as nat) / (STRICT_DIVISOR as nat),
    ensures
        analyzer.warnings_for(seq![decl]) == Seq::<
            SizeWarningView,
        >::empty(),
{
    lemma_small_entry_not_warned(analyzer, decl);
}

/// Structures none of which carries the ledger marker give no warnings,
/// whatever their sizes and whatever the limit.
pub proof fn lemma_untagged_never_warned(analyzer: Analyzer, decls: Seq<StructDeclView>)
    requires
        forall|i: int| 0 <= i < decls.len() ==> !is_ledger_entry(decls[i]),
    ensures
        analyzer.warnings_for(decls) == Seq::<SizeWarningView>::empty(),
    decreases decls.len(),
{
    if decls.len() > 0 {
        lemma_untagged_never_warned(analyzer, decls.drop_last());
        assert(!is_ledger_entry(decls.last()));
    }
}

/// A structure without the ledger marker is ignored: the warnings are those
/// of the structures around it.
pub proof fn lemma_untagged_is_ignored(
    analyzer: Analyzer,
    before: Seq<StructDeclView>,
    decl: StructDeclView,
    after: Seq<StructDeclView>,
)
    requires
        !is_ledger_entry(decl),
    ensures
        analyzer.warnings_for(before + seq![decl] + after) == analyzer.warnings_for(
            before + after,
        ),
{
    lemma_warnings_keep_order(analyzer, before + seq![decl], after);
    lemma_warnings_keep_order(analyzer, before, seq![decl]);
    lemma_warnings_keep_order(analyzer, before, after);
    lemma_one_structure(analyzer, decl);
    assert(analyzer.warnings_for(before) + Seq::<SizeWarningView>::empty()
        =~= analyzer.warnings_for(before));
}

/// A ledger entry is measured wherever it stands among the structures of a
/// text: the warnings are those of the structures before it, then its own if
/// it has one, then those of the structures after it.
pub proof fn lemma_every_entry_is_measured(
    analyzer: Analyzer,
    decls: Seq<StructDeclView>,
    at: int,
)
    requires
        0 <= at < decls.len(),
    ensures
        analyzer.warnings_for(decls) == analyzer.warnings_for(decls.take(at))
            + analyzer.warnings_for(seq![decls[at]]) + analyzer.warnings_for(decls.skip(at + 1)),
{
    assert(decls =~= decls.take(at) + seq![decls[at]] + decls.skip(at + 1));
    lemma_warnings_keep_order(analyzer, decls.take(at) + seq![decls[at]], decls.skip(at + 1));
    lemma_warnings_keep_order(analyzer, decls.take(at), seq![decls[at]]);
}

/// Every ledger entry of a source text whose estimated size is over the
/// limit in force is reported, wherever in the text it is declared.
pub proof fn lemma_oversized_entry_in_source_is_warned(
    analyzer: Analyzer,
    source: Seq<char>,
    at: int,
)
    requires
        parsed_file(source) is Some,
        ({
            let decls = file_structures(parsed_file(source)->0);
            &&& 0 <= at < decls.len()
            &&& is_ledger_entry(decls[at])
            &&& over_limit(
                analyzer.strict_mode,
                analyzer.ledger_limit as nat,
                estimated_size(decls[at]),
            )
        }),
    ensures
        analyzer.ledger_analysis(source).contains(
            SizeWarningView {
                struct_name: file_structures(parsed_file(source)->0)[at].name,
                estimated_size: estimated_size(file_structures(parsed_file(source)->0)[at]),
                limit: analyzer.ledger_limit as nat,
            },
        ),
{
    let decls = file_structures(parsed_file(source)->0);
    let before = analyzer.warnings_for(decls.take(at));
    let own = analyzer.warnings_for(seq![decls[at]]);
    let after = analyzer.warnings_for(decls.skip(at + 1));
    lemma_every_entry_is_measured(analyzer, decls, at);
    lemma_oversized_entry_warned_once(analyzer, decls[at]);
    assert((before + own + after)[before.len() as int] == own[0]);
}

/// A source text in which no structure carries the ledger marker gives no
/// warnings.
pub proof fn lemma_untagged_source_not_warned(analyzer: Analyzer, source: Seq<char>)
    requires
        parsed_file(source) matches Some(file) ==> forall|i: int|
            0 <= i < file_structures(file).len() ==> !is_ledger_entry(file_structures(file)[i]),
    ensures
        analyzer.ledger_analysis(source) == Seq::<SizeWarningView>::empty(),
{
    if let Some(file) = parsed_file(source) {
        lemma_untagged_never_warned(analyzer, file_structures(file));
    }
}

/// Two runs of the ledger analysis on the same text with the same
/// configuration give the same warnings.
pub proof fn lemma_ledger_analysis_repeats(
    analyzer: Analyzer,
    source: &str,
    first: Vec<SizeWarning>,
    second: Vec<SizeWarning>,
)
    requires
        call_ensures(Analyzer::analyze_ledger_size, (&analyzer, source), first),
        call_ensures(Analyzer::analyze_ledger_size, (&analyzer, source), second),
    ensures
        first.deep_view() == second.deep_view(),
{
}

/// Two runs of the pattern analysis on the same text give the same
/// patterns. The lines in them rest on the positions that the reader keeps;
/// [`crate::source`] names the limit up to which those hold good.
pub proof fn lemma_pattern_analysis_repeats(
    analyzer: Analyzer,
    source: &str,
    first: Vec<UnsafePattern>,
    second: Vec<UnsafePattern>,
)
    requires
        call_ensures(Analyzer::analyze_unsafe_patterns, (&analyzer, source), first),
        call_ensures(Analyzer::analyze_unsafe_patterns, (&analyzer, source), second),
    ensures
        first.deep_view() == second.deep_view(),
{
}

/// Two runs of either of the analyses that are not yet written, on the same
/// input, give the same result.
pub proof fn lemma_unwritten_analyses_repeat(
    analyzer: Analyzer,
    code: &str,
    keys: Vec<String>,
    first_gaps: Vec<String>,
    second_gaps: Vec<String>,
    first_collision: bool,
    second_collision: bool,
)
    requires
        call_ensures(Analyzer::scan_auth_gaps, (&analyzer, code), first_gaps),
        call_ensures(Analyzer::scan_auth_gaps, (&analyzer, code), second_gaps),
        call_ensures(Analyzer::check_storage_collisions, (&analyzer, keys), first_collision),
        call_ensures(Analyzer::check_storage_collisions, (&analyzer, keys), second_collision),
    ensures
        first_gaps.deep_view() == second_gaps.deep_view(),
        first_collision == second_collision,
{
    assert(first_gaps.deep_view() =~= second_gaps.deep_view());
}

} // verus!
