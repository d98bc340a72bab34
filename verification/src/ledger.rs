//! Size estimates for structures kept on the ledger, and the warnings
//! raised against the configured limit.

use crate::analyzer::Analyzer;
use crate::source::{file_structures, parse_file, parsed_file, structures};
use crate::syntax::{
    Attribute, AttributeView, FieldType, FieldTypeView, StructDecl, StructDeclView,
};
use crate::text::same_text;
use vstd::prelude::*;

verus! {

/// Reports a ledger entry whose estimated size is over the limit in force.
#[derive(Debug)]
pub struct SizeWarning {
    /// The name of the structure.
    pub struct_name: String,
    /// Its estimated size in bytes.
    pub estimated_size: usize,
    /// The configured limit in bytes.
    pub limit: usize,
}

/// Mathematical counterpart of [`SizeWarning`].
pub struct SizeWarningView {
    pub struct_name: Seq<char>,
    pub estimated_size: nat,
    pub limit: nat,
}

impl DeepView for SizeWarning {
    type V = SizeWarningView;

    open spec fn deep_view(&self) -> SizeWarningView {
        SizeWarningView {
            struct_name: self.struct_name@,
            estimated_size: self.estimated_size as nat,
            limit: self.limit as nat,
        }
    }
}

/// Estimate for `bool` and the 32-bit integers.
pub const SIZE_WORD: usize = 4;

/// Estimate for the 64-bit integers.
pub const SIZE_LONG: usize = 8;

/// Estimate for the 128-bit integers.
pub const SIZE_WIDE: usize = 16;

/// Estimate for an address.
pub const SIZE_ADDRESS: usize = 32;

/// Flat estimate for bytes, strings and symbols, whose length is not fixed.
pub const SIZE_VARIABLE: usize = 64;

/// Flat estimate for vectors and maps.
pub const SIZE_CONTAINER: usize = 128;

/// Estimate for a named type that the table does not list.
pub const SIZE_UNKNOWN: usize = 32;

/// Estimate for a type that is not written as a path.
pub const SIZE_COMPOSITE: usize = 8;

/// In strict mode the limit is divided by this number.
pub const STRICT_DIVISOR: usize = 2;

/// The attribute that marks a structure as a ledger entry.
pub const LEDGER_MARKER: &'static str = "contracttype";

/// The characters of [`LEDGER_MARKER`].
pub open spec fn ledger_marker() -> Seq<char> {
    LEDGER_MARKER@
}

/// Estimated size of a field whose type has the given name.
pub open spec fn named_type_size(name: Seq<char>) -> nat {
    if name == "u32"@ || name == "i32"@ || name == "bool"@ {
        SIZE_WORD as nat
    } else if name == "u64"@ || name == "i64"@ {
        SIZE_LONG as nat
    } else if name == "u128"@ || name == "i128"@ || name == "I128"@ || name == "U128"@ {
        SIZE_WIDE as nat
    } else if name == "Address"@ {
        SIZE_ADDRESS as nat
    } else if name == "Bytes"@ || name == "BytesN"@ || name == "String"@ || name == "Symbol"@ {
        SIZE_VARIABLE as nat
    } else if name == "Vec"@ || name == "Map"@ {
        SIZE_CONTAINER as nat
    } else {
        SIZE_UNKNOWN as nat
    }
}

/// Estimated size of one field.
pub open spec fn field_size(ty: FieldTypeView) -> nat {
    match ty {
        FieldTypeView::Named(name) => named_type_size(name),
        FieldTypeView::Composite => SIZE_COMPOSITE as nat,
    }
}

/// Sum of the estimates of the given fields.
pub open spec fn fields_size(fields: Seq<FieldTypeView>) -> nat
    decreases fields.len(),
{
    if fields.len() == 0 {
        0
    } else {
        fields_size(fields.drop_last()) + field_size(fields.last())
    }
}

/// The given size, or the largest `usize` where the size is beyond it.
pub open spec fn capped(size: nat) -> nat {
    if size > usize::MAX {
        usize::MAX as nat
    } else {
        size
    }
}

/// Estimated size of a structure: the sum over its fields, capped at the
/// largest `usize`.
pub open spec fn estimated_size(decl: StructDeclView) -> nat {
    capped(fields_size(decl.fields))
}

/// Whether the structure carries the ledger marker.
pub open spec fn is_ledger_entry(decl: StructDeclView) -> bool {
    decl.attributes.contains(AttributeView::Marker(ledger_marker()))
}

/// Whether a size is reported under the given limit: it is when it is above
/// the limit, and in strict mode already when it is above the limit divided
/// by [`STRICT_DIVISOR`].
pub open spec fn over_limit(strict_mode: bool, limit: nat, size: nat) -> bool {
    size > limit || (strict_mode && size > limit / (STRICT_DIVISOR as nat))
}

impl StructDecl {
    /// Whether the structure carries the ledger marker among its attributes.
    pub fn has_ledger_marker(&self) -> (marked: bool)
        ensures
            marked == is_ledger_entry(self.deep_view()),
    {
        let mut i: usize = 0;
        while i < self.attributes.len()
            invariant
                i <= self.attributes.len(),
                !self.attributes.deep_view().take(i as int).contains(
                    AttributeView::Marker(ledger_marker()),
                ),
            decreases self.attributes.len() - i,
        {
            let found = match &self.attributes[i] {
                Attribute::Marker(name) => same_text(name.as_str(), LEDGER_MARKER),
                Attribute::Other => false,
            };
            if found {
                assert(self.attributes.deep_view()[i as int] == AttributeView::Marker(
                    ledger_marker(),
                ));
                return true;
            }
            proof {
                let attributes = self.attributes.deep_view();
                assert(attributes.take(i + 1) =~= attributes.take(i as int).push(
                    attributes[i as int],
                ));
            }
            i += 1;
        }
        proof {
            let attributes = self.attributes.deep_view();
            assert(attributes.take(i as int) =~= attributes);
        }
        false
    }
}

impl Analyzer {
    /// The warning that a structure gives rise to, if any: one for a ledger
    /// entry whose estimated size is over the limit.
    pub open spec fn warning_for(&self, decl: StructDeclView) -> Option<SizeWarningView> {
        if is_ledger_entry(decl) && over_limit(
            self.strict_mode,
            self.ledger_limit as nat,
            estimated_size(decl),
        ) {
            Some(
                SizeWarningView {
                    struct_name: decl.name,
                    estimated_size: estimated_size(decl),
                    limit: self.ledger_limit as nat,
                },
            )
        } else {
            None
        }
    }

    /// The warnings for a sequence of structures: the warning of each
    /// structure that has one, in the order of the structures.
    pub open spec fn warnings_for(&self, decls: Seq<StructDeclView>) -> Seq<SizeWarningView>
        decreases decls.len(),
    {
        if decls.len() == 0 {
            Seq::empty()
        } else {
            let before = self.warnings_for(decls.drop_last());
            match self.warning_for(decls.last()) {
                Some(warning) => before.push(warning),
                None => before,
            }
        }
    }

    /// Estimates the size of one field from the name of its type.
    pub fn estimate_type_size(&self, ty: &FieldType) -> (size: usize)
        ensures
            size == field_size(ty.deep_view()),
    {
        match ty {
            FieldType::Named(name) => {
                let name = name.as_str();
                if same_text(name, "u32") || same_text(name, "i32") || same_text(name, "bool") {
                    SIZE_WORD
                } else if same_text(name, "u64") || same_text(name, "i64") {
                    SIZE_LONG
                } else if same_text(name, "u128") || same_text(name, "i128") || same_text(
                    name,
                    "I128",
                ) || same_text(name, "U128") {
                    SIZE_WIDE
                } else if same_text(name, "Address") {
                    SIZE_ADDRESS
                } else if same_text(name, "Bytes") || same_text(name, "BytesN") || same_text(
                    name,
                    "String",
                ) || same_text(name, "Symbol") {
                    SIZE_VARIABLE
                } else if same_text(name, "Vec") || same_text(name, "Map") {
                    SIZE_CONTAINER
                } else {
                    SIZE_UNKNOWN
                }
            },
            FieldType::Composite => SIZE_COMPOSITE,
        }
    }

    /// Estimates the size of a structure: the sum of the estimates of its
    /// fields, in declaration order.
    pub fn estimate_struct_size(&self, s: &StructDecl) -> (size: usize)
        ensures
            size == estimated_size(s.deep_view()),
    {
        let mut total: usize = 0;
        let mut i: usize = 0;
        while i < s.fields.len()
            invariant
                i <= s.fields.len(),
                total == capped(fields_size(s.fields.deep_view().take(i as int))),
            decreases s.fields.len() - i,
        {
            let size = self.estimate_type_size(&s.fields[i]);
            proof {
                let fields = s.fields.deep_view();
                assert(fields.take(i + 1).drop_last() =~= fields.take(i as int));
                assert(fields.take(i + 1).last() == s.fields[i as int].deep_view());
            }
            total = total.saturating_add(size);
            i += 1;
        }
        proof {
            let fields = s.fields.deep_view();
            assert(fields.take(i as int) =~= fields);
        }
        total
    }

    /// The warnings for a source text: those for the structures declared
    /// anywhere in it, and none where the text does not parse.
    pub open spec fn ledger_analysis(&self, source: Seq<char>) -> Seq<SizeWarningView> {
        match parsed_file(source) {
            Some(file) => self.warnings_for(file_structures(file)),
            None => Seq::empty(),
        }
    }

    /// Parses the source text and reports each ledger entry declared in it,
    /// at the top level or inside a module, a function body or another
    /// item, whose estimated size is over the limit. A text that does not
    /// parse gives no warnings.
    pub fn analyze_ledger_size(&self, source: &str) -> (warnings: Vec<SizeWarning>)
        ensures
            warnings.deep_view() == self.ledger_analysis(source@),
            parsed_file(source@) is None ==> warnings@.len() == 0,
    {
        match parse_file(source) {
            Some(file) => {
                let found = structures(&file);
                self.ledger_warnings(&found)
            },
            None => {
                let warnings: Vec<SizeWarning> = Vec::new();
                assert(warnings.deep_view() =~= Seq::empty());
                warnings
            },
        }
    }

    /// The warnings for the given structures: one for each ledger entry
    /// whose estimated size is over the limit, in the order of the
    /// structures.
    pub fn ledger_warnings(&self, decls: &Vec<StructDecl>) -> (warnings: Vec<SizeWarning>)
        ensures
            warnings.deep_view() == self.warnings_for(decls.deep_view()),
    {
        let mut warnings: Vec<SizeWarning> = Vec::new();
        let mut i: usize = 0;
        assert(warnings.deep_view() =~= Seq::empty());
        while i < decls.len()
            invariant
                i <= decls.len(),
                warnings.deep_view() == self.warnings_for(decls.deep_view().take(i as int)),
            decreases decls.len() - i,
        {
            proof {
                let all = decls.deep_view();
                assert(all.take(i + 1).drop_last() =~= all.take(i as int));
                assert(all.take(i + 1).last() == decls[i as int].deep_view());
            }
            let s = &decls[i];
            if s.has_ledger_marker() {
                let size = self.estimate_struct_size(s);
                if size > self.ledger_limit || (self.strict_mode && size > self.ledger_limit
                    / STRICT_DIVISOR) {
                    let ghost before = warnings.deep_view();
                    let warning = SizeWarning {
                        struct_name: s.name.clone(),
                        estimated_size: size,
                        limit: self.ledger_limit,
                    };
                    warnings.push(warning);
                    assert(warnings.deep_view() =~= before.push(warning.deep_view()));
                }
            }
            i += 1;
        }
        proof {
            let all = decls.deep_view();
            assert(all.take(i as int) =~= all);
        }
        warnings
    }
}

} // verus!
