use sanctifier_core::ledger::{
    SIZE_ADDRESS, SIZE_COMPOSITE, SIZE_CONTAINER, SIZE_LONG, SIZE_UNKNOWN, SIZE_VARIABLE,
    SIZE_WIDE, SIZE_WORD, STRICT_DIVISOR,
};
use sanctifier_core::syntax::{Attribute, FieldType, StructDecl};
use sanctifier_core::{Analyzer, SizeWarning, DEFAULT_LEDGER_LIMIT};

fn named(name: &str) -> FieldType {
    FieldType::Named(name.to_string())
}

fn tagged(name: &str, fields: Vec<FieldType>) -> StructDecl {
    StructDecl {
        name: name.to_string(),
        attributes: vec![Attribute::Marker("contracttype".to_string())],
        fields,
    }
}

/// A tagged structure with `containers` fields of type `Vec` followed by
/// the given other fields.
fn struct_source(marker: &str, name: &str, containers: usize, others: &[&str]) -> String {
    let mut text = format!("{}\npub struct {} {{\n", marker, name);
    for i in 0..containers {
        text.push_str(&format!("    pub c{}: Vec<u32>,\n", i));
    }
    for (i, ty) in others.iter().enumerate() {
        text.push_str(&format!("    pub o{}: {},\n", i, ty));
    }
    text.push_str("}\n");
    text
}

fn assert_warning(warning: &SizeWarning, name: &str, size: usize, limit: usize) {
    assert_eq!(warning.struct_name, name);
    assert_eq!(warning.estimated_size, size);
    assert_eq!(warning.limit, limit);
}

#[test]
fn new_analyzer_has_the_default_limit() {
    let strict = Analyzer::new(true);
    assert!(strict.strict_mode);
    assert_eq!(strict.ledger_limit, 64000);
    let lax = Analyzer::new(false);
    assert!(!lax.strict_mode);
    assert_eq!(lax.ledger_limit, 64000);
    assert_eq!(DEFAULT_LEDGER_LIMIT, 64000);
}

#[test]
fn size_table() {
    let a = Analyzer::new(false);
    for name in ["u32", "i32", "bool"] {
        assert_eq!(a.estimate_type_size(&named(name)), 4);
    }
    for name in ["u64", "i64"] {
        assert_eq!(a.estimate_type_size(&named(name)), 8);
    }
    for name in ["u128", "i128", "I128", "U128"] {
        assert_eq!(a.estimate_type_size(&named(name)), 16);
    }
    assert_eq!(a.estimate_type_size(&named("Address")), 32);
    for name in ["Bytes", "BytesN", "String", "Symbol"] {
        assert_eq!(a.estimate_type_size(&named(name)), 64);
    }
    for name in ["Vec", "Map"] {
        assert_eq!(a.estimate_type_size(&named(name)), 128);
    }
    for name in ["MyType", "u8", "U32", "address", "vec", ""] {
        assert_eq!(a.estimate_type_size(&named(name)), 32);
    }
    assert_eq!(a.estimate_type_size(&FieldType::Composite), 8);
}

#[test]
fn size_constants() {
    assert_eq!(SIZE_WORD, 4);
    assert_eq!(SIZE_LONG, 8);
    assert_eq!(SIZE_WIDE, 16);
    assert_eq!(SIZE_ADDRESS, 32);
    assert_eq!(SIZE_VARIABLE, 64);
    assert_eq!(SIZE_CONTAINER, 128);
    assert_eq!(SIZE_UNKNOWN, 32);
    assert_eq!(SIZE_COMPOSITE, 8);
    assert_eq!(STRICT_DIVISOR, 2);
}

#[test]
fn integer_address_and_bytes_add_up_to_100() {
    let a = Analyzer::new(false);
    let decl = tagged("Entry", vec![named("u32"), named("Address"), named("Bytes")]);
    assert_eq!(a.estimate_struct_size(&decl), 100);
    assert!(a.ledger_warnings(&vec![decl]).is_empty());
    let strict = Analyzer::new(true);
    let source = "#[contracttype]\npub struct Entry {\n    pub id: u32,\n    pub owner: Address,\n    pub data: Bytes,\n}\n";
    assert!(a.analyze_ledger_size(source).is_empty());
    assert!(strict.analyze_ledger_size(source).is_empty());
}

#[test]
fn the_estimate_read_from_source_is_100() {
    let mut a = Analyzer::new(false);
    a.ledger_limit = 99;
    let source = "#[contracttype]\npub struct Entry {\n    pub id: u32,\n    pub owner: soroban_sdk::Address,\n    pub data: Bytes,\n}\n";
    let warnings = a.analyze_ledger_size(source);
    assert_eq!(warnings.len(), 1);
    assert_warning(&warnings[0], "Entry", 100, 99);
    a.ledger_limit = 100;
    assert!(a.analyze_ledger_size(source).is_empty());
}

#[test]
fn a_structure_without_fields_has_size_zero() {
    let a = Analyzer::new(true);
    assert_eq!(a.estimate_struct_size(&tagged("Unit", vec![])), 0);
    let mut zero = Analyzer::new(true);
    zero.ledger_limit = 0;
    assert!(zero.analyze_ledger_size("#[contracttype]\nstruct Unit;\n").is_empty());
    assert!(zero.analyze_ledger_size("#[contracttype]\nstruct Empty {}\n").is_empty());
}

#[test]
fn positional_fields_are_summed_too() {
    let mut a = Analyzer::new(false);
    a.ledger_limit = 0;
    let warnings =
        a.analyze_ledger_size("#[contracttype]\nstruct Pair(u64, (u32, u32), Map<u32, u32>, &'static str);\n");
    assert_eq!(warnings.len(), 1);
    assert_warning(&warnings[0], "Pair", 8 + 8 + 128 + 8, 0);
}

#[test]
fn strict_mode_warns_at_40000() {
    let source = struct_source("#[contracttype]", "Big", 312, &["String"]);
    let strict = Analyzer::new(true);
    let warnings = strict.analyze_ledger_size(&source);
    assert_eq!(warnings.len(), 1);
    assert_warning(&warnings[0], "Big", 40000, 64000);
    assert!(Analyzer::new(false).analyze_ledger_size(&source).is_empty());
}

#[test]
fn over_the_limit_warns_at_70000() {
    let source = struct_source("#[contracttype]", "Huge", 546, &["Bytes", "Address", "u128"]);
    let warnings = Analyzer::new(false).analyze_ledger_size(&source);
    assert_eq!(warnings.len(), 1);
    assert_warning(&warnings[0], "Huge", 70000, 64000);
}

#[test]
fn passing_both_thresholds_still_gives_one_warning() {
    let source = struct_source("#[contracttype]", "Huge", 546, &["Bytes", "Address", "u128"]);
    let warnings = Analyzer::new(true).analyze_ledger_size(&source);
    assert_eq!(warnings.len(), 1);
    assert_warning(&warnings[0], "Huge", 70000, 64000);
}

#[test]
fn an_untagged_structure_is_never_reported() {
    let source = struct_source("#[derive(Clone)]", "Huge", 546, &["Bytes", "Address", "u128"]);
    assert!(Analyzer::new(false).analyze_ledger_size(&source).is_empty());
    assert!(Analyzer::new(true).analyze_ledger_size(&source).is_empty());
    let mut zero = Analyzer::new(true);
    zero.ledger_limit = 0;
    assert!(zero.analyze_ledger_size(&source).is_empty());
    let bare = struct_source("", "Huge", 546, &[]);
    assert!(zero.analyze_ledger_size(&bare).is_empty());
}

#[test]
fn only_the_bare_marker_tags_a_structure() {
    let mut a = Analyzer::new(false);
    a.ledger_limit = 0;
    for marker in [
        "#[contracttype(export = false)]",
        "#[soroban_sdk::contracttype]",
        "#[contracttype = \"x\"]",
        "#[contract]",
        "#[doc = \"contracttype\"]",
    ] {
        let source = struct_source(marker, "S", 1, &[]);
        assert!(a.analyze_ledger_size(&source).is_empty(), "{}", marker);
    }
    let source = struct_source("#[derive(Clone)]\n#[contracttype]", "S", 1, &[]);
    let warnings = a.analyze_ledger_size(&source);
    assert_eq!(warnings.len(), 1);
    assert_warning(&warnings[0], "S", 128, 0);
}

#[test]
fn strict_threshold_is_half_the_limit() {
    let decl = tagged("S", vec![named("Vec")]);
    let decls = vec![decl];
    let mut a = Analyzer::new(true);
    a.ledger_limit = 256;
    assert!(a.ledger_warnings(&decls).is_empty());
    a.ledger_limit = 255;
    let warnings = a.ledger_warnings(&decls);
    assert_eq!(warnings.len(), 1);
    assert_warning(&warnings[0], "S", 128, 255);
    a.strict_mode = false;
    assert!(a.ledger_warnings(&decls).is_empty());
    a.ledger_limit = 128;
    assert!(a.ledger_warnings(&decls).is_empty());
    a.ledger_limit = 127;
    let warnings = a.ledger_warnings(&decls);
    assert_eq!(warnings.len(), 1);
    assert_warning(&warnings[0], "S", 128, 127);
}

#[test]
fn warnings_follow_the_order_of_the_structures() {
    let source = "#[contracttype]\nstruct B { x: Vec<u32> }\nfn f() {}\nstruct Skipped { x: Vec<u32> }\n#[contracttype]\nstruct Small { x: u32 }\n#[contracttype]\nstruct A(Map<u32, u32>, u64);\n";
    let mut a = Analyzer::new(false);
    a.ledger_limit = 100;
    let warnings = a.analyze_ledger_size(source);
    assert_eq!(warnings.len(), 2);
    assert_warning(&warnings[0], "B", 128, 100);
    assert_warning(&warnings[1], "A", 136, 100);
}

#[test]
fn a_tagged_structure_inside_a_module_is_measured() {
    let a = Analyzer { strict_mode: false, ledger_limit: 10 };
    let source = "mod m { #[contracttype] pub struct S { a: Address } }";
    let warnings = a.analyze_ledger_size(source);
    assert_eq!(warnings.len(), 1);
    assert_warning(&warnings[0], "S", 32, 10);
}

#[test]
fn tagged_structures_are_measured_wherever_they_are_declared() {
    let source = "#[contracttype]\nstruct Top { x: Vec<u32> }\nmod outer {\n    mod inner {\n        #[contracttype]\n        pub struct Deep { x: Map<u32, u32>, y: u64 }\n    }\n    struct Untagged { x: Vec<u32> }\n}\nfn f() {\n    #[contracttype]\n    struct Local { x: Bytes }\n}\nimpl T {\n    fn g(&self) {\n        let h = || {\n            #[contracttype]\n            struct InClosure(u128, Address);\n        };\n    }\n}\n";
    let mut a = Analyzer::new(true);
    a.ledger_limit = 0;
    let warnings = a.analyze_ledger_size(source);
    assert_eq!(warnings.len(), 4);
    assert_warning(&warnings[0], "Top", 128, 0);
    assert_warning(&warnings[1], "Deep", 136, 0);
    assert_warning(&warnings[2], "Local", 64, 0);
    assert_warning(&warnings[3], "InClosure", 48, 0);
}

#[test]
fn a_structure_comes_before_one_declared_inside_it() {
    let source = "#[contracttype]\nstruct Outer {\n    data: [u8; {\n        #[contracttype]\n        struct Inner { x: u64 }\n        4\n    }],\n    id: u32,\n}\n";
    let mut a = Analyzer::new(false);
    a.ledger_limit = 0;
    let warnings = a.analyze_ledger_size(source);
    assert_eq!(warnings.len(), 2);
    assert_warning(&warnings[0], "Outer", 12, 0);
    assert_warning(&warnings[1], "Inner", 8, 0);
}

#[test]
fn structures_inside_a_macro_invocation_are_not_read() {
    let source = "declare! {\n    #[contracttype]\n    struct Hidden { x: Vec<u32> }\n}\n";
    let mut a = Analyzer::new(true);
    a.ledger_limit = 0;
    assert!(a.analyze_ledger_size(source).is_empty());
}

#[test]
fn tagged_enums_are_not_structures() {
    let mut a = Analyzer::new(true);
    a.ledger_limit = 0;
    assert!(a.analyze_ledger_size("#[contracttype]\nenum E { A(Vec<u32>) }\n").is_empty());
}

#[test]
fn unparsable_text_gives_no_warnings() {
    let mut a = Analyzer::new(true);
    a.ledger_limit = 0;
    assert!(a.analyze_ledger_size("#[contracttype]\nstruct S { x: Vec<u32> ").is_empty());
    assert!(a.analyze_ledger_size("struct struct").is_empty());
}

#[test]
fn ledger_analysis_repeats() {
    let source = struct_source("#[contracttype]", "Huge", 546, &["Bytes", "Address", "u128"]);
    let a = Analyzer::new(false);
    let first = a.analyze_ledger_size(&source);
    let second = a.analyze_ledger_size(&source);
    assert_eq!(first.len(), 1);
    assert_eq!(second.len(), 1);
    assert_warning(&second[0], &first[0].struct_name, first[0].estimated_size, first[0].limit);
}

#[test]
fn structures_that_are_not_ledger_entries_are_skipped() {
    let a = Analyzer { strict_mode: false, ledger_limit: 10 };
    let decls = vec![
        StructDecl { name: "Bare".to_string(), attributes: vec![], fields: vec![named("Vec")] },
        StructDecl {
            name: "Plain".to_string(),
            attributes: vec![Attribute::Other, Attribute::Marker("derive".to_string())],
            fields: vec![named("Vec")],
        },
        StructDecl {
            name: "Entry".to_string(),
            attributes: vec![Attribute::Other, Attribute::Marker("contracttype".to_string())],
            fields: vec![named("u64"), FieldType::Composite],
        },
    ];
    let warnings = a.ledger_warnings(&decls);
    assert_eq!(warnings.len(), 1);
    assert_warning(&warnings[0], "Entry", 16, 10);
    assert!(decls.iter().all(|s| s.has_ledger_marker() == (s.name == "Entry")));
    assert!(a.ledger_warnings(&Vec::new()).is_empty());
}
