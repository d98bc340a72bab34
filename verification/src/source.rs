//! Reading source text with `syn`.
//!
//! Everything in this module is taken on trust: Verus sees the contracts and
//! not the bodies. The analyses themselves work on the plain data of
//! [`crate::syntax`] and are verified.
//!
//! Two limits of the machine lie beneath these contracts and are not stated
//! in them. `syn` parses and walks by recursive descent, so both need stack
//! in proportion to how deeply the text is nested. And `proc-macro2` keeps
//! positions as 32-bit offsets into a table of its thread, so line numbers
//! hold good as long as one thread has parsed less than 2^32 bytes in all.

use crate::syntax::{
    Attribute, CallSite, CallSiteView, FieldType, Ident, StructDecl, StructDeclView,
};
use syn::visit::Visit;
use syn::{Meta, Type};
use vstd::prelude::*;

verus! {

/// A parsed source file.
#[verifier::external_type_specification]
#[verifier::external_body]
pub struct ExFile(syn::File);

/// A macro invocation in a parsed file.
#[verifier::external_type_specification]
#[verifier::external_body]
pub struct ExMacro(syn::Macro);

/// A structure declaration in a parsed file.
#[verifier::external_type_specification]
#[verifier::external_body]
pub struct ExItemStruct(syn::ItemStruct);

/// A method call in a parsed file.
#[verifier::external_type_specification]
#[verifier::external_body]
pub struct ExExprMethodCall(syn::ExprMethodCall);

/// The file that `syn::parse_str` reads from a source text, or `None` where
/// it reports an error. The same text gives the same file.
pub uninterp spec fn parsed_file(source: Seq<char>) -> Option<syn::File>;

/// The macro invocations and method calls of a file, in the order in which
/// the walk of `syn::visit::Visit` comes to them: a call before its receiver
/// and its arguments. The tokens inside a macro invocation are not walked.
pub uninterp spec fn file_call_sites(file: syn::File) -> Seq<CallSiteView>;

/// The structure declarations of a file, in the order in which the walk of
/// `syn::visit::Visit` comes to them: those at the top level and those
/// inside modules, function bodies and other items alike, a structure before
/// any that is declared inside it. The tokens inside a macro invocation are
/// not walked.
pub uninterp spec fn file_structures(file: syn::File) -> Seq<StructDeclView>;

/// Parses a source text with `syn::parse_str`.
///
/// Trusted: the result is the file that `syn` reads from the text, and
/// `None` exactly where `syn` reports an error.
#[verifier::external_body]
pub(crate) fn parse_file(source: &str) -> (file: Option<syn::File>)
    ensures
        file == parsed_file(source@),
{
    syn::parse_str::<syn::File>(source).ok()
}

/// Gathers call sites while `syn` walks a file.
pub(crate) struct CallSiteCollector {
    pub sites: Vec<CallSite>,
}

impl<'ast> Visit<'ast> for CallSiteCollector {
    /// Called by `syn` for each macro invocation: notes the macro, then lets
    /// `syn::visit::visit_macro` go on into it.
    #[verifier::external_body]
    fn visit_macro(&mut self, node: &'ast syn::Macro) {
        let ident = node.path.get_ident();
        self.sites.push(
            CallSite::MacroCall(
                ident.map(|id| Ident { name: id.to_string(), line: id.span().start().line }),
            ),
        );
        syn::visit::visit_macro(self, node);
    }

    /// Called by `syn` for each method call: notes the method, then lets
    /// `syn::visit::visit_expr_method_call` go on into the receiver and the
    /// arguments.
    #[verifier::external_body]
    fn visit_expr_method_call(&mut self, node: &'ast syn::ExprMethodCall) {
        let id = &node.method;
        self.sites.push(
            CallSite::MethodCall(Ident { name: id.to_string(), line: id.span().start().line }),
        );
        syn::visit::visit_expr_method_call(self, node);
    }
}

/// Walks a file with `syn::visit::Visit::visit_file` and returns the call
/// sites that a [`CallSiteCollector`] notes on the way.
///
/// Trusted: every macro invocation and every method call that the walk
/// reaches is handed out once, in the order reached.
#[verifier::external_body]
pub(crate) fn call_sites(file: &syn::File) -> (sites: Vec<CallSite>)
    ensures
        sites.deep_view() == file_call_sites(*file),
{
    let mut collector = CallSiteCollector { sites: Vec::new() };
    collector.visit_file(file);
    collector.sites
}

/// Gathers structure declarations while `syn` walks a file.
pub(crate) struct StructCollector {
    pub structures: Vec<StructDecl>,
}

impl<'ast> Visit<'ast> for StructCollector {
    /// Called by `syn` for each structure declaration: notes its name
    /// (`Ident::to_string`), its attributes (a marker where the attribute is
    /// a bare path for which `Path::get_ident` gives an identifier) and the
    /// types of its fields (`Fields::iter`; the identifier of the last
    /// segment where the type is a path), then lets
    /// `syn::visit::visit_item_struct` go on into it.
    #[verifier::external_body]
    fn visit_item_struct(&mut self, node: &'ast syn::ItemStruct) {
        self.structures.push(StructDecl {
            name: node.ident.to_string(),
            attributes: node.attrs.iter().map(|a| match &a.meta {
                Meta::Path(p) => p.get_ident().map_or(Attribute::Other, |id| Attribute::Marker(id.to_string())),
                _ => Attribute::Other,
            }).collect(),
            fields: node.fields.iter().map(|f| match &f.ty {
                Type::Path(t) => t.path.segments.last().map_or(FieldType::Composite, |seg| FieldType::Named(seg.ident.to_string())),
                _ => FieldType::Composite,
            }).collect(),
        });
        syn::visit::visit_item_struct(self, node);
    }
}

/// Walks a file with `syn::visit::Visit::visit_file` and returns the
/// structure declarations that a [`StructCollector`] notes on the way.
///
/// Trusted: every structure declaration that the walk reaches is handed out
/// once, in the order reached.
#[verifier::external_body]
pub(crate) fn structures(file: &syn::File) -> (found: Vec<StructDecl>)
    ensures
        found.deep_view() == file_structures(*file),
{
    let mut collector = StructCollector { structures: Vec::new() };
    collector.visit_file(file);
    collector.structures
}

} // verus!
