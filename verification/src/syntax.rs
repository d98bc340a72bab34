//! The parts of a parsed program that the analyses read, as plain data.
//!
//! Each type comes with a mathematical counterpart, reached through
//! `deep_view`, over which the contracts of the analyses are stated.

use vstd::prelude::*;

verus! {

/// An identifier together with the line on which it stands.
#[derive(Debug)]
pub struct Ident {
    /// The identifier as written (a raw identifier keeps its `r#`).
    pub name: String,
    /// The line of the identifier in the source text, counted from 1.
    pub line: usize,
}

/// Mathematical counterpart of [`Ident`].
pub struct IdentView {
    pub name: Seq<char>,
    pub line: nat,
}

impl DeepView for Ident {
    type V = IdentView;

    open spec fn deep_view(&self) -> IdentView {
        IdentView { name: self.name@, line: self.line as nat }
    }
}

/// A place in the program where something is invoked.
#[derive(Debug)]
pub enum CallSite {
    /// A macro invocation. The identifier is present where the macro is
    /// named by one bare identifier (`name!(..)`), and absent where it is
    /// named by a longer path (`a::name!(..)`).
    MacroCall(Option<Ident>),
    /// A method call (`receiver.name(..)`), with the name of the method.
    MethodCall(Ident),
}

/// Mathematical counterpart of [`CallSite`].
pub enum CallSiteView {
    MacroCall(Option<IdentView>),
    MethodCall(IdentView),
}

impl DeepView for CallSite {
    type V = CallSiteView;

    open spec fn deep_view(&self) -> CallSiteView {
        match self {
            CallSite::MacroCall(ident) => CallSiteView::MacroCall(ident.deep_view()),
            CallSite::MethodCall(ident) => CallSiteView::MethodCall(ident.deep_view()),
        }
    }
}

/// An attribute on a declaration.
#[derive(Debug)]
pub enum Attribute {
    /// An attribute that is one bare identifier, such as `#[contracttype]`.
    Marker(String),
    /// Any other attribute: one with arguments, a value or a longer path.
    Other,
}

/// Mathematical counterpart of [`Attribute`].
pub enum AttributeView {
    Marker(Seq<char>),
    Other,
}

impl DeepView for Attribute {
    type V = AttributeView;

    open spec fn deep_view(&self) -> AttributeView {
        match self {
            Attribute::Marker(name) => AttributeView::Marker(name@),
            Attribute::Other => AttributeView::Other,
        }
    }
}

/// The type of a field, as far as the size estimate reads it.
#[derive(Debug)]
pub enum FieldType {
    /// A type written as a path, with the identifier of its last segment:
    /// `Vec` for `soroban_sdk::Vec<u32>`.
    Named(String),
    /// Any other type: a tuple, a reference, an array and so on.
    Composite,
}

/// Mathematical counterpart of [`FieldType`].
pub enum FieldTypeView {
    Named(Seq<char>),
    Composite,
}

impl DeepView for FieldType {
    type V = FieldTypeView;

    open spec fn deep_view(&self) -> FieldTypeView {
        match self {
            FieldType::Named(name) => FieldTypeView::Named(name@),
            FieldType::Composite => FieldTypeView::Composite,
        }
    }
}

/// A structure declaration.
#[derive(Debug)]
pub struct StructDecl {
    /// The name of the structure.
    pub name: String,
    /// Its attributes, in the order written.
    pub attributes: Vec<Attribute>,
    /// The types of its fields, named or positional, in declaration order.
    pub fields: Vec<FieldType>,
}

/// Mathematical counterpart of [`StructDecl`].
pub struct StructDeclView {
    pub name: Seq<char>,
    pub attributes: Seq<AttributeView>,
    pub fields: Seq<FieldTypeView>,
}

impl DeepView for StructDecl {
    type V = StructDeclView;

    open spec fn deep_view(&self) -> StructDeclView {
        StructDeclView {
            name: self.name@,
            attributes: self.attributes.deep_view(),
            fields: self.fields.deep_view(),
        }
    }
}

} // verus!
