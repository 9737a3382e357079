//! The syntax-construct inputs of the translator.  The surrounding parser
//! owns the full syntax tree; the translator reads only plain flags, names
//! and the already-translated documents of the sub-constructs (type
//! parameters, parameter list, return type, key, body), which the
//! sub-translators produce.

use vstd::prelude::*;

use crate::doc::{Doc, DocModel};

verus! {

/// A function-like syntax construct: a standalone declaration or the
/// callable value of a method or property.
#[derive(Debug, PartialEq, Eq)]
pub struct FunctionConstruct {
    /// Whether the construct carries the `declare` modifier.
    pub declare: bool,
    /// Whether the construct carries the `async` modifier.
    pub is_async: bool,
    /// Whether the construct is a generator.
    pub generator: bool,
    /// Whether the construct is an ambient (declare-context) signature,
    /// as classified upstream.
    pub is_ambient: bool,
    /// The identifier, when the function is named.
    pub id: Option<String>,
    /// The translated type-parameter list, when one exists.
    pub type_parameters: Option<Doc>,
    /// The translated parameter list.
    pub params: Doc,
    /// The translated return-type annotation, when one exists.
    pub return_type: Option<Doc>,
    /// The translated body; a construct without one is a signature-only
    /// declaration.
    pub body: Option<Doc>,
}

/// The mathematical view of a function-like construct.
pub struct FunctionConstructView {
    pub declare: bool,
    pub is_async: bool,
    pub generator: bool,
    pub is_ambient: bool,
    pub id: Option<Seq<char>>,
    pub type_parameters: Option<DocModel>,
    pub params: DocModel,
    pub return_type: Option<DocModel>,
    pub body: Option<DocModel>,
}

impl View for FunctionConstruct {
    type V = FunctionConstructView;

    open spec fn view(&self) -> FunctionConstructView {
        FunctionConstructView {
            declare: self.declare,
            is_async: self.is_async,
            generator: self.generator,
            is_ambient: self.is_ambient,
            id: self.id.deep_view(),
            type_parameters: self.type_parameters.deep_view(),
            params: self.params.model(),
            return_type: self.return_type.deep_view(),
            body: self.body.deep_view(),
        }
    }
}

/// The accessibility modifier of a class member.
#[derive(Debug, Clone, Copy, PartialEq, Eq)]
pub enum Accessibility {
    Public,
    Private,
    Protected,
}

/// The keyword a given accessibility modifier emits.
pub open spec fn accessibility_text(a: Accessibility) -> Seq<char> {
    match a {
        Accessibility::Public => "public"@,
        Accessibility::Private => "private"@,
        Accessibility::Protected => "protected"@,
    }
}

/// The kind of a method definition: a closed enumeration.
#[derive(Debug, Clone, Copy, PartialEq, Eq)]
pub enum MethodKind {
    Constructor,
    Method,
    Getter,
    Setter,
}

/// A method definition of a class or object.
#[derive(Debug, PartialEq, Eq)]
pub struct MethodConstruct {
    /// The accessibility modifier, when one is written.
    pub accessibility: Option<Accessibility>,
    /// Whether the member carries the `static` modifier.
    pub is_static: bool,
    /// Whether the definition is an abstract-method variant.
    pub is_abstract: bool,
    /// Whether the member carries the `override` modifier.
    pub is_override: bool,
    /// The method kind.
    pub kind: MethodKind,
    /// The translated key (name or computed-key document).
    pub key: Doc,
    /// Whether the member is marked optional (`?`).
    pub optional: bool,
    /// The underlying callable.
    pub value: FunctionConstruct,
}

/// The mathematical view of a method definition.
pub struct MethodConstructView {
    pub accessibility: Option<Accessibility>,
    pub is_static: bool,
    pub is_abstract: bool,
    pub is_override: bool,
    pub kind: MethodKind,
    pub key: DocModel,
    pub optional: bool,
    pub value: FunctionConstructView,
}

impl View for MethodConstruct {
    type V = MethodConstructView;

    open spec fn view(&self) -> MethodConstructView {
        MethodConstructView {
            accessibility: self.accessibility,
            is_static: self.is_static,
            is_abstract: self.is_abstract,
            is_override: self.is_override,
            kind: self.kind,
            key: self.key.model(),
            optional: self.optional,
            value: self.value.view(),
        }
    }
}

/// The top-level syntactic shape of a return or throw argument, as
/// classified upstream: binary-like compositions and comma-sequence
/// expressions are the ambiguous shapes that get conditional parentheses.
#[derive(Debug, Clone, Copy, PartialEq, Eq)]
pub enum ExprShape {
    /// Any binary, logical or comparison composition.
    Binaryish,
    /// A comma-sequence expression.
    Sequence,
    /// Any other expression shape.
    Other,
}

/// The argument expression of a return or throw statement: its top-level
/// shape and its translated document.
#[derive(Debug, PartialEq, Eq)]
pub struct Argument {
    pub shape: ExprShape,
    pub doc: Doc,
}

/// The mathematical view of a return or throw argument.
pub struct ArgumentView {
    pub shape: ExprShape,
    pub doc: DocModel,
}

impl View for Argument {
    type V = ArgumentView;

    open spec fn view(&self) -> ArgumentView {
        ArgumentView { shape: self.shape, doc: self.doc.model() }
    }
}

impl DeepView for Argument {
    type V = ArgumentView;

    open spec fn deep_view(&self) -> ArgumentView {
        self.view()
    }
}

} // verus!
