//! What the layout builder is given: the attributes written on a type, and
//! its fields with their types and attributes.

use vstd::prelude::*;
use crate::path::{NameView, QualifiedName};
use crate::text::str_eq;
use crate::types::{ShapeView, TypeShape};

verus! {

/// The value written behind an attribute's name.
#[derive(Debug, PartialEq, Eq)]
pub enum AttributeValue {
    /// Nothing: the attribute is its name alone.
    Empty,
    /// An integer literal.
    Int(u64),
    /// `true` or `false`.
    Bool(bool),
    /// A qualified name.
    Path(QualifiedName),
    /// Anything else.
    Other,
}

/// The mathematical content of an [`AttributeValue`].
pub enum ValueView {
    Empty,
    Int(u64),
    Bool(bool),
    Path(NameView),
    Other,
}

impl View for AttributeValue {
    type V = ValueView;

    open spec fn view(&self) -> ValueView {
        match self {
            AttributeValue::Empty => ValueView::Empty,
            AttributeValue::Int(n) => ValueView::Int(*n),
            AttributeValue::Bool(b) => ValueView::Bool(*b),
            AttributeValue::Path(path) => ValueView::Path(path@),
            AttributeValue::Other => ValueView::Other,
        }
    }
}

/// An attribute: a name and a value.
#[derive(Debug, PartialEq, Eq)]
pub struct Attribute {
    pub path: QualifiedName,
    pub value: AttributeValue,
}

/// The mathematical content of an [`Attribute`].
pub struct AttributeView {
    pub path: NameView,
    pub value: ValueView,
}

impl AttributeView {
    /// The attribute's name is the single segment `name`. An attribute
    /// whose name has several segments has none of the names that the
    /// builder knows.
    pub open spec fn is_named(self, name: Seq<char>) -> bool {
        self.path.segments.len() == 1 && self.path.segments[0] == name
    }
}

impl View for Attribute {
    type V = AttributeView;

    open spec fn view(&self) -> AttributeView {
        AttributeView { path: self.path@, value: self.value@ }
    }
}

impl Attribute {
    /// Whether the attribute's name is the single segment `name`.
    pub fn is_named(&self, name: &str) -> (r: bool)
        ensures
            r == self@.is_named(name@),
    {
        self.path.segments.len() == 1 && str_eq(self.path.segments[0].as_str(), name)
    }
}

/// The content of each attribute of a list.
pub open spec fn attribute_views(attrs: Seq<Attribute>) -> Seq<AttributeView> {
    attrs.map_values(|a: Attribute| a@)
}

/// A field: its declared type and the attributes written on it.
#[derive(Debug, PartialEq, Eq)]
pub struct Field {
    pub ty: TypeShape,
    pub attrs: Vec<Attribute>,
}

/// The mathematical content of a [`Field`].
pub struct FieldView {
    pub ty: ShapeView,
    pub attrs: Seq<AttributeView>,
}

impl View for Field {
    type V = FieldView;

    open spec fn view(&self) -> FieldView {
        FieldView { ty: self.ty@, attrs: attribute_views(self.attrs@) }
    }
}

/// The content of each field of a list.
pub open spec fn field_views(fields: Seq<Field>) -> Seq<FieldView> {
    fields.map_values(|f: Field| f@)
}

/// A type that asks for a vertex layout.
#[derive(Debug, PartialEq, Eq)]
pub struct Schema {
    /// The name of the type.
    pub name: String,
    /// The size of the type in memory, in bytes: the stride of the layout
    /// unless an attribute sets another.
    pub size: u64,
    /// The attributes written on the type.
    pub attrs: Vec<Attribute>,
    /// The fields in the order of their declaration.
    pub fields: Vec<Field>,
}

/// The mathematical content of a [`Schema`].
pub struct SchemaView {
    pub name: Seq<char>,
    pub size: u64,
    pub attrs: Seq<AttributeView>,
    pub fields: Seq<FieldView>,
}

impl View for Schema {
    type V = SchemaView;

    open spec fn view(&self) -> SchemaView {
        SchemaView {
            name: self.name@,
            size: self.size,
            attrs: attribute_views(self.attrs@),
            fields: field_views(self.fields@),
        }
    }
}

} // verus!
