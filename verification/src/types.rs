//! The shapes a field's declared type can have, and the primitive scalars.

use vstd::prelude::*;
use crate::path::{NameView, QualifiedName};
use crate::text::{join, join_path, str_eq};

verus! {

/// A primitive scalar type. Not every kind has a vertex format.
#[derive(Debug, Clone, Copy, PartialEq, Eq, Hash, Structural)]
pub enum PrimitiveType {
    Bool,
    U8,
    U16,
    U32,
    U64,
    U128,
    I8,
    I16,
    I32,
    I64,
    I128,
    F16,
    F32,
    F64,
}

/// Why a field's type has no vertex format.
#[derive(Debug, Clone, PartialEq, Eq)]
pub enum FieldError {
    /// The type, by its written name, is none that the layout knows.
    UnsupportedType(String),
    /// The array's length is no integer literal, or not one of 1 to 4.
    UnsupportedArrayLength,
    /// The array's elements are no primitive scalars.
    UnsupportedArrayElement,
}

/// The mathematical content of a [`FieldError`].
pub enum FieldErrorView {
    UnsupportedType(Seq<char>),
    UnsupportedArrayLength,
    UnsupportedArrayElement,
}

impl View for FieldError {
    type V = FieldErrorView;

    open spec fn view(&self) -> FieldErrorView {
        match self {
            FieldError::UnsupportedType(name) => FieldErrorView::UnsupportedType(name@),
            FieldError::UnsupportedArrayLength => FieldErrorView::UnsupportedArrayLength,
            FieldError::UnsupportedArrayElement => FieldErrorView::UnsupportedArrayElement,
        }
    }
}

/// The declared type of a field, as far as the layout looks at it.
#[derive(Debug, PartialEq, Eq)]
pub enum TypeShape {
    /// A type written as a qualified name, such as `f32` or `glam::Vec3`.
    Path(QualifiedName),
    /// A fixed-size array. `len` is `None` where the length is not written
    /// as an integer literal.
    Array { elem: Box<TypeShape>, len: Option<u64> },
    /// Any other type (a tuple, a reference, ...), by its written form.
    Other(String),
}

/// The mathematical content of a [`TypeShape`].
pub enum ShapeView {
    Path(NameView),
    Array { elem: Box<ShapeView>, len: Option<u64> },
    Other(Seq<char>),
}

impl TypeShape {
    /// The content of the shape, strings taken by their characters.
    pub open spec fn content(&self) -> ShapeView
        decreases self,
    {
        match self {
            TypeShape::Path(name) => ShapeView::Path(name@),
            TypeShape::Array { elem, len } => ShapeView::Array {
                elem: Box::new(elem.content()),
                len: *len,
            },
            TypeShape::Other(text) => ShapeView::Other(text@),
        }
    }
}

impl View for TypeShape {
    type V = ShapeView;

    open spec fn view(&self) -> ShapeView {
        self.content()
    }
}

impl PrimitiveType {
    /// The primitive that a type name stands for.
    pub open spec fn named(name: Seq<char>) -> Option<PrimitiveType> {
        if name == "bool"@ {
            Some(PrimitiveType::Bool)
        } else if name == "u8"@ {
            Some(PrimitiveType::U8)
        } else if name == "u16"@ {
            Some(PrimitiveType::U16)
        } else if name == "u32"@ {
            Some(PrimitiveType::U32)
        } else if name == "u64"@ {
            Some(PrimitiveType::U64)
        } else if name == "u128"@ {
            Some(PrimitiveType::U128)
        } else if name == "i8"@ {
            Some(PrimitiveType::I8)
        } else if name == "i16"@ {
            Some(PrimitiveType::I16)
        } else if name == "i32"@ {
            Some(PrimitiveType::I32)
        } else if name == "i64"@ {
            Some(PrimitiveType::I64)
        } else if name == "i128"@ {
            Some(PrimitiveType::I128)
        } else if name == "f16"@ {
            Some(PrimitiveType::F16)
        } else if name == "f32"@ {
            Some(PrimitiveType::F32)
        } else if name == "f64"@ {
            Some(PrimitiveType::F64)
        } else {
            None
        }
    }

    /// The primitive that a qualified name stands for: the name has one
    /// segment, and that segment names a primitive.
    pub open spec fn of_path(path: NameView) -> Option<PrimitiveType> {
        if path.segments.len() == 1 {
            Self::named(path.segments[0])
        } else {
            None
        }
    }

    /// Looks a type name up among the primitives.
    pub fn from_name(name: &str) -> (r: Option<PrimitiveType>)
        ensures
            r == Self::named(name@),
    {
        if str_eq(name, "bool") {
            Some(PrimitiveType::Bool)
        } else if str_eq(name, "u8") {
            Some(PrimitiveType::U8)
        } else if str_eq(name, "u16") {
            Some(PrimitiveType::U16)
        } else if str_eq(name, "u32") {
            Some(PrimitiveType::U32)
        } else if str_eq(name, "u64") {
            Some(PrimitiveType::U64)
        } else if str_eq(name, "u128") {
            Some(PrimitiveType::U128)
        } else if str_eq(name, "i8") {
            Some(PrimitiveType::I8)
        } else if str_eq(name, "i16") {
            Some(PrimitiveType::I16)
        } else if str_eq(name, "i32") {
            Some(PrimitiveType::I32)
        } else if str_eq(name, "i64") {
            Some(PrimitiveType::I64)
        } else if str_eq(name, "i128") {
            Some(PrimitiveType::I128)
        } else if str_eq(name, "f16") {
            Some(PrimitiveType::F16)
        } else if str_eq(name, "f32") {
            Some(PrimitiveType::F32)
        } else if str_eq(name, "f64") {
            Some(PrimitiveType::F64)
        } else {
            None
        }
    }

    /// Reads a primitive from a type path. Any other path is handed back in
    /// the error, written out with `::` between its segments.
    pub fn try_from(value: &QualifiedName) -> (r: Result<PrimitiveType, FieldError>)
        ensures
            match r {
                Ok(kind) => Self::of_path(value@) == Some(kind),
                Err(e) => Self::of_path(value@) is None && e@ == FieldErrorView::UnsupportedType(
                    join_path(value@.segments),
                ),
            },
    {
        if value.segments.len() == 1 {
            match Self::from_name(value.segments[0].as_str()) {
                Some(kind) => {
                    return Ok(kind);
                },
                None => {},
            }
        }
        Err(FieldError::UnsupportedType(join(&value.segments)))
    }
}

} // verus!
