//! What can go wrong while a pattern is compiled or matched, and while a
//! layout is built.

use vstd::prelude::*;
use crate::format::VertexFormat;
use crate::path::QualifiedName;
use crate::types::{FieldError, FieldErrorView};

verus! {

/// A pattern source that cannot be compiled.
#[derive(Debug, Clone, Copy, PartialEq, Eq, Structural)]
pub enum InvalidExpression {
    /// The wildcard `*` stands anywhere but in front.
    InvalidCapture,
}

/// Why a qualified name was not accepted by a pattern.
#[derive(Debug, Clone, PartialEq, Eq)]
pub enum CaptureError {
    /// The name is rooted and the pattern neither is nor starts with `*`.
    UnexpectedLeadingColon,
    /// A segment that the pattern has no place for.
    UnexpectedPathSegment(String),
    /// The name does not end as the pattern asks; carries the name.
    NoMatch(QualifiedName),
}

/// A path or a type that cannot be handled.
#[derive(Debug, Clone, PartialEq, Eq)]
pub enum ParseError {
    /// Carries the reason.
    PathParseError(String),
}

/// A byte that stands for nothing in a stored resource.
#[derive(Debug, Clone, Copy, PartialEq, Eq, Structural)]
pub enum FormatError {
    /// No kind of resource has this tag.
    InvalidResourceKind(u8),
    /// No texture representation has this tag.
    InvalidTextureFormat(u8),
}

/// Why a stored resource could not be read.
#[derive(Debug, Clone, Copy, PartialEq, Eq, Structural)]
pub enum ResourceError {
    /// The data does not have the hash that is stored with it.
    InvalidHash,
    /// A tag byte stands for nothing.
    Format(FormatError),
    /// The bytes end before the resource does.
    UnexpectedEof,
}

/// An attribute whose value cannot be used.
#[derive(Debug, Clone, Copy, PartialEq, Eq, Structural)]
pub enum AttributeError {
    /// The value is of the wrong kind, or too large for what it sets.
    InvalidLiteral,
    /// The value of `format` is no path to a vertex format.
    UnknownFormatName,
    /// The value of `step_mode` is no path to a step mode.
    InvalidStepMode,
}

/// A layout that cannot be finished.
#[derive(Debug, Clone, Copy, PartialEq, Eq, Structural)]
pub enum LayoutError {
    /// A field is marked as normalized and its format has no normalized
    /// counterpart.
    CannotNormalize(VertexFormat),
    /// An offset or the total size is above `u64::MAX`, or a shader
    /// location is above `u32::MAX`.
    Overflow,
}

/// Why no layout was built.
#[derive(Debug, Clone, PartialEq, Eq)]
pub enum VertexDataError {
    Field(FieldError),
    Attribute(AttributeError),
    Layout(LayoutError),
}

/// The mathematical content of a [`VertexDataError`].
pub enum VertexDataErrorView {
    Field(FieldErrorView),
    Attribute(AttributeError),
    Layout(LayoutError),
}

impl View for VertexDataError {
    type V = VertexDataErrorView;

    open spec fn view(&self) -> VertexDataErrorView {
        match self {
            VertexDataError::Field(e) => VertexDataErrorView::Field(e@),
            VertexDataError::Attribute(e) => VertexDataErrorView::Attribute(*e),
            VertexDataError::Layout(e) => VertexDataErrorView::Layout(*e),
        }
    }
}

} // verus!
