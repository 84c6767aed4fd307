//! The errors in words.

use vstd::prelude::*;
use crate::error::{
    AttributeError, CaptureError, FormatError, InvalidExpression, LayoutError, ParseError,
    ResourceError, VertexDataError, VertexDataErrorView,
};
use crate::text::{decimal, join, join_path, to_decimal};
use crate::types::{FieldError, FieldErrorView};

verus! {

/// Puts `tail` behind `head`.
fn followed_by(head: &str, tail: &str) -> (text: String)
    ensures
        text@ == head@ + tail@,
{
    let mut text = head.to_owned();
    text.append(tail);
    text
}

impl InvalidExpression {
    /// The error in words.
    pub open spec fn message_text(self) -> Seq<char> {
        "more than one leading capture"@
    }

    /// The error in words.
    pub fn message(&self) -> (text: String)
        ensures
            text@ == self.message_text(),
    {
        "more than one leading capture".to_owned()
    }
}

impl CaptureError {
    /// The error in words. A name that did not match is written out with
    /// `::` between its segments.
    pub open spec fn message_text(self) -> Seq<char> {
        match self {
            CaptureError::UnexpectedLeadingColon => "path starts with unexpected leading colons"@,
            CaptureError::UnexpectedPathSegment(segment) => "unexpected path segment: "@
                + segment@,
            CaptureError::NoMatch(name) => "provided path ("@ + join_path(name@.segments)
                + ") doesn't match the expression"@,
        }
    }

    /// The error in words.
    pub fn message(&self) -> (text: String)
        ensures
            text@ == self.message_text(),
    {
        match self {
            CaptureError::UnexpectedLeadingColon => {
                "path starts with unexpected leading colons".to_owned()
            },
            CaptureError::UnexpectedPathSegment(segment) => followed_by(
                "unexpected path segment: ",
                segment.as_str(),
            ),
            CaptureError::NoMatch(name) => {
                let mut text = followed_by("provided path (", join(&name.segments).as_str());
                text.append(") doesn't match the expression");
                text
            },
        }
    }
}

impl ParseError {
    /// The error in words.
    pub open spec fn message_text(self) -> Seq<char> {
        match self {
            ParseError::PathParseError(reason) => "unable to parse path: "@ + reason@,
        }
    }

    /// The error in words.
    pub fn message(&self) -> (text: String)
        ensures
            text@ == self.message_text(),
    {
        match self {
            ParseError::PathParseError(reason) => followed_by(
                "unable to parse path: ",
                reason.as_str(),
            ),
        }
    }
}

impl FieldErrorView {
    /// The error in words.
    pub open spec fn message_text(self) -> Seq<char> {
        match self {
            FieldErrorView::UnsupportedType(name) => "unsupported type: "@ + name,
            FieldErrorView::UnsupportedArrayLength => "unsupported array length"@,
            FieldErrorView::UnsupportedArrayElement => "array value must be a primitive"@,
        }
    }
}

impl FieldError {
    /// The error in words.
    pub fn message(&self) -> (text: String)
        ensures
            text@ == self@.message_text(),
    {
        match self {
            FieldError::UnsupportedType(name) => followed_by("unsupported type: ", name.as_str()),
            FieldError::UnsupportedArrayLength => "unsupported array length".to_owned(),
            FieldError::UnsupportedArrayElement => "array value must be a primitive".to_owned(),
        }
    }
}

impl AttributeError {
    /// The error in words.
    pub open spec fn message_text(self) -> Seq<char> {
        match self {
            AttributeError::InvalidLiteral => "attribute value is of the wrong kind"@,
            AttributeError::UnknownFormatName => "not a valid VertexFormat path"@,
            AttributeError::InvalidStepMode =>
                "step_mode value must be a path to a wgpu::VertexStepMode variant"@,
        }
    }

    /// The error in words.
    pub fn message(&self) -> (text: String)
        ensures
            text@ == self.message_text(),
    {
        match self {
            AttributeError::InvalidLiteral => "attribute value is of the wrong kind".to_owned(),
            AttributeError::UnknownFormatName => "not a valid VertexFormat path".to_owned(),
            AttributeError::InvalidStepMode => {
                "step_mode value must be a path to a wgpu::VertexStepMode variant".to_owned()
            },
        }
    }
}

impl LayoutError {
    /// The error in words.
    pub open spec fn message_text(self) -> Seq<char> {
        match self {
            LayoutError::CannotNormalize(format) => "can't normalize type: "@
                + format.spec_name(),
            LayoutError::Overflow => "layout is too large"@,
        }
    }

    /// The error in words.
    pub fn message(&self) -> (text: String)
        ensures
            text@ == self.message_text(),
    {
        match self {
            LayoutError::CannotNormalize(format) => followed_by(
                "can't normalize type: ",
                format.name(),
            ),
            LayoutError::Overflow => "layout is too large".to_owned(),
        }
    }
}

impl VertexDataErrorView {
    /// The error in words: those of the error inside.
    pub open spec fn message_text(self) -> Seq<char> {
        match self {
            VertexDataErrorView::Field(e) => e.message_text(),
            VertexDataErrorView::Attribute(e) => e.message_text(),
            VertexDataErrorView::Layout(e) => e.message_text(),
        }
    }
}

impl VertexDataError {
    /// The error in words.
    pub fn message(&self) -> (text: String)
        ensures
            text@ == self@.message_text(),
    {
        match self {
            VertexDataError::Field(e) => e.message(),
            VertexDataError::Attribute(e) => e.message(),
            VertexDataError::Layout(e) => e.message(),
        }
    }
}

impl FormatError {
    /// The error in words, the byte in decimal.
    pub open spec fn message_text(self) -> Seq<char> {
        match self {
            FormatError::InvalidResourceKind(tag) => "invalid resource kind: "@ + decimal(
                tag as nat,
            ),
            FormatError::InvalidTextureFormat(tag) => "invalid texture format: "@ + decimal(
                tag as nat,
            ),
        }
    }

    /// The error in words.
    pub fn message(&self) -> (text: String)
        ensures
            text@ == self.message_text(),
    {
        match self {
            FormatError::InvalidResourceKind(tag) => followed_by(
                "invalid resource kind: ",
                to_decimal(*tag as u64).as_str(),
            ),
            FormatError::InvalidTextureFormat(tag) => followed_by(
                "invalid texture format: ",
                to_decimal(*tag as u64).as_str(),
            ),
        }
    }
}

impl ResourceError {
    /// The error in words.
    pub open spec fn message_text(self) -> Seq<char> {
        match self {
            ResourceError::InvalidHash => "data hash doesn't match expected hash"@,
            ResourceError::Format(e) => e.message_text(),
            ResourceError::UnexpectedEof => "unexpected end of data"@,
        }
    }

    /// The error in words.
    pub fn message(&self) -> (text: String)
        ensures
            text@ == self.message_text(),
    {
        match self {
            ResourceError::InvalidHash => "data hash doesn't match expected hash".to_owned(),
            ResourceError::Format(e) => e.message(),
            ResourceError::UnexpectedEof => "unexpected end of data".to_owned(),
        }
    }
}

} // verus!
