//! The catalog of vertex formats: numeric code, size in bytes, name, and the
//! normalized counterpart of the small integer formats.

use vstd::prelude::*;
use crate::path::{
    capture_token, lemma_compile_capture, NameView, PathCaptureExpr, PatternView, QualifiedName,
};
use crate::text::{join_path, join_with, str_eq, views};

verus! {

/// How the bytes of one vertex attribute are laid out and read.
#[derive(Debug, Clone, Copy, PartialEq, Eq, Hash, Structural)]
pub enum VertexFormat {
    Uint8x2,
    Uint8x4,
    Sint8x2,
    Sint8x4,
    Unorm8x2,
    Unorm8x4,
    Snorm8x2,
    Snorm8x4,
    Uint16x2,
    Uint16x4,
    Sint16x2,
    Sint16x4,
    Unorm16x2,
    Unorm16x4,
    Snorm16x2,
    Snorm16x4,
    Float16x2,
    Float16x4,
    Float32,
    Float32x2,
    Float32x3,
    Float32x4,
    Uint32,
    Uint32x2,
    Uint32x3,
    Uint32x4,
    Sint32,
    Sint32x2,
    Sint32x3,
    Sint32x4,
    Float64,
    Float64x2,
    Float64x3,
    Float64x4,
}

impl VertexFormat {
    /// The number that the graphics API gives the format.
    pub open spec fn spec_code(self) -> u8 {
        match self {
            VertexFormat::Uint8x2 => 0,
            VertexFormat::Uint8x4 => 1,
            VertexFormat::Sint8x2 => 2,
            VertexFormat::Sint8x4 => 3,
            VertexFormat::Unorm8x2 => 4,
            VertexFormat::Unorm8x4 => 5,
            VertexFormat::Snorm8x2 => 6,
            VertexFormat::Snorm8x4 => 7,
            VertexFormat::Uint16x2 => 8,
            VertexFormat::Uint16x4 => 9,
            VertexFormat::Sint16x2 => 10,
            VertexFormat::Sint16x4 => 11,
            VertexFormat::Unorm16x2 => 12,
            VertexFormat::Unorm16x4 => 13,
            VertexFormat::Snorm16x2 => 14,
            VertexFormat::Snorm16x4 => 15,
            VertexFormat::Float16x2 => 16,
            VertexFormat::Float16x4 => 17,
            VertexFormat::Float32 => 18,
            VertexFormat::Float32x2 => 19,
            VertexFormat::Float32x3 => 20,
            VertexFormat::Float32x4 => 21,
            VertexFormat::Uint32 => 22,
            VertexFormat::Uint32x2 => 23,
            VertexFormat::Uint32x3 => 24,
            VertexFormat::Uint32x4 => 25,
            VertexFormat::Sint32 => 26,
            VertexFormat::Sint32x2 => 27,
            VertexFormat::Sint32x3 => 28,
            VertexFormat::Sint32x4 => 29,
            VertexFormat::Float64 => 30,
            VertexFormat::Float64x2 => 31,
            VertexFormat::Float64x3 => 32,
            VertexFormat::Float64x4 => 33,
        }
    }

    /// The bytes that one attribute of the format takes.
    pub open spec fn spec_size(self) -> usize {
        match self {
            VertexFormat::Uint8x2 => 2,
            VertexFormat::Uint8x4 => 4,
            VertexFormat::Sint8x2 => 2,
            VertexFormat::Sint8x4 => 4,
            VertexFormat::Unorm8x2 => 2,
            VertexFormat::Unorm8x4 => 4,
            VertexFormat::Snorm8x2 => 2,
            VertexFormat::Snorm8x4 => 4,
            VertexFormat::Uint16x2 => 4,
            VertexFormat::Uint16x4 => 8,
            VertexFormat::Sint16x2 => 4,
            VertexFormat::Sint16x4 => 8,
            VertexFormat::Unorm16x2 => 4,
            VertexFormat::Unorm16x4 => 8,
            VertexFormat::Snorm16x2 => 4,
            VertexFormat::Snorm16x4 => 8,
            VertexFormat::Float16x2 => 4,
            VertexFormat::Float16x4 => 8,
            VertexFormat::Float32 => 4,
            VertexFormat::Float32x2 => 8,
            VertexFormat::Float32x3 => 12,
            VertexFormat::Float32x4 => 16,
            VertexFormat::Uint32 => 4,
            VertexFormat::Uint32x2 => 8,
            VertexFormat::Uint32x3 => 12,
            VertexFormat::Uint32x4 => 16,
            VertexFormat::Sint32 => 4,
            VertexFormat::Sint32x2 => 8,
            VertexFormat::Sint32x3 => 12,
            VertexFormat::Sint32x4 => 16,
            VertexFormat::Float64 => 8,
            VertexFormat::Float64x2 => 16,
            VertexFormat::Float64x3 => 24,
            VertexFormat::Float64x4 => 32,
        }
    }

    /// The format that reads the same bytes as numbers between 0 and 1 (or
    /// -1 and 1). Only the two- and four-component formats of 8-bit and
    /// 16-bit integers have one.
    pub open spec fn spec_to_norm(self) -> Option<VertexFormat> {
        match self {
            VertexFormat::Uint8x2 => Some(VertexFormat::Unorm8x2),
            VertexFormat::Uint8x4 => Some(VertexFormat::Unorm8x4),
            VertexFormat::Sint8x2 => Some(VertexFormat::Snorm8x2),
            VertexFormat::Sint8x4 => Some(VertexFormat::Snorm8x4),
            VertexFormat::Uint16x2 => Some(VertexFormat::Unorm16x2),
            VertexFormat::Uint16x4 => Some(VertexFormat::Unorm16x4),
            VertexFormat::Sint16x2 => Some(VertexFormat::Snorm16x2),
            VertexFormat::Sint16x4 => Some(VertexFormat::Snorm16x4),
            _ => None,
        }
    }

    /// The name of the format, as the graphics API writes it.
    pub open spec fn spec_name(self) -> Seq<char> {
        match self {
            VertexFormat::Uint8x2 => "Uint8x2"@,
            VertexFormat::Uint8x4 => "Uint8x4"@,
            VertexFormat::Sint8x2 => "Sint8x2"@,
            VertexFormat::Sint8x4 => "Sint8x4"@,
            VertexFormat::Unorm8x2 => "Unorm8x2"@,
            VertexFormat::Unorm8x4 => "Unorm8x4"@,
            VertexFormat::Snorm8x2 => "Snorm8x2"@,
            VertexFormat::Snorm8x4 => "Snorm8x4"@,
            VertexFormat::Uint16x2 => "Uint16x2"@,
            VertexFormat::Uint16x4 => "Uint16x4"@,
            VertexFormat::Sint16x2 => "Sint16x2"@,
            VertexFormat::Sint16x4 => "Sint16x4"@,
            VertexFormat::Unorm16x2 => "Unorm16x2"@,
            VertexFormat::Unorm16x4 => "Unorm16x4"@,
            VertexFormat::Snorm16x2 => "Snorm16x2"@,
            VertexFormat::Snorm16x4 => "Snorm16x4"@,
            VertexFormat::Float16x2 => "Float16x2"@,
            VertexFormat::Float16x4 => "Float16x4"@,
            VertexFormat::Float32 => "Float32"@,
            VertexFormat::Float32x2 => "Float32x2"@,
            VertexFormat::Float32x3 => "Float32x3"@,
            VertexFormat::Float32x4 => "Float32x4"@,
            VertexFormat::Uint32 => "Uint32"@,
            VertexFormat::Uint32x2 => "Uint32x2"@,
            VertexFormat::Uint32x3 => "Uint32x3"@,
            VertexFormat::Uint32x4 => "Uint32x4"@,
            VertexFormat::Sint32 => "Sint32"@,
            VertexFormat::Sint32x2 => "Sint32x2"@,
            VertexFormat::Sint32x3 => "Sint32x3"@,
            VertexFormat::Sint32x4 => "Sint32x4"@,
            VertexFormat::Float64 => "Float64"@,
            VertexFormat::Float64x2 => "Float64x2"@,
            VertexFormat::Float64x3 => "Float64x3"@,
            VertexFormat::Float64x4 => "Float64x4"@,
        }
    }

    /// The format that a name stands for. Names are case-sensitive.
    pub open spec fn named(name: Seq<char>) -> Option<VertexFormat> {
        if name == "Uint8x2"@ {
            Some(VertexFormat::Uint8x2)
        } else if name == "Uint8x4"@ {
            Some(VertexFormat::Uint8x4)
        } else if name == "Sint8x2"@ {
            Some(VertexFormat::Sint8x2)
        } else if name == "Sint8x4"@ {
            Some(VertexFormat::Sint8x4)
        } else if name == "Unorm8x2"@ {
            Some(VertexFormat::Unorm8x2)
        } else if name == "Unorm8x4"@ {
            Some(VertexFormat::Unorm8x4)
        } else if name == "Snorm8x2"@ {
            Some(VertexFormat::Snorm8x2)
        } else if name == "Snorm8x4"@ {
            Some(VertexFormat::Snorm8x4)
        } else if name == "Uint16x2"@ {
            Some(VertexFormat::Uint16x2)
        } else if name == "Uint16x4"@ {
            Some(VertexFormat::Uint16x4)
        } else if name == "Sint16x2"@ {
            Some(VertexFormat::Sint16x2)
        } else if name == "Sint16x4"@ {
            Some(VertexFormat::Sint16x4)
        } else if name == "Unorm16x2"@ {
            Some(VertexFormat::Unorm16x2)
        } else if name == "Unorm16x4"@ {
            Some(VertexFormat::Unorm16x4)
        } else if name == "Snorm16x2"@ {
            Some(VertexFormat::Snorm16x2)
        } else if name == "Snorm16x4"@ {
            Some(VertexFormat::Snorm16x4)
        } else if name == "Float16x2"@ {
            Some(VertexFormat::Float16x2)
        } else if name == "Float16x4"@ {
            Some(VertexFormat::Float16x4)
        } else if name == "Float32"@ {
            Some(VertexFormat::Float32)
        } else if name == "Float32x2"@ {
            Some(VertexFormat::Float32x2)
        } else if name == "Float32x3"@ {
            Some(VertexFormat::Float32x3)
        } else if name == "Float32x4"@ {
            Some(VertexFormat::Float32x4)
        } else if name == "Uint32"@ {
            Some(VertexFormat::Uint32)
        } else if name == "Uint32x2"@ {
            Some(VertexFormat::Uint32x2)
        } else if name == "Uint32x3"@ {
            Some(VertexFormat::Uint32x3)
        } else if name == "Uint32x4"@ {
            Some(VertexFormat::Uint32x4)
        } else if name == "Sint32"@ {
            Some(VertexFormat::Sint32)
        } else if name == "Sint32x2"@ {
            Some(VertexFormat::Sint32x2)
        } else if name == "Sint32x3"@ {
            Some(VertexFormat::Sint32x3)
        } else if name == "Sint32x4"@ {
            Some(VertexFormat::Sint32x4)
        } else if name == "Float64"@ {
            Some(VertexFormat::Float64)
        } else if name == "Float64x2"@ {
            Some(VertexFormat::Float64x2)
        } else if name == "Float64x3"@ {
            Some(VertexFormat::Float64x3)
        } else if name == "Float64x4"@ {
            Some(VertexFormat::Float64x4)
        } else {
            None
        }
    }

    /// The number that the graphics API gives the format.
    #[verifier::when_used_as_spec(spec_code)]
    pub fn code(self) -> (code: u8)
        ensures
            code == self.spec_code(),
    {
        match self {
            VertexFormat::Uint8x2 => 0,
            VertexFormat::Uint8x4 => 1,
            VertexFormat::Sint8x2 => 2,
            VertexFormat::Sint8x4 => 3,
            VertexFormat::Unorm8x2 => 4,
            VertexFormat::Unorm8x4 => 5,
            VertexFormat::Snorm8x2 => 6,
            VertexFormat::Snorm8x4 => 7,
            VertexFormat::Uint16x2 => 8,
            VertexFormat::Uint16x4 => 9,
            VertexFormat::Sint16x2 => 10,
            VertexFormat::Sint16x4 => 11,
            VertexFormat::Unorm16x2 => 12,
            VertexFormat::Unorm16x4 => 13,
            VertexFormat::Snorm16x2 => 14,
            VertexFormat::Snorm16x4 => 15,
            VertexFormat::Float16x2 => 16,
            VertexFormat::Float16x4 => 17,
            VertexFormat::Float32 => 18,
            VertexFormat::Float32x2 => 19,
            VertexFormat::Float32x3 => 20,
            VertexFormat::Float32x4 => 21,
            VertexFormat::Uint32 => 22,
            VertexFormat::Uint32x2 => 23,
            VertexFormat::Uint32x3 => 24,
            VertexFormat::Uint32x4 => 25,
            VertexFormat::Sint32 => 26,
            VertexFormat::Sint32x2 => 27,
            VertexFormat::Sint32x3 => 28,
            VertexFormat::Sint32x4 => 29,
            VertexFormat::Float64 => 30,
            VertexFormat::Float64x2 => 31,
            VertexFormat::Float64x3 => 32,
            VertexFormat::Float64x4 => 33,
        }
    }

    /// The normalized counterpart of the format, if it has one.
    #[verifier::when_used_as_spec(spec_to_norm)]
    pub fn to_norm(self) -> (normalized: Option<Self>)
        ensures
            normalized == self.spec_to_norm(),
    {
        Some(
            match self {
                VertexFormat::Uint8x2 => VertexFormat::Unorm8x2,
                VertexFormat::Uint8x4 => VertexFormat::Unorm8x4,
                VertexFormat::Sint8x2 => VertexFormat::Snorm8x2,
                VertexFormat::Sint8x4 => VertexFormat::Snorm8x4,
                VertexFormat::Uint16x2 => VertexFormat::Unorm16x2,
                VertexFormat::Uint16x4 => VertexFormat::Unorm16x4,
                VertexFormat::Sint16x2 => VertexFormat::Snorm16x2,
                VertexFormat::Sint16x4 => VertexFormat::Snorm16x4,
                _ => {
                    return None;
                },
            },
        )
    }

    /// The bytes that one attribute of the format takes.
    #[verifier::when_used_as_spec(spec_size)]
    pub fn size(self) -> (size: usize)
        ensures
            size == self.spec_size(),
    {
        match self {
            VertexFormat::Uint8x2
            | VertexFormat::Sint8x2
            | VertexFormat::Unorm8x2
            | VertexFormat::Snorm8x2 => 2,
            VertexFormat::Uint8x4
            | VertexFormat::Sint8x4
            | VertexFormat::Unorm8x4
            | VertexFormat::Snorm8x4
            | VertexFormat::Uint16x2
            | VertexFormat::Sint16x2
            | VertexFormat::Unorm16x2
            | VertexFormat::Snorm16x2
            | VertexFormat::Float16x2
            | VertexFormat::Float32
            | VertexFormat::Uint32
            | VertexFormat::Sint32 => 4,
            VertexFormat::Uint16x4
            | VertexFormat::Sint16x4
            | VertexFormat::Unorm16x4
            | VertexFormat::Snorm16x4
            | VertexFormat::Float16x4
            | VertexFormat::Float32x2
            | VertexFormat::Uint32x2
            | VertexFormat::Sint32x2
            | VertexFormat::Float64 => 8,
            VertexFormat::Float32x3
            | VertexFormat::Uint32x3
            | VertexFormat::Sint32x3 => 12,
            VertexFormat::Float32x4
            | VertexFormat::Uint32x4
            | VertexFormat::Sint32x4
            | VertexFormat::Float64x2 => 16,
            VertexFormat::Float64x3 => 24,
            VertexFormat::Float64x4 => 32,
        }
    }

    /// The name of the format, as the graphics API writes it.
    pub fn name(self) -> (name: &'static str)
        ensures
            name@ == self.spec_name(),
    {
        match self {
            VertexFormat::Uint8x2 => "Uint8x2",
            VertexFormat::Uint8x4 => "Uint8x4",
            VertexFormat::Sint8x2 => "Sint8x2",
            VertexFormat::Sint8x4 => "Sint8x4",
            VertexFormat::Unorm8x2 => "Unorm8x2",
            VertexFormat::Unorm8x4 => "Unorm8x4",
            VertexFormat::Snorm8x2 => "Snorm8x2",
            VertexFormat::Snorm8x4 => "Snorm8x4",
            VertexFormat::Uint16x2 => "Uint16x2",
            VertexFormat::Uint16x4 => "Uint16x4",
            VertexFormat::Sint16x2 => "Sint16x2",
            VertexFormat::Sint16x4 => "Sint16x4",
            VertexFormat::Unorm16x2 => "Unorm16x2",
            VertexFormat::Unorm16x4 => "Unorm16x4",
            VertexFormat::Snorm16x2 => "Snorm16x2",
            VertexFormat::Snorm16x4 => "Snorm16x4",
            VertexFormat::Float16x2 => "Float16x2",
            VertexFormat::Float16x4 => "Float16x4",
            VertexFormat::Float32 => "Float32",
            VertexFormat::Float32x2 => "Float32x2",
            VertexFormat::Float32x3 => "Float32x3",
            VertexFormat::Float32x4 => "Float32x4",
            VertexFormat::Uint32 => "Uint32",
            VertexFormat::Uint32x2 => "Uint32x2",
            VertexFormat::Uint32x3 => "Uint32x3",
            VertexFormat::Uint32x4 => "Uint32x4",
            VertexFormat::Sint32 => "Sint32",
            VertexFormat::Sint32x2 => "Sint32x2",
            VertexFormat::Sint32x3 => "Sint32x3",
            VertexFormat::Sint32x4 => "Sint32x4",
            VertexFormat::Float64 => "Float64",
            VertexFormat::Float64x2 => "Float64x2",
            VertexFormat::Float64x3 => "Float64x3",
            VertexFormat::Float64x4 => "Float64x4",
        }
    }

    /// Looks a format up by its name.
    pub fn from_str(name: &str) -> (format: Option<Self>)
        ensures
            format == Self::named(name@),
    {
        if str_eq(name, "Uint8x2") {
            Some(VertexFormat::Uint8x2)
        } else if str_eq(name, "Uint8x4") {
            Some(VertexFormat::Uint8x4)
        } else if str_eq(name, "Sint8x2") {
            Some(VertexFormat::Sint8x2)
        } else if str_eq(name, "Sint8x4") {
            Some(VertexFormat::Sint8x4)
        } else if str_eq(name, "Unorm8x2") {
            Some(VertexFormat::Unorm8x2)
        } else if str_eq(name, "Unorm8x4") {
            Some(VertexFormat::Unorm8x4)
        } else if str_eq(name, "Snorm8x2") {
            Some(VertexFormat::Snorm8x2)
        } else if str_eq(name, "Snorm8x4") {
            Some(VertexFormat::Snorm8x4)
        } else if str_eq(name, "Uint16x2") {
            Some(VertexFormat::Uint16x2)
        } else if str_eq(name, "Uint16x4") {
            Some(VertexFormat::Uint16x4)
        } else if str_eq(name, "Sint16x2") {
            Some(VertexFormat::Sint16x2)
        } else if str_eq(name, "Sint16x4") {
            Some(VertexFormat::Sint16x4)
        } else if str_eq(name, "Unorm16x2") {
            Some(VertexFormat::Unorm16x2)
        } else if str_eq(name, "Unorm16x4") {
            Some(VertexFormat::Unorm16x4)
        } else if str_eq(name, "Snorm16x2") {
            Some(VertexFormat::Snorm16x2)
        } else if str_eq(name, "Snorm16x4") {
            Some(VertexFormat::Snorm16x4)
        } else if str_eq(name, "Float16x2") {
            Some(VertexFormat::Float16x2)
        } else if str_eq(name, "Float16x4") {
            Some(VertexFormat::Float16x4)
        } else if str_eq(name, "Float32") {
            Some(VertexFormat::Float32)
        } else if str_eq(name, "Float32x2") {
            Some(VertexFormat::Float32x2)
        } else if str_eq(name, "Float32x3") {
            Some(VertexFormat::Float32x3)
        } else if str_eq(name, "Float32x4") {
            Some(VertexFormat::Float32x4)
        } else if str_eq(name, "Uint32") {
            Some(VertexFormat::Uint32)
        } else if str_eq(name, "Uint32x2") {
            Some(VertexFormat::Uint32x2)
        } else if str_eq(name, "Uint32x3") {
            Some(VertexFormat::Uint32x3)
        } else if str_eq(name, "Uint32x4") {
            Some(VertexFormat::Uint32x4)
        } else if str_eq(name, "Sint32") {
            Some(VertexFormat::Sint32)
        } else if str_eq(name, "Sint32x2") {
            Some(VertexFormat::Sint32x2)
        } else if str_eq(name, "Sint32x3") {
            Some(VertexFormat::Sint32x3)
        } else if str_eq(name, "Sint32x4") {
            Some(VertexFormat::Sint32x4)
        } else if str_eq(name, "Float64") {
            Some(VertexFormat::Float64)
        } else if str_eq(name, "Float64x2") {
            Some(VertexFormat::Float64x2)
        } else if str_eq(name, "Float64x3") {
            Some(VertexFormat::Float64x3)
        } else if str_eq(name, "Float64x4") {
            Some(VertexFormat::Float64x4)
        } else {
            None
        }
    }
}

/// The pattern that a path to a format has to meet: `wgpu::VertexFormat::?`.
pub open spec fn format_pattern() -> PatternView {
    PatternView {
        wildcard: false,
        leading_colon: false,
        segments: seq!["wgpu"@, "VertexFormat"@],
        capture_last: true,
    }
}

/// The path under which the graphics API has a format.
pub open spec fn path_of_format(format: VertexFormat) -> NameView {
    NameView { rooted: false, segments: seq!["wgpu"@, "VertexFormat"@, format.spec_name()] }
}

/// The format that a path names: the path ends in `wgpu::VertexFormat` and
/// the name of a format.
pub open spec fn format_of_path(path: NameView) -> Option<VertexFormat> {
    let pattern = format_pattern();
    if !pattern.refuses_root(path) && pattern.accepts(path) {
        match pattern.captured(path) {
            Some(name) => VertexFormat::named(name),
            None => None,
        }
    } else {
        None
    }
}

/// Compiles the pattern for paths to a format.
fn compile_format_pattern() -> (pattern: PathCaptureExpr)
    ensures
        pattern@ == format_pattern(),
{
    proof {
        reveal_strlit("wgpu::VertexFormat::?");
        reveal_strlit("wgpu");
        reveal_strlit("VertexFormat");
        let literals = seq!["wgpu"@, "VertexFormat"@];
        assert(literals[0].len() == 4 && literals[1].len() == 12);
        lemma_compile_capture(literals);
        reveal_with_fuel(join_with, 3);
        assert("wgpu::VertexFormat::?"@ =~= join_path(literals.push(capture_token())));
    }
    match PathCaptureExpr::parse("wgpu::VertexFormat::?") {
        Ok(pattern) => pattern,
        Err(_) => vstd::pervasive::unreached(),
    }
}

impl VertexFormat {
    /// The path under which the graphics API has the format.
    pub fn to_path(self) -> (path: QualifiedName)
        ensures
            path@ == path_of_format(self),
    {
        let mut segments: Vec<String> = Vec::new();
        segments.push("wgpu".to_owned());
        segments.push("VertexFormat".to_owned());
        segments.push(self.name().to_owned());
        assert(views(segments@) =~= seq!["wgpu"@, "VertexFormat"@, self.spec_name()]);
        QualifiedName { rooted: false, segments }
    }

    /// Reads a format from a path to it.
    pub fn try_from(path: &QualifiedName) -> (r: Result<Self, ()>)
        ensures
            match r {
                Ok(format) => format_of_path(path@) == Some(format),
                Err(_) => format_of_path(path@) is None,
            },
    {
        match compile_format_pattern().match_on(path) {
            Ok(Some(name)) => match Self::from_str(name.as_str()) {
                Some(format) => Ok(format),
                None => Err(()),
            },
            _ => Err(()),
        }
    }
}

/// Two formats with the same code are the same format, and the codes are
/// the numbers below 34.
pub proof fn lemma_code_identifies_format(a: VertexFormat, b: VertexFormat)
    ensures
        a.spec_code() < 34,
        a.spec_code() == b.spec_code() ==> a == b,
{
}

/// Every size is one of 2, 4, 8, 12, 16, 24 and 32 bytes.
pub proof fn lemma_size_is_listed(format: VertexFormat)
    ensures
        ({
            let size = format.spec_size();
            size == 2 || size == 4 || size == 8 || size == 12 || size == 16 || size == 24 || size
                == 32
        }),
{
}

/// Exactly the eight small integer formats have a normalized counterpart:
/// the two- and four-component formats of signed and unsigned 8-bit and
/// 16-bit integers.
pub proof fn lemma_norm_defined_for_small_integers(format: VertexFormat)
    ensures
        format.spec_to_norm() is Some <==> (format == VertexFormat::Uint8x2 || format
            == VertexFormat::Uint8x4 || format == VertexFormat::Sint8x2 || format
            == VertexFormat::Sint8x4 || format == VertexFormat::Uint16x2 || format
            == VertexFormat::Uint16x4 || format == VertexFormat::Sint16x2 || format
            == VertexFormat::Sint16x4),
{
}

/// A normalized counterpart takes the same bytes, stands four codes further
/// on, and has no counterpart of its own.
pub proof fn lemma_norm_keeps_size(format: VertexFormat)
    requires
        format.spec_to_norm() is Some,
    ensures
        format.spec_to_norm()->0.spec_size() == format.spec_size(),
        format.spec_to_norm()->0.spec_code() == format.spec_code() + 4,
        format.spec_to_norm()->0.spec_to_norm() is None,
{
}

/// Looking a format up by its own name gives the format back.
pub proof fn lemma_name_identifies_format(format: VertexFormat)
    ensures
        VertexFormat::named(format.spec_name()) == Some(format),
{
    reveal_names();
}

/// The path of a format leads back to the format.
pub proof fn lemma_path_identifies_format(format: VertexFormat)
    ensures
        format_of_path(path_of_format(format)) == Some(format),
{
    let path = path_of_format(format);
    let pattern = format_pattern();
    lemma_name_identifies_format(format);
    assert(pattern.compared(path) =~= pattern.segments);
}

/// What the names of the formats hold, character by character.
proof fn reveal_names()
    ensures
        "Uint8x2"@.len() == 7 && "Uint8x2"@[0] == 'U' && "Uint8x2"@[1] == 'i' && "Uint8x2"@[2] == 'n' && "Uint8x2"@[3] == 't' && "Uint8x2"@[4] == '8' && "Uint8x2"@[5] == 'x' && "Uint8x2"@[6] == '2',
        "Uint8x4"@.len() == 7 && "Uint8x4"@[0] == 'U' && "Uint8x4"@[1] == 'i' && "Uint8x4"@[2] == 'n' && "Uint8x4"@[3] == 't' && "Uint8x4"@[4] == '8' && "Uint8x4"@[5] == 'x' && "Uint8x4"@[6] == '4',
        "Sint8x2"@.len() == 7 && "Sint8x2"@[0] == 'S' && "Sint8x2"@[1] == 'i' && "Sint8x2"@[2] == 'n' && "Sint8x2"@[3] == 't' && "Sint8x2"@[4] == '8' && "Sint8x2"@[5] == 'x' && "Sint8x2"@[6] == '2',
        "Sint8x4"@.len() == 7 && "Sint8x4"@[0] == 'S' && "Sint8x4"@[1] == 'i' && "Sint8x4"@[2] == 'n' && "Sint8x4"@[3] == 't' && "Sint8x4"@[4] == '8' && "Sint8x4"@[5] == 'x' && "Sint8x4"@[6] == '4',
        "Unorm8x2"@.len() == 8 && "Unorm8x2"@[0] == 'U' && "Unorm8x2"@[1] == 'n' && "Unorm8x2"@[2] == 'o' && "Unorm8x2"@[3] == 'r' && "Unorm8x2"@[4] == 'm' && "Unorm8x2"@[5] == '8' && "Unorm8x2"@[6] == 'x' && "Unorm8x2"@[7] == '2',
        "Unorm8x4"@.len() == 8 && "Unorm8x4"@[0] == 'U' && "Unorm8x4"@[1] == 'n' && "Unorm8x4"@[2] == 'o' && "Unorm8x4"@[3] == 'r' && "Unorm8x4"@[4] == 'm' && "Unorm8x4"@[5] == '8' && "Unorm8x4"@[6] == 'x' && "Unorm8x4"@[7] == '4',
        "Snorm8x2"@.len() == 8 && "Snorm8x2"@[0] == 'S' && "Snorm8x2"@[1] == 'n' && "Snorm8x2"@[2] == 'o' && "Snorm8x2"@[3] == 'r' && "Snorm8x2"@[4] == 'm' && "Snorm8x2"@[5] == '8' && "Snorm8x2"@[6] == 'x' && "Snorm8x2"@[7] == '2',
        "Snorm8x4"@.len() == 8 && "Snorm8x4"@[0] == 'S' && "Snorm8x4"@[1] == 'n' && "Snorm8x4"@[2] == 'o' && "Snorm8x4"@[3] == 'r' && "Snorm8x4"@[4] == 'm' && "Snorm8x4"@[5] == '8' && "Snorm8x4"@[6] == 'x' && "Snorm8x4"@[7] == '4',
        "Uint16x2"@.len() == 8 && "Uint16x2"@[0] == 'U' && "Uint16x2"@[1] == 'i' && "Uint16x2"@[2] == 'n' && "Uint16x2"@[3] == 't' && "Uint16x2"@[4] == '1' && "Uint16x2"@[5] == '6' && "Uint16x2"@[6] == 'x' && "Uint16x2"@[7] == '2',
        "Uint16x4"@.len() == 8 && "Uint16x4"@[0] == 'U' && "Uint16x4"@[1] == 'i' && "Uint16x4"@[2] == 'n' && "Uint16x4"@[3] == 't' && "Uint16x4"@[4] == '1' && "Uint16x4"@[5] == '6' && "Uint16x4"@[6] == 'x' && "Uint16x4"@[7] == '4',
        "Sint16x2"@.len() == 8 && "Sint16x2"@[0] == 'S' && "Sint16x2"@[1] == 'i' && "Sint16x2"@[2] == 'n' && "Sint16x2"@[3] == 't' && "Sint16x2"@[4] == '1' && "Sint16x2"@[5] == '6' && "Sint16x2"@[6] == 'x' && "Sint16x2"@[7] == '2',
        "Sint16x4"@.len() == 8 && "Sint16x4"@[0] == 'S' && "Sint16x4"@[1] == 'i' && "Sint16x4"@[2] == 'n' && "Sint16x4"@[3] == 't' && "Sint16x4"@[4] == '1' && "Sint16x4"@[5] == '6' && "Sint16x4"@[6] == 'x' && "Sint16x4"@[7] == '4',
        "Unorm16x2"@.len() == 9 && "Unorm16x2"@[0] == 'U' && "Unorm16x2"@[1] == 'n' && "Unorm16x2"@[2] == 'o' && "Unorm16x2"@[3] == 'r' && "Unorm16x2"@[4] == 'm' && "Unorm16x2"@[5] == '1' && "Unorm16x2"@[6] == '6' && "Unorm16x2"@[7] == 'x' && "Unorm16x2"@[8] == '2',
        "Unorm16x4"@.len() == 9 && "Unorm16x4"@[0] == 'U' && "Unorm16x4"@[1] == 'n' && "Unorm16x4"@[2] == 'o' && "Unorm16x4"@[3] == 'r' && "Unorm16x4"@[4] == 'm' && "Unorm16x4"@[5] == '1' && "Unorm16x4"@[6] == '6' && "Unorm16x4"@[7] == 'x' && "Unorm16x4"@[8] == '4',
        "Snorm16x2"@.len() == 9 && "Snorm16x2"@[0] == 'S' && "Snorm16x2"@[1] == 'n' && "Snorm16x2"@[2] == 'o' && "Snorm16x2"@[3] == 'r' && "Snorm16x2"@[4] == 'm' && "Snorm16x2"@[5] == '1' && "Snorm16x2"@[6] == '6' && "Snorm16x2"@[7] == 'x' && "Snorm16x2"@[8] == '2',
        "Snorm16x4"@.len() == 9 && "Snorm16x4"@[0] == 'S' && "Snorm16x4"@[1] == 'n' && "Snorm16x4"@[2] == 'o' && "Snorm16x4"@[3] == 'r' && "Snorm16x4"@[4] == 'm' && "Snorm16x4"@[5] == '1' && "Snorm16x4"@[6] == '6' && "Snorm16x4"@[7] == 'x' && "Snorm16x4"@[8] == '4',
        "Float16x2"@.len() == 9 && "Float16x2"@[0] == 'F' && "Float16x2"@[1] == 'l' && "Float16x2"@[2] == 'o' && "Float16x2"@[3] == 'a' && "Float16x2"@[4] == 't' && "Float16x2"@[5] == '1' && "Float16x2"@[6] == '6' && "Float16x2"@[7] == 'x' && "Float16x2"@[8] == '2',
        "Float16x4"@.len() == 9 && "Float16x4"@[0] == 'F' && "Float16x4"@[1] == 'l' && "Float16x4"@[2] == 'o' && "Float16x4"@[3] == 'a' && "Float16x4"@[4] == 't' && "Float16x4"@[5] == '1' && "Float16x4"@[6] == '6' && "Float16x4"@[7] == 'x' && "Float16x4"@[8] == '4',
        "Float32"@.len() == 7 && "Float32"@[0] == 'F' && "Float32"@[1] == 'l' && "Float32"@[2] == 'o' && "Float32"@[3] == 'a' && "Float32"@[4] == 't' && "Float32"@[5] == '3' && "Float32"@[6] == '2',
        "Float32x2"@.len() == 9 && "Float32x2"@[0] == 'F' && "Float32x2"@[1] == 'l' && "Float32x2"@[2] == 'o' && "Float32x2"@[3] == 'a' && "Float32x2"@[4] == 't' && "Float32x2"@[5] == '3' && "Float32x2"@[6] == '2' && "Float32x2"@[7] == 'x' && "Float32x2"@[8] == '2',
        "Float32x3"@.len() == 9 && "Float32x3"@[0] == 'F' && "Float32x3"@[1] == 'l' && "Float32x3"@[2] == 'o' && "Float32x3"@[3] == 'a' && "Float32x3"@[4] == 't' && "Float32x3"@[5] == '3' && "Float32x3"@[6] == '2' && "Float32x3"@[7] == 'x' && "Float32x3"@[8] == '3',
        "Float32x4"@.len() == 9 && "Float32x4"@[0] == 'F' && "Float32x4"@[1] == 'l' && "Float32x4"@[2] == 'o' && "Float32x4"@[3] == 'a' && "Float32x4"@[4] == 't' && "Float32x4"@[5] == '3' && "Float32x4"@[6] == '2' && "Float32x4"@[7] == 'x' && "Float32x4"@[8] == '4',
        "Uint32"@.len() == 6 && "Uint32"@[0] == 'U' && "Uint32"@[1] == 'i' && "Uint32"@[2] == 'n' && "Uint32"@[3] == 't' && "Uint32"@[4] == '3' && "Uint32"@[5] == '2',
        "Uint32x2"@.len() == 8 && "Uint32x2"@[0] == 'U' && "Uint32x2"@[1] == 'i' && "Uint32x2"@[2] == 'n' && "Uint32x2"@[3] == 't' && "Uint32x2"@[4] == '3' && "Uint32x2"@[5] == '2' && "Uint32x2"@[6] == 'x' && "Uint32x2"@[7] == '2',
        "Uint32x3"@.len() == 8 && "Uint32x3"@[0] == 'U' && "Uint32x3"@[1] == 'i' && "Uint32x3"@[2] == 'n' && "Uint32x3"@[3] == 't' && "Uint32x3"@[4] == '3' && "Uint32x3"@[5] == '2' && "Uint32x3"@[6] == 'x' && "Uint32x3"@[7] == '3',
        "Uint32x4"@.len() == 8 && "Uint32x4"@[0] == 'U' && "Uint32x4"@[1] == 'i' && "Uint32x4"@[2] == 'n' && "Uint32x4"@[3] == 't' && "Uint32x4"@[4] == '3' && "Uint32x4"@[5] == '2' && "Uint32x4"@[6] == 'x' && "Uint32x4"@[7] == '4',
        "Sint32"@.len() == 6 && "Sint32"@[0] == 'S' && "Sint32"@[1] == 'i' && "Sint32"@[2] == 'n' && "Sint32"@[3] == 't' && "Sint32"@[4] == '3' && "Sint32"@[5] == '2',
        "Sint32x2"@.len() == 8 && "Sint32x2"@[0] == 'S' && "Sint32x2"@[1] == 'i' && "Sint32x2"@[2] == 'n' && "Sint32x2"@[3] == 't' && "Sint32x2"@[4] == '3' && "Sint32x2"@[5] == '2' && "Sint32x2"@[6] == 'x' && "Sint32x2"@[7] == '2',
        "Sint32x3"@.len() == 8 && "Sint32x3"@[0] == 'S' && "Sint32x3"@[1] == 'i' && "Sint32x3"@[2] == 'n' && "Sint32x3"@[3] == 't' && "Sint32x3"@[4] == '3' && "Sint32x3"@[5] == '2' && "Sint32x3"@[6] == 'x' && "Sint32x3"@[7] == '3',
        "Sint32x4"@.len() == 8 && "Sint32x4"@[0] == 'S' && "Sint32x4"@[1] == 'i' && "Sint32x4"@[2] == 'n' && "Sint32x4"@[3] == 't' && "Sint32x4"@[4] == '3' && "Sint32x4"@[5] == '2' && "Sint32x4"@[6] == 'x' && "Sint32x4"@[7] == '4',
        "Float64"@.len() == 7 && "Float64"@[0] == 'F' && "Float64"@[1] == 'l' && "Float64"@[2] == 'o' && "Float64"@[3] == 'a' && "Float64"@[4] == 't' && "Float64"@[5] == '6' && "Float64"@[6] == '4',
        "Float64x2"@.len() == 9 && "Float64x2"@[0] == 'F' && "Float64x2"@[1] == 'l' && "Float64x2"@[2] == 'o' && "Float64x2"@[3] == 'a' && "Float64x2"@[4] == 't' && "Float64x2"@[5] == '6' && "Float64x2"@[6] == '4' && "Float64x2"@[7] == 'x' && "Float64x2"@[8] == '2',
        "Float64x3"@.len() == 9 && "Float64x3"@[0] == 'F' && "Float64x3"@[1] == 'l' && "Float64x3"@[2] == 'o' && "Float64x3"@[3] == 'a' && "Float64x3"@[4] == 't' && "Float64x3"@[5] == '6' && "Float64x3"@[6] == '4' && "Float64x3"@[7] == 'x' && "Float64x3"@[8] == '3',
        "Float64x4"@.len() == 9 && "Float64x4"@[0] == 'F' && "Float64x4"@[1] == 'l' && "Float64x4"@[2] == 'o' && "Float64x4"@[3] == 'a' && "Float64x4"@[4] == 't' && "Float64x4"@[5] == '6' && "Float64x4"@[6] == '4' && "Float64x4"@[7] == 'x' && "Float64x4"@[8] == '4',
{
    reveal_strlit("Uint8x2");
    reveal_strlit("Uint8x4");
    reveal_strlit("Sint8x2");
    reveal_strlit("Sint8x4");
    reveal_strlit("Unorm8x2");
    reveal_strlit("Unorm8x4");
    reveal_strlit("Snorm8x2");
    reveal_strlit("Snorm8x4");
    reveal_strlit("Uint16x2");
    reveal_strlit("Uint16x4");
    reveal_strlit("Sint16x2");
    reveal_strlit("Sint16x4");
    reveal_strlit("Unorm16x2");
    reveal_strlit("Unorm16x4");
    reveal_strlit("Snorm16x2");
    reveal_strlit("Snorm16x4");
    reveal_strlit("Float16x2");
    reveal_strlit("Float16x4");
    reveal_strlit("Float32");
    reveal_strlit("Float32x2");
    reveal_strlit("Float32x3");
    reveal_strlit("Float32x4");
    reveal_strlit("Uint32");
    reveal_strlit("Uint32x2");
    reveal_strlit("Uint32x3");
    reveal_strlit("Uint32x4");
    reveal_strlit("Sint32");
    reveal_strlit("Sint32x2");
    reveal_strlit("Sint32x3");
    reveal_strlit("Sint32x4");
    reveal_strlit("Float64");
    reveal_strlit("Float64x2");
    reveal_strlit("Float64x3");
    reveal_strlit("Float64x4");
}

} // verus!
