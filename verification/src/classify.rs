//! From a field's declared type to its vertex format.
//!
//! Arrays of primitives are looked up in a fixed table. Types written as a
//! qualified name are handed to the recognizers that the caller has
//! switched on, each of which knows the vector types of one math library.

use vstd::prelude::*;
use crate::format::VertexFormat;
use crate::path::{
    capture_token, lemma_compile_capture, NameView, PathCaptureExpr, PatternView, QualifiedName,
};
use crate::text::{
    decimal, join, join_path, join_with, lowercase, str_eq, to_decimal, to_lowercase,
};
use crate::types::{FieldError, FieldErrorView, PrimitiveType, ShapeView, TypeShape};

verus! {

/// Recognizes the vector types of one library: a pattern that captures the
/// type's name, and the formats of the names it knows, in lower case.
#[derive(Debug)]
pub struct Recognizer {
    pub pattern: PathCaptureExpr,
    pub table: Vec<(String, VertexFormat)>,
}

/// The mathematical content of a [`Recognizer`].
pub struct RecognizerView {
    pub pattern: PatternView,
    pub table: Seq<(Seq<char>, VertexFormat)>,
}

/// The first format listed under `name`, if any.
pub open spec fn table_lookup(table: Seq<(Seq<char>, VertexFormat)>, name: Seq<char>) -> Option<
    VertexFormat,
>
    decreases table.len(),
{
    if table.len() == 0 {
        None
    } else if table[0].0 == name {
        Some(table[0].1)
    } else {
        table_lookup(table.drop_first(), name)
    }
}

impl RecognizerView {
    /// The format of a type name: the pattern accepts the name and captures
    /// its last segment, which is listed in lower case.
    pub open spec fn recognizes(self, name: NameView) -> Option<VertexFormat> {
        if !self.pattern.refuses_root(name) && self.pattern.accepts(name) {
            match self.pattern.captured(name) {
                Some(last) => table_lookup(self.table, lowercase(last)),
                None => None,
            }
        } else {
            None
        }
    }
}

/// The names and formats of a table, strings taken by their characters.
pub open spec fn table_view(table: Seq<(String, VertexFormat)>) -> Seq<(Seq<char>, VertexFormat)> {
    table.map_values(|entry: (String, VertexFormat)| (entry.0@, entry.1))
}

impl View for Recognizer {
    type V = RecognizerView;

    open spec fn view(&self) -> RecognizerView {
        RecognizerView { pattern: self.pattern@, table: table_view(self.table@) }
    }
}

/// The content of each recognizer of a list.
pub open spec fn recognizer_views(recognizers: Seq<Recognizer>) -> Seq<RecognizerView> {
    recognizers.map_values(|r: Recognizer| r@)
}

/// The format that the first recognizer to know the name gives it.
pub open spec fn first_recognized(name: NameView, recognizers: Seq<RecognizerView>) -> Option<
    VertexFormat,
>
    decreases recognizers.len(),
{
    if recognizers.len() == 0 {
        None
    } else {
        match recognizers[0].recognizes(name) {
            Some(format) => Some(format),
            None => first_recognized(name, recognizers.drop_first()),
        }
    }
}

/// The format of an array of `len` primitives, for the pairs that have one.
pub open spec fn array_format(kind: PrimitiveType, len: u64) -> Option<VertexFormat> {
    match kind {
        PrimitiveType::U8 => if len == 2 {
            Some(VertexFormat::Uint8x2)
        } else if len == 4 {
            Some(VertexFormat::Uint8x4)
        } else {
            None
        },
        PrimitiveType::I8 => if len == 2 {
            Some(VertexFormat::Sint8x2)
        } else if len == 4 {
            Some(VertexFormat::Sint8x4)
        } else {
            None
        },
        PrimitiveType::U16 => if len == 2 {
            Some(VertexFormat::Uint16x2)
        } else if len == 4 {
            Some(VertexFormat::Uint16x4)
        } else {
            None
        },
        PrimitiveType::I16 => if len == 2 {
            Some(VertexFormat::Sint16x2)
        } else if len == 4 {
            Some(VertexFormat::Sint16x4)
        } else {
            None
        },
        PrimitiveType::F16 => if len == 2 {
            Some(VertexFormat::Float16x2)
        } else if len == 4 {
            Some(VertexFormat::Float16x4)
        } else {
            None
        },
        PrimitiveType::F32 => if len == 1 {
            Some(VertexFormat::Float32)
        } else if len == 2 {
            Some(VertexFormat::Float32x2)
        } else if len == 3 {
            Some(VertexFormat::Float32x3)
        } else if len == 4 {
            Some(VertexFormat::Float32x4)
        } else {
            None
        },
        PrimitiveType::U32 => if len == 1 {
            Some(VertexFormat::Uint32)
        } else if len == 2 {
            Some(VertexFormat::Uint32x2)
        } else if len == 3 {
            Some(VertexFormat::Uint32x3)
        } else if len == 4 {
            Some(VertexFormat::Uint32x4)
        } else {
            None
        },
        PrimitiveType::I32 => if len == 1 {
            Some(VertexFormat::Sint32)
        } else if len == 2 {
            Some(VertexFormat::Sint32x2)
        } else if len == 3 {
            Some(VertexFormat::Sint32x3)
        } else if len == 4 {
            Some(VertexFormat::Sint32x4)
        } else {
            None
        },
        PrimitiveType::F64 => if len == 1 {
            Some(VertexFormat::Float64)
        } else if len == 2 {
            Some(VertexFormat::Float64x2)
        } else if len == 3 {
            Some(VertexFormat::Float64x3)
        } else if len == 4 {
            Some(VertexFormat::Float64x4)
        } else {
            None
        },
        _ => None,
    }
}

/// The bytes that one scalar of a kind takes in memory.
pub open spec fn scalar_bytes(kind: PrimitiveType) -> nat {
    match kind {
        PrimitiveType::Bool | PrimitiveType::U8 | PrimitiveType::I8 => 1,
        PrimitiveType::U16 | PrimitiveType::I16 | PrimitiveType::F16 => 2,
        PrimitiveType::U32 | PrimitiveType::I32 | PrimitiveType::F32 => 4,
        PrimitiveType::U64 | PrimitiveType::I64 | PrimitiveType::F64 => 8,
        PrimitiveType::U128 | PrimitiveType::I128 => 16,
    }
}

/// The format of an array takes the bytes that the array takes in memory.
pub proof fn lemma_array_format_size(kind: PrimitiveType, len: u64)
    requires
        array_format(kind, len) is Some,
    ensures
        array_format(kind, len)->0.spec_size() == len * scalar_bytes(kind),
        1 <= len <= 4,
{
}

/// An array type written out: `[f32;3]`.
pub open spec fn array_name(elem: Seq<char>, len: u64) -> Seq<char> {
    seq!['['] + elem + seq![';'] + decimal(len as nat) + seq![']']
}

/// The format of an array type, or why it has none. A length that is no
/// literal or above 4 is refused first, then an element that is no
/// primitive, then the length 0, then a pair that the table does not list.
pub open spec fn classify_array(elem: ShapeView, len: Option<u64>) -> Result<
    VertexFormat,
    FieldErrorView,
> {
    match len {
        None => Err(FieldErrorView::UnsupportedArrayLength),
        Some(len) => if len > 4 {
            Err(FieldErrorView::UnsupportedArrayLength)
        } else {
            match elem {
                ShapeView::Path(path) => match PrimitiveType::of_path(path) {
                    None => Err(FieldErrorView::UnsupportedArrayElement),
                    Some(kind) => if len == 0 {
                        Err(FieldErrorView::UnsupportedArrayLength)
                    } else {
                        match array_format(kind, len) {
                            Some(format) => Ok(format),
                            None => Err(
                                FieldErrorView::UnsupportedType(
                                    array_name(join_path(path.segments), len),
                                ),
                            ),
                        }
                    },
                },
                _ => Err(FieldErrorView::UnsupportedArrayElement),
            }
        },
    }
}

/// The format of a declared type, or why it has none.
pub open spec fn classify(ty: ShapeView, recognizers: Seq<RecognizerView>) -> Result<
    VertexFormat,
    FieldErrorView,
> {
    match ty {
        ShapeView::Path(name) => match first_recognized(name, recognizers) {
            Some(format) => Ok(format),
            None => Err(FieldErrorView::UnsupportedType(join_path(name.segments))),
        },
        ShapeView::Array { elem, len } => classify_array(*elem, len),
        ShapeView::Other(text) => Err(FieldErrorView::UnsupportedType(text)),
    }
}

/// The recognizer of the vectors of `mint`: `mint::Vector2<f32>` and its
/// three- and four-component siblings.
pub open spec fn mint_recognizer() -> RecognizerView {
    RecognizerView {
        pattern: PatternView {
            wildcard: false,
            leading_colon: false,
            segments: seq!["mint"@],
            capture_last: true,
        },
        table: seq![
            ("vector2<f32>"@, VertexFormat::Float32x2),
            ("vector3<f32>"@, VertexFormat::Float32x3),
            ("vector4<f32>"@, VertexFormat::Float32x4),
        ],
    }
}

/// The recognizer of the vectors of `glam`: `glam::Vec2`, `glam::Vec3` and
/// `glam::Vec4`.
pub open spec fn glam_recognizer() -> RecognizerView {
    RecognizerView {
        pattern: PatternView {
            wildcard: false,
            leading_colon: false,
            segments: seq!["glam"@],
            capture_last: true,
        },
        table: seq![
            ("vec2"@, VertexFormat::Float32x2),
            ("vec3"@, VertexFormat::Float32x3),
            ("vec4"@, VertexFormat::Float32x4),
        ],
    }
}

/// Puts three names and their formats into a table.
fn table_of(
    first: &str,
    second: &str,
    third: &str,
) -> (table: Vec<(String, VertexFormat)>)
    ensures
        table_view(table@) == seq![
            (first@, VertexFormat::Float32x2),
            (second@, VertexFormat::Float32x3),
            (third@, VertexFormat::Float32x4),
        ],
{
    let mut table: Vec<(String, VertexFormat)> = Vec::new();
    table.push((first.to_owned(), VertexFormat::Float32x2));
    table.push((second.to_owned(), VertexFormat::Float32x3));
    table.push((third.to_owned(), VertexFormat::Float32x4));
    assert(table_view(table@) =~= seq![
        (first@, VertexFormat::Float32x2),
        (second@, VertexFormat::Float32x3),
        (third@, VertexFormat::Float32x4),
    ]);
    table
}

impl Recognizer {
    /// The recognizer of the vectors of `mint`.
    pub fn mint() -> (recognizer: Recognizer)
        ensures
            recognizer@ == mint_recognizer(),
    {
        proof {
            reveal_strlit("mint::?");
            reveal_strlit("mint");
            let literals = seq!["mint"@];
            assert(literals[0].len() == 4);
            lemma_compile_capture(literals);
            reveal_with_fuel(join_with, 2);
            assert("mint::?"@ =~= join_path(literals.push(capture_token())));
        }
        match PathCaptureExpr::parse("mint::?") {
            Ok(pattern) => Recognizer {
                pattern,
                table: table_of("vector2<f32>", "vector3<f32>", "vector4<f32>"),
            },
            Err(_) => vstd::pervasive::unreached(),
        }
    }

    /// The recognizer of the vectors of `glam`.
    pub fn glam() -> (recognizer: Recognizer)
        ensures
            recognizer@ == glam_recognizer(),
    {
        proof {
            reveal_strlit("glam::?");
            reveal_strlit("glam");
            let literals = seq!["glam"@];
            assert(literals[0].len() == 4);
            lemma_compile_capture(literals);
            reveal_with_fuel(join_with, 2);
            assert("glam::?"@ =~= join_path(literals.push(capture_token())));
        }
        match PathCaptureExpr::parse("glam::?") {
            Ok(pattern) => Recognizer { pattern, table: table_of("vec2", "vec3", "vec4") },
            Err(_) => vstd::pervasive::unreached(),
        }
    }

    /// The first format listed under a name that is already in lower case.
    pub fn lookup(&self, lowered: &str) -> (format: Option<VertexFormat>)
        ensures
            format == table_lookup(self@.table, lowered@),
    {
        assert(self@.table.skip(0) =~= self@.table);
        let mut i: usize = 0;
        while i < self.table.len()
            invariant
                i <= self.table.len(),
                table_lookup(self@.table, lowered@) == table_lookup(
                    self@.table.skip(i as int),
                    lowered@,
                ),
            decreases self.table.len() - i,
        {
            proof {
                let rest = self@.table.skip(i as int);
                assert(rest[0] == self@.table[i as int]);
                assert(rest.drop_first() =~= self@.table.skip(i + 1));
            }
            if str_eq(self.table[i].0.as_str(), lowered) {
                return Some(self.table[i].1);
            }
            i += 1;
        }
        None
    }

    /// The format that this recognizer gives a type name, if it knows it.
    pub fn recognize(&self, name: &QualifiedName) -> (format: Option<VertexFormat>)
        ensures
            format == self@.recognizes(name@),
    {
        match self.pattern.match_on(name) {
            Ok(Some(last)) => {
                let lowered = to_lowercase(last.as_str());
                self.lookup(lowered.as_str())
            },
            _ => None,
        }
    }
}

/// Writes an array type out: `[f32;3]`.
pub fn array_type_name(elem: &str, len: u64) -> (name: String)
    ensures
        name@ == array_name(elem@, len),
{
    let mut name = String::new();
    name.append("[");
    name.append(elem);
    name.append(";");
    name.append(to_decimal(len).as_str());
    name.append("]");
    proof {
        reveal_strlit("[");
        reveal_strlit(";");
        reveal_strlit("]");
        assert(name@ =~= array_name(elem@, len));
    }
    name
}

impl VertexFormat {
    /// The format of an array of `len` primitives of one kind.
    pub fn of_array(kind: PrimitiveType, len: u64) -> (format: Option<Self>)
        ensures
            format == array_format(kind, len),
    {
        match (kind, len) {
            (PrimitiveType::U8, 2) => Some(VertexFormat::Uint8x2),
            (PrimitiveType::U8, 4) => Some(VertexFormat::Uint8x4),
            (PrimitiveType::I8, 2) => Some(VertexFormat::Sint8x2),
            (PrimitiveType::I8, 4) => Some(VertexFormat::Sint8x4),
            (PrimitiveType::U16, 2) => Some(VertexFormat::Uint16x2),
            (PrimitiveType::U16, 4) => Some(VertexFormat::Uint16x4),
            (PrimitiveType::I16, 2) => Some(VertexFormat::Sint16x2),
            (PrimitiveType::I16, 4) => Some(VertexFormat::Sint16x4),
            (PrimitiveType::F16, 2) => Some(VertexFormat::Float16x2),
            (PrimitiveType::F16, 4) => Some(VertexFormat::Float16x4),
            (PrimitiveType::F32, 1) => Some(VertexFormat::Float32),
            (PrimitiveType::F32, 2) => Some(VertexFormat::Float32x2),
            (PrimitiveType::F32, 3) => Some(VertexFormat::Float32x3),
            (PrimitiveType::F32, 4) => Some(VertexFormat::Float32x4),
            (PrimitiveType::U32, 1) => Some(VertexFormat::Uint32),
            (PrimitiveType::U32, 2) => Some(VertexFormat::Uint32x2),
            (PrimitiveType::U32, 3) => Some(VertexFormat::Uint32x3),
            (PrimitiveType::U32, 4) => Some(VertexFormat::Uint32x4),
            (PrimitiveType::I32, 1) => Some(VertexFormat::Sint32),
            (PrimitiveType::I32, 2) => Some(VertexFormat::Sint32x2),
            (PrimitiveType::I32, 3) => Some(VertexFormat::Sint32x3),
            (PrimitiveType::I32, 4) => Some(VertexFormat::Sint32x4),
            (PrimitiveType::F64, 1) => Some(VertexFormat::Float64),
            (PrimitiveType::F64, 2) => Some(VertexFormat::Float64x2),
            (PrimitiveType::F64, 3) => Some(VertexFormat::Float64x3),
            (PrimitiveType::F64, 4) => Some(VertexFormat::Float64x4),
            _ => None,
        }
    }

    /// Finds the format of a field from its declared type.
    #[verifier::loop_isolation(false)]
    pub fn parse_type(ty: &TypeShape, recognizers: &Vec<Recognizer>) -> (r: Result<
        Self,
        FieldError,
    >)
        ensures
            match r {
                Ok(format) => classify(ty@, recognizer_views(recognizers@)) == Ok::<
                    VertexFormat,
                    FieldErrorView,
                >(format),
                Err(e) => classify(ty@, recognizer_views(recognizers@)) == Err::<
                    VertexFormat,
                    FieldErrorView,
                >(e@),
            },
    {
        proof {
            reveal_with_fuel(TypeShape::content, 2);
        }
        match ty {
            TypeShape::Path(name) => {
                let ghost all = recognizer_views(recognizers@);
                assert(all.skip(0) =~= all);
                let mut i: usize = 0;
                while i < recognizers.len()
                    invariant
                        i <= recognizers.len(),
                        all == recognizer_views(recognizers@),
                        first_recognized(name@, all) == first_recognized(
                            name@,
                            all.skip(i as int),
                        ),
                    decreases recognizers.len() - i,
                {
                    proof {
                        let rest = all.skip(i as int);
                        assert(rest[0] == recognizers@[i as int]@);
                        assert(rest.drop_first() =~= all.skip(i + 1));
                    }
                    match recognizers[i].recognize(name) {
                        Some(format) => {
                            return Ok(format);
                        },
                        None => {},
                    }
                    i += 1;
                }
                Err(FieldError::UnsupportedType(join(&name.segments)))
            },
            TypeShape::Array { elem, len } => {
                let len: u64 = match len {
                    None => {
                        return Err(FieldError::UnsupportedArrayLength);
                    },
                    Some(len) => *len,
                };
                if len > 4 {
                    return Err(FieldError::UnsupportedArrayLength);
                }
                match &**elem {
                    TypeShape::Path(path) => match PrimitiveType::try_from(path) {
                        Err(_) => Err(FieldError::UnsupportedArrayElement),
                        Ok(kind) => {
                            if len == 0 {
                                return Err(FieldError::UnsupportedArrayLength);
                            }
                            match Self::of_array(kind, len) {
                                Some(format) => Ok(format),
                                None => Err(
                                    FieldError::UnsupportedType(
                                        array_type_name(join(&path.segments).as_str(), len),
                                    ),
                                ),
                            }
                        },
                    },
                    _ => Err(FieldError::UnsupportedArrayElement),
                }
            },
            TypeShape::Other(text) => Err(FieldError::UnsupportedType(text.clone())),
        }
    }
}

} // verus!
