//! Types and paths as they are written in source, and how they are
//! written out again as text.
//!
//! The matcher and the classifier work on flat names. This module holds the
//! tree that a parser hands over and flattens it: each segment of a path
//! becomes one string that holds its generic arguments, `Vector2<f32>`.

use vstd::prelude::*;
use crate::classify::{array_name, array_type_name};
use crate::error::ParseError;
use crate::path::{ends_agree, tails_agree, NameView, QualifiedName};
use crate::text::{decimal, join_by, join_path, join_with, to_decimal, views};
use crate::types::{ShapeView, TypeShape};

verus! {

/// A type as it is written.
#[derive(Debug, PartialEq, Eq)]
pub enum Type {
    /// `[elem; len]`. `len` is `None` where the length is not written as
    /// an integer literal.
    Array { elem: Box<Type>, len: Option<u64> },
    /// A type in invisible delimiters.
    Group(Box<Type>),
    /// `_`
    Infer,
    /// `!`
    Never,
    /// `(elem)`
    Paren(Box<Type>),
    /// A path such as `std::vec::Vec<u8>`.
    Path(Path),
    /// `*const elem` or `*mut elem`.
    Ptr { is_const: bool, is_mut: bool, elem: Box<Type> },
    /// `&'lifetime elem`
    Reference { lifetime: Option<String>, elem: Box<Type> },
    /// `[elem]`
    Slice(Box<Type>),
    /// `(a, b, c)`
    Tuple(Vec<Type>),
    /// Tokens that the parser did not interpret, as text.
    Verbatim(String),
    /// Any other type: a function pointer, `impl Trait`, `dyn Trait`, a
    /// macro.
    Other,
}

/// A path as it is written.
#[derive(Debug, PartialEq, Eq)]
pub struct Path {
    /// Whether the path starts with `::`.
    pub leading_colon: bool,
    pub segments: Vec<PathSegment>,
}

/// One segment of a path: a name and what is written behind it.
#[derive(Debug, PartialEq, Eq)]
pub struct PathSegment {
    pub ident: String,
    pub arguments: PathArguments,
}

/// What is written behind the name of a path segment.
#[derive(Debug, PartialEq, Eq)]
pub enum PathArguments {
    /// Nothing.
    Empty,
    /// `<A, B>`
    AngleBracketed(Vec<GenericArgument>),
    /// `(A, B) -> C`
    Parenthesized,
}

/// One argument between angle brackets.
#[derive(Debug, PartialEq, Eq)]
pub enum GenericArgument {
    /// `'a`
    Lifetime,
    Type(Type),
    /// A constant; `None` where it is not written as an integer literal.
    Const(Option<u64>),
    /// `Item = Type`
    Binding { ident: String, ty: Type },
    /// `Item: Bound`
    Constraint,
}

/// A type written out, or the reason why it cannot be.
pub open spec fn type_text(t: Type) -> Result<Seq<char>, Seq<char>>
    decreases t,
{
    match t {
        Type::Array { elem, len } => match len {
            Some(len) => match type_text(*elem) {
                Ok(elem) => Ok(array_name(elem, len)),
                Err(reason) => Err(reason),
            },
            None => Err("unhandled array length expression"@),
        },
        Type::Group(elem) => type_text(*elem),
        Type::Infer => Ok("_"@),
        Type::Never => Ok("!"@),
        Type::Paren(elem) => match type_text(*elem) {
            Ok(elem) => Ok("("@ + elem + ")"@),
            Err(reason) => Err(reason),
        },
        Type::Path(path) => path_text(path),
        Type::Ptr { is_const, is_mut, elem } => if !is_const && !is_mut {
            Err("pointer neither const nor mut"@)
        } else {
            match type_text(*elem) {
                Ok(elem) => Ok(
                    "*"@ + (if is_const {
                        "const"@
                    } else {
                        "mut"@
                    }) + " "@ + elem,
                ),
                Err(reason) => Err(reason),
            }
        },
        Type::Reference { lifetime, elem } => match type_text(*elem) {
            Ok(elem) => Ok(
                "&"@ + (match lifetime {
                    Some(name) => "'"@ + name@,
                    None => Seq::empty(),
                }) + " "@ + elem,
            ),
            Err(reason) => Err(reason),
        },
        Type::Slice(elem) => match type_text(*elem) {
            Ok(elem) => Ok("["@ + elem + "]"@),
            Err(reason) => Err(reason),
        },
        Type::Tuple(elems) => match type_texts(elems@) {
            Ok(elems) => Ok("("@ + join_with(elems, ","@) + ")"@),
            Err(reason) => Err(reason),
        },
        Type::Verbatim(text) => Ok(text@),
        Type::Other => Err("unable to convert type to string"@),
    }
}

/// Each type of a list written out, or the reason why the first that
/// cannot be written out cannot.
pub open spec fn type_texts(types: Seq<Type>) -> Result<Seq<Seq<char>>, Seq<char>>
    decreases types,
{
    if types.len() == 0 {
        Ok(Seq::empty())
    } else {
        match type_texts(types.drop_last()) {
            Ok(texts) => match type_text(types.last()) {
                Ok(text) => Ok(texts.push(text)),
                Err(reason) => Err(reason),
            },
            Err(reason) => Err(reason),
        }
    }
}

/// A path written out with `::` between its segments. A leading `::` is
/// not written.
pub open spec fn path_text(path: Path) -> Result<Seq<char>, Seq<char>>
    decreases path,
{
    match segment_texts(path.segments@) {
        Ok(texts) => Ok(join_path(texts)),
        Err(reason) => Err(reason),
    }
}

/// Each segment of a list written out, or the reason why the first that
/// cannot be written out cannot.
pub open spec fn segment_texts(segments: Seq<PathSegment>) -> Result<Seq<Seq<char>>, Seq<char>>
    decreases segments,
{
    if segments.len() == 0 {
        Ok(Seq::empty())
    } else {
        match segment_texts(segments.drop_last()) {
            Ok(texts) => match segment_text(segments.last()) {
                Ok(text) => Ok(texts.push(text)),
                Err(reason) => Err(reason),
            },
            Err(reason) => Err(reason),
        }
    }
}

/// A segment written out: its name and, without a space, its arguments.
pub open spec fn segment_text(segment: PathSegment) -> Result<Seq<char>, Seq<char>>
    decreases segment,
{
    match arguments_text(segment.arguments) {
        Ok(arguments) => Ok(segment.ident@ + arguments),
        Err(reason) => Err(reason),
    }
}

/// The arguments of a segment written out: nothing, or the arguments
/// between angle brackets with `,` between them.
pub open spec fn arguments_text(arguments: PathArguments) -> Result<Seq<char>, Seq<char>>
    decreases arguments,
{
    match arguments {
        PathArguments::Empty => Ok(Seq::empty()),
        PathArguments::AngleBracketed(arguments) => match argument_texts(arguments@) {
            Ok(texts) => Ok("<"@ + join_with(texts, ","@) + ">"@),
            Err(reason) => Err(reason),
        },
        PathArguments::Parenthesized => Err(
            "parenthesized path arguments (Fn(A)->B) not supported"@,
        ),
    }
}

/// Each argument of a list written out, or the reason why the first that
/// cannot be written out cannot.
pub open spec fn argument_texts(arguments: Seq<GenericArgument>) -> Result<
    Seq<Seq<char>>,
    Seq<char>,
>
    decreases arguments,
{
    if arguments.len() == 0 {
        Ok(Seq::empty())
    } else {
        match argument_texts(arguments.drop_last()) {
            Ok(texts) => match argument_text(arguments.last()) {
                Ok(text) => Ok(texts.push(text)),
                Err(reason) => Err(reason),
            },
            Err(reason) => Err(reason),
        }
    }
}

/// One argument written out: a type as it is, a constant in decimal, a
/// binding as `Item = Type`.
pub open spec fn argument_text(argument: GenericArgument) -> Result<Seq<char>, Seq<char>>
    decreases argument,
{
    match argument {
        GenericArgument::Lifetime => Err("lifetimes not supported"@),
        GenericArgument::Type(ty) => type_text(ty),
        GenericArgument::Const(value) => match value {
            Some(value) => Ok(decimal(value as nat)),
            None => Err("expected a type or a number"@),
        },
        GenericArgument::Binding { ident, ty } => match type_text(ty) {
            Ok(ty) => Ok(ident@ + " = "@ + ty),
            Err(reason) => Err(reason),
        },
        GenericArgument::Constraint => Err("constraints not supported"@),
    }
}

/// The names of the segments, without their arguments.
pub open spec fn ident_texts(segments: Seq<PathSegment>) -> Seq<Seq<char>> {
    segments.map_values(|segment: PathSegment| segment.ident@)
}

/// The shape of a type as the classifier looks at it: a path with its
/// segments written out, an array by the shape of its element, any other
/// type by its written form; or the reason why it cannot be written out.
pub open spec fn shape_of(t: Type) -> Result<ShapeView, Seq<char>>
    decreases t,
{
    match t {
        Type::Path(path) => match segment_texts(path.segments@) {
            Ok(segments) => Ok(ShapeView::Path(NameView { rooted: path.leading_colon, segments })),
            Err(reason) => Err(reason),
        },
        Type::Array { elem, len } => match shape_of(*elem) {
            Ok(elem) => Ok(ShapeView::Array { elem: Box::new(elem), len }),
            Err(reason) => Err(reason),
        },
        _ => match type_text(t) {
            Ok(text) => Ok(ShapeView::Other(text)),
            Err(reason) => Err(reason),
        },
    }
}

/// The message of an error.
pub open spec fn reason(e: ParseError) -> Seq<char> {
    match e {
        ParseError::PathParseError(reason) => reason@,
    }
}

/// An error with a message.
fn unsupported(message: &str) -> (e: ParseError)
    ensures
        reason(e) == message@,
{
    ParseError::PathParseError(message.to_owned())
}

/// Writes the arguments between angle brackets out: `<f32,3>`.
pub fn generic_to_string(a: &Vec<GenericArgument>) -> (r: Result<String, ParseError>)
    ensures
        match r {
            Ok(text) => argument_texts(a@) matches Ok(texts) && text@ == "<"@ + join_with(
                texts,
                ","@,
            ) + ">"@,
            Err(e) => argument_texts(a@) == Err::<Seq<Seq<char>>, Seq<char>>(reason(e)),
        },
    decreases a,
{
    let mut args: Vec<String> = Vec::new();
    let mut i: usize = 0;
    assert(a@.take(0) =~= Seq::<GenericArgument>::empty());
    assert(views(args@) =~= Seq::<Seq<char>>::empty());
    while i < a.len()
        invariant
            i <= a.len(),
            argument_texts(a@.take(i as int)) == Ok::<Seq<Seq<char>>, Seq<char>>(views(args@)),
        decreases a.len() - i,
    {
        proof {
            let next = a@.take(i + 1);
            assert(next.drop_last() =~= a@.take(i as int));
            assert(next.last() == a@[i as int]);
            assert(argument_text(next.last()) == argument_text(a@[i as int]));
            if argument_texts(next) is Err {
                lemma_argument_texts_error(a@, i + 1);
            }
        }
        let text = match &a[i] {
            GenericArgument::Lifetime => {
                return Err(unsupported("lifetimes not supported"));
            },
            GenericArgument::Type(t) => match type_to_string(t) {
                Ok(text) => text,
                Err(e) => {
                    return Err(e);
                },
            },
            GenericArgument::Const(c) => match c {
                Some(value) => to_decimal(*value),
                None => {
                    return Err(unsupported("expected a type or a number"));
                },
            },
            GenericArgument::Binding { ident, ty } => match type_to_string(ty) {
                Ok(ty) => {
                    let mut text = ident.clone();
                    text.append(" = ");
                    text.append(ty.as_str());
                    text
                },
                Err(e) => {
                    return Err(e);
                },
            },
            GenericArgument::Constraint => {
                return Err(unsupported("constraints not supported"));
            },
        };
        proof {
            let before = views(args@);
            assert(views(args@.push(text)) =~= before.push(text@));
        }
        args.push(text);
        i += 1;
    }
    assert(a@.take(i as int) =~= a@);
    let mut text = String::new();
    text.append("<");
    text.append(join_by(&args, ",").as_str());
    text.append(">");
    assert(text@ =~= "<"@ + join_with(views(args@), ","@) + ">"@);
    Ok(text)
}

/// Writes a path out with `::` between its segments. A leading `::` is not
/// written.
pub fn path_to_string(path: &Path) -> (r: Result<String, ParseError>)
    ensures
        match r {
            Ok(text) => path_text(*path) == Ok::<Seq<char>, Seq<char>>(text@),
            Err(e) => path_text(*path) == Err::<Seq<char>, Seq<char>>(reason(e)),
        },
    decreases path,
{
    match segments_to_strings(&path.segments) {
        Ok(segments) => Ok(crate::text::join(&segments)),
        Err(e) => Err(e),
    }
}

/// Writes each segment of a path out.
pub fn segments_to_strings(segments: &Vec<PathSegment>) -> (r: Result<Vec<String>, ParseError>)
    ensures
        match r {
            Ok(texts) => segment_texts(segments@) == Ok::<Seq<Seq<char>>, Seq<char>>(
                views(texts@),
            ),
            Err(e) => segment_texts(segments@) == Err::<Seq<Seq<char>>, Seq<char>>(reason(e)),
        },
    decreases segments,
{
    let mut texts: Vec<String> = Vec::new();
    let mut i: usize = 0;
    assert(segments@.take(0) =~= Seq::<PathSegment>::empty());
    assert(views(texts@) =~= Seq::<Seq<char>>::empty());
    while i < segments.len()
        invariant
            i <= segments.len(),
            segment_texts(segments@.take(i as int)) == Ok::<Seq<Seq<char>>, Seq<char>>(
                views(texts@),
            ),
        decreases segments.len() - i,
    {
        proof {
            let next = segments@.take(i + 1);
            assert(next.drop_last() =~= segments@.take(i as int));
            assert(next.last() == segments@[i as int]);
            if segment_texts(next) is Err {
                lemma_segment_texts_error(segments@, i + 1);
            }
        }
        let text = match path_segment_to_string(&segments[i]) {
            Ok(text) => text,
            Err(e) => {
                return Err(e);
            },
        };
        proof {
            let before = views(texts@);
            assert(views(texts@.push(text)) =~= before.push(text@));
        }
        texts.push(text);
        i += 1;
    }
    assert(segments@.take(i as int) =~= segments@);
    Ok(texts)
}

/// Writes a segment out: its name and, without a space, its arguments.
pub fn path_segment_to_string(seg: &PathSegment) -> (r: Result<String, ParseError>)
    ensures
        match r {
            Ok(text) => segment_text(*seg) == Ok::<Seq<char>, Seq<char>>(text@),
            Err(e) => segment_text(*seg) == Err::<Seq<char>, Seq<char>>(reason(e)),
        },
    decreases seg,
{
    match path_args_to_string(&seg.arguments) {
        Ok(arguments) => {
            let mut text = seg.ident.clone();
            text.append(arguments.as_str());
            Ok(text)
        },
        Err(e) => Err(e),
    }
}

/// Writes the arguments of a segment out.
pub fn path_args_to_string(args: &PathArguments) -> (r: Result<String, ParseError>)
    ensures
        match r {
            Ok(text) => arguments_text(*args) == Ok::<Seq<char>, Seq<char>>(text@),
            Err(e) => arguments_text(*args) == Err::<Seq<char>, Seq<char>>(reason(e)),
        },
    decreases args,
{
    match args {
        PathArguments::Empty => Ok(String::new()),
        PathArguments::AngleBracketed(a) => generic_to_string(a),
        PathArguments::Parenthesized => Err(
            unsupported("parenthesized path arguments (Fn(A)->B) not supported"),
        ),
    }
}

/// Writes a type out.
pub fn type_to_string(t: &Type) -> (r: Result<String, ParseError>)
    ensures
        match r {
            Ok(text) => type_text(*t) == Ok::<Seq<char>, Seq<char>>(text@),
            Err(e) => type_text(*t) == Err::<Seq<char>, Seq<char>>(reason(e)),
        },
    decreases t,
{
    match t {
        Type::Array { elem, len } => match len {
            Some(len) => match type_to_string(elem) {
                Ok(elem) => Ok(array_type_name(elem.as_str(), *len)),
                Err(e) => Err(e),
            },
            None => Err(unsupported("unhandled array length expression")),
        },
        Type::Group(elem) => type_to_string(elem),
        Type::Infer => Ok("_".to_owned()),
        Type::Never => Ok("!".to_owned()),
        Type::Paren(elem) => match type_to_string(elem) {
            Ok(elem) => {
                let mut text = "(".to_owned();
                text.append(elem.as_str());
                text.append(")");
                Ok(text)
            },
            Err(e) => Err(e),
        },
        Type::Path(path) => path_to_string(path),
        Type::Ptr { is_const, is_mut, elem } => {
            let kind = if *is_const {
                "const"
            } else if *is_mut {
                "mut"
            } else {
                return Err(unsupported("pointer neither const nor mut"));
            };
            match type_to_string(elem) {
                Ok(elem) => {
                    let mut text = "*".to_owned();
                    text.append(kind);
                    text.append(" ");
                    text.append(elem.as_str());
                    Ok(text)
                },
                Err(e) => Err(e),
            }
        },
        Type::Reference { lifetime, elem } => match type_to_string(elem) {
            Ok(elem) => {
                let mut text = "&".to_owned();
                match lifetime {
                    Some(name) => {
                        text.append("'");
                        text.append(name.as_str());
                    },
                    None => {},
                }
                text.append(" ");
                text.append(elem.as_str());
                assert(text@ =~= "&"@ + (match lifetime {
                    Some(name) => "'"@ + name@,
                    None => Seq::empty(),
                }) + " "@ + elem@);
                Ok(text)
            },
            Err(e) => Err(e),
        },
        Type::Slice(elem) => match type_to_string(elem) {
            Ok(elem) => {
                let mut text = "[".to_owned();
                text.append(elem.as_str());
                text.append("]");
                Ok(text)
            },
            Err(e) => Err(e),
        },
        Type::Tuple(elems) => {
            let mut ts: Vec<String> = Vec::new();
            let mut i: usize = 0;
            assert(elems@.take(0) =~= Seq::<Type>::empty());
            assert(views(ts@) =~= Seq::<Seq<char>>::empty());
            while i < elems.len()
                invariant
                    i <= elems.len(),
                    t == Type::Tuple(*elems),
                    type_texts(elems@.take(i as int)) == Ok::<Seq<Seq<char>>, Seq<char>>(
                        views(ts@),
                    ),
                decreases elems.len() - i,
            {
                proof {
                    let next = elems@.take(i + 1);
                    assert(next.drop_last() =~= elems@.take(i as int));
                    assert(next.last() == elems@[i as int]);
                    if type_texts(next) is Err {
                        lemma_type_texts_error(elems@, i + 1);
                    }
                }
                let text = match type_to_string(&elems[i]) {
                    Ok(text) => text,
                    Err(e) => {
                        return Err(e);
                    },
                };
                proof {
                    let before = views(ts@);
                    assert(views(ts@.push(text)) =~= before.push(text@));
                }
                ts.push(text);
                i += 1;
            }
            assert(elems@.take(i as int) =~= elems@);
            let mut text = "(".to_owned();
            text.append(join_by(&ts, ",").as_str());
            text.append(")");
            Ok(text)
        },
        Type::Verbatim(text) => Ok(text.clone()),
        Type::Other => Err(unsupported("unable to convert type to string")),
    }
}

impl Path {
    /// The path as a flat name of its segments' names, without arguments.
    pub fn idents(&self) -> (name: QualifiedName)
        ensures
            name@ == (NameView {
                rooted: self.leading_colon,
                segments: ident_texts(self.segments@),
            }),
    {
        let mut segments: Vec<String> = Vec::new();
        let mut i: usize = 0;
        while i < self.segments.len()
            invariant
                i <= self.segments.len(),
                views(segments@) == ident_texts(self.segments@).take(i as int),
            decreases self.segments.len() - i,
        {
            let ident = self.segments[i].ident.clone();
            proof {
                let before = views(segments@);
                assert(views(segments@.push(ident)) =~= before.push(ident@));
                assert(before.push(ident@) =~= ident_texts(self.segments@).take(i + 1));
            }
            segments.push(ident);
            i += 1;
        }
        assert(ident_texts(self.segments@).take(i as int) =~= ident_texts(self.segments@));
        QualifiedName { rooted: self.leading_colon, segments }
    }

    /// The path as a flat name, each segment written out with its
    /// arguments.
    pub fn flatten(&self) -> (r: Result<QualifiedName, ParseError>)
        ensures
            match r {
                Ok(name) => segment_texts(self.segments@) == Ok::<Seq<Seq<char>>, Seq<char>>(
                    name@.segments,
                ) && name@.rooted == self.leading_colon,
                Err(e) => segment_texts(self.segments@) == Err::<Seq<Seq<char>>, Seq<char>>(
                    reason(e),
                ),
            },
    {
        match segments_to_strings(&self.segments) {
            Ok(segments) => Ok(QualifiedName { rooted: self.leading_colon, segments }),
            Err(e) => Err(e),
        }
    }
}

impl Type {
    /// The shape of the type as the classifier looks at it.
    pub fn shape(&self) -> (r: Result<TypeShape, ParseError>)
        ensures
            match r {
                Ok(shape) => shape_of(*self) == Ok::<ShapeView, Seq<char>>(shape@),
                Err(e) => shape_of(*self) == Err::<ShapeView, Seq<char>>(reason(e)),
            },
        decreases self,
    {
        match self {
            Type::Path(path) => match path.flatten() {
                Ok(name) => Ok(TypeShape::Path(name)),
                Err(e) => Err(e),
            },
            Type::Array { elem, len } => match elem.shape() {
                Ok(elem) => Ok(TypeShape::Array { elem: Box::new(elem), len: *len }),
                Err(e) => Err(e),
            },
            _ => match type_to_string(self) {
                Ok(text) => Ok(TypeShape::Other(text)),
                Err(e) => Err(e),
            },
        }
    }
}

/// The first argument of the last segment of a type path, where it is a
/// type; or the reason why the type has none.
pub open spec fn first_type_argument(t: Type) -> Result<Type, Seq<char>> {
    match t {
        Type::Path(path) => if path.segments.len() == 0 {
            Err("first buffer type argument must be inner data"@)
        } else {
            match path.segments@.last().arguments {
                PathArguments::AngleBracketed(arguments) => if arguments.len() == 0 {
                    Err("inner data must be first type argument"@)
                } else {
                    match arguments@[0] {
                        GenericArgument::Type(ty) => Ok(ty),
                        _ => Err("first argument not a type"@),
                    }
                },
                _ => Err("first buffer type argument must be inner data"@),
            }
        },
        _ => Err("expected a type path"@),
    }
}

impl Type {
    /// The type of the data in a buffer of this type: the first argument of
    /// the last segment of the buffer's type, `D` in `Buffer<D>`.
    pub fn first_type_argument(&self) -> (r: Result<&Type, ParseError>)
        ensures
            match r {
                Ok(ty) => first_type_argument(*self) == Ok::<Type, Seq<char>>(*ty),
                Err(e) => first_type_argument(*self) == Err::<Type, Seq<char>>(reason(e)),
            },
    {
        match self {
            Type::Path(path) => {
                if path.segments.len() == 0 {
                    return Err(unsupported("first buffer type argument must be inner data"));
                }
                match &path.segments[path.segments.len() - 1].arguments {
                    PathArguments::AngleBracketed(arguments) => {
                        if arguments.len() == 0 {
                            return Err(unsupported("inner data must be first type argument"));
                        }
                        match &arguments[0] {
                            GenericArgument::Type(ty) => Ok(ty),
                            _ => Err(unsupported("first argument not a type")),
                        }
                    },
                    _ => Err(unsupported("first buffer type argument must be inner data")),
                }
            },
            _ => Err(unsupported("expected a type path")),
        }
    }
}

/// Whether a path ends in the names of `tail`: the two are compared from
/// their ends, as far as the shorter one reaches.
pub fn path_match_tail(path: &Path, tail: &Vec<String>) -> (r: bool)
    ensures
        r == tails_agree(views(tail@), ident_texts(path.segments@)),
{
    let name = path.idents();
    assert(views(name.segments@).take(name.segments.len() as int) =~= views(name.segments@));
    ends_agree(tail, &name.segments, name.segments.len())
}

/// A list of types with a prefix that cannot be written out cannot be
/// written out either, for the same reason.
proof fn lemma_type_texts_error(types: Seq<Type>, n: int)
    requires
        0 <= n <= types.len(),
        type_texts(types.take(n)) is Err,
    ensures
        type_texts(types) == type_texts(types.take(n)),
    decreases types.len() - n,
{
    if n < types.len() {
        let next = types.take(n + 1);
        assert(next.drop_last() =~= types.take(n));
        lemma_type_texts_error(types, n + 1);
    } else {
        assert(types.take(n) =~= types);
    }
}

/// A list of segments with a prefix that cannot be written out cannot be
/// written out either, for the same reason.
proof fn lemma_segment_texts_error(segments: Seq<PathSegment>, n: int)
    requires
        0 <= n <= segments.len(),
        segment_texts(segments.take(n)) is Err,
    ensures
        segment_texts(segments) == segment_texts(segments.take(n)),
    decreases segments.len() - n,
{
    if n < segments.len() {
        let next = segments.take(n + 1);
        assert(next.drop_last() =~= segments.take(n));
        lemma_segment_texts_error(segments, n + 1);
    } else {
        assert(segments.take(n) =~= segments);
    }
}

/// A list of arguments with a prefix that cannot be written out cannot be
/// written out either, for the same reason.
proof fn lemma_argument_texts_error(arguments: Seq<GenericArgument>, n: int)
    requires
        0 <= n <= arguments.len(),
        argument_texts(arguments.take(n)) is Err,
    ensures
        argument_texts(arguments) == argument_texts(arguments.take(n)),
    decreases arguments.len() - n,
{
    if n < arguments.len() {
        let next = arguments.take(n + 1);
        assert(next.drop_last() =~= arguments.take(n));
        lemma_argument_texts_error(arguments, n + 1);
    } else {
        assert(arguments.take(n) =~= arguments);
    }
}

} // verus!
