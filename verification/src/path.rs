//! Qualified names and the small pattern language that recognises them.
//!
//! A pattern is written like a path: literal segments separated by `::`,
//! optionally led by an empty segment (the name must be rooted) or by `*`
//! (any prefix is accepted), optionally closed by `?` (the last segment of
//! the name is handed back). Matching compares the literal segments with the
//! end of the name.

use vstd::prelude::*;
use crate::error::{CaptureError, InvalidExpression};
use crate::text::{
    colon_free, join_path, lemma_scan_tokens_nonempty, lemma_split_join, split, split_path,
    str_eq, views,
};

verus! {

/// A name such as `glam::Vec3` or `::wgpu::VertexFormat::Float32`. Generic
/// arguments are part of the segment they belong to (`Vector2<f32>`).
#[derive(Debug, PartialEq, Eq)]
pub struct QualifiedName {
    /// Whether the name starts with `::`.
    pub rooted: bool,
    pub segments: Vec<String>,
}

/// The mathematical content of a [`QualifiedName`].
pub struct NameView {
    pub rooted: bool,
    pub segments: Seq<Seq<char>>,
}

impl View for QualifiedName {
    type V = NameView;

    open spec fn view(&self) -> NameView {
        NameView { rooted: self.rooted, segments: views(self.segments@) }
    }
}

impl Clone for QualifiedName {
    fn clone(&self) -> (copy: Self)
        ensures
            copy@ == self@,
    {
        let mut segments: Vec<String> = Vec::new();
        let mut i: usize = 0;
        while i < self.segments.len()
            invariant
                i <= self.segments.len(),
                views(segments@) == views(self.segments@).take(i as int),
            decreases self.segments.len() - i,
        {
            let segment = self.segments[i].clone();
            proof {
                let before = views(segments@);
                let after = views(segments@.push(segment));
                assert(after =~= before.push(segment@));
                assert(before.push(segment@) =~= views(self.segments@).take(i + 1));
            }
            segments.push(segment);
            i += 1;
        }
        proof {
            assert(views(self.segments@).take(i as int) =~= views(self.segments@));
        }
        QualifiedName { rooted: self.rooted, segments }
    }
}

/// The mathematical content of a compiled pattern.
pub struct PatternView {
    /// The pattern starts with `*`: the name may be shorter than the literals.
    pub wildcard: bool,
    /// The pattern starts with `::`: a rooted name is accepted.
    pub leading_colon: bool,
    /// The literal segments, compared with the end of the name.
    pub segments: Seq<Seq<char>>,
    /// The pattern ends with `?`: the last segment of the name is captured.
    pub capture_last: bool,
}

/// The wildcard token `*`.
pub open spec fn wildcard_token() -> Seq<char> {
    seq!['*']
}

/// The capture token `?`.
pub open spec fn capture_token() -> Seq<char> {
    seq!['?']
}

impl PatternView {
    /// At most one of the two prefixes is set, and no literal is a wildcard.
    pub open spec fn well_formed(self) -> bool {
        &&& !(self.wildcard && self.leading_colon)
        &&& !self.segments.contains(wildcard_token())
    }

    /// A rooted name is refused unless the pattern is rooted or open in front.
    pub open spec fn refuses_root(self, name: NameView) -> bool {
        name.rooted && !(self.leading_colon || self.wildcard)
    }

    /// The segment that the pattern hands back, if it captures and there is one.
    pub open spec fn captured(self, name: NameView) -> Option<Seq<char>> {
        if self.capture_last && name.segments.len() > 0 {
            Some(name.segments.last())
        } else {
            None
        }
    }

    /// The segments that are compared with the literals: all of them, or all
    /// but the captured one.
    pub open spec fn compared(self, name: NameView) -> Seq<Seq<char>> {
        if self.capture_last && name.segments.len() > 0 {
            name.segments.drop_last()
        } else {
            name.segments
        }
    }

    /// Whether the name ends as the pattern asks.
    pub open spec fn accepts(self, name: NameView) -> bool {
        let rest = self.compared(name);
        &&& self.wildcard || self.segments.len() <= rest.len()
        &&& tails_agree(self.segments, rest)
    }
}

/// The two lists are equal position by position, counted from their ends, as
/// far as the shorter one reaches.
pub open spec fn tails_agree(a: Seq<Seq<char>>, b: Seq<Seq<char>>) -> bool {
    forall|k: int|
        0 <= k < a.len() && k < b.len() ==> #[trigger] a[a.len() - 1 - k] == b[b.len() - 1 - k]
}

/// Compares two lists of segments from their ends, the second taken up to
/// its first `count` segments.
pub fn ends_agree(a: &Vec<String>, b: &Vec<String>, count: usize) -> (agree: bool)
    requires
        count <= b.len(),
    ensures
        agree == tails_agree(views(a@), views(b@).take(count as int)),
{
    let ghost left = views(a@);
    let ghost right = views(b@).take(count as int);
    let mut k: usize = 0;
    while k < a.len() && k < count
        invariant
            count <= b.len(),
            left == views(a@),
            right == views(b@).take(count as int),
            forall|j: int|
                0 <= j < k ==> #[trigger] left[left.len() - 1 - j] == right[right.len() - 1 - j],
        decreases a.len() - k,
    {
        if !(a[a.len() - 1 - k] == b[count - 1 - k]) {
            assert(left[left.len() - 1 - k] != right[right.len() - 1 - k]);
            return false;
        }
        k += 1;
    }
    true
}

/// What a pattern source compiles to, or `None` where a wildcard stands
/// behind the first token.
pub open spec fn compile(expr: Seq<char>) -> Option<PatternView> {
    let tokens = split_path(expr);
    let leading_colon = tokens.first().len() == 0;
    let wildcard = tokens.first() == wildcard_token();
    let rest = if leading_colon || wildcard {
        tokens.drop_first()
    } else {
        tokens
    };
    if rest.contains(wildcard_token()) {
        None
    } else {
        let capture_last = rest.len() > 0 && rest.last() == capture_token();
        Some(
            PatternView {
                wildcard,
                leading_colon,
                segments: if capture_last {
                    rest.drop_last()
                } else {
                    rest
                },
                capture_last,
            },
        )
    }
}

/// Whatever a source compiles to is well formed: it is not both rooted and
/// open in front, and none of its literals is the wildcard.
pub proof fn lemma_compiled_is_well_formed(expr: Seq<char>)
    requires
        compile(expr) is Some,
    ensures
        compile(expr)->0.well_formed(),
{
    let pattern = compile(expr)->0;
    let tokens = split_path(expr);
    lemma_scan_tokens_nonempty(expr, 0, 0);
    assert(wildcard_token().len() == 1);
    let rest = if pattern.leading_colon || pattern.wildcard {
        tokens.drop_first()
    } else {
        tokens
    };
    assert forall|i: int| 0 <= i < pattern.segments.len() implies pattern.segments[i]
        != wildcard_token() by {
        assert(pattern.segments[i] == rest[i]);
        assert(rest.contains(rest[i]));
    }
}

/// A pattern that does not start with `*` accepts exactly the names whose
/// compared segments end in its literals.
pub proof fn lemma_accepts_suffix(pattern: PatternView, name: NameView)
    requires
        !pattern.wildcard,
    ensures
        pattern.accepts(name) <==> {
            let rest = pattern.compared(name);
            &&& pattern.segments.len() <= rest.len()
            &&& rest.skip(rest.len() - pattern.segments.len()) == pattern.segments
        },
{
    let rest = pattern.compared(name);
    let literals = pattern.segments;
    if literals.len() <= rest.len() {
        let tail = rest.skip(rest.len() - literals.len());
        if pattern.accepts(name) {
            assert forall|i: int| 0 <= i < literals.len() implies tail[i] == literals[i] by {
                let k = literals.len() - 1 - i;
                assert(literals[literals.len() - 1 - k] == rest[rest.len() - 1 - k]);
            }
            assert(tail =~= literals);
        }
        if tail == literals {
            assert forall|k: int| 0 <= k < literals.len() && k < rest.len() implies
                #[trigger] literals[literals.len() - 1 - k] == rest[rest.len() - 1 - k] by {
                assert(tail[literals.len() - 1 - k] == rest[rest.len() - 1 - k]);
            }
        }
    }
}

/// Only the end of a name counts: a name that is accepted with all
/// literals compared is still accepted, with the same capture, when
/// segments are put in front of it and the root is left as it is.
pub proof fn lemma_prefix_keeps_match(pattern: PatternView, name: NameView, prefix: Seq<Seq<char>>)
    requires
        pattern.accepts(name),
        pattern.segments.len() <= pattern.compared(name).len(),
        name.segments.len() > 0,
    ensures
        ({
            let longer = NameView { rooted: name.rooted, segments: prefix + name.segments };
            &&& pattern.accepts(longer)
            &&& pattern.captured(longer) == pattern.captured(name)
            &&& pattern.refuses_root(longer) == pattern.refuses_root(name)
        }),
{
    let longer = NameView { rooted: name.rooted, segments: prefix + name.segments };
    let rest = pattern.compared(name);
    let more = pattern.compared(longer);
    let literals = pattern.segments;
    assert(more =~= prefix + rest);
    assert forall|k: int| 0 <= k < literals.len() && k < more.len() implies
        #[trigger] literals[literals.len() - 1 - k] == more[more.len() - 1 - k] by {
        assert(literals[literals.len() - 1 - k] == rest[rest.len() - 1 - k]);
        assert(more[more.len() - 1 - k] == rest[rest.len() - 1 - k]);
    }
}

/// A source made of literals and a closing `?` compiles to a pattern that
/// compares those literals and captures, provided that no literal holds a
/// colon or is the wildcard, and that the first is not empty.
pub proof fn lemma_compile_capture(literals: Seq<Seq<char>>)
    requires
        literals.len() >= 1,
        literals[0].len() > 0,
        forall|i: int| 0 <= i < literals.len() ==> colon_free(#[trigger] literals[i]),
        forall|i: int| 0 <= i < literals.len() ==> #[trigger] literals[i] != wildcard_token(),
    ensures
        compile(join_path(literals.push(capture_token()))) == Some(
            PatternView { wildcard: false, leading_colon: false, segments: literals, capture_last: true },
        ),
{
    let tokens = literals.push(capture_token());
    assert(capture_token()[0] == '?' && wildcard_token()[0] == '*');
    assert forall|i: int| 0 <= i < tokens.len() implies colon_free(#[trigger] tokens[i]) by {
        if i < literals.len() {
            assert(tokens[i] == literals[i]);
        }
    }
    lemma_split_join(tokens);
    assert(tokens.first() == literals[0]);
    assert forall|i: int| 0 <= i < tokens.len() implies tokens[i] != wildcard_token() by {
        if i < literals.len() {
            assert(tokens[i] == literals[i]);
        }
    }
    assert(tokens.drop_last() =~= literals);
}

/// A compiled pattern: immutable, reused for every match.
#[derive(Debug)]
pub struct PathCaptureExpr {
    wildcard: bool,
    leading_colon: bool,
    segments: Vec<String>,
    capture_last: bool,
}

impl View for PathCaptureExpr {
    type V = PatternView;

    closed spec fn view(&self) -> PatternView {
        PatternView {
            wildcard: self.wildcard,
            leading_colon: self.leading_colon,
            segments: views(self.segments@),
            capture_last: self.capture_last,
        }
    }
}

impl PathCaptureExpr {
    #[verifier::type_invariant]
    spec fn consistent(self) -> bool {
        self@.well_formed()
    }

    /// Compiles a pattern source.
    #[verifier::loop_isolation(false)]
    pub fn parse(expr: &str) -> (r: Result<Self, InvalidExpression>)
        ensures
            match r {
                Ok(pattern) => compile(expr@) == Some(pattern@) && pattern@.well_formed(),
                Err(e) => compile(expr@) is None && e == InvalidExpression::InvalidCapture,
            },
    {
        let mut tokens = split(expr);
        proof {
            lemma_scan_tokens_nonempty(expr@, 0, 0);
            reveal_strlit("*");
            reveal_strlit("?");
            assert("*"@ =~= wildcard_token());
            assert("?"@ =~= capture_token());
        }
        let ghost all = views(tokens@);
        let leading_colon = tokens[0].as_str().unicode_len() == 0;
        let wildcard = str_eq(tokens[0].as_str(), "*");
        if leading_colon || wildcard {
            tokens.remove(0);
            assert(views(tokens@) =~= all.drop_first());
        }
        let ghost rest = views(tokens@);
        let mut i: usize = 0;
        while i < tokens.len()
            invariant
                i <= tokens.len(),
                "*"@ == wildcard_token(),
                rest == views(tokens@),
                forall|j: int| 0 <= j < i ==> rest[j] != wildcard_token(),
            decreases tokens.len() - i,
        {
            if str_eq(tokens[i].as_str(), "*") {
                assert(rest[i as int] == wildcard_token());
                assert(rest.contains(wildcard_token()));
                return Err(InvalidExpression::InvalidCapture);
            }
            i += 1;
        }
        let mut capture_last = false;
        if tokens.len() > 0 && str_eq(tokens[tokens.len() - 1].as_str(), "?") {
            tokens.pop();
            capture_last = true;
            assert(views(tokens@) =~= rest.drop_last());
        }
        proof {
            assert(leading_colon ==> all.first() != wildcard_token());
            assert forall|j: int| 0 <= j < views(tokens@).len() implies views(tokens@)[j]
                != wildcard_token() by {
                assert(views(tokens@)[j] == rest[j]);
            }
        }
        Ok(PathCaptureExpr { wildcard, leading_colon, segments: tokens, capture_last })
    }

    /// Whether the pattern starts with `*`. A pattern that does is not
    /// rooted.
    pub fn is_wildcard(&self) -> (wildcard: bool)
        ensures
            wildcard == self@.wildcard,
            self@.well_formed(),
    {
        proof {
            use_type_invariant(self);
        }
        self.wildcard
    }

    /// Whether the pattern starts with `::`. A pattern that does has no
    /// wildcard.
    pub fn is_rooted(&self) -> (rooted: bool)
        ensures
            rooted == self@.leading_colon,
            self@.well_formed(),
    {
        proof {
            use_type_invariant(self);
        }
        self.leading_colon
    }

    /// Whether the pattern ends with `?`.
    pub fn captures_last(&self) -> (capture: bool)
        ensures
            capture == self@.capture_last,
    {
        self.capture_last
    }

    /// The literal segments, none of which is `*`.
    pub fn literals(&self) -> (literals: &Vec<String>)
        ensures
            views(literals@) == self@.segments,
            self@.well_formed(),
    {
        proof {
            use_type_invariant(self);
        }
        &self.segments
    }

    /// Tests a name against the pattern. On success the captured segment is
    /// handed back, if the pattern captures and the name has a segment.
    pub fn match_on(&self, path: &QualifiedName) -> (r: Result<Option<String>, CaptureError>)
        ensures
            match r {
                Ok(captured) => {
                    &&& !self@.refuses_root(path@)
                    &&& self@.accepts(path@)
                    &&& match captured {
                        Some(segment) => self@.captured(path@) == Some(segment@),
                        None => self@.captured(path@) is None,
                    }
                },
                Err(CaptureError::UnexpectedLeadingColon) => self@.refuses_root(path@),
                Err(CaptureError::NoMatch(subject)) => {
                    &&& !self@.refuses_root(path@)
                    &&& !self@.accepts(path@)
                    &&& subject@ == path@
                },
                Err(CaptureError::UnexpectedPathSegment(_)) => false,
            },
    {
        if path.rooted && !(self.leading_colon || self.wildcard) {
            return Err(CaptureError::UnexpectedLeadingColon);
        }
        let total: usize = path.segments.len();
        let mut last: Option<String> = None;
        let mut count: usize = total;
        if self.capture_last && total > 0 {
            last = Some(path.segments[total - 1].clone());
            count = total - 1;
        }
        let ghost rest = self@.compared(path@);
        assert(rest =~= views(path.segments@).take(count as int));
        let agree = (self.wildcard || self.segments.len() <= count) && ends_agree(
            &self.segments,
            &path.segments,
            count,
        );
        if agree {
            Ok(last)
        } else {
            Err(CaptureError::NoMatch(path.clone()))
        }
    }
}

} // verus!
