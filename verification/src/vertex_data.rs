//! The layout builder: from the attributes and fields of a type to the
//! layout of a vertex buffer that holds values of it.
//!
//! The builder is configured by the attributes written on the type, takes
//! the fields in the order of their declaration, and hands out the finished
//! layout. Each step either succeeds or leaves the builder as it was.

use vstd::prelude::*;
use vstd::seq_lib::seq_to_set_is_finite;
use vstd::set_lib::{lemma_int_range, lemma_len_subset, set_int_range};
use crate::classify::{classify, recognizer_views, Recognizer, RecognizerView};
use crate::error::{AttributeError, LayoutError, VertexDataError, VertexDataErrorView};
use crate::format::{format_of_path, VertexFormat};
use crate::path::{
    capture_token, lemma_compile_capture, NameView, PathCaptureExpr, PatternView, QualifiedName,
};
use crate::schema::{
    attribute_views, field_views, Attribute, AttributeValue, AttributeView, Field, FieldView,
    Schema, SchemaView, ValueView,
};
use crate::text::{join_path, join_with, str_eq};

verus! {

/// Whether a buffer moves on by one record per vertex or per instance.
#[derive(Debug, Clone, Copy, PartialEq, Eq, Hash, Structural)]
pub enum StepMode {
    Vertex,
    Instance,
}

/// What the builder knows of one field.
#[derive(Debug, Clone, Copy, PartialEq, Eq, Structural)]
pub struct VertexInfo {
    pub format: VertexFormat,
    pub offset: u64,
    pub shader_location: u32,
    pub normalized: bool,
}

/// One attribute of a finished layout.
#[derive(Debug, Clone, Copy, PartialEq, Eq, Structural)]
pub struct VertexAttribute {
    pub offset: u64,
    pub shader_location: u32,
    pub format: VertexFormat,
}

/// The finished layout of a vertex buffer.
#[derive(Debug, PartialEq, Eq)]
pub struct LayoutDescriptor {
    /// The bytes from one record to the next.
    pub stride: u64,
    pub step_mode: StepMode,
    /// One attribute per field, in the order of the fields.
    pub attributes: Vec<VertexAttribute>,
    /// The sum of the sizes of the attributes' formats.
    pub total_size: u64,
}

/// The mathematical content of a [`LayoutDescriptor`].
pub struct LayoutView {
    pub stride: u64,
    pub step_mode: StepMode,
    pub attributes: Seq<VertexAttribute>,
    pub total_size: u64,
}

impl View for LayoutDescriptor {
    type V = LayoutView;

    open spec fn view(&self) -> LayoutView {
        LayoutView {
            stride: self.stride,
            step_mode: self.step_mode,
            attributes: self.attributes@,
            total_size: self.total_size,
        }
    }
}

/// The pattern that a path to a step mode has to meet:
/// `wgpu::VertexStepMode::?`.
pub open spec fn step_mode_pattern() -> PatternView {
    PatternView {
        wildcard: false,
        leading_colon: false,
        segments: seq!["wgpu"@, "VertexStepMode"@],
        capture_last: true,
    }
}

/// The step mode that a name stands for.
pub open spec fn step_mode_named(name: Seq<char>) -> Option<StepMode> {
    if name == "Vertex"@ {
        Some(StepMode::Vertex)
    } else if name == "Instance"@ {
        Some(StepMode::Instance)
    } else {
        None
    }
}

/// The step mode that a path names: the path ends in
/// `wgpu::VertexStepMode` and `Vertex` or `Instance`.
pub open spec fn step_mode_of_path(path: NameView) -> Option<StepMode> {
    let pattern = step_mode_pattern();
    if !pattern.refuses_root(path) && pattern.accepts(path) {
        match pattern.captured(path) {
            Some(name) => step_mode_named(name),
            None => None,
        }
    } else {
        None
    }
}

/// Compiles the pattern for paths to a step mode.
fn compile_step_mode_pattern() -> (pattern: PathCaptureExpr)
    ensures
        pattern@ == step_mode_pattern(),
{
    proof {
        reveal_strlit("wgpu::VertexStepMode::?");
        reveal_strlit("wgpu");
        reveal_strlit("VertexStepMode");
        let literals = seq!["wgpu"@, "VertexStepMode"@];
        assert(literals[0].len() == 4 && literals[1].len() == 14);
        lemma_compile_capture(literals);
        reveal_with_fuel(join_with, 3);
        assert("wgpu::VertexStepMode::?"@ =~= join_path(literals.push(capture_token())));
    }
    match PathCaptureExpr::parse("wgpu::VertexStepMode::?") {
        Ok(pattern) => pattern,
        Err(_) => vstd::pervasive::unreached(),
    }
}

impl StepMode {
    /// Reads a step mode from a path to it.
    pub fn try_from(path: &QualifiedName) -> (mode: Option<StepMode>)
        ensures
            mode == step_mode_of_path(path@),
    {
        match compile_step_mode_pattern().match_on(path) {
            Ok(Some(name)) => {
                if str_eq(name.as_str(), "Vertex") {
                    Some(StepMode::Vertex)
                } else if str_eq(name.as_str(), "Instance") {
                    Some(StepMode::Instance)
                } else {
                    None
                }
            },
            _ => None,
        }
    }
}

/// The state of a builder.
pub struct GeneratorView {
    pub target: Seq<char>,
    pub step_mode: StepMode,
    pub array_stride: Option<u64>,
    pub fields: Seq<VertexInfo>,
    pub recognizers: Seq<RecognizerView>,
}

/// The builder after an attribute of the type: `array_stride` sets the
/// stride, `step_mode` the step mode, any other name changes nothing.
pub open spec fn configure(state: GeneratorView, attr: AttributeView) -> Result<
    GeneratorView,
    AttributeError,
> {
    if attr.is_named("array_stride"@) {
        match attr.value {
            ValueView::Int(stride) => Ok(GeneratorView { array_stride: Some(stride), ..state }),
            _ => Err(AttributeError::InvalidLiteral),
        }
    } else if attr.is_named("step_mode"@) {
        match attr.value {
            ValueView::Path(path) => match step_mode_of_path(path) {
                Some(mode) => Ok(GeneratorView { step_mode: mode, ..state }),
                None => Err(AttributeError::InvalidStepMode),
            },
            _ => Err(AttributeError::InvalidLiteral),
        }
    } else {
        Ok(state)
    }
}

/// Whether a field uses the shader location `location`.
pub open spec fn location_used(fields: Seq<VertexInfo>, location: nat) -> bool {
    exists|i: int| 0 <= i < fields.len() && (#[trigger] fields[i]).shader_location == location
}

/// The first location from `from` on that no field uses. With `n` fields
/// the search ends at `n` at the latest.
pub open spec fn free_location_from(fields: Seq<VertexInfo>, from: nat) -> nat
    decreases fields.len() - from,
{
    if from < fields.len() && location_used(fields, from) {
        free_location_from(fields, from + 1)
    } else {
        from
    }
}

/// The shader location that the next field gets unless it asks for
/// another: the least that no field so far uses.
pub open spec fn next_free_location(fields: Seq<VertexInfo>) -> nat {
    free_location_from(fields, 0)
}

/// The offset that the next field gets unless it asks for another: behind
/// the field before it, or 0 for the first.
pub open spec fn next_offset(fields: Seq<VertexInfo>) -> nat {
    if fields.len() == 0 {
        0
    } else {
        (fields.last().offset + fields.last().format.spec_size()) as nat
    }
}

/// Fields that take every location below their number leave that number
/// free.
proof fn lemma_all_taken_leaves_next(fields: Seq<VertexInfo>)
    requires
        forall|k: nat| k < fields.len() ==> location_used(fields, k),
    ensures
        !location_used(fields, fields.len()),
{
    let n = fields.len() as int;
    if location_used(fields, fields.len()) {
        let taken = fields.map_values(|f: VertexInfo| f.shader_location as int);
        let range = set_int_range(0, n + 1);
        assert forall|x: int| range.contains(x) implies taken.to_set().contains(x) by {
            assert(location_used(fields, x as nat));
            let i = choose|i: int|
                0 <= i < fields.len() && (#[trigger] fields[i]).shader_location == x as nat;
            assert(taken[i] == x);
        }
        seq_to_set_is_finite(taken);
        lemma_len_subset(range, taken.to_set());
        lemma_int_range(0, n + 1);
        taken.lemma_cardinality_of_set();
    }
}

/// The search from `from` finds the least free location, given that every
/// location below `from` is taken.
proof fn lemma_free_location_from(fields: Seq<VertexInfo>, from: nat)
    requires
        from <= fields.len(),
        forall|k: nat| k < from ==> location_used(fields, k),
    ensures
        !location_used(fields, free_location_from(fields, from)),
        forall|k: nat| k < free_location_from(fields, from) ==> location_used(fields, k),
        free_location_from(fields, from) <= fields.len(),
    decreases fields.len() - from,
{
    if from < fields.len() && location_used(fields, from) {
        lemma_free_location_from(fields, from + 1);
    } else if from == fields.len() {
        lemma_all_taken_leaves_next(fields);
    }
}

/// The next free location is the least natural number that no field uses,
/// and is at most the number of fields.
pub proof fn lemma_next_free_location(fields: Seq<VertexInfo>)
    ensures
        !location_used(fields, next_free_location(fields)),
        forall|k: nat| k < next_free_location(fields) ==> location_used(fields, k),
        next_free_location(fields) <= fields.len(),
{
    lemma_free_location_from(fields, 0);
}

/// A field while its attributes are read. An offset or a location of
/// `None` stands for a default that is too large for its type.
#[derive(Debug, Clone, Copy, PartialEq, Eq, Structural)]
pub struct FieldDraft {
    pub format: VertexFormat,
    pub offset: Option<u64>,
    pub shader_location: Option<u32>,
    pub normalized: bool,
}

/// What a field starts from: the format of its type, the offset behind
/// the field before it, the next free shader location, not normalized.
pub open spec fn initial_draft(fields: Seq<VertexInfo>, format: VertexFormat) -> FieldDraft {
    FieldDraft {
        format,
        offset: if next_offset(fields) <= u64::MAX {
            Some(next_offset(fields) as u64)
        } else {
            None
        },
        shader_location: if next_free_location(fields) <= u32::MAX {
            Some(next_free_location(fields) as u32)
        } else {
            None
        },
        normalized: false,
    }
}

/// The draft after one attribute of the field. `format`, `offset`,
/// `shader_location` and `norm` (or `normalized`) each replace what the
/// draft held; any other name changes nothing.
pub open spec fn apply_attribute(draft: FieldDraft, attr: AttributeView) -> Result<
    FieldDraft,
    AttributeError,
> {
    if attr.is_named("format"@) {
        match attr.value {
            ValueView::Path(path) => match format_of_path(path) {
                Some(format) => Ok(FieldDraft { format, ..draft }),
                None => Err(AttributeError::UnknownFormatName),
            },
            _ => Err(AttributeError::InvalidLiteral),
        }
    } else if attr.is_named("offset"@) {
        match attr.value {
            ValueView::Int(offset) => Ok(FieldDraft { offset: Some(offset), ..draft }),
            _ => Err(AttributeError::InvalidLiteral),
        }
    } else if attr.is_named("shader_location"@) {
        match attr.value {
            ValueView::Int(location) => if location <= u32::MAX {
                Ok(FieldDraft { shader_location: Some(location as u32), ..draft })
            } else {
                Err(AttributeError::InvalidLiteral)
            },
            _ => Err(AttributeError::InvalidLiteral),
        }
    } else if attr.is_named("norm"@) || attr.is_named("normalized"@) {
        match attr.value {
            ValueView::Empty => Ok(FieldDraft { normalized: true, ..draft }),
            ValueView::Bool(normalized) => Ok(FieldDraft { normalized, ..draft }),
            _ => Err(AttributeError::InvalidLiteral),
        }
    } else {
        Ok(draft)
    }
}

/// The draft after the attributes of the field, taken in the order in
/// which they are written. The first that fails ends it.
pub open spec fn apply_attributes(draft: FieldDraft, attrs: Seq<AttributeView>) -> Result<
    FieldDraft,
    AttributeError,
>
    decreases attrs.len(),
{
    if attrs.len() == 0 {
        Ok(draft)
    } else {
        match apply_attribute(draft, attrs[0]) {
            Ok(next) => apply_attributes(next, attrs.drop_first()),
            Err(e) => Err(e),
        }
    }
}

/// What the builder makes of a field: the format of its type, then its
/// attributes, then the check that offset and location fit their types.
pub open spec fn resolve_field(state: GeneratorView, field: FieldView) -> Result<
    VertexInfo,
    VertexDataErrorView,
> {
    match classify(field.ty, state.recognizers) {
        Err(e) => Err(VertexDataErrorView::Field(e)),
        Ok(format) => match apply_attributes(initial_draft(state.fields, format), field.attrs) {
            Err(e) => Err(VertexDataErrorView::Attribute(e)),
            Ok(draft) => match (draft.offset, draft.shader_location) {
                (Some(offset), Some(shader_location)) => Ok(
                    VertexInfo {
                        format: draft.format,
                        offset,
                        shader_location,
                        normalized: draft.normalized,
                    },
                ),
                _ => Err(VertexDataErrorView::Layout(LayoutError::Overflow)),
            },
        },
    }
}

/// The format that a field has in the finished layout: the normalized
/// counterpart where the field is marked as normalized.
pub open spec fn finished_format(info: VertexInfo) -> Result<VertexFormat, LayoutError> {
    if info.normalized {
        match info.format.spec_to_norm() {
            Some(format) => Ok(format),
            None => Err(LayoutError::CannotNormalize(info.format)),
        }
    } else {
        Ok(info.format)
    }
}

/// The attributes of the finished layout and the sum of their sizes. The
/// first field, in order, that cannot be normalized or that takes the sum
/// above `u64::MAX` ends it.
pub open spec fn finish_fields(fields: Seq<VertexInfo>) -> Result<
    (Seq<VertexAttribute>, nat),
    LayoutError,
>
    decreases fields.len(),
{
    if fields.len() == 0 {
        Ok((Seq::empty(), 0nat))
    } else {
        match finish_fields(fields.drop_last()) {
            Err(e) => Err(e),
            Ok((attributes, total)) => match finished_format(fields.last()) {
                Err(e) => Err(e),
                Ok(format) => if total + fields.last().format.spec_size() > u64::MAX {
                    Err(LayoutError::Overflow)
                } else {
                    Ok(
                        (
                            attributes.push(
                                VertexAttribute {
                                    offset: fields.last().offset,
                                    shader_location: fields.last().shader_location,
                                    format,
                                },
                            ),
                            (total + fields.last().format.spec_size()) as nat,
                        ),
                    )
                },
            },
        }
    }
}

/// The finished layout of a builder for a type of `target_size` bytes.
pub open spec fn finish(state: GeneratorView, target_size: u64) -> Result<LayoutView, LayoutError> {
    match finish_fields(state.fields) {
        Err(e) => Err(e),
        Ok((attributes, total)) => Ok(
            LayoutView {
                stride: match state.array_stride {
                    Some(stride) => stride,
                    None => target_size,
                },
                step_mode: state.step_mode,
                attributes,
                total_size: total as u64,
            },
        ),
    }
}

/// The builder after the attributes of the type, taken in order. The first
/// that fails ends it.
pub open spec fn configure_all(state: GeneratorView, attrs: Seq<AttributeView>) -> Result<
    GeneratorView,
    AttributeError,
>
    decreases attrs.len(),
{
    if attrs.len() == 0 {
        Ok(state)
    } else {
        match configure(state, attrs[0]) {
            Ok(next) => configure_all(next, attrs.drop_first()),
            Err(e) => Err(e),
        }
    }
}

/// The builder after one more field.
pub open spec fn add_field(state: GeneratorView, field: FieldView) -> Result<
    GeneratorView,
    VertexDataErrorView,
> {
    match resolve_field(state, field) {
        Ok(info) => Ok(GeneratorView { fields: state.fields.push(info), ..state }),
        Err(e) => Err(e),
    }
}

/// The builder after the fields of the type, taken in order. The first
/// that fails ends it.
pub open spec fn add_fields(state: GeneratorView, fields: Seq<FieldView>) -> Result<
    GeneratorView,
    VertexDataErrorView,
>
    decreases fields.len(),
{
    if fields.len() == 0 {
        Ok(state)
    } else {
        match add_field(state, fields[0]) {
            Ok(next) => add_fields(next, fields.drop_first()),
            Err(e) => Err(e),
        }
    }
}

/// A builder that has taken nothing yet.
pub open spec fn fresh(target: Seq<char>, recognizers: Seq<RecognizerView>) -> GeneratorView {
    GeneratorView {
        target,
        step_mode: StepMode::Vertex,
        array_stride: None,
        fields: Seq::empty(),
        recognizers,
    }
}

/// The layout of a type: its attributes configure a fresh builder, its
/// fields are taken in order, and the layout is finished with the type's
/// size. The first step that fails gives the error; there is no layout then.
pub open spec fn build(input: SchemaView, recognizers: Seq<RecognizerView>) -> Result<
    LayoutView,
    VertexDataErrorView,
> {
    match configure_all(fresh(input.name, recognizers), input.attrs) {
        Err(e) => Err(VertexDataErrorView::Attribute(e)),
        Ok(configured) => match add_fields(configured, input.fields) {
            Err(e) => Err(e),
            Ok(filled) => match finish(filled, input.size) {
                Err(e) => Err(VertexDataErrorView::Layout(e)),
                Ok(layout) => Ok(layout),
            },
        },
    }
}

/// Builds the layout of one type.
#[derive(Debug)]
pub struct CodeGenerator {
    target: String,
    step_mode: StepMode,
    array_stride: Option<u64>,
    fields: Vec<VertexInfo>,
    recognizers: Vec<Recognizer>,
}

impl View for CodeGenerator {
    type V = GeneratorView;

    closed spec fn view(&self) -> GeneratorView {
        GeneratorView {
            target: self.target@,
            step_mode: self.step_mode,
            array_stride: self.array_stride,
            fields: self.fields@,
            recognizers: recognizer_views(self.recognizers@),
        }
    }
}

impl CodeGenerator {
    /// A builder for the type named `target`, which recognizes the types
    /// of other libraries with `recognizers`. It has no field yet, steps
    /// per vertex, and takes its stride from the type's size.
    pub fn new(target: String, recognizers: Vec<Recognizer>) -> (generator: Self)
        ensures
            generator@ == fresh(target@, recognizer_views(recognizers@)),
    {
        CodeGenerator {
            target,
            step_mode: StepMode::Vertex,
            array_stride: None,
            fields: Vec::new(),
            recognizers,
        }
    }

    /// The name of the type.
    pub fn target(&self) -> (target: &String)
        ensures
            target@ == self@.target,
    {
        &self.target
    }

    /// The step mode that the layout will have.
    pub fn step_mode(&self) -> (mode: StepMode)
        ensures
            mode == self@.step_mode,
    {
        self.step_mode
    }

    /// The stride that an attribute has set, if one has.
    pub fn array_stride(&self) -> (stride: Option<u64>)
        ensures
            stride == self@.array_stride,
    {
        self.array_stride
    }

    /// The fields taken so far, in order.
    pub fn fields(&self) -> (fields: &Vec<VertexInfo>)
        ensures
            fields@ == self@.fields,
    {
        &self.fields
    }

    /// Takes an attribute written on the type.
    pub fn with_attribute(&mut self, a: &Attribute) -> (r: Result<(), AttributeError>)
        ensures
            match r {
                Ok(_) => configure(old(self)@, a@) == Ok::<GeneratorView, AttributeError>(
                    final(self)@,
                ),
                Err(e) => configure(old(self)@, a@) == Err::<GeneratorView, AttributeError>(e)
                    && final(self)@ == old(self)@,
            },
    {
        if a.is_named("array_stride") {
            match &a.value {
                AttributeValue::Int(stride) => {
                    self.array_stride = Some(*stride);
                    Ok(())
                },
                _ => Err(AttributeError::InvalidLiteral),
            }
        } else if a.is_named("step_mode") {
            match &a.value {
                AttributeValue::Path(path) => match StepMode::try_from(path) {
                    Some(mode) => {
                        self.step_mode = mode;
                        Ok(())
                    },
                    None => Err(AttributeError::InvalidStepMode),
                },
                _ => Err(AttributeError::InvalidLiteral),
            }
        } else {
            Ok(())
        }
    }

    /// The shader location that the next field gets unless it asks for
    /// another: the least that no field so far uses.
    pub fn next_free_shader_location(&self) -> (location: usize)
        ensures
            location == next_free_location(self@.fields),
            !location_used(self@.fields, location as nat),
            forall|k: nat| k < location ==> location_used(self@.fields, k),
    {
        proof {
            lemma_next_free_location(self@.fields);
        }
        let count: usize = self.fields.len();
        let mut candidate: usize = 0;
        while candidate < count
            invariant
                candidate <= count,
                count == self.fields.len(),
                next_free_location(self@.fields) == free_location_from(
                    self@.fields,
                    candidate as nat,
                ),
            decreases count - candidate,
        {
            let mut used: bool = false;
            let mut i: usize = 0;
            while i < count
                invariant
                    i <= count,
                    count == self.fields.len(),
                    used <==> exists|j: int|
                        0 <= j < i && (#[trigger] self.fields@[j]).shader_location == candidate,
                decreases count - i,
            {
                if self.fields[i].shader_location as u64 == candidate as u64 {
                    used = true;
                }
                i += 1;
            }
            if !used {
                proof {
                    lemma_next_free_location(self@.fields);
                }
                return candidate;
            }
            candidate += 1;
        }
        candidate
    }

    /// Reads one attribute of a field into the draft of the field.
    pub fn apply_attribute(draft: FieldDraft, a: &Attribute) -> (r: Result<
        FieldDraft,
        AttributeError,
    >)
        ensures
            r == apply_attribute(draft, a@),
    {
        if a.is_named("format") {
            match &a.value {
                AttributeValue::Path(path) => match VertexFormat::try_from(path) {
                    Ok(format) => Ok(FieldDraft { format, ..draft }),
                    Err(_) => Err(AttributeError::UnknownFormatName),
                },
                _ => Err(AttributeError::InvalidLiteral),
            }
        } else if a.is_named("offset") {
            match &a.value {
                AttributeValue::Int(offset) => Ok(FieldDraft { offset: Some(*offset), ..draft }),
                _ => Err(AttributeError::InvalidLiteral),
            }
        } else if a.is_named("shader_location") {
            match &a.value {
                AttributeValue::Int(location) => {
                    if *location <= u32::MAX as u64 {
                        Ok(FieldDraft { shader_location: Some(*location as u32), ..draft })
                    } else {
                        Err(AttributeError::InvalidLiteral)
                    }
                },
                _ => Err(AttributeError::InvalidLiteral),
            }
        } else if a.is_named("norm") || a.is_named("normalized") {
            match &a.value {
                AttributeValue::Empty => Ok(FieldDraft { normalized: true, ..draft }),
                AttributeValue::Bool(normalized) => Ok(
                    FieldDraft { normalized: *normalized, ..draft },
                ),
                _ => Err(AttributeError::InvalidLiteral),
            }
        } else {
            Ok(draft)
        }
    }

    /// Takes the next field of the type.
    #[verifier::loop_isolation(false)]
    pub fn with_field(&mut self, f: &Field) -> (r: Result<(), VertexDataError>)
        ensures
            match r {
                Ok(_) => add_field(old(self)@, f@) == Ok::<GeneratorView, VertexDataErrorView>(
                    final(self)@,
                ),
                Err(e) => add_field(old(self)@, f@) == Err::<GeneratorView, VertexDataErrorView>(
                    e@,
                ) && final(self)@ == old(self)@,
            },
    {
        let format = match VertexFormat::parse_type(&f.ty, &self.recognizers) {
            Ok(format) => format,
            Err(e) => {
                return Err(VertexDataError::Field(e));
            },
        };
        let count: usize = self.fields.len();
        let offset: Option<u64> = if count == 0 {
            Some(0)
        } else {
            let last = self.fields[count - 1];
            last.offset.checked_add(last.format.size() as u64)
        };
        let free: usize = self.next_free_shader_location();
        let shader_location: Option<u32> = if free as u64 <= u32::MAX as u64 {
            Some(free as u32)
        } else {
            None
        };
        let ghost start = initial_draft(self@.fields, format);
        let ghost attrs = attribute_views(f.attrs@);
        let mut draft = FieldDraft { format, offset, shader_location, normalized: false };
        assert(draft == start);
        assert(attrs.skip(0) =~= attrs);
        let mut i: usize = 0;
        while i < f.attrs.len()
            invariant
                i <= f.attrs.len(),
                attrs == attribute_views(f.attrs@),
                apply_attributes(start, attrs) == apply_attributes(draft, attrs.skip(i as int)),
            decreases f.attrs.len() - i,
        {
            proof {
                let rest = attrs.skip(i as int);
                assert(rest[0] == f.attrs@[i as int]@);
                assert(rest.drop_first() =~= attrs.skip(i + 1));
            }
            match Self::apply_attribute(draft, &f.attrs[i]) {
                Ok(next) => {
                    draft = next;
                },
                Err(e) => {
                    return Err(VertexDataError::Attribute(e));
                },
            }
            i += 1;
        }
        match (draft.offset, draft.shader_location) {
            (Some(offset), Some(shader_location)) => {
                self.fields.push(
                    VertexInfo {
                        format: draft.format,
                        offset,
                        shader_location,
                        normalized: draft.normalized,
                    },
                );
                Ok(())
            },
            _ => Err(VertexDataError::Layout(LayoutError::Overflow)),
        }
    }

    /// Finishes the layout for a type that takes `target_size` bytes in
    /// memory. The builder stays as it is.
    #[verifier::loop_isolation(false)]
    pub fn generate_token_stream(&self, target_size: u64) -> (r: Result<
        LayoutDescriptor,
        LayoutError,
    >)
        ensures
            match r {
                Ok(layout) => finish(self@, target_size) == Ok::<LayoutView, LayoutError>(layout@),
                Err(e) => finish(self@, target_size) == Err::<LayoutView, LayoutError>(e),
            },
    {
        let mut attributes: Vec<VertexAttribute> = Vec::new();
        let mut total_size: u64 = 0;
        let mut i: usize = 0;
        assert(self.fields@.take(0) =~= Seq::<VertexInfo>::empty());
        while i < self.fields.len()
            invariant
                i <= self.fields.len(),
                finish_fields(self.fields@.take(i as int)) == Ok::<
                    (Seq<VertexAttribute>, nat),
                    LayoutError,
                >((attributes@, total_size as nat)),
            decreases self.fields.len() - i,
        {
            let info = self.fields[i];
            proof {
                let next = self.fields@.take(i + 1);
                assert(next.drop_last() =~= self.fields@.take(i as int));
                assert(next.last() == info);
                if finish_fields(next) is Err {
                    lemma_finish_fields_error(self.fields@, i + 1);
                }
            }
            let format = if info.normalized {
                match info.format.to_norm() {
                    Some(format) => format,
                    None => {
                        return Err(LayoutError::CannotNormalize(info.format));
                    },
                }
            } else {
                info.format
            };
            total_size = match total_size.checked_add(info.format.size() as u64) {
                Some(total) => total,
                None => {
                    return Err(LayoutError::Overflow);
                },
            };
            attributes.push(
                VertexAttribute {
                    offset: info.offset,
                    shader_location: info.shader_location,
                    format,
                },
            );
            i += 1;
        }
        assert(self.fields@.take(i as int) =~= self.fields@);
        let stride: u64 = match self.array_stride {
            Some(stride) => stride,
            None => target_size,
        };
        Ok(LayoutDescriptor { stride, step_mode: self.step_mode, attributes, total_size })
    }
}

/// A field list that has a prefix which cannot be finished cannot be
/// finished either, and fails in the same way.
pub proof fn lemma_finish_fields_error(fields: Seq<VertexInfo>, n: int)
    requires
        0 <= n <= fields.len(),
        finish_fields(fields.take(n)) is Err,
    ensures
        finish_fields(fields) == finish_fields(fields.take(n)),
    decreases fields.len() - n,
{
    if n < fields.len() {
        let next = fields.take(n + 1);
        assert(next.drop_last() =~= fields.take(n));
        lemma_finish_fields_error(fields, n + 1);
    } else {
        assert(fields.take(n) =~= fields);
    }
}

/// Builds the layout of a type.
#[verifier::loop_isolation(false)]
pub fn process(input: &Schema, recognizers: Vec<Recognizer>) -> (r: Result<
    LayoutDescriptor,
    VertexDataError,
>)
    ensures
        match r {
            Ok(layout) => build(input@, recognizer_views(recognizers@)) == Ok::<
                LayoutView,
                VertexDataErrorView,
            >(layout@),
            Err(e) => build(input@, recognizer_views(recognizers@)) == Err::<
                LayoutView,
                VertexDataErrorView,
            >(e@),
        },
{
    let mut generator = CodeGenerator::new(input.name.clone(), recognizers);
    let ghost start = generator@;
    let ghost attrs = attribute_views(input.attrs@);
    assert(attrs.skip(0) =~= attrs);
    let mut i: usize = 0;
    while i < input.attrs.len()
        invariant
            i <= input.attrs.len(),
            configure_all(start, attrs) == configure_all(generator@, attrs.skip(i as int)),
        decreases input.attrs.len() - i,
    {
        proof {
            let rest = attrs.skip(i as int);
            assert(rest[0] == input.attrs@[i as int]@);
            assert(rest.drop_first() =~= attrs.skip(i + 1));
        }
        match generator.with_attribute(&input.attrs[i]) {
            Ok(_) => {},
            Err(e) => {
                return Err(VertexDataError::Attribute(e));
            },
        }
        i += 1;
    }
    let ghost configured = generator@;
    let ghost fields = field_views(input.fields@);
    assert(fields.skip(0) =~= fields);
    let mut j: usize = 0;
    while j < input.fields.len()
        invariant
            j <= input.fields.len(),
            add_fields(configured, fields) == add_fields(generator@, fields.skip(j as int)),
        decreases input.fields.len() - j,
    {
        proof {
            let rest = fields.skip(j as int);
            assert(rest[0] == input.fields@[j as int]@);
            assert(rest.drop_first() =~= fields.skip(j + 1));
        }
        match generator.with_field(&input.fields[j]) {
            Ok(_) => {},
            Err(e) => {
                return Err(e);
            },
        }
        j += 1;
    }
    match generator.generate_token_stream(input.size) {
        Ok(layout) => Ok(layout),
        Err(e) => Err(VertexDataError::Layout(e)),
    }
}

} // verus!
