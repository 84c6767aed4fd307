//! What the builder guarantees of the layouts it finishes, and of fields
//! that ask for nothing of their own: they lie one behind the other and
//! take the shader locations 0, 1, 2, ... in order.

use vstd::prelude::*;
use crate::classify::{classify, recognizer_views, Recognizer, RecognizerView};
use crate::schema::{AttributeView, FieldView, Schema, SchemaView};
use crate::vertex_data::{
    add_field, add_fields, apply_attributes, build, configure, configure_all, finish_fields,
    finished_format, fresh, initial_draft, lemma_next_free_location, location_used,
    next_free_location, next_offset, resolve_field, FieldDraft, GeneratorView, VertexAttribute,
    VertexInfo,
};

verus! {

/// Whether the builder reads the attribute when it stands on a field.
pub open spec fn overrides(attr: AttributeView) -> bool {
    ||| attr.is_named("format"@)
    ||| attr.is_named("offset"@)
    ||| attr.is_named("shader_location"@)
    ||| attr.is_named("norm"@)
    ||| attr.is_named("normalized"@)
}

/// A field none of whose attributes the builder reads.
pub open spec fn is_plain(field: FieldView) -> bool {
    forall|i: int| 0 <= i < field.attrs.len() ==> !overrides(#[trigger] field.attrs[i])
}

/// The sum of the sizes of the fields' formats.
pub open spec fn total_size(fields: Seq<VertexInfo>) -> nat
    decreases fields.len(),
{
    if fields.len() == 0 {
        0
    } else {
        total_size(fields.drop_last()) + fields.last().format.spec_size() as nat
    }
}

/// Each field starts where the fields before it end.
pub open spec fn packed(fields: Seq<VertexInfo>) -> bool {
    forall|i: int|
        0 <= i < fields.len() ==> (#[trigger] fields[i]).offset == total_size(fields.take(i))
}

/// Each field has its position as its shader location.
pub open spec fn numbered(fields: Seq<VertexInfo>) -> bool {
    forall|i: int| 0 <= i < fields.len() ==> (#[trigger] fields[i]).shader_location == i
}

/// Attributes that the builder does not read leave a draft as it is.
pub proof fn lemma_plain_attributes(draft: FieldDraft, attrs: Seq<AttributeView>)
    requires
        forall|i: int| 0 <= i < attrs.len() ==> !overrides(#[trigger] attrs[i]),
    ensures
        apply_attributes(draft, attrs) == Ok::<FieldDraft, crate::error::AttributeError>(draft),
    decreases attrs.len(),
{
    if attrs.len() > 0 {
        assert(!overrides(attrs[0]));
        let rest = attrs.drop_first();
        assert forall|i: int| 0 <= i < rest.len() implies !overrides(#[trigger] rest[i]) by {
            assert(rest[i] == attrs[i + 1]);
        }
        lemma_plain_attributes(draft, rest);
    }
}

/// Behind numbered fields the next free location is their number.
pub proof fn lemma_numbered_next_location(fields: Seq<VertexInfo>)
    requires
        numbered(fields),
    ensures
        next_free_location(fields) == fields.len(),
{
    lemma_next_free_location(fields);
    let free = next_free_location(fields);
    if free < fields.len() {
        assert(fields[free as int].shader_location == free);
        assert(location_used(fields, free));
    }
}

/// Behind packed fields the next offset is the sum of their sizes.
pub proof fn lemma_packed_next_offset(fields: Seq<VertexInfo>)
    requires
        packed(fields),
    ensures
        next_offset(fields) == total_size(fields),
{
    if fields.len() > 0 {
        let last = fields.len() - 1;
        assert(fields[last].offset == total_size(fields.take(last)));
        assert(fields.take(last) =~= fields.drop_last());
    }
}

/// A plain field that is added to packed and numbered fields keeps them so.
/// It gets the format of its type and is not normalized.
pub proof fn lemma_add_plain_field(state: GeneratorView, field: FieldView)
    requires
        packed(state.fields),
        numbered(state.fields),
        is_plain(field),
        add_field(state, field) is Ok,
    ensures
        ({
            let next = add_field(state, field)->Ok_0;
            &&& next == GeneratorView { fields: next.fields, ..state }
            &&& next.fields.len() == state.fields.len() + 1
            &&& next.fields.drop_last() == state.fields
            &&& packed(next.fields)
            &&& numbered(next.fields)
            &&& classify(field.ty, state.recognizers) == Ok::<
                crate::format::VertexFormat,
                crate::types::FieldErrorView,
            >(next.fields.last().format)
            &&& !next.fields.last().normalized
        }),
{
    let format = classify(field.ty, state.recognizers)->Ok_0;
    let draft = initial_draft(state.fields, format);
    lemma_plain_attributes(draft, field.attrs);
    lemma_numbered_next_location(state.fields);
    lemma_packed_next_offset(state.fields);
    let next = add_field(state, field)->Ok_0;
    let info = resolve_field(state, field)->Ok_0;
    assert(next.fields == state.fields.push(info));
    assert(next.fields.drop_last() =~= state.fields);
    assert forall|i: int| 0 <= i < next.fields.len() implies (#[trigger] next.fields[i]).offset
        == total_size(next.fields.take(i)) by {
        if i < state.fields.len() {
            assert(next.fields.take(i) =~= state.fields.take(i));
        } else {
            assert(next.fields.take(i) =~= state.fields);
        }
    }
}

/// The fields, one for one, have the formats of the declared types and are
/// not normalized.
pub open spec fn follow_types(
    infos: Seq<VertexInfo>,
    fields: Seq<FieldView>,
    recognizers: Seq<RecognizerView>,
) -> bool {
    &&& infos.len() == fields.len()
    &&& forall|i: int|
        0 <= i < fields.len() ==> {
            &&& !(#[trigger] infos[i]).normalized
            &&& classify(fields[i].ty, recognizers) == Ok::<
                crate::format::VertexFormat,
                crate::types::FieldErrorView,
            >(infos[i].format)
        }
}

/// Plain fields that are added to packed and numbered fields keep them so,
/// each with the format of its type and none normalized.
pub proof fn lemma_add_plain_fields(state: GeneratorView, fields: Seq<FieldView>)
    requires
        packed(state.fields),
        numbered(state.fields),
        forall|i: int| 0 <= i < fields.len() ==> is_plain(#[trigger] fields[i]),
        add_fields(state, fields) is Ok,
    ensures
        ({
            let end = add_fields(state, fields)->Ok_0;
            &&& end == GeneratorView { fields: end.fields, ..state }
            &&& end.fields.len() == state.fields.len() + fields.len()
            &&& end.fields.take(state.fields.len() as int) == state.fields
            &&& packed(end.fields)
            &&& numbered(end.fields)
            &&& follow_types(end.fields.skip(state.fields.len() as int), fields, state.recognizers)
        }),
    decreases fields.len(),
{
    let n = state.fields.len() as int;
    if fields.len() == 0 {
        assert(state.fields.take(n) =~= state.fields);
    } else {
        let rest = fields.drop_first();
        assert(is_plain(fields[0]));
        lemma_add_plain_field(state, fields[0]);
        let next = add_field(state, fields[0])->Ok_0;
        assert forall|i: int| 0 <= i < rest.len() implies is_plain(#[trigger] rest[i]) by {
            assert(rest[i] == fields[i + 1]);
        }
        assert(add_fields(state, fields) == add_fields(next, rest));
        lemma_add_plain_fields(next, rest);
        let end = add_fields(next, rest)->Ok_0;
        lemma_follow_types_step(state, fields, next, end);
    }
}

/// The step of [`lemma_add_plain_fields`]: what holds of the fields behind
/// the first new one holds of all new ones.
proof fn lemma_follow_types_step(
    state: GeneratorView,
    fields: Seq<FieldView>,
    next: GeneratorView,
    end: GeneratorView,
)
    requires
        fields.len() > 0,
        next.fields.len() == state.fields.len() + 1,
        next.fields.drop_last() == state.fields,
        next.recognizers == state.recognizers,
        !next.fields.last().normalized,
        classify(fields[0].ty, state.recognizers) == Ok::<
            crate::format::VertexFormat,
            crate::types::FieldErrorView,
        >(next.fields.last().format),
        end.fields.len() == next.fields.len() + fields.len() - 1,
        end.fields.take(next.fields.len() as int) == next.fields,
        follow_types(
            end.fields.skip(next.fields.len() as int),
            fields.drop_first(),
            next.recognizers,
        ),
    ensures
        end.fields.take(state.fields.len() as int) == state.fields,
        follow_types(end.fields.skip(state.fields.len() as int), fields, state.recognizers),
{
    let n = state.fields.len() as int;
    let rest = fields.drop_first();
    let new = end.fields.skip(n);
    let later = end.fields.skip(n + 1);
    assert(end.fields.take(n) =~= end.fields.take(n + 1).drop_last());
    assert(end.fields.take(n + 1)[n] == end.fields[n]);
    assert(new[0] == next.fields.last());
    assert forall|i: int| 0 <= i < fields.len() implies {
        &&& !(#[trigger] new[i]).normalized
        &&& classify(fields[i].ty, state.recognizers) == Ok::<
            crate::format::VertexFormat,
            crate::types::FieldErrorView,
        >(new[i].format)
    } by {
        if i > 0 {
            assert(new[i] == later[i - 1]);
            assert(rest[i - 1] == fields[i]);
        }
    }
}

/// The attributes written on the type do not touch the fields or the
/// recognizers of a builder.
pub proof fn lemma_configure_keeps_fields(state: GeneratorView, attrs: Seq<AttributeView>)
    requires
        configure_all(state, attrs) is Ok,
    ensures
        configure_all(state, attrs)->Ok_0.fields == state.fields,
        configure_all(state, attrs)->Ok_0.recognizers == state.recognizers,
    decreases attrs.len(),
{
    if attrs.len() > 0 {
        lemma_configure_keeps_fields(configure(state, attrs[0])->Ok_0, attrs.drop_first());
    }
}

/// A finished layout has one attribute per field, in order, with the
/// field's offset and location and its finished format, and its total size
/// is the sum of the sizes.
pub proof fn lemma_finish_fields(fields: Seq<VertexInfo>)
    requires
        finish_fields(fields) is Ok,
    ensures
        ({
            let (attributes, total) = finish_fields(fields)->Ok_0;
            &&& attributes.len() == fields.len()
            &&& total == total_size(fields)
            &&& total <= u64::MAX
            &&& forall|i: int|
                0 <= i < fields.len() ==> {
                    &&& finished_format(fields[i]) is Ok
                    &&& #[trigger] attributes[i] == VertexAttribute {
                        offset: fields[i].offset,
                        shader_location: fields[i].shader_location,
                        format: finished_format(fields[i])->Ok_0,
                    }
                }
        }),
    decreases fields.len(),
{
    if fields.len() > 0 {
        lemma_finish_fields(fields.drop_last());
    }
}

/// The total size of a finished layout is the sum of the sizes of its
/// attributes' formats: a normalized format takes the bytes of the format
/// it stands for.
pub proof fn lemma_finish_total(fields: Seq<VertexInfo>)
    requires
        finish_fields(fields) is Ok,
    ensures
        finish_fields(fields)->Ok_0.1 == attribute_bytes(finish_fields(fields)->Ok_0.0),
{
    lemma_finish_fields(fields);
    let (attributes, total) = finish_fields(fields)->Ok_0;
    assert forall|i: int| 0 <= i < fields.len() implies (#[trigger] attributes[i]).format.spec_size()
        == fields[i].format.spec_size() by {
        if fields[i].normalized {
            crate::format::lemma_norm_keeps_size(fields[i].format);
        }
    }
    lemma_attribute_bytes(fields, attributes);
}

/// The layout of a type whose fields are all plain: the fields lie one
/// behind the other from offset 0 on, take the shader locations 0, 1, 2,
/// ... in order, and keep the formats of their types.
pub proof fn lemma_build_plain(input: SchemaView, recognizers: Seq<RecognizerView>)
    requires
        forall|i: int| 0 <= i < input.fields.len() ==> is_plain(#[trigger] input.fields[i]),
        build(input, recognizers) is Ok,
    ensures
        ({
            let layout = build(input, recognizers)->Ok_0;
            &&& layout.attributes.len() == input.fields.len()
            &&& forall|i: int|
                0 <= i < input.fields.len() ==> {
                    let attribute = #[trigger] layout.attributes[i];
                    &&& attribute.shader_location == i
                    &&& classify(input.fields[i].ty, recognizers) == Ok::<
                        crate::format::VertexFormat,
                        crate::types::FieldErrorView,
                    >(attribute.format)
                    &&& attribute.offset == attribute_bytes(layout.attributes.take(i))
                }
            &&& layout.total_size == attribute_bytes(layout.attributes)
        }),
{
    let start = fresh(input.name, recognizers);
    lemma_configure_keeps_fields(start, input.attrs);
    let configured = configure_all(start, input.attrs)->Ok_0;
    assert(configured.fields =~= Seq::<VertexInfo>::empty());
    lemma_add_plain_fields(configured, input.fields);
    let filled = add_fields(configured, input.fields)->Ok_0;
    lemma_finish_fields(filled.fields);
    let layout = build(input, recognizers)->Ok_0;
    let (attributes, total) = finish_fields(filled.fields)->Ok_0;
    assert(layout.attributes == attributes);
    assert forall|i: int| 0 <= i <= filled.fields.len() implies attribute_bytes(
        #[trigger] attributes.take(i),
    ) == total_size(filled.fields.take(i)) by {
        lemma_attribute_bytes(filled.fields.take(i), attributes.take(i));
    }
    assert(attributes.take(attributes.len() as int) =~= attributes);
    assert(filled.fields.take(filled.fields.len() as int) =~= filled.fields);
    assert forall|i: int| 0 <= i < input.fields.len() implies {
        let attribute = #[trigger] layout.attributes[i];
        &&& attribute.shader_location == i
        &&& classify(input.fields[i].ty, recognizers) == Ok::<
            crate::format::VertexFormat,
            crate::types::FieldErrorView,
        >(attribute.format)
        &&& attribute.offset == attribute_bytes(layout.attributes.take(i))
    } by {
        assert(filled.fields.skip(0) =~= filled.fields);
        let info = filled.fields[i];
        assert(!info.normalized);
        assert(attributes[i].format == info.format);
        assert(attribute_bytes(attributes.take(i)) == total_size(filled.fields.take(i)));
    }
}

/// The sum of the sizes of the attributes' formats.
pub open spec fn attribute_bytes(attributes: Seq<VertexAttribute>) -> nat
    decreases attributes.len(),
{
    if attributes.len() == 0 {
        0
    } else {
        attribute_bytes(attributes.drop_last()) + attributes.last().format.spec_size() as nat
    }
}

/// Attributes that have the sizes of the fields they come from take as
/// many bytes in all.
proof fn lemma_attribute_bytes(fields: Seq<VertexInfo>, attributes: Seq<VertexAttribute>)
    requires
        attributes.len() == fields.len(),
        forall|i: int|
            0 <= i < fields.len() ==> (#[trigger] attributes[i]).format.spec_size()
                == fields[i].format.spec_size(),
    ensures
        attribute_bytes(attributes) == total_size(fields),
    decreases fields.len(),
{
    if fields.len() > 0 {
        lemma_attribute_bytes(fields.drop_last(), attributes.drop_last());
    }
}

/// The layout depends on the content of the input alone: two inputs with
/// the same content, given to recognizers with the same content, end in
/// the same layout or in the same error.
pub proof fn lemma_build_repeats(
    first: Schema,
    second: Schema,
    first_recognizers: Seq<Recognizer>,
    second_recognizers: Seq<Recognizer>,
)
    requires
        first@ == second@,
        recognizer_views(first_recognizers) == recognizer_views(second_recognizers),
    ensures
        build(first@, recognizer_views(first_recognizers)) == build(
            second@,
            recognizer_views(second_recognizers),
        ),
{
}

} // verus!
