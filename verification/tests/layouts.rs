use vertex_layout::classify::Recognizer;
use vertex_layout::error::{AttributeError, LayoutError, VertexDataError};
use vertex_layout::format::VertexFormat;
use vertex_layout::path::QualifiedName;
use vertex_layout::schema::{Attribute, AttributeValue, Field, Schema};
use vertex_layout::types::{FieldError, TypeShape};
use vertex_layout::vertex_data::{
    process, CodeGenerator, FieldDraft, LayoutDescriptor, StepMode, VertexAttribute, VertexInfo,
};

fn path(segments: &[&str]) -> QualifiedName {
    QualifiedName { rooted: false, segments: segments.iter().map(|s| s.to_string()).collect() }
}

fn array(elem: &str, len: u64) -> TypeShape {
    TypeShape::Array { elem: Box::new(TypeShape::Path(path(&[elem]))), len: Some(len) }
}

fn attr(name: &str, value: AttributeValue) -> Attribute {
    Attribute { path: path(&[name]), value }
}

fn field(ty: TypeShape, attrs: Vec<Attribute>) -> Field {
    Field { ty, attrs }
}

fn schema(size: u64, attrs: Vec<Attribute>, fields: Vec<Field>) -> Schema {
    Schema { name: "Vertex".to_string(), size, attrs, fields }
}

fn format_path(name: &str) -> AttributeValue {
    AttributeValue::Path(path(&["wgpu", "VertexFormat", name]))
}

fn offsets(layout: &LayoutDescriptor) -> Vec<u64> {
    layout.attributes.iter().map(|a| a.offset).collect()
}

fn locations(layout: &LayoutDescriptor) -> Vec<u32> {
    layout.attributes.iter().map(|a| a.shader_location).collect()
}

#[test]
fn fields_are_packed_one_behind_the_other() {
    let input = schema(
        24,
        vec![],
        vec![
            field(array("f32", 3), vec![]),
            field(array("f32", 2), vec![]),
            field(array("u8", 2), vec![]),
        ],
    );
    let layout = process(&input, vec![]).unwrap();
    assert_eq!(offsets(&layout), vec![0, 12, 20]);
    assert_eq!(layout.total_size, 22);
    assert_eq!(layout.stride, 24);
    assert_eq!(layout.step_mode, StepMode::Vertex);
    assert_eq!(
        layout.attributes,
        vec![
            VertexAttribute { offset: 0, shader_location: 0, format: VertexFormat::Float32x3 },
            VertexAttribute { offset: 12, shader_location: 1, format: VertexFormat::Float32x2 },
            VertexAttribute { offset: 20, shader_location: 2, format: VertexFormat::Uint8x2 },
        ]
    );
}

#[test]
fn shader_locations_count_up_from_zero() {
    let input = schema(
        0,
        vec![],
        vec![
            field(array("f32", 3), vec![]),
            field(array("f32", 3), vec![]),
            field(array("f32", 3), vec![]),
        ],
    );
    assert_eq!(locations(&process(&input, vec![]).unwrap()), vec![0, 1, 2]);
}

#[test]
fn explicit_location_may_collide_with_an_earlier_default() {
    // The allocator looks at the fields so far and never ahead: the second
    // field asks for the location that the first already has, and the third
    // gets the first number that neither uses.
    let input = schema(
        0,
        vec![],
        vec![
            field(array("f32", 3), vec![]),
            field(array("f32", 3), vec![attr("shader_location", AttributeValue::Int(0))]),
            field(array("f32", 3), vec![]),
        ],
    );
    assert_eq!(locations(&process(&input, vec![]).unwrap()), vec![0, 0, 1]);
}

#[test]
fn default_location_fills_the_first_gap() {
    let input = schema(
        0,
        vec![],
        vec![
            field(array("f32", 1), vec![attr("shader_location", AttributeValue::Int(1))]),
            field(array("f32", 1), vec![]),
            field(array("f32", 1), vec![]),
            field(array("f32", 1), vec![attr("shader_location", AttributeValue::Int(7))]),
            field(array("f32", 1), vec![]),
        ],
    );
    assert_eq!(locations(&process(&input, vec![]).unwrap()), vec![1, 0, 2, 7, 3]);
}

#[test]
fn next_free_location_is_the_least_unused() {
    let mut generator = CodeGenerator::new("Vertex".to_string(), vec![]);
    assert_eq!(generator.next_free_shader_location(), 0);
    generator.with_field(&field(array("f32", 1), vec![])).unwrap();
    assert_eq!(generator.next_free_shader_location(), 1);
    generator
        .with_field(&field(array("f32", 1), vec![attr("shader_location", AttributeValue::Int(2))]))
        .unwrap();
    assert_eq!(generator.next_free_shader_location(), 1);
    generator.with_field(&field(array("f32", 1), vec![])).unwrap();
    assert_eq!(generator.next_free_shader_location(), 3);
}

#[test]
fn normalized_small_integers_take_their_counterpart() {
    let input = schema(
        2,
        vec![],
        vec![field(array("u8", 2), vec![attr("norm", AttributeValue::Empty)])],
    );
    let layout = process(&input, vec![]).unwrap();
    assert_eq!(layout.attributes[0].format, VertexFormat::Unorm8x2);
    assert_eq!(layout.total_size, 2);
}

#[test]
fn normalized_float_cannot_be_built() {
    let input = schema(
        4,
        vec![],
        vec![field(array("f32", 1), vec![attr("normalized", AttributeValue::Empty)])],
    );
    assert_eq!(
        process(&input, vec![]),
        Err(VertexDataError::Layout(LayoutError::CannotNormalize(VertexFormat::Float32)))
    );
}

#[test]
fn norm_takes_a_boolean() {
    let on = schema(
        0,
        vec![],
        vec![field(array("i16", 4), vec![attr("normalized", AttributeValue::Bool(true))])],
    );
    assert_eq!(process(&on, vec![]).unwrap().attributes[0].format, VertexFormat::Snorm16x4);
    let off = schema(
        0,
        vec![],
        vec![field(array("f32", 1), vec![attr("norm", AttributeValue::Bool(false))])],
    );
    assert_eq!(process(&off, vec![]).unwrap().attributes[0].format, VertexFormat::Float32);
    let wrong = schema(
        0,
        vec![],
        vec![field(array("u8", 2), vec![attr("norm", AttributeValue::Int(1))])],
    );
    assert_eq!(
        process(&wrong, vec![]),
        Err(VertexDataError::Attribute(AttributeError::InvalidLiteral))
    );
}

#[test]
fn later_attribute_overrides_the_earlier() {
    let input = schema(
        0,
        vec![],
        vec![field(
            array("u8", 2),
            vec![
                attr("norm", AttributeValue::Empty),
                attr("offset", AttributeValue::Int(4)),
                attr("norm", AttributeValue::Bool(false)),
                attr("offset", AttributeValue::Int(8)),
            ],
        )],
    );
    let layout = process(&input, vec![]).unwrap();
    assert_eq!(
        layout.attributes,
        vec![VertexAttribute { offset: 8, shader_location: 0, format: VertexFormat::Uint8x2 }]
    );
}

#[test]
fn format_attribute_replaces_the_inferred_format() {
    let input = schema(
        0,
        vec![],
        vec![
            field(array("f32", 3), vec![attr("format", format_path("Uint8x4"))]),
            field(array("f32", 1), vec![]),
        ],
    );
    let layout = process(&input, vec![]).unwrap();
    assert_eq!(layout.attributes[0].format, VertexFormat::Uint8x4);
    assert_eq!(offsets(&layout), vec![0, 4]);
    assert_eq!(layout.total_size, 8);
}

#[test]
fn format_attribute_does_not_save_an_unsupported_type() {
    let input = schema(
        0,
        vec![],
        vec![field(array("u64", 2), vec![attr("format", format_path("Uint32x4"))])],
    );
    assert_eq!(
        process(&input, vec![]),
        Err(VertexDataError::Field(FieldError::UnsupportedType("[u64;2]".to_string())))
    );
}

#[test]
fn unknown_format_name_is_refused() {
    let unknown = schema(
        0,
        vec![],
        vec![field(array("f32", 3), vec![attr("format", format_path("Float128"))])],
    );
    assert_eq!(
        process(&unknown, vec![]),
        Err(VertexDataError::Attribute(AttributeError::UnknownFormatName))
    );
    let elsewhere = schema(
        0,
        vec![],
        vec![field(
            array("f32", 3),
            vec![attr("format", AttributeValue::Path(path(&["Float32"])))],
        )],
    );
    assert_eq!(
        process(&elsewhere, vec![]),
        Err(VertexDataError::Attribute(AttributeError::UnknownFormatName))
    );
    let no_path = schema(
        0,
        vec![],
        vec![field(array("f32", 3), vec![attr("format", AttributeValue::Int(3))])],
    );
    assert_eq!(
        process(&no_path, vec![]),
        Err(VertexDataError::Attribute(AttributeError::InvalidLiteral))
    );
}

#[test]
fn offset_attribute_moves_the_field_and_those_behind_it() {
    let input = schema(
        0,
        vec![],
        vec![
            field(array("f32", 3), vec![]),
            field(array("f32", 2), vec![attr("offset", AttributeValue::Int(16))]),
            field(array("u8", 4), vec![]),
        ],
    );
    let layout = process(&input, vec![]).unwrap();
    assert_eq!(offsets(&layout), vec![0, 16, 24]);
    assert_eq!(layout.total_size, 24);
}

#[test]
fn literals_of_the_wrong_kind_are_refused() {
    for (name, value) in [
        ("offset", AttributeValue::Bool(true)),
        ("offset", AttributeValue::Empty),
        ("offset", AttributeValue::Other),
        ("shader_location", AttributeValue::Path(path(&["a"]))),
        ("shader_location", AttributeValue::Int(u32::MAX as u64 + 1)),
        ("normalized", AttributeValue::Other),
    ] {
        let input = schema(0, vec![], vec![field(array("f32", 3), vec![attr(name, value)])]);
        assert_eq!(
            process(&input, vec![]),
            Err(VertexDataError::Attribute(AttributeError::InvalidLiteral)),
            "{}",
            name
        );
    }
}

#[test]
fn largest_shader_location_is_accepted() {
    let input = schema(
        0,
        vec![],
        vec![field(
            array("f32", 3),
            vec![attr("shader_location", AttributeValue::Int(u32::MAX as u64))],
        )],
    );
    assert_eq!(locations(&process(&input, vec![]).unwrap()), vec![u32::MAX]);
}

#[test]
fn unknown_attributes_are_ignored() {
    let input = schema(
        12,
        vec![attr("repr", AttributeValue::Other), attr("derive", AttributeValue::Other)],
        vec![field(
            array("f32", 3),
            vec![
                attr("doc", AttributeValue::Other),
                Attribute {
                    path: path(&["serde", "offset"]),
                    value: AttributeValue::Int(4),
                },
            ],
        )],
    );
    let layout = process(&input, vec![]).unwrap();
    assert_eq!(
        layout.attributes,
        vec![VertexAttribute { offset: 0, shader_location: 0, format: VertexFormat::Float32x3 }]
    );
    assert_eq!(layout.stride, 12);
}

#[test]
fn stride_defaults_to_the_size_of_the_type() {
    let fields = || vec![field(array("f32", 3), vec![])];
    assert_eq!(process(&schema(16, vec![], fields()), vec![]).unwrap().stride, 16);
    let explicit = schema(16, vec![attr("array_stride", AttributeValue::Int(12))], fields());
    let layout = process(&explicit, vec![]).unwrap();
    assert_eq!(layout.stride, 12);
    assert_eq!(layout.total_size, 12);
    let smaller = schema(16, vec![attr("array_stride", AttributeValue::Int(1))], fields());
    assert_eq!(process(&smaller, vec![]).unwrap().stride, 1);
    let wrong = schema(16, vec![attr("array_stride", AttributeValue::Bool(true))], fields());
    assert_eq!(
        process(&wrong, vec![]),
        Err(VertexDataError::Attribute(AttributeError::InvalidLiteral))
    );
}

#[test]
fn step_mode_is_read_from_its_path() {
    let with = |value: AttributeValue| schema(0, vec![attr("step_mode", value)], vec![]);
    let vertex = AttributeValue::Path(path(&["wgpu", "VertexStepMode", "Vertex"]));
    assert_eq!(process(&with(vertex), vec![]).unwrap().step_mode, StepMode::Vertex);
    let instance = AttributeValue::Path(path(&["wgpu", "VertexStepMode", "Instance"]));
    assert_eq!(process(&with(instance), vec![]).unwrap().step_mode, StepMode::Instance);
    let unknown = AttributeValue::Path(path(&["wgpu", "VertexStepMode", "Frame"]));
    assert_eq!(
        process(&with(unknown), vec![]),
        Err(VertexDataError::Attribute(AttributeError::InvalidStepMode))
    );
    let elsewhere = AttributeValue::Path(path(&["wgpu", "StepMode", "Vertex"]));
    assert_eq!(
        process(&with(elsewhere), vec![]),
        Err(VertexDataError::Attribute(AttributeError::InvalidStepMode))
    );
    assert_eq!(
        process(&with(AttributeValue::Int(1)), vec![]),
        Err(VertexDataError::Attribute(AttributeError::InvalidLiteral))
    );
}

#[test]
fn step_mode_path_has_to_be_complete() {
    assert_eq!(
        StepMode::try_from(&path(&["wgpu", "VertexStepMode", "Instance"])),
        Some(StepMode::Instance)
    );
    assert_eq!(StepMode::try_from(&path(&["VertexStepMode", "Instance"])), None);
    assert_eq!(StepMode::try_from(&path(&["wgpu", "VertexStepMode", "instance"])), None);
}

#[test]
fn empty_type_has_an_empty_layout() {
    let layout = process(&schema(0, vec![], vec![]), vec![]).unwrap();
    assert_eq!(
        layout,
        LayoutDescriptor {
            stride: 0,
            step_mode: StepMode::Vertex,
            attributes: vec![],
            total_size: 0
        }
    );
}

#[test]
fn first_failing_field_ends_the_build() {
    let input = schema(
        0,
        vec![],
        vec![
            field(array("f32", 3), vec![]),
            field(array("f32", 9), vec![]),
            field(TypeShape::Other("()".to_string()), vec![]),
        ],
    );
    assert_eq!(
        process(&input, vec![]),
        Err(VertexDataError::Field(FieldError::UnsupportedArrayLength))
    );
}

#[test]
fn failed_field_leaves_the_builder_as_it_was() {
    let mut generator = CodeGenerator::new("Vertex".to_string(), vec![]);
    generator.with_field(&field(array("f32", 3), vec![])).unwrap();
    let refused = generator
        .with_field(&field(array("f32", 3), vec![attr("offset", AttributeValue::Other)]));
    assert_eq!(refused, Err(VertexDataError::Attribute(AttributeError::InvalidLiteral)));
    generator.with_field(&field(array("f32", 2), vec![])).unwrap();
    let layout = generator.generate_token_stream(20).unwrap();
    assert_eq!(offsets(&layout), vec![0, 12]);
    assert_eq!(locations(&layout), vec![0, 1]);
}

#[test]
fn offset_behind_the_last_byte_is_an_overflow() {
    let input = schema(
        0,
        vec![],
        vec![
            field(array("f32", 1), vec![attr("offset", AttributeValue::Int(u64::MAX - 3))]),
            field(array("f32", 1), vec![]),
        ],
    );
    assert_eq!(process(&input, vec![]), Err(VertexDataError::Layout(LayoutError::Overflow)));
    let rescued = schema(
        0,
        vec![],
        vec![
            field(array("f32", 1), vec![attr("offset", AttributeValue::Int(u64::MAX - 3))]),
            field(array("f32", 1), vec![attr("offset", AttributeValue::Int(0))]),
        ],
    );
    assert_eq!(offsets(&process(&rescued, vec![]).unwrap()), vec![u64::MAX - 3, 0]);
    let fits = schema(
        0,
        vec![],
        vec![
            field(array("f32", 1), vec![attr("offset", AttributeValue::Int(u64::MAX - 4))]),
            field(array("f32", 1), vec![]),
        ],
    );
    assert_eq!(offsets(&process(&fits, vec![]).unwrap()), vec![u64::MAX - 4, u64::MAX]);
}

#[test]
fn recognized_vectors_take_part_in_the_layout() {
    let input = schema(
        32,
        vec![],
        vec![
            field(TypeShape::Path(path(&["glam", "Vec3"])), vec![]),
            field(TypeShape::Path(path(&["mint", "Vector2<f32>"])), vec![]),
        ],
    );
    let layout = process(&input, vec![Recognizer::glam(), Recognizer::mint()]).unwrap();
    assert_eq!(
        layout.attributes,
        vec![
            VertexAttribute { offset: 0, shader_location: 0, format: VertexFormat::Float32x3 },
            VertexAttribute { offset: 12, shader_location: 1, format: VertexFormat::Float32x2 },
        ]
    );
    assert_eq!(
        process(&input, vec![Recognizer::glam()]),
        Err(VertexDataError::Field(FieldError::UnsupportedType(
            "mint::Vector2<f32>".to_string()
        )))
    );
}

#[test]
fn building_twice_gives_the_same_layout() {
    let input = || {
        schema(
            40,
            vec![attr(
                "step_mode",
                AttributeValue::Path(path(&["wgpu", "VertexStepMode", "Instance"])),
            )],
            vec![
                field(array("f32", 3), vec![attr("shader_location", AttributeValue::Int(4))]),
                field(array("u16", 2), vec![attr("norm", AttributeValue::Empty)]),
                field(TypeShape::Path(path(&["glam", "Vec4"])), vec![]),
            ],
        )
    };
    let first = process(&input(), vec![Recognizer::glam()]).unwrap();
    let second = process(&input(), vec![Recognizer::glam()]).unwrap();
    assert_eq!(first, second);
    assert_eq!(
        first,
        LayoutDescriptor {
            stride: 40,
            step_mode: StepMode::Instance,
            attributes: vec![
                VertexAttribute { offset: 0, shader_location: 4, format: VertexFormat::Float32x3 },
                VertexAttribute {
                    offset: 12,
                    shader_location: 0,
                    format: VertexFormat::Unorm16x2
                },
                VertexAttribute {
                    offset: 16,
                    shader_location: 1,
                    format: VertexFormat::Float32x4
                },
            ],
            total_size: 32,
        }
    );
}

#[test]
fn draft_takes_one_attribute_at_a_time() {
    let draft = FieldDraft {
        format: VertexFormat::Float32,
        offset: Some(4),
        shader_location: None,
        normalized: false,
    };
    assert_eq!(
        CodeGenerator::apply_attribute(draft, &attr("shader_location", AttributeValue::Int(3))),
        Ok(FieldDraft { shader_location: Some(3), ..draft })
    );
    assert_eq!(
        CodeGenerator::apply_attribute(draft, &attr("unknown", AttributeValue::Int(3))),
        Ok(draft)
    );
    assert_eq!(
        CodeGenerator::apply_attribute(draft, &attr("format", format_path("Sint8x2"))),
        Ok(FieldDraft { format: VertexFormat::Sint8x2, ..draft })
    );
}

#[test]
fn vertex_info_is_plain_data() {
    let info = VertexInfo {
        format: VertexFormat::Float32,
        offset: 4,
        shader_location: 1,
        normalized: false,
    };
    assert_eq!(info, info.clone());
}
