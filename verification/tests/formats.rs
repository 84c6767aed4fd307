use vertex_layout::classify::Recognizer;
use vertex_layout::format::VertexFormat;
use vertex_layout::path::{PathCaptureExpr, QualifiedName};
use vertex_layout::types::{FieldError, PrimitiveType, TypeShape};

const FORMATS: [(VertexFormat, u8, usize, &str); 34] = [
    (VertexFormat::Uint8x2, 0, 2, "Uint8x2"),
    (VertexFormat::Uint8x4, 1, 4, "Uint8x4"),
    (VertexFormat::Sint8x2, 2, 2, "Sint8x2"),
    (VertexFormat::Sint8x4, 3, 4, "Sint8x4"),
    (VertexFormat::Unorm8x2, 4, 2, "Unorm8x2"),
    (VertexFormat::Unorm8x4, 5, 4, "Unorm8x4"),
    (VertexFormat::Snorm8x2, 6, 2, "Snorm8x2"),
    (VertexFormat::Snorm8x4, 7, 4, "Snorm8x4"),
    (VertexFormat::Uint16x2, 8, 4, "Uint16x2"),
    (VertexFormat::Uint16x4, 9, 8, "Uint16x4"),
    (VertexFormat::Sint16x2, 10, 4, "Sint16x2"),
    (VertexFormat::Sint16x4, 11, 8, "Sint16x4"),
    (VertexFormat::Unorm16x2, 12, 4, "Unorm16x2"),
    (VertexFormat::Unorm16x4, 13, 8, "Unorm16x4"),
    (VertexFormat::Snorm16x2, 14, 4, "Snorm16x2"),
    (VertexFormat::Snorm16x4, 15, 8, "Snorm16x4"),
    (VertexFormat::Float16x2, 16, 4, "Float16x2"),
    (VertexFormat::Float16x4, 17, 8, "Float16x4"),
    (VertexFormat::Float32, 18, 4, "Float32"),
    (VertexFormat::Float32x2, 19, 8, "Float32x2"),
    (VertexFormat::Float32x3, 20, 12, "Float32x3"),
    (VertexFormat::Float32x4, 21, 16, "Float32x4"),
    (VertexFormat::Uint32, 22, 4, "Uint32"),
    (VertexFormat::Uint32x2, 23, 8, "Uint32x2"),
    (VertexFormat::Uint32x3, 24, 12, "Uint32x3"),
    (VertexFormat::Uint32x4, 25, 16, "Uint32x4"),
    (VertexFormat::Sint32, 26, 4, "Sint32"),
    (VertexFormat::Sint32x2, 27, 8, "Sint32x2"),
    (VertexFormat::Sint32x3, 28, 12, "Sint32x3"),
    (VertexFormat::Sint32x4, 29, 16, "Sint32x4"),
    (VertexFormat::Float64, 30, 8, "Float64"),
    (VertexFormat::Float64x2, 31, 16, "Float64x2"),
    (VertexFormat::Float64x3, 32, 24, "Float64x3"),
    (VertexFormat::Float64x4, 33, 32, "Float64x4"),
];

fn path(segments: &[&str]) -> QualifiedName {
    QualifiedName { rooted: false, segments: segments.iter().map(|s| s.to_string()).collect() }
}

fn array(elem: &str, len: Option<u64>) -> TypeShape {
    TypeShape::Array { elem: Box::new(TypeShape::Path(path(&[elem]))), len }
}

#[test]
fn every_format_has_its_code_and_size() {
    for (format, code, size, _) in FORMATS {
        assert_eq!(format.code(), code, "{:?}", format);
        assert_eq!(format.size(), size, "{:?}", format);
    }
}

#[test]
fn every_format_is_found_by_its_name() {
    for (format, _, _, name) in FORMATS {
        assert_eq!(format.name(), name);
        assert_eq!(VertexFormat::from_str(name), Some(format));
    }
    assert_eq!(VertexFormat::from_str("float32"), None);
    assert_eq!(VertexFormat::from_str("Float32x5"), None);
    assert_eq!(VertexFormat::from_str(""), None);
}

#[test]
fn only_small_integer_formats_have_a_normalized_counterpart() {
    let expected = [
        (VertexFormat::Uint8x2, VertexFormat::Unorm8x2),
        (VertexFormat::Uint8x4, VertexFormat::Unorm8x4),
        (VertexFormat::Sint8x2, VertexFormat::Snorm8x2),
        (VertexFormat::Sint8x4, VertexFormat::Snorm8x4),
        (VertexFormat::Uint16x2, VertexFormat::Unorm16x2),
        (VertexFormat::Uint16x4, VertexFormat::Unorm16x4),
        (VertexFormat::Sint16x2, VertexFormat::Snorm16x2),
        (VertexFormat::Sint16x4, VertexFormat::Snorm16x4),
    ];
    for (format, _, _, _) in FORMATS {
        let counterpart = expected.iter().find(|(from, _)| *from == format).map(|(_, to)| *to);
        assert_eq!(format.to_norm(), counterpart, "{:?}", format);
    }
}

#[test]
fn normalized_counterpart_keeps_the_size() {
    for (format, code, size, _) in FORMATS {
        if let Some(normalized) = format.to_norm() {
            assert_eq!(normalized.size(), size);
            assert_eq!(normalized.code(), code + 4);
            assert_eq!(normalized.to_norm(), None);
        }
    }
}

#[test]
fn format_path_leads_back_to_the_format() {
    for (format, _, _, name) in FORMATS {
        let written = format.to_path();
        assert_eq!(written, path(&["wgpu", "VertexFormat", name]));
        assert_eq!(VertexFormat::try_from(&written), Ok(format));
    }
}

#[test]
fn format_path_has_to_end_in_the_enum_and_a_variant() {
    assert_eq!(
        VertexFormat::try_from(&path(&["x", "wgpu", "VertexFormat", "Float32"])),
        Ok(VertexFormat::Float32)
    );
    assert_eq!(VertexFormat::try_from(&path(&["VertexFormat", "Float32"])), Err(()));
    assert_eq!(VertexFormat::try_from(&path(&["wgpu", "VertexFormat", "Float99"])), Err(()));
    assert_eq!(VertexFormat::try_from(&path(&["wgpu", "Format", "Float32"])), Err(()));
    let rooted = QualifiedName {
        rooted: true,
        segments: vec!["wgpu".to_string(), "VertexFormat".to_string(), "Float32".to_string()],
    };
    assert_eq!(VertexFormat::try_from(&rooted), Err(()));
}

#[test]
fn primitive_names_are_read() {
    let names = [
        ("bool", PrimitiveType::Bool),
        ("u8", PrimitiveType::U8),
        ("u16", PrimitiveType::U16),
        ("u32", PrimitiveType::U32),
        ("u64", PrimitiveType::U64),
        ("u128", PrimitiveType::U128),
        ("i8", PrimitiveType::I8),
        ("i16", PrimitiveType::I16),
        ("i32", PrimitiveType::I32),
        ("i64", PrimitiveType::I64),
        ("i128", PrimitiveType::I128),
        ("f16", PrimitiveType::F16),
        ("f32", PrimitiveType::F32),
        ("f64", PrimitiveType::F64),
    ];
    for (name, kind) in names {
        assert_eq!(PrimitiveType::from_name(name), Some(kind));
        assert_eq!(PrimitiveType::try_from(&path(&[name])), Ok(kind));
    }
    assert_eq!(PrimitiveType::from_name("usize"), None);
    assert_eq!(PrimitiveType::from_name("F32"), None);
}

#[test]
fn other_paths_are_no_primitives() {
    assert_eq!(
        PrimitiveType::try_from(&path(&["usize"])),
        Err(FieldError::UnsupportedType("usize".to_string()))
    );
    assert_eq!(
        PrimitiveType::try_from(&path(&["std", "primitive", "f32"])),
        Err(FieldError::UnsupportedType("std::primitive::f32".to_string()))
    );
    assert_eq!(
        PrimitiveType::try_from(&path(&[])),
        Err(FieldError::UnsupportedType(String::new()))
    );
}

#[test]
fn arrays_of_primitives_follow_the_table() {
    let table: [(&str, u64, VertexFormat); 26] = [
        ("u8", 2, VertexFormat::Uint8x2),
        ("u8", 4, VertexFormat::Uint8x4),
        ("i8", 2, VertexFormat::Sint8x2),
        ("i8", 4, VertexFormat::Sint8x4),
        ("u16", 2, VertexFormat::Uint16x2),
        ("u16", 4, VertexFormat::Uint16x4),
        ("i16", 2, VertexFormat::Sint16x2),
        ("i16", 4, VertexFormat::Sint16x4),
        ("f16", 2, VertexFormat::Float16x2),
        ("f16", 4, VertexFormat::Float16x4),
        ("f32", 1, VertexFormat::Float32),
        ("f32", 2, VertexFormat::Float32x2),
        ("f32", 3, VertexFormat::Float32x3),
        ("f32", 4, VertexFormat::Float32x4),
        ("u32", 1, VertexFormat::Uint32),
        ("u32", 2, VertexFormat::Uint32x2),
        ("u32", 3, VertexFormat::Uint32x3),
        ("u32", 4, VertexFormat::Uint32x4),
        ("i32", 1, VertexFormat::Sint32),
        ("i32", 2, VertexFormat::Sint32x2),
        ("i32", 3, VertexFormat::Sint32x3),
        ("i32", 4, VertexFormat::Sint32x4),
        ("f64", 1, VertexFormat::Float64),
        ("f64", 2, VertexFormat::Float64x2),
        ("f64", 3, VertexFormat::Float64x3),
        ("f64", 4, VertexFormat::Float64x4),
    ];
    let kinds = [
        "bool", "u8", "u16", "u32", "u64", "u128", "i8", "i16", "i32", "i64", "i128", "f16",
        "f32", "f64",
    ];
    for kind in kinds {
        for len in 1..=4u64 {
            let listed =
                table.iter().find(|(k, l, _)| *k == kind && *l == len).map(|(_, _, f)| *f);
            let expected = match listed {
                Some(format) => Ok(format),
                None => Err(FieldError::UnsupportedType(format!("[{};{}]", kind, len))),
            };
            assert_eq!(VertexFormat::parse_type(&array(kind, Some(len)), &vec![]), expected);
            let primitive = PrimitiveType::from_name(kind).unwrap();
            assert_eq!(VertexFormat::of_array(primitive, len), listed);
        }
    }
}

#[test]
fn array_length_has_to_be_a_literal_from_one_to_four() {
    assert_eq!(
        VertexFormat::parse_type(&array("f32", None), &vec![]),
        Err(FieldError::UnsupportedArrayLength)
    );
    assert_eq!(
        VertexFormat::parse_type(&array("f32", Some(0)), &vec![]),
        Err(FieldError::UnsupportedArrayLength)
    );
    assert_eq!(
        VertexFormat::parse_type(&array("f32", Some(5)), &vec![]),
        Err(FieldError::UnsupportedArrayLength)
    );
    assert_eq!(
        VertexFormat::parse_type(&array("f32", Some(u64::MAX)), &vec![]),
        Err(FieldError::UnsupportedArrayLength)
    );
}

#[test]
fn array_element_has_to_be_a_primitive() {
    assert_eq!(
        VertexFormat::parse_type(&array("Vec3", Some(2)), &vec![]),
        Err(FieldError::UnsupportedArrayElement)
    );
    let nested =
        TypeShape::Array { elem: Box::new(array("f32", Some(2))), len: Some(2) };
    assert_eq!(
        VertexFormat::parse_type(&nested, &vec![]),
        Err(FieldError::UnsupportedArrayElement)
    );
    let of_tuples = TypeShape::Array {
        elem: Box::new(TypeShape::Other("(f32,f32)".to_string())),
        len: Some(2),
    };
    assert_eq!(
        VertexFormat::parse_type(&of_tuples, &vec![]),
        Err(FieldError::UnsupportedArrayElement)
    );
}

#[test]
fn array_length_above_four_is_refused_before_the_element() {
    assert_eq!(
        VertexFormat::parse_type(&array("Vec3", Some(5)), &vec![]),
        Err(FieldError::UnsupportedArrayLength)
    );
    assert_eq!(
        VertexFormat::parse_type(&array("Vec3", Some(0)), &vec![]),
        Err(FieldError::UnsupportedArrayElement)
    );
    assert_eq!(
        VertexFormat::parse_type(&array("Vec3", None), &vec![]),
        Err(FieldError::UnsupportedArrayLength)
    );
}

#[test]
fn other_types_are_unsupported_by_their_written_form() {
    assert_eq!(
        VertexFormat::parse_type(&TypeShape::Other("(f32,f32)".to_string()), &vec![]),
        Err(FieldError::UnsupportedType("(f32,f32)".to_string()))
    );
}

#[test]
fn named_types_need_a_recognizer() {
    let vec3 = TypeShape::Path(path(&["glam", "Vec3"]));
    assert_eq!(
        VertexFormat::parse_type(&vec3, &vec![]),
        Err(FieldError::UnsupportedType("glam::Vec3".to_string()))
    );
    assert_eq!(
        VertexFormat::parse_type(&vec3, &vec![Recognizer::mint()]),
        Err(FieldError::UnsupportedType("glam::Vec3".to_string()))
    );
    assert_eq!(
        VertexFormat::parse_type(&vec3, &vec![Recognizer::mint(), Recognizer::glam()]),
        Ok(VertexFormat::Float32x3)
    );
    let plain = TypeShape::Path(path(&["f32"]));
    assert_eq!(
        VertexFormat::parse_type(&plain, &vec![Recognizer::mint(), Recognizer::glam()]),
        Err(FieldError::UnsupportedType("f32".to_string()))
    );
}

#[test]
fn glam_vectors_are_recognized_in_any_case() {
    let glam = Recognizer::glam();
    assert_eq!(glam.recognize(&path(&["glam", "Vec2"])), Some(VertexFormat::Float32x2));
    assert_eq!(glam.recognize(&path(&["glam", "Vec3"])), Some(VertexFormat::Float32x3));
    assert_eq!(glam.recognize(&path(&["glam", "Vec4"])), Some(VertexFormat::Float32x4));
    assert_eq!(glam.recognize(&path(&["glam", "VEC4"])), Some(VertexFormat::Float32x4));
    assert_eq!(glam.recognize(&path(&["glam", "Mat4"])), None);
    assert_eq!(glam.recognize(&path(&["Vec4"])), None);
    assert_eq!(glam.recognize(&path(&["mint", "Vec4"])), None);
}

#[test]
fn mint_vectors_are_recognized_with_their_generics() {
    let mint = Recognizer::mint();
    assert_eq!(mint.recognize(&path(&["mint", "Vector2<f32>"])), Some(VertexFormat::Float32x2));
    assert_eq!(mint.recognize(&path(&["mint", "Vector3<f32>"])), Some(VertexFormat::Float32x3));
    assert_eq!(mint.recognize(&path(&["mint", "Vector4<f32>"])), Some(VertexFormat::Float32x4));
    assert_eq!(mint.recognize(&path(&["mint", "Vector4<f64>"])), None);
    assert_eq!(mint.recognize(&path(&["mint", "Vector4"])), None);
}

#[test]
fn lookup_takes_the_name_as_it_is() {
    let glam = Recognizer::glam();
    assert_eq!(glam.lookup("vec2"), Some(VertexFormat::Float32x2));
    assert_eq!(glam.lookup("Vec2"), None);
    assert_eq!(glam.lookup(""), None);
}

#[test]
fn custom_recognizer_takes_the_first_entry_of_a_name() {
    let recognizer = Recognizer {
        pattern: PathCaptureExpr::parse("*::math::?").unwrap(),
        table: vec![
            ("point".to_string(), VertexFormat::Float32x3),
            ("color".to_string(), VertexFormat::Unorm8x4),
            ("point".to_string(), VertexFormat::Float64x3),
        ],
    };
    assert_eq!(
        recognizer.recognize(&path(&["engine", "math", "Point"])),
        Some(VertexFormat::Float32x3)
    );
    assert_eq!(recognizer.recognize(&path(&["math", "Color"])), Some(VertexFormat::Unorm8x4));
    // The wildcard lets a name be shorter than the literals.
    assert_eq!(recognizer.recognize(&path(&["Color"])), Some(VertexFormat::Unorm8x4));
    assert_eq!(recognizer.recognize(&path(&["physics", "Color"])), None);
    assert_eq!(recognizer.recognize(&path(&["math", "Normal"])), None);
}
