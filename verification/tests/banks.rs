use vertex_layout::bank::ResourceBank;
use vertex_layout::error::{
    AttributeError, CaptureError, FormatError, InvalidExpression, LayoutError, ParseError,
    ResourceError, VertexDataError,
};
use vertex_layout::format::VertexFormat;
use vertex_layout::path::QualifiedName;
use vertex_layout::resources::ResourceID;
use vertex_layout::syntax::{GenericArgument, Path, PathArguments, PathSegment, Type};
use vertex_layout::texture::{TextureRepr, TextureResource};
use vertex_layout::types::FieldError;
use vertex_layout::vertex_data::{CodeGenerator, StepMode};
use vertex_layout::schema::{Attribute, AttributeValue};

fn bank_of(entries: &[(&str, u32)]) -> ResourceBank<u32> {
    let mut bank = ResourceBank::new("bank.bin".to_string());
    for (path, value) in entries {
        bank.push(path.to_string(), *value);
    }
    bank
}

#[test]
fn new_bank_is_empty_and_not_loaded() {
    let bank: ResourceBank<u32> = ResourceBank::new("textures.bank".to_string());
    assert!(!bank.is_loaded());
    assert_eq!(bank.source(), "textures.bank");
    assert!(bank.resources().is_empty());
    assert_eq!(bank.index_of("a"), None);
}

#[test]
fn pushed_resources_are_found_by_their_path() {
    let bank = bank_of(&[("a", 10), ("b", 20), ("c", 30)]);
    assert_eq!(bank.resources(), &vec![10, 20, 30]);
    assert_eq!(bank.index_of("a"), Some(0));
    assert_eq!(bank.index_of("b"), Some(1));
    assert_eq!(bank.index_of("c"), Some(2));
    assert_eq!(bank.index_of("d"), None);
    assert_eq!(bank.index_of(""), None);
}

#[test]
fn pushing_under_a_used_path_moves_the_path() {
    let mut bank = bank_of(&[("a", 10), ("b", 20)]);
    bank.push("a".to_string(), 11);
    assert_eq!(bank.resources(), &vec![10, 20, 11]);
    assert_eq!(bank.index_of("a"), Some(2));
    assert_eq!(bank.index_of("b"), Some(1));
}

#[test]
fn removed_resource_lets_those_behind_move_up() {
    let mut bank = bank_of(&[("a", 10), ("b", 20), ("c", 30), ("d", 40)]);
    assert_eq!(bank.remove("b"), Some(20));
    assert_eq!(bank.resources(), &vec![10, 30, 40]);
    assert_eq!(bank.index_of("a"), Some(0));
    assert_eq!(bank.index_of("b"), None);
    assert_eq!(bank.index_of("c"), Some(1));
    assert_eq!(bank.index_of("d"), Some(2));
    assert_eq!(bank.remove("b"), None);
    assert_eq!(bank.remove("d"), Some(40));
    assert_eq!(bank.remove("a"), Some(10));
    assert_eq!(bank.resources(), &vec![30]);
    assert_eq!(bank.index_of("c"), Some(0));
}

#[test]
fn removing_an_unknown_path_changes_nothing() {
    let mut bank = bank_of(&[("a", 10)]);
    assert_eq!(bank.remove("z"), None);
    assert_eq!(bank.resources(), &vec![10]);
    assert_eq!(bank.index_of("a"), Some(0));
}

#[test]
fn resource_without_a_path_stays_when_its_successor_is_removed() {
    let mut bank = bank_of(&[("a", 10), ("a", 11), ("b", 20)]);
    assert_eq!(bank.index_of("a"), Some(1));
    assert_eq!(bank.remove("a"), Some(11));
    assert_eq!(bank.resources(), &vec![10, 20]);
    assert_eq!(bank.index_of("a"), None);
    assert_eq!(bank.index_of("b"), Some(1));
}

#[test]
fn bank_is_loaded_until_it_is_unloaded() {
    let mut bank = bank_of(&[("a", 10)]);
    assert!(!bank.is_loaded());
    bank.set_loaded();
    assert!(bank.is_loaded());
    assert_eq!(bank.resources(), &vec![10]);
    bank.unload();
    assert!(!bank.is_loaded());
    assert!(bank.resources().is_empty());
    assert_eq!(bank.index_of("a"), None);
    assert_eq!(bank.source(), "bank.bin");
}

#[test]
fn resource_id_of_a_name_is_its_hash() {
    let a = ResourceID::of_name("textures/stone.png");
    assert_eq!(a, ResourceID::of_name("textures/stone.png"));
    assert_ne!(a, ResourceID::of_name("textures/dirt.png"));
    assert_ne!(ResourceID::of_name(""), ResourceID::of_name("a"));
    assert_eq!(a, ResourceID(5908963302441423676));
    assert_eq!(ResourceID::of_name(""), ResourceID(9743849446499060476));
}

#[test]
fn header_gives_the_length_of_the_data() {
    let mut out = Vec::new();
    TextureResource { size: (3, 5), hash: 77, repr: TextureRepr::RGBA8, data: vec![0; 60] }
        .save(&mut out);
    assert_eq!(TextureResource::data_len(&out[..17]), Ok(60));
    assert_eq!(TextureResource::decode_header(&out), Ok(((3, 5), 77, TextureRepr::RGBA8)));
    assert_eq!(TextureResource::data_len(&out[..16]), Err(ResourceError::UnexpectedEof));
    let mut huge = vec![255u8; 17];
    huge[16] = 0;
    assert_eq!(
        TextureResource::data_len(&huge),
        Ok(u32::MAX as u128 * u32::MAX as u128 * 4)
    );
    huge[16] = 1;
    assert_eq!(
        TextureResource::data_len(&huge),
        Err(ResourceError::Format(FormatError::InvalidTextureFormat(1)))
    );
}

#[test]
fn data_type_of_a_buffer_is_its_first_argument() {
    let data = || Type::Path(Path {
        leading_colon: false,
        segments: vec![PathSegment { ident: "Vertex".to_string(), arguments: PathArguments::Empty }],
    });
    let buffer = |arguments: PathArguments| Type::Path(Path {
        leading_colon: false,
        segments: vec![
            PathSegment { ident: "render".to_string(), arguments: PathArguments::Empty },
            PathSegment { ident: "StaticVertexBuffer".to_string(), arguments },
        ],
    });
    let refused = |message: &str| ParseError::PathParseError(message.to_string());
    let good = buffer(PathArguments::AngleBracketed(vec![
        GenericArgument::Type(data()),
        GenericArgument::Lifetime,
    ]));
    assert_eq!(good.first_type_argument(), Ok(&data()));
    assert_eq!(
        buffer(PathArguments::Empty).first_type_argument(),
        Err(refused("first buffer type argument must be inner data"))
    );
    assert_eq!(
        buffer(PathArguments::Parenthesized).first_type_argument(),
        Err(refused("first buffer type argument must be inner data"))
    );
    assert_eq!(
        buffer(PathArguments::AngleBracketed(vec![])).first_type_argument(),
        Err(refused("inner data must be first type argument"))
    );
    assert_eq!(
        buffer(PathArguments::AngleBracketed(vec![
            GenericArgument::Const(Some(3)),
            GenericArgument::Type(data())
        ]))
        .first_type_argument(),
        Err(refused("first argument not a type"))
    );
    assert_eq!(
        Type::Path(Path { leading_colon: false, segments: vec![] }).first_type_argument(),
        Err(refused("first buffer type argument must be inner data"))
    );
    assert_eq!(Type::Never.first_type_argument(), Err(refused("expected a type path")));
}

#[test]
fn generator_shows_what_it_was_told() {
    let mut generator = CodeGenerator::new("Vertex".to_string(), vec![]);
    assert_eq!(generator.target(), "Vertex");
    assert_eq!(generator.step_mode(), StepMode::Vertex);
    assert_eq!(generator.array_stride(), None);
    assert!(generator.fields().is_empty());
    let name = |n: &str| QualifiedName { rooted: false, segments: vec![n.to_string()] };
    generator
        .with_attribute(&Attribute { path: name("array_stride"), value: AttributeValue::Int(32) })
        .unwrap();
    generator
        .with_attribute(&Attribute {
            path: name("step_mode"),
            value: AttributeValue::Path(QualifiedName {
                rooted: false,
                segments: vec![
                    "wgpu".to_string(),
                    "VertexStepMode".to_string(),
                    "Instance".to_string(),
                ],
            }),
        })
        .unwrap();
    assert_eq!(generator.array_stride(), Some(32));
    assert_eq!(generator.step_mode(), StepMode::Instance);
    let refused = generator
        .with_attribute(&Attribute { path: name("array_stride"), value: AttributeValue::Empty });
    assert_eq!(refused, Err(AttributeError::InvalidLiteral));
    assert_eq!(generator.array_stride(), Some(32));
    assert_eq!(generator.generate_token_stream(8).unwrap().stride, 32);
}

#[test]
fn errors_are_put_in_words() {
    assert_eq!(InvalidExpression::InvalidCapture.message(), "more than one leading capture");
    assert_eq!(
        CaptureError::UnexpectedLeadingColon.message(),
        "path starts with unexpected leading colons"
    );
    assert_eq!(
        CaptureError::UnexpectedPathSegment("x".to_string()).message(),
        "unexpected path segment: x"
    );
    assert_eq!(
        CaptureError::NoMatch(QualifiedName {
            rooted: true,
            segments: vec!["a".to_string(), "b".to_string()]
        })
        .message(),
        "provided path (a::b) doesn't match the expression"
    );
    assert_eq!(
        ParseError::PathParseError("lifetimes not supported".to_string()).message(),
        "unable to parse path: lifetimes not supported"
    );
    assert_eq!(
        FieldError::UnsupportedType("[u64;2]".to_string()).message(),
        "unsupported type: [u64;2]"
    );
    assert_eq!(FieldError::UnsupportedArrayLength.message(), "unsupported array length");
    assert_eq!(FieldError::UnsupportedArrayElement.message(), "array value must be a primitive");
    assert_eq!(AttributeError::InvalidLiteral.message(), "attribute value is of the wrong kind");
    assert_eq!(AttributeError::UnknownFormatName.message(), "not a valid VertexFormat path");
    assert_eq!(
        AttributeError::InvalidStepMode.message(),
        "step_mode value must be a path to a wgpu::VertexStepMode variant"
    );
    assert_eq!(
        LayoutError::CannotNormalize(VertexFormat::Float32).message(),
        "can't normalize type: Float32"
    );
    assert_eq!(LayoutError::Overflow.message(), "layout is too large");
    assert_eq!(
        VertexDataError::Layout(LayoutError::Overflow).message(),
        LayoutError::Overflow.message()
    );
    assert_eq!(
        VertexDataError::Attribute(AttributeError::InvalidLiteral).message(),
        AttributeError::InvalidLiteral.message()
    );
    assert_eq!(
        VertexDataError::Field(FieldError::UnsupportedArrayLength).message(),
        "unsupported array length"
    );
    assert_eq!(FormatError::InvalidResourceKind(7).message(), "invalid resource kind: 7");
    assert_eq!(FormatError::InvalidTextureFormat(255).message(), "invalid texture format: 255");
    assert_eq!(ResourceError::InvalidHash.message(), "data hash doesn't match expected hash");
    assert_eq!(
        ResourceError::Format(FormatError::InvalidResourceKind(1)).message(),
        "invalid resource kind: 1"
    );
    assert_eq!(ResourceError::UnexpectedEof.message(), "unexpected end of data");
}
