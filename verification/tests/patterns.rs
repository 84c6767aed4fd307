use vertex_layout::error::{CaptureError, InvalidExpression};
use vertex_layout::path::{PathCaptureExpr, QualifiedName};
use vertex_layout::text::{chars_of, join, split, str_eq};

fn name(rooted: bool, segments: &[&str]) -> QualifiedName {
    QualifiedName { rooted, segments: segments.iter().map(|s| s.to_string()).collect() }
}

fn compile(source: &str) -> PathCaptureExpr {
    PathCaptureExpr::parse(source).expect("the pattern compiles")
}

#[test]
fn wildcard_and_capture_hand_back_the_last_segment() {
    let pattern = compile("*::?");
    assert_eq!(pattern.match_on(&name(false, &["a", "b", "c"])), Ok(Some("c".to_string())));
}

#[test]
fn literals_match_the_tail_without_capture() {
    let pattern = compile("a::b");
    assert_eq!(pattern.match_on(&name(false, &["x", "a", "b"])), Ok(None));
    assert_eq!(pattern.match_on(&name(false, &["a", "b"])), Ok(None));
}

#[test]
fn rooted_name_is_refused_by_plain_pattern() {
    let pattern = compile("a::b");
    assert_eq!(
        pattern.match_on(&name(true, &["a", "b"])),
        Err(CaptureError::UnexpectedLeadingColon)
    );
    let capturing = compile("a::?");
    assert_eq!(
        capturing.match_on(&name(true, &["a", "b"])),
        Err(CaptureError::UnexpectedLeadingColon)
    );
}

#[test]
fn rooted_name_is_accepted_by_rooted_or_open_pattern() {
    assert_eq!(compile("::a::b").match_on(&name(true, &["a", "b"])), Ok(None));
    assert_eq!(compile("*::b").match_on(&name(true, &["a", "b"])), Ok(None));
    assert_eq!(compile("::a::b").match_on(&name(false, &["a", "b"])), Ok(None));
}

#[test]
fn second_wildcard_is_refused() {
    assert_eq!(PathCaptureExpr::parse("*::*::?").err(), Some(InvalidExpression::InvalidCapture));
    assert_eq!(PathCaptureExpr::parse("a::*").err(), Some(InvalidExpression::InvalidCapture));
    assert_eq!(PathCaptureExpr::parse("::*").err(), Some(InvalidExpression::InvalidCapture));
    assert!(PathCaptureExpr::parse("*").is_ok());
}

#[test]
fn differing_tail_is_no_match_and_carries_the_name() {
    let pattern = compile("a::b");
    let subject = name(false, &["a", "c"]);
    assert_eq!(pattern.match_on(&subject), Err(CaptureError::NoMatch(name(false, &["a", "c"]))));
}

#[test]
fn name_shorter_than_the_literals_needs_the_wildcard() {
    let subject = name(false, &["b"]);
    assert_eq!(
        compile("a::b").match_on(&subject),
        Err(CaptureError::NoMatch(name(false, &["b"])))
    );
    assert_eq!(compile("*::a::b").match_on(&subject), Ok(None));
    assert_eq!(
        compile("*::a::b").match_on(&name(false, &["c"])),
        Err(CaptureError::NoMatch(name(false, &["c"])))
    );
}

#[test]
fn capture_on_a_name_without_segments_hands_back_nothing() {
    assert_eq!(compile("*::?").match_on(&name(false, &[])), Ok(None));
    assert_eq!(compile("?").match_on(&name(false, &[])), Ok(None));
    assert_eq!(
        compile("a::?").match_on(&name(false, &[])),
        Err(CaptureError::NoMatch(name(false, &[])))
    );
}

#[test]
fn capture_takes_the_segment_with_its_generics() {
    let pattern = compile("mint::?");
    assert_eq!(
        pattern.match_on(&name(false, &["mint", "Vector2<f32>"])),
        Ok(Some("Vector2<f32>".to_string()))
    );
    assert_eq!(
        pattern.match_on(&name(false, &["glam", "Vec2"])),
        Err(CaptureError::NoMatch(name(false, &["glam", "Vec2"])))
    );
}

#[test]
fn question_mark_in_the_middle_is_a_literal() {
    let pattern = compile("a::?::b");
    assert_eq!(pattern.match_on(&name(false, &["a", "?", "b"])), Ok(None));
    assert!(pattern.match_on(&name(false, &["a", "x", "b"])).is_err());
}

#[test]
fn empty_pattern_is_rooted_without_literals() {
    let pattern = compile("");
    assert_eq!(pattern.match_on(&name(true, &["a"])), Ok(None));
    assert_eq!(pattern.match_on(&name(false, &[])), Ok(None));
}

#[test]
fn split_cuts_at_each_separator_from_the_left() {
    assert_eq!(split("a::b::c"), vec!["a", "b", "c"]);
    assert_eq!(split(""), vec![""]);
    assert_eq!(split("::a"), vec!["", "a"]);
    assert_eq!(split("a::"), vec!["a", ""]);
    assert_eq!(split("a:::b"), vec!["a", ":b"]);
    assert_eq!(split("a::::b"), vec!["a", "", "b"]);
    assert_eq!(split("a:b"), vec!["a:b"]);
    assert_eq!(split("é::ü"), vec!["é", "ü"]);
}

#[test]
fn join_writes_the_separator_between_segments() {
    assert_eq!(join(&vec![]), "");
    assert_eq!(join(&vec!["a".to_string()]), "a");
    assert_eq!(join(&vec!["a".to_string(), "b".to_string(), "c".to_string()]), "a::b::c");
}

#[test]
fn split_undoes_join_on_plain_segments() {
    let segments = vec!["wgpu".to_string(), "VertexFormat".to_string(), "Float32".to_string()];
    assert_eq!(split(&join(&segments)), segments);
}

#[test]
fn str_eq_compares_content() {
    assert!(str_eq("", ""));
    assert!(str_eq("Float32", "Float32"));
    assert!(!str_eq("Float32", "Float64"));
    assert!(!str_eq("Float32", "Float32x2"));
    assert!(str_eq("händisch", "händisch"));
}

#[test]
fn clone_of_a_name_keeps_its_content() {
    let subject = name(true, &["a", "b"]);
    assert_eq!(subject.clone(), subject);
}

#[test]
fn compiled_pattern_shows_its_parts() {
    let plain = compile("wgpu::VertexFormat::?");
    assert!(!plain.is_wildcard());
    assert!(!plain.is_rooted());
    assert!(plain.captures_last());
    assert_eq!(plain.literals(), &vec!["wgpu".to_string(), "VertexFormat".to_string()]);

    let open = compile("*::a");
    assert!(open.is_wildcard());
    assert!(!open.is_rooted());
    assert!(!open.captures_last());
    assert_eq!(open.literals(), &vec!["a".to_string()]);

    let rooted = compile("::a::?::b");
    assert!(!rooted.is_wildcard());
    assert!(rooted.is_rooted());
    assert!(!rooted.captures_last());
    assert_eq!(rooted.literals(), &vec!["a".to_string(), "?".to_string(), "b".to_string()]);

    let capture = compile("?");
    assert!(capture.captures_last());
    assert!(capture.literals().is_empty());

    let nothing = compile("");
    assert!(nothing.is_rooted());
    assert!(!nothing.captures_last());
    assert!(nothing.literals().is_empty());
}

#[test]
fn no_compiled_pattern_is_both_rooted_and_open() {
    for source in ["", "*", "::", "*::?", "::a", "a::b", "*::a::b::?", "?", "::?"] {
        let pattern = compile(source);
        assert!(!(pattern.is_wildcard() && pattern.is_rooted()), "{}", source);
        assert!(pattern.literals().iter().all(|l| l != "*"), "{}", source);
    }
}

#[test]
fn characters_are_listed_in_order() {
    assert_eq!(chars_of("a::b"), vec!['a', ':', ':', 'b']);
    assert_eq!(chars_of(""), Vec::<char>::new());
    assert_eq!(chars_of("äö"), vec!['ä', 'ö']);
}
