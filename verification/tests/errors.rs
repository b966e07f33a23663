//! The error of parsing a kind from text.

use kinded::errors::last_segment_of;
use kinded::ParseKindError;

#[test]
fn the_kind_type_is_named_by_its_last_segment() {
    let error = ParseKindError::from_type_and_string("my_crate::drinks::MateKind", "Calabaza".to_owned());
    assert_eq!(error.kind_type_name(), "MateKind");
    assert_eq!(error.given_string(), "Calabaza");
    assert_eq!(error.to_string(), r#"Failed to parse "Calabaza" as MateKind"#);
}

#[test]
fn a_name_without_modules_is_taken_whole() {
    let error = ParseKindError::from_type_and_string("MateKind", "".to_owned());
    assert_eq!(error.kind_type_name(), "MateKind");
    assert_eq!(error.to_string(), r#"Failed to parse "" as MateKind"#);
}

#[test]
fn the_given_text_is_quoted_as_it_is() {
    let error = ParseKindError::from_type_and_string("RoleKind", "say \"hi\"\n".to_owned());
    assert_eq!(error.to_string(), "Failed to parse \"say \"hi\"\n\" as RoleKind");
}

#[test]
fn the_last_segment_follows_the_last_separator() {
    let cases = [
        ("", ""),
        ("a", "a"),
        ("a::b", "b"),
        ("a::b::c", "c"),
        ("a::", ""),
        ("::a", "a"),
        ("::", ""),
        (":", ":"),
        ("a:b", "a:b"),
        // A separator is looked for from the left, and the next one after its end.
        ("a:::b", ":b"),
        ("a::::b", "b"),
        ("a:::::b", ":b"),
        ("Größe::Maß", "Maß"),
    ];
    for (path, segment) in cases {
        assert_eq!(last_segment_of(path), segment, "of {path:?}");
        assert_eq!(last_segment_of(path), path.split("::").last().unwrap(), "of {path:?}");
    }
}
