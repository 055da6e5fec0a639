use http_server::text::{chars_of, is_within, same_chars};

#[test]
fn chars_of_splits_into_characters() {
    assert_eq!(chars_of("/api"), vec!['/', 'a', 'p', 'i']);
    assert_eq!(chars_of(""), Vec::<char>::new());
    assert_eq!(chars_of("é/"), vec!['é', '/']);
}

#[test]
fn same_chars_compares_contents() {
    assert!(same_chars(&chars_of("/api"), &chars_of("/api")));
    assert!(!same_chars(&chars_of("/api"), &chars_of("/apx")));
    assert!(!same_chars(&chars_of("/api"), &chars_of("/api/")));
}

#[test]
fn is_within_respects_segment_boundaries() {
    let api = chars_of("/api");
    assert!(is_within(&chars_of("/api"), &api));
    assert!(is_within(&chars_of("/api/"), &api));
    assert!(is_within(&chars_of("/api/kernel"), &api));
    assert!(!is_within(&chars_of("/apix"), &api));
    assert!(!is_within(&chars_of("/ap"), &api));
    assert!(!is_within(&chars_of("x/api"), &api));
}
