use url_shortener::utils::{generate_short_id, is_valid_url};

#[test]
fn test_generate_short_id() {
    let id1 = generate_short_id();
    let id2 = generate_short_id();
    assert_eq!(id1.len(), 8);
    assert_eq!(id2.len(), 8);
    assert_ne!(id1, id2);
}

#[test]
fn test_is_valid_url() {
    assert!(is_valid_url("https://example.com"));
    assert!(is_valid_url("http://example.com"));
    assert!(is_valid_url("https://example.com/path?query=value"));
    assert!(!is_valid_url("not-a-url"));
    assert!(!is_valid_url(""));
}

#[test]
fn generated_ids_use_the_safe_alphabet() {
    for _ in 0..200 {
        let id = generate_short_id();
        assert_eq!(id.chars().count(), 8);
        assert!(id.chars().all(|c| c.is_ascii_alphanumeric() || c == '_' || c == '-'));
    }
}

#[test]
fn url_without_scheme_or_authority_is_invalid() {
    assert!(!is_valid_url("example.com"));
    assert!(!is_valid_url("//example.com"));
    assert!(!is_valid_url("https://"));
    assert!(is_valid_url("ftp://files.example.org/a.txt"));
}
