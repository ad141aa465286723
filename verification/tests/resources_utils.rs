use mcp_agent::mcp::resources::error::ResourceError;
use mcp_agent::mcp::resources::utils::{
    components_of, has_base, path_safety_verdict, resolve_path,
    decode_binary, encode_binary, guess_mime_type, is_text_mime_type, split_uri, validate_uri,
};

#[test]
fn test_validate_uri() {
    assert!(validate_uri("https://example.com").is_ok());
    assert!(validate_uri("file:///path/to/file").is_ok());
    assert!(validate_uri("git://github.com/user/repo").is_ok());
    assert!(validate_uri("custom:resource").is_ok());
    assert!(validate_uri("invalid uri").is_err());
    assert!(validate_uri("").is_err());
}

#[test]
fn test_split_uri() {
    let (scheme, path) = split_uri("file:///path/to/file").unwrap();
    assert_eq!(scheme, "file:");
    assert_eq!(path, "//path/to/file");

    let (scheme, path) = split_uri("https://example.com").unwrap();
    assert_eq!(scheme, "https:");
    assert_eq!(path, "//example.com");

    assert!(split_uri("invalid").is_err());
}

#[test]
fn test_is_text_mime_type() {
    assert!(is_text_mime_type("text/plain"));
    assert!(is_text_mime_type("text/markdown"));
    assert!(is_text_mime_type("application/json"));
    assert!(is_text_mime_type("application/yaml"));
    assert!(!is_text_mime_type("image/png"));
    assert!(!is_text_mime_type("application/octet-stream"));
}

#[test]
fn invalid_uri_error_names_the_uri() {
    assert_eq!(validate_uri("a b:c"), Err(ResourceError::InvalidUri("a b:c".to_string())));
    assert_eq!(validate_uri(":nothing"), Err(ResourceError::InvalidUri(":nothing".to_string())));
    assert_eq!(split_uri("x:a\nb"), Err(ResourceError::InvalidUri("x:a\nb".to_string())));
    assert_eq!(split_uri("x:a b").unwrap(), ("x:".to_string(), "a b".to_string()));
}

#[test]
fn mime_guess_by_extension() {
    assert_eq!(guess_mime_type("notes.txt"), Some("text/plain".to_string()));
    assert_eq!(guess_mime_type("no_extension"), None);
}

#[test]
fn base64_round_trip() {
    assert_eq!(encode_binary(b"Man"), "TWFu");
    assert_eq!(encode_binary(b"Ma"), "TWE=");
    assert_eq!(encode_binary(b"M"), "TQ==");
    assert_eq!(decode_binary("TWFu").unwrap(), b"Man".to_vec());
    assert!(matches!(decode_binary("T"), Err(ResourceError::DeserializationError(_))));
}

#[test]
fn resolved_paths_step_out_of_parent_references() {
    assert_eq!(resolve_path("/srv/res", "docs/./a.txt"), "/srv/res/docs/a.txt");
    assert_eq!(resolve_path("/srv/res", "../secret.txt"), "/srv/secret.txt");
    assert_eq!(resolve_path("/srv/res", "a/../../../../x"), "/x");
    assert_eq!(resolve_path("res", "../../x"), "../x");
    assert_eq!(resolve_path("/srv/res", "/etc//passwd"), "/etc/passwd");
}

#[test]
fn missing_paths_outside_the_base_are_refused() {
    let verdict = path_safety_verdict("/srv/res", "../secret.txt", Ok("/srv/res".to_string()), Err("no such file".to_string()));
    assert!(matches!(verdict, Err(ResourceError::SecurityViolation(_))));
    let verdict = path_safety_verdict("/srv/res", "new/file.txt", Ok("/srv/res".to_string()), Err("no such file".to_string()));
    assert_eq!(verdict, Ok(()));
}

#[test]
fn base_prefixes_are_compared_by_component_as_std_does() {
    let paths = ["/srv/res", "/srv/res/", "/srv/resources", "/srv//res/./a", "srv/res", "./a/b", "a/./b", "/", "", ".", "../x", "/srv/res/../x"];
    for p in paths.iter() {
        for b in paths.iter() {
            assert_eq!(has_base(p, b), std::path::Path::new(p).starts_with(b), "{} under {}", p, b);
        }
        let ours = components_of(p);
        let std_components: Vec<String> = std::path::Path::new(p)
            .components()
            .map(|c| c.as_os_str().to_string_lossy().into_owned())
            .collect();
        assert_eq!(ours, std_components, "components of {}", p);
    }
}
