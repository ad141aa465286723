use mcp_agent::mcp::executor::calculate_retry_delay;
use mcp_agent::mcp::prompts::template::PromptTemplate;
use mcp_agent::mcp::prompts::types::PromptParameters;
use mcp_agent::mcp::resources::utils::{encode_binary, split_uri, validate_uri};

#[test]
fn valid_uris_split_and_rejoin() {
    for uri in ["https://example.com/a", "custom:resource", "file:///path/to/file"] {
        assert!(validate_uri(uri).is_ok());
        let (scheme, path) = split_uri(uri).unwrap();
        let joined = format!("{}{}", scheme, path);
        let joined_with_slash = format!("{}/{}", scheme, path);
        assert!(joined == uri || joined_with_slash == uri);
    }
}

#[test]
fn distinct_bytes_encode_differently() {
    let inputs: Vec<&[u8]> = vec![b"", b"a", b"b", b"ab", b"abc", b"abd", b"\x00", b"\x00\x00"];
    for (i, a) in inputs.iter().enumerate() {
        for (j, b) in inputs.iter().enumerate() {
            assert_eq!(encode_binary(a) == encode_binary(b), i == j);
        }
    }
}

#[test]
fn retry_delays_never_shrink_and_stay_capped() {
    let mut last = 0;
    for attempt in 1..80usize {
        let d = calculate_retry_delay(attempt, 300, 50_000);
        assert!(d >= last);
        assert!(d <= 50_000);
        last = d;
    }
    assert_eq!(last, 50_000);
}

#[test]
fn text_without_placeholders_renders_unchanged() {
    let t = PromptTemplate::new("plain", "Nothing to fill in here { name }.");
    let rendered = t.render(&PromptParameters::from_list(&[("name", "Ada")])).unwrap();
    assert_eq!(rendered.text, "Nothing to fill in here { name }.");
}
