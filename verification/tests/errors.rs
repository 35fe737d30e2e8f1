use kodegen_mcp_tool::error::{
    ErrorData, McpError, INTERNAL_ERROR, INVALID_PARAMS, METHOD_NOT_FOUND, RESOURCE_NOT_FOUND,
};

fn told(err: McpError) -> (i32, String) {
    let data = ErrorData::from(err);
    assert_eq!(data.data, None);
    (data.code, data.message)
}

fn msg() -> String {
    "m".to_string()
}

#[test]
fn codes_are_those_of_the_protocol() {
    assert_eq!(INVALID_PARAMS, -32602);
    assert_eq!(METHOD_NOT_FOUND, -32601);
    assert_eq!(RESOURCE_NOT_FOUND, -32002);
    assert_eq!(INTERNAL_ERROR, -32603);
}

#[test]
fn descriptions_have_a_heading() {
    let cases = [
        (McpError::Authentication(msg()), "Authentication error: m"),
        (McpError::PermissionDenied(msg()), "Permission denied: m"),
        (McpError::InvalidArguments(msg()), "Invalid arguments: m"),
        (McpError::ToolNotFound(msg()), "Tool not found: m"),
        (McpError::ResourceNotFound(msg()), "Resource not found: m"),
        (McpError::ReadOnlyViolation(msg()), "Operation not supported in read-only mode: m"),
        (McpError::RateLimitExceeded, "Rate limit exceeded"),
        (McpError::Network(msg()), "Network error: m"),
        (McpError::Serialization(msg()), "Serialization error: m"),
        (McpError::Io(msg()), "IO error: m"),
        (McpError::SearchIndex(msg()), "Search index error: m"),
        (McpError::Manifest(msg()), "Manifest error: m"),
        (McpError::InvalidUrl(msg()), "Invalid URL: m"),
        (McpError::SearchEngine(msg()), "Search engine error: m"),
        (McpError::Other(msg()), "Other error: m"),
    ];
    for (err, text) in cases {
        assert_eq!(err.to_string(), text);
    }
}

#[test]
fn errors_with_a_code_of_their_own() {
    assert_eq!(told(McpError::InvalidArguments(msg())), (-32602, msg()));
    assert_eq!(told(McpError::ToolNotFound(msg())), (-32601, msg()));
    assert_eq!(told(McpError::ResourceNotFound(msg())), (-32002, msg()));
}

#[test]
fn refusals_are_told_as_unauthorized() {
    let expected = (-32603, "Unauthorized: m".to_string());
    assert_eq!(told(McpError::PermissionDenied(msg())), expected);
    assert_eq!(told(McpError::ReadOnlyViolation(msg())), expected);
}

#[test]
fn search_and_manifest_errors_are_told_without_heading() {
    for err in [
        McpError::SearchIndex(msg()),
        McpError::Manifest(msg()),
        McpError::InvalidUrl(msg()),
        McpError::SearchEngine(msg()),
    ] {
        assert_eq!(told(err), (-32603, msg()));
    }
}

#[test]
fn other_errors_are_told_with_heading() {
    let cases = [
        (McpError::Authentication(msg()), "Authentication error: m"),
        (McpError::RateLimitExceeded, "Rate limit exceeded"),
        (McpError::Network(msg()), "Network error: m"),
        (McpError::Serialization(msg()), "Serialization error: m"),
        (McpError::Io(msg()), "IO error: m"),
        (McpError::Other(msg()), "Other error: m"),
    ];
    for (err, text) in cases {
        assert_eq!(told(err), (-32603, text.to_string()));
    }
}

#[test]
fn helpers_take_any_text() {
    assert!(matches!(McpError::search_index("m"), McpError::SearchIndex(m) if m == "m"));
    assert!(matches!(McpError::manifest(msg()), McpError::Manifest(m) if m == "m"));
    assert!(matches!(McpError::invalid_url('m'), McpError::InvalidUrl(m) if m == "m"));
    assert!(matches!(McpError::search_engine("m"), McpError::SearchEngine(m) if m == "m"));
    assert!(matches!(McpError::invalid_arguments("m"), McpError::InvalidArguments(m) if m == "m"));
    assert!(matches!(McpError::resource_not_found("m"), McpError::ResourceNotFound(m) if m == "m"));
}
