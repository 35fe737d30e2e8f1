use http::{HeaderMap, HeaderValue};
use kodegen_mcp_tool::error::McpError;
use kodegen_mcp_tool::json::{empty_object, error_object, value_or_empty};
use kodegen_mcp_tool::tool::context::{progress_failure, progress_token, RequestId};
use kodegen_mcp_tool::tool::handler::{finish_call, CallToolResult, ExecutedCall};
use kodegen_mcp_tool::tool::metadata::{help_name, prompt_reply, PromptArgument};
use kodegen_mcp_tool::tool::response::{Content, ToolResponse};
use kodegen_mcp_tool::tool::route::{
    arc_into_prompt_route, arc_into_tool_route, into_prompt_route, into_tool_route,
};
use kodegen_mcp_tool::tool::schema::{
    output_key, validate_schema, PanicPayload, SchemaCache, SchemaKind, Schemas,
};
use kodegen_mcp_tool::tool::{prompt_metadata, tool_metadata};
use kodegen_mcp_tool::{Tool, ToolExecutionContext};
use serde_json::Value;
use std::borrow::Cow;
use std::sync::Arc;
use tokio_util::sync::CancellationToken;

struct Echo;

impl Tool for Echo {
    fn name() -> &'static str {
        "echo"
    }

    fn description() -> &'static str {
        "Echoes back your message"
    }

    fn prompt_arguments() -> Vec<PromptArgument> {
        Vec::new()
    }
}

struct Delete;

impl Tool for Delete {
    fn name() -> &'static str {
        "delete"
    }

    fn description() -> &'static str {
        "Deletes a file"
    }

    fn read_only() -> bool {
        false
    }

    fn destructive() -> bool {
        true
    }

    fn idempotent() -> bool {
        false
    }

    fn open_world() -> bool {
        true
    }

    fn prompt_name() -> Cow<'static, str> {
        Cow::Borrowed("how_to_delete")
    }

    fn prompt_description() -> &'static str {
        "When to delete"
    }

    fn prompt_arguments() -> Vec<PromptArgument> {
        vec![PromptArgument {
            name: "path".to_string(),
            title: None,
            description: None,
            required: Some(true),
        }]
    }
}

fn context(id: RequestId) -> ToolExecutionContext<u8> {
    ToolExecutionContext::new(9, CancellationToken::new(), id)
}

fn texts(contents: &[Content]) -> Vec<&str> {
    contents.iter().map(|content| content.text.as_str()).collect()
}

fn object(members: Vec<(&str, Value)>) -> Value {
    let mut map = serde_json::Map::new();
    for (key, value) in members {
        map.insert(key.to_string(), value);
    }
    Value::Object(map)
}

#[test]
fn annotations_default_to_a_safe_tool() {
    let metadata = tool_metadata::<Echo, u8>(Arc::new(1), Arc::new(2));
    assert_eq!(metadata.name, "echo");
    assert_eq!(metadata.title, None);
    assert_eq!(metadata.description.as_deref(), Some("Echoes back your message"));
    assert_eq!(*metadata.input_schema, 1);
    assert_eq!(metadata.output_schema, Some(Arc::new(2)));
    let annotations = metadata.annotations.unwrap();
    assert_eq!(annotations.title, None);
    assert_eq!(annotations.read_only_hint, Some(true));
    assert_eq!(annotations.destructive_hint, Some(false));
    assert_eq!(annotations.idempotent_hint, Some(true));
    assert_eq!(annotations.open_world_hint, Some(false));
}

#[test]
fn annotations_follow_the_tool() {
    let annotations = tool_metadata::<Delete, u8>(Arc::new(1), Arc::new(2)).annotations.unwrap();
    assert_eq!(annotations.read_only_hint, Some(false));
    assert_eq!(annotations.destructive_hint, Some(true));
    assert_eq!(annotations.idempotent_hint, Some(false));
    assert_eq!(annotations.open_world_hint, Some(true));
}

#[test]
fn prompt_is_announced_under_the_help_name() {
    assert_eq!(help_name("git_clone"), "git_clone_help");
    let metadata = prompt_metadata::<Echo>();
    assert_eq!(metadata.name, "echo_help");
    assert_eq!(metadata.title, None);
    assert_eq!(metadata.description.as_deref(), Some("Echoes back your message"));
    assert!(metadata.arguments.unwrap().is_empty());
}

#[test]
fn prompt_announcement_follows_the_tool() {
    let metadata = prompt_metadata::<Delete>();
    assert_eq!(metadata.name, "how_to_delete");
    assert_eq!(metadata.description.as_deref(), Some("When to delete"));
    let arguments = metadata.arguments.unwrap();
    assert_eq!(arguments.len(), 1);
    assert_eq!(arguments[0].name, "path");
    assert_eq!(arguments[0].required, Some(true));
}

#[test]
fn prompt_replies() {
    let reply = prompt_reply("about", Ok(vec!["hello"])).unwrap();
    assert_eq!(reply.description.as_deref(), Some("about"));
    assert_eq!(reply.messages, vec!["hello"]);
    // A prompt that failed is an internal error, whatever the error is.
    let failed = prompt_reply::<u8>("about", Err(McpError::InvalidArguments("x".to_string())));
    let data = failed.unwrap_err();
    assert_eq!(data.code, -32603);
    assert_eq!(data.message, "Invalid arguments: x");
    assert_eq!(data.data, None);
}

#[test]
fn responses_hold_display_and_metadata() {
    let response = ToolResponse::new("shown", 5);
    assert_eq!(response.display, "shown");
    assert_eq!(response.metadata, 5);
    let copy = response.clone();
    assert_eq!(copy.display, "shown");
    assert_eq!(copy.metadata, 5);
    let silent = ToolResponse::empty_display(6);
    assert_eq!(silent.display, "");
    assert_eq!(silent.metadata, 6);
}

#[test]
fn contents_are_display_then_metadata() {
    let contents = ToolResponse::new("shown", 5).into_contents(Ok::<_, u8>("{}".to_string()));
    assert_eq!(texts(&contents.unwrap()), vec!["shown", "{}"]);
    let silent = ToolResponse::empty_display(5).into_contents(Ok::<_, u8>("5".to_string()));
    assert_eq!(texts(&silent.unwrap()), vec!["", "5"]);
    assert!(matches!(ToolResponse::new("shown", 5).into_contents(Err(7)), Err(7)));
}

#[test]
fn metadata_falls_back_to_the_empty_object() {
    let response = ToolResponse::new("shown", 5);
    assert_eq!(response.metadata_as_json(Ok::<_, u8>(Value::from(5))), Value::from(5));
    assert_eq!(response.metadata_as_json(Err(0)), object(vec![]));
    assert_eq!(value_or_empty(Err("no")), object(vec![]));
    assert_eq!(value_or_empty(Ok::<_, u8>(Value::Null)), Value::Null);
}

#[test]
fn objects_have_exactly_their_members() {
    assert_eq!(empty_object(), object(vec![]));
    let expected = object(vec![
        ("error", Value::String("boom".to_string())),
        ("is_error", Value::Bool(true)),
    ]);
    assert_eq!(error_object("boom".to_string()), expected);
}

#[test]
fn successful_call_is_recorded_and_answered() {
    let finished = finish_call(
        "echo",
        Ok(Value::from(1)),
        1234,
        Ok(ExecutedCall {
            response: ToolResponse::new("shown", ()),
            metadata: Ok(Value::from(2)),
            pretty: Ok("2".to_string()),
        }),
    );
    let entry = finished.entry;
    assert_eq!(entry.tool_name, "echo");
    assert_eq!(entry.arguments, Value::from(1));
    assert_eq!(entry.output, Value::from(2));
    assert_eq!(entry.duration_ms, Some(1234));
    let result = finished.reply.unwrap();
    assert_eq!(texts(&result.content), vec!["shown", "2"]);
    assert_eq!(result.is_error, Some(false));
    assert_eq!(CallToolResult::success(Vec::new()).is_error, Some(false));
}

#[test]
fn unserialisable_arguments_are_recorded_as_empty() {
    let finished = finish_call(
        "echo",
        Err("no".to_string()),
        0,
        Ok(ExecutedCall {
            response: ToolResponse::empty_display(()),
            metadata: Err("no".to_string()),
            pretty: Ok("x".to_string()),
        }),
    );
    let entry = finished.entry;
    assert_eq!(entry.arguments, object(vec![]));
    assert_eq!(entry.output, object(vec![]));
    assert_eq!(entry.duration_ms, Some(0));
}

#[test]
fn unprintable_output_is_an_error_and_leaves_an_entry() {
    let finished = finish_call(
        "echo",
        Ok(Value::Null),
        5,
        Ok(ExecutedCall {
            response: ToolResponse::new("shown", ()),
            metadata: Ok(Value::from(8)),
            pretty: Err("key must be a string".to_string()),
        }),
    );
    assert_eq!(finished.entry.tool_name, "echo");
    assert_eq!(finished.entry.arguments, Value::Null);
    assert_eq!(finished.entry.output, Value::from(8));
    assert_eq!(finished.entry.duration_ms, Some(5));
    let data = finished.reply.unwrap_err();
    assert_eq!(data.code, -32603);
    assert_eq!(data.message, "Failed to serialize tool output: key must be a string");
    assert_eq!(data.data, None);
}

#[test]
fn failed_call_is_recorded_with_its_description() {
    let err = McpError::InvalidArguments("missing path".to_string());
    let finished = finish_call::<()>("delete", Ok(Value::Null), u128::MAX, Err(err));
    let entry = finished.entry;
    assert_eq!(entry.tool_name, "delete");
    assert_eq!(entry.duration_ms, Some(u64::MAX));
    let expected = object(vec![
        ("error", Value::String("Invalid arguments: missing path".to_string())),
        ("is_error", Value::Bool(true)),
    ]);
    assert_eq!(entry.output, expected);
    let data = finished.reply.unwrap_err();
    assert_eq!(data.code, -32602);
    assert_eq!(data.message, "missing path");
}

#[test]
fn schema_validation_reports_the_panic() {
    assert_eq!(validate_schema("echo", Ok(())), Ok(()));
    let report = |payload| validate_schema("echo", Err(payload)).unwrap_err();
    assert_eq!(
        report(PanicPayload::Literal("boom".to_string())),
        "Schema generation failed for tool 'echo': boom"
    );
    assert_eq!(
        report(PanicPayload::Formatted("boom 2".to_string())),
        "Schema generation failed for tool 'echo': boom 2"
    );
    assert_eq!(
        report(PanicPayload::Opaque),
        "Schema generation failed for tool 'echo': Unknown panic during schema generation"
    );
}

#[test]
fn stored_schemas_are_shared() {
    let mut cache: SchemaCache<u8> = SchemaCache::new();
    assert!(cache.lookup("echo").is_none());
    let stored = cache.store("echo".to_string(), 4);
    assert_eq!(*stored, 4);
    assert!(Arc::ptr_eq(&stored, &cache.lookup("echo").unwrap()));
    assert!(cache.lookup("other").is_none());
    cache.store("other".to_string(), 5);
    assert_eq!(*cache.lookup("echo").unwrap(), 4);
    cache.store("echo".to_string(), 6);
    assert_eq!(*cache.lookup("echo").unwrap(), 6);
}

#[test]
fn output_schemas_have_keys_of_their_own() {
    assert_eq!(output_key("echo"), "echo_output");
    assert!(output_key("a") != output_key("a_output"));
}

#[test]
fn schemas_are_generated_once() {
    let mut schemas: Schemas<u8> = Schemas::new();
    let first = schemas.request(SchemaKind::Input, "echo", || 4);
    assert_eq!(*first, 4);
    for (number, name) in ["delete", "echo_output", "search"].into_iter().enumerate() {
        schemas.request(SchemaKind::Input, name, || number as u8);
        schemas.request(SchemaKind::Output, name, || number as u8);
    }
    let again = schemas.request(SchemaKind::Input, "echo", || panic!("generated twice"));
    assert!(Arc::ptr_eq(&first, &again));
    assert!(Arc::ptr_eq(&first, &schemas.lookup(SchemaKind::Input, "echo").unwrap()));
}

#[test]
fn stored_schema_is_found_after_other_stores() {
    let mut schemas: Schemas<u8> = Schemas::new();
    let kept = schemas.store(SchemaKind::Output, "echo", 1);
    schemas.store(SchemaKind::Input, "echo", 2);
    schemas.store(SchemaKind::Output, "delete", 3);
    assert!(Arc::ptr_eq(&kept, &schemas.lookup(SchemaKind::Output, "echo").unwrap()));
    schemas.store(SchemaKind::Output, "echo", 5);
    assert_eq!(*schemas.lookup(SchemaKind::Output, "echo").unwrap(), 5);
}

#[test]
fn output_schemas_have_a_namespace_of_their_own() {
    let mut schemas: Schemas<u8> = Schemas::new();
    // The output key of the one is the name of the other.
    schemas.request(SchemaKind::Output, "x", || 1);
    assert!(schemas.lookup(SchemaKind::Input, "x_output").is_none());
    schemas.request(SchemaKind::Input, "x_output", || 2);
    schemas.request(SchemaKind::Input, "x", || 3);
    schemas.request(SchemaKind::Output, "x_output", || 4);
    assert_eq!(*schemas.lookup(SchemaKind::Output, "x").unwrap(), 1);
    assert_eq!(*schemas.lookup(SchemaKind::Input, "x_output").unwrap(), 2);
    assert_eq!(*schemas.lookup(SchemaKind::Input, "x").unwrap(), 3);
    assert_eq!(*schemas.lookup(SchemaKind::Output, "x_output").unwrap(), 4);
}

#[test]
fn both_forms_of_a_tool_route_agree() {
    let owned = into_tool_route::<Delete, u8, u8>(7, Arc::new(1), Arc::new(2));
    let shared = Arc::new(7);
    let route = arc_into_tool_route::<Delete, u8, u8>(shared.clone(), Arc::new(1), Arc::new(2));
    // The very object that was handed over.
    assert!(Arc::ptr_eq(&route.tool, &shared));
    assert_eq!(*owned.tool, 7);
    assert_eq!(owned.metadata.name, "delete");
    assert_eq!(format!("{:?}", owned.metadata), format!("{:?}", route.metadata));
}

#[test]
fn both_forms_of_a_prompt_route_agree() {
    let owned = into_prompt_route::<Delete, u8>(7);
    let shared = Arc::new(7);
    let route = arc_into_prompt_route::<Delete, u8>(shared.clone());
    assert!(Arc::ptr_eq(&route.tool, &shared));
    assert_eq!(*owned.tool, 7);
    assert_eq!(owned.metadata.name, "how_to_delete");
    assert_eq!(format!("{:?}", owned.metadata), format!("{:?}", route.metadata));
}

#[test]
fn context_without_headers_knows_only_the_request() {
    let ctx = context(RequestId::Number(3));
    assert_eq!(ctx.connection_id(), None);
    assert_eq!(ctx.pwd(), None);
    assert_eq!(ctx.git_root(), None);
    assert_eq!(*ctx.peer(), 9);
    assert!(matches!(ctx.request_id(), RequestId::Number(3)));
    let plain = ToolExecutionContext::from_context_part(
        None,
        1u8,
        CancellationToken::new(),
        RequestId::Text("r".to_string()),
    );
    assert_eq!(plain.connection_id(), None);
    assert!(matches!(plain.request_id(), RequestId::Text(text) if text == "r"));
}

#[test]
fn context_reads_its_headers() {
    let mut headers = HeaderMap::new();
    headers.insert("X-Kodegen-Connection-Id", HeaderValue::from_static("c-1"));
    headers.append("x-kodegen-connection-id", HeaderValue::from_static("c-2"));
    headers.insert("x-kodegen-pwd", HeaderValue::from_static("/home/me\twork"));
    headers.insert("x-kodegen-gitroot", HeaderValue::from_bytes(b"/r\xc3\xa9po").unwrap());
    let ctx = ToolExecutionContext::from_context_part(
        Some(&headers),
        1u8,
        CancellationToken::new(),
        RequestId::Number(0),
    );
    assert_eq!(ctx.connection_id(), Some("c-1"));
    assert_eq!(ctx.pwd(), Some("/home/me\twork"));
    // A value that is not plain ASCII is passed over.
    assert_eq!(ctx.git_root(), None);
    let empty = HeaderMap::new();
    let bare = ToolExecutionContext::from_context_part(
        Some(&empty),
        1u8,
        CancellationToken::new(),
        RequestId::Number(0),
    );
    assert_eq!(bare.connection_id(), None);
    let copy = ctx.clone();
    assert_eq!(copy.connection_id(), Some("c-1"));
    assert_eq!(copy.pwd(), Some("/home/me\twork"));
}

#[test]
fn git_root_header_is_read() {
    let mut headers = HeaderMap::new();
    headers.insert("x-kodegen-gitroot", HeaderValue::from_static("/repo"));
    headers.insert("x-kodegen-pwd", HeaderValue::from_static(""));
    let ctx = ToolExecutionContext::from_context_part(
        Some(&headers),
        1u8,
        CancellationToken::new(),
        RequestId::Number(0),
    );
    assert_eq!(ctx.git_root(), Some("/repo"));
    assert_eq!(ctx.pwd(), Some(""));
    assert_eq!(ctx.connection_id(), None);
}

#[test]
fn cancellation_is_seen_through_every_handle() {
    let ctx = context(RequestId::Number(3));
    let copy = ctx.clone();
    assert!(!ctx.is_cancelled());
    ctx.cancellation_token().cancel();
    assert!(ctx.is_cancelled());
    assert!(copy.is_cancelled());
}

#[test]
fn progress_tokens_name_the_request() {
    assert_eq!(progress_token(&RequestId::Number(17)), "tool_17");
    assert_eq!(progress_token(&RequestId::Number(-4)), "tool_-4");
    assert_eq!(progress_token(&RequestId::Text("abc".to_string())), "tool_abc");
    assert!(progress_token(&RequestId::Number(1)) != progress_token(&RequestId::Number(11)));
}

#[test]
fn progress_notifications() {
    let ctx = context(RequestId::Number(8));
    let streamed = ctx.stream(0.0, "output\n");
    assert_eq!(streamed.progress_token, "tool_8");
    assert_eq!(streamed.progress, 0.0);
    assert_eq!(streamed.total, None);
    assert_eq!(streamed.message.as_deref(), Some("output\n"));
    let counted = ctx.progress(50.0, 100.0);
    assert_eq!((counted.progress, counted.total), (50.0, Some(100.0)));
    assert_eq!(counted.message, None);
    let both = ctx.update(1.0, 2.0, "half");
    assert_eq!((both.progress, both.total), (1.0, Some(2.0)));
    assert_eq!(both.message.as_deref(), Some("half"));
    let open = ctx.notify(3.5, None, None);
    assert_eq!((open.progress, open.total), (3.5, None));
    assert_eq!(open.message, None);
    assert_eq!(open.progress_token, "tool_8");
}

#[test]
fn failed_notifications_are_described() {
    let err = progress_failure("closed");
    assert_eq!(err.to_string(), "Other error: Failed to send progress notification: closed");
}
