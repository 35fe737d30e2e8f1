//! The end of a tool call: the entry that it leaves in the history, and the
//! reply to the client.

use crate::error::{ErrorData, McpError};
use crate::tool::response::{Content, ToolResponse};
use crate::{error, json, text};
use vstd::prelude::*;

verus! {

/// What a tool returned, with its metadata serialised for the history and for
/// the reply; a failed serialisation is held as the text that describes it.
pub struct ExecutedCall<M> {
    pub response: ToolResponse<M>,
    /// The metadata as a JSON value.
    pub metadata: Result<serde_json::Value, String>,
    /// The metadata as pretty-printed JSON.
    pub pretty: Result<String, String>,
}

/// The result of a successful call.
#[derive(Debug)]
pub struct CallToolResult {
    pub content: Vec<Content>,
    pub is_error: Option<bool>,
}

impl CallToolResult {
    /// A successful result with the given content
    pub fn success(content: Vec<Content>) -> (res: Self)
        ensures
            res.content == content,
            res.is_error == Some(false),
    {
        CallToolResult { content, is_error: Some(false) }
    }
}

/// What the history is told of a call.
#[derive(Debug)]
pub struct HistoryEntry {
    pub tool_name: String,
    pub arguments: serde_json::Value,
    pub output: serde_json::Value,
    pub duration_ms: Option<u64>,
}

/// How a call ends.
pub struct FinishedCall {
    /// The entry that the call leaves in the history.
    pub entry: HistoryEntry,
    /// The reply to the client.
    pub reply: Result<CallToolResult, ErrorData>,
}

/// A number of milliseconds, cut to what a `u64` holds.
pub open spec fn capped_ms(elapsed_ms: u128) -> u64 {
    if elapsed_ms <= u64::MAX {
        elapsed_ms as u64
    } else {
        u64::MAX
    }
}

/// Whether a value is what the history stores for a serialised one: the value
/// itself, or the empty object in place of one that could not be serialised.
pub open spec fn stands_for(
    stored: serde_json::Value,
    serialised: Result<serde_json::Value, String>,
) -> bool {
    match serialised {
        Ok(value) => stored == value,
        Err(_) => json::is_empty_object(stored),
    }
}

/// The JSON object that the history stores as the output of a failed call.
pub open spec fn is_failure_output(stored: serde_json::Value, err: McpError) -> bool {
    json::object_members(stored) == Some(
        map![
            "error"@ => json::ScalarView::Text(error::description(err)),
            "is_error"@ => json::ScalarView::Bool(true),
        ],
    )
}

/// Whether a history entry has the given name and duration, and the arguments
/// that the call was made with.
pub open spec fn is_entry_of(
    entry: HistoryEntry,
    tool_name: Seq<char>,
    arguments: Result<serde_json::Value, String>,
    elapsed_ms: u128,
) -> bool {
    &&& entry.tool_name@ == tool_name
    &&& stands_for(entry.arguments, arguments)
    &&& entry.duration_ms == Some(capped_ms(elapsed_ms))
}

/// Whether a reply is an error with the given code and message and no data.
pub open spec fn is_error_reply(
    reply: Result<CallToolResult, ErrorData>,
    code: i32,
    message: Seq<char>,
) -> bool {
    reply matches Err(data) && data.code == code && data.message@ == message && data.data is None
}

/// Ends a call to a tool. `arguments` is what the arguments of the call
/// serialise to, `elapsed_ms` how long the tool ran, `outcome` what it returned.
///
/// Every call leaves an entry in the history: with the metadata as output if it
/// succeeded, else with the description of the error. A response whose metadata
/// cannot be printed is answered with an internal error; its entry is that of
/// any successful call.
pub fn finish_call<M>(
    tool_name: &str,
    arguments: Result<serde_json::Value, String>,
    elapsed_ms: u128,
    outcome: Result<ExecutedCall<M>, McpError>,
) -> (res: FinishedCall)
    ensures
        is_entry_of(res.entry, tool_name@, arguments, elapsed_ms),
        match outcome {
            Ok(call) => {
                &&& stands_for(res.entry.output, call.metadata)
                &&& match call.pretty {
                    Ok(pretty) => res.reply matches Ok(result)
                        && crate::tool::response::content_texts(result.content@) == seq![
                        call.response.display@,
                        pretty@,
                    ] && result.is_error == Some(false),
                    Err(cause) => is_error_reply(
                        res.reply,
                        error::INTERNAL_ERROR,
                        "Failed to serialize tool output: "@ + cause@,
                    ),
                }
            },
            Err(err) => {
                &&& is_failure_output(res.entry.output, err)
                &&& is_error_reply(res.reply, error::reply_code(err), error::reply_message(err))
            },
        },
{
    let arguments = json::value_or_empty(arguments);
    let duration_ms: Option<u64> = match u64::try_from(elapsed_ms) {
        Ok(milliseconds) => Some(milliseconds),
        Err(_) => Some(u64::MAX),
    };
    let tool_name = tool_name.to_owned();
    match outcome {
        Ok(call) => {
            let output = call.response.metadata_as_json(call.metadata);
            let reply = match call.response.into_contents(call.pretty) {
                Ok(contents) => Ok(CallToolResult::success(contents)),
                Err(cause) => Err(
                    error::internal_error(
                        text::joined("Failed to serialize tool output: ", cause.as_str()),
                    ),
                ),
            };
            FinishedCall {
                entry: HistoryEntry { tool_name, arguments, output, duration_ms },
                reply,
            }
        },
        Err(err) => {
            let output = json::error_object(err.to_string());
            FinishedCall {
                entry: HistoryEntry { tool_name, arguments, output, duration_ms },
                reply: Err(ErrorData::from(err)),
            }
        },
    }
}

/// What a client reads in a reply: the texts of a result and whether it is an
/// error, or the code, message and data of an error.
pub enum ReplyView {
    Result(Seq<Seq<char>>, Option<bool>),
    Error(i32, Seq<char>, Option<serde_json::Value>),
}

/// What a client reads in a reply.
pub open spec fn reply_view(reply: Result<CallToolResult, ErrorData>) -> ReplyView {
    match reply {
        Ok(result) => ReplyView::Result(
            crate::tool::response::content_texts(result.content@),
            result.is_error,
        ),
        Err(data) => ReplyView::Error(data.code, data.message@, data.data),
    }
}

/// Calls that went alike end alike: where the tool returned the same on the same
/// arguments after the same time, the client reads the same and the entries agree.
pub proof fn law_same_calls_end_alike<M>(
    tool_name: &str,
    arguments: Result<serde_json::Value, String>,
    elapsed_ms: u128,
    outcome: Result<ExecutedCall<M>, McpError>,
    first: FinishedCall,
    second: FinishedCall,
)
    requires
        call_ensures(finish_call::<M>, (tool_name, arguments, elapsed_ms, outcome), first),
        call_ensures(finish_call::<M>, (tool_name, arguments, elapsed_ms, outcome), second),
    ensures
        reply_view(first.reply) == reply_view(second.reply),
        first.entry.tool_name@ == second.entry.tool_name@,
        first.entry.duration_ms == second.entry.duration_ms,
        match arguments {
            Ok(_) => first.entry.arguments == second.entry.arguments,
            Err(_) => json::object_members(first.entry.arguments) == json::object_members(
                second.entry.arguments,
            ),
        },
        if outcome matches Ok(call) && call.metadata is Ok {
            first.entry.output == second.entry.output
        } else {
            json::object_members(first.entry.output) == json::object_members(second.entry.output)
        },
{
}

/// The reply follows from what the tool did. A client is told of success exactly
/// if the tool succeeded and its metadata could be printed, and then gets the
/// display and the metadata, in this order and whole. It is told of every error
/// of the tool, under the code and in the words that belong to that error.
pub proof fn law_reply_follows_from_outcome<M>(
    tool_name: &str,
    arguments: Result<serde_json::Value, String>,
    elapsed_ms: u128,
    outcome: Result<ExecutedCall<M>, McpError>,
    res: FinishedCall,
)
    requires
        call_ensures(finish_call::<M>, (tool_name, arguments, elapsed_ms, outcome), res),
    ensures
        res.reply is Ok <==> (outcome matches Ok(call) && call.pretty is Ok),
        outcome matches Ok(call) ==> {
            &&& call.pretty matches Ok(pretty) ==> (res.reply matches Ok(result) && {
                &&& result.content@.len() == 2
                &&& result.content@[0].text@ == call.response.display@
                &&& result.content@[1].text@ == pretty@
                &&& result.is_error == Some(false)
            })
            &&& call.pretty matches Err(cause) ==> (res.reply matches Err(data) && {
                &&& data.code == -32603
                &&& data.message@ == "Failed to serialize tool output: "@ + cause@
                &&& data.data is None
            })
        },
        outcome matches Err(err) ==> (res.reply matches Err(data) && {
            &&& data.code == error::reply_code(err)
            &&& data.message@ == error::reply_message(err)
            &&& data.data is None
        }),
        outcome matches Err(McpError::InvalidArguments(msg)) ==> (res.reply matches Err(data)
            && data.code == -32602 && data.message@ == msg@),
        outcome matches Err(McpError::ToolNotFound(msg)) ==> (res.reply matches Err(data)
            && data.code == -32601 && data.message@ == msg@),
        outcome matches Err(McpError::ResourceNotFound(msg)) ==> (res.reply matches Err(data)
            && data.code == -32002 && data.message@ == msg@),
        outcome matches Err(err) ==> (err is InvalidArguments || err is ToolNotFound
            || err is ResourceNotFound || (res.reply matches Err(data) && data.code == -32603)),
{
    if let Ok(call) = outcome {
        if let Ok(pretty) = call.pretty {
            let content = res.reply->Ok_0.content@;
            let texts = crate::tool::response::content_texts(content);
            assert(texts.len() == content.len());
            assert(texts[0] == content[0].text@ && texts[1] == content[1].text@);
        }
    }
}

/// Every call is recorded under the name of its tool, with its arguments, with
/// how long it took, and with what it came to: the metadata of a successful call,
/// or the description of the error. What could not be serialised is recorded as
/// an object without members.
pub proof fn law_every_call_is_recorded<M>(
    tool_name: &str,
    arguments: Result<serde_json::Value, String>,
    elapsed_ms: u128,
    outcome: Result<ExecutedCall<M>, McpError>,
    res: FinishedCall,
    described: String,
)
    requires
        call_ensures(finish_call::<M>, (tool_name, arguments, elapsed_ms, outcome), res),
        outcome matches Err(err) ==> call_ensures(McpError::to_string, (&err,), described),
    ensures
        res.entry.tool_name@ == tool_name@,
        res.entry.duration_ms matches Some(duration) && duration == (if elapsed_ms
            <= 0xffff_ffff_ffff_ffff {
            elapsed_ms as int
        } else {
            0xffff_ffff_ffff_ffff
        }),
        arguments matches Ok(value) ==> res.entry.arguments == value,
        arguments is Err ==> (json::object_members(res.entry.arguments) matches Some(members)
            && forall|key: Seq<char>| !members.contains_key(key)),
        outcome matches Ok(call) ==> {
            &&& call.metadata matches Ok(value) ==> res.entry.output == value
            &&& call.metadata is Err ==> (json::object_members(res.entry.output) matches Some(
                members,
            ) && forall|key: Seq<char>| !members.contains_key(key))
        },
        outcome is Err ==> (json::object_members(res.entry.output) matches Some(members) && {
            &&& forall|key: Seq<char>|
                members.contains_key(key) <==> key == "error"@ || key == "is_error"@
            &&& members["error"@] == json::ScalarView::Text(described@)
            &&& members["is_error"@] == json::ScalarView::Bool(true)
        }),
{
    reveal_strlit("error");
    reveal_strlit("is_error");
    assert("error"@.len() != "is_error"@.len());
}

/// A successful result has the given content and is marked as no error.
pub proof fn law_success_is_no_error(content: Vec<Content>, res: CallToolResult)
    requires
        call_ensures(CallToolResult::success, (content,), res),
    ensures
        res.content@ == content@,
        res.is_error == Some(false),
{
}

} // verus!
