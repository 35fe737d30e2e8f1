//! Errors of tool execution, and what a client is told of them.

use crate::text;
use vstd::prelude::*;

verus! {

/// The error code for a resource that does not exist.
pub const RESOURCE_NOT_FOUND: i32 = -32002;

/// The error code for a method that does not exist.
pub const METHOD_NOT_FOUND: i32 = -32601;

/// The error code for invalid parameters.
pub const INVALID_PARAMS: i32 = -32602;

/// The error code for every other failure.
pub const INTERNAL_ERROR: i32 = -32603;

/// An error of a tool. The variants that stand for a failure of another library
/// hold the text that it describes itself with.
#[derive(Debug)]
pub enum McpError {
    Authentication(String),
    PermissionDenied(String),
    InvalidArguments(String),
    ToolNotFound(String),
    ResourceNotFound(String),
    ReadOnlyViolation(String),
    RateLimitExceeded,
    Network(String),
    /// A value could not be turned into JSON or read from it.
    Serialization(String),
    /// An input or output operation failed.
    Io(String),
    /// Search index error (missing, corrupted, query execution failed)
    SearchIndex(String),
    /// Manifest file error (missing, parse error, write failed)
    Manifest(String),
    /// Invalid URL (parse error, missing host, invalid format)
    InvalidUrl(String),
    /// Search engine initialization or operation error
    SearchEngine(String),
    Other(String),
}

/// The text that introduces an error of this variant.
pub open spec fn heading(err: McpError) -> Seq<char> {
    match err {
        McpError::Authentication(_) => "Authentication error: "@,
        McpError::PermissionDenied(_) => "Permission denied: "@,
        McpError::InvalidArguments(_) => "Invalid arguments: "@,
        McpError::ToolNotFound(_) => "Tool not found: "@,
        McpError::ResourceNotFound(_) => "Resource not found: "@,
        McpError::ReadOnlyViolation(_) => "Operation not supported in read-only mode: "@,
        McpError::RateLimitExceeded => "Rate limit exceeded"@,
        McpError::Network(_) => "Network error: "@,
        McpError::Serialization(_) => "Serialization error: "@,
        McpError::Io(_) => "IO error: "@,
        McpError::SearchIndex(_) => "Search index error: "@,
        McpError::Manifest(_) => "Manifest error: "@,
        McpError::InvalidUrl(_) => "Invalid URL: "@,
        McpError::SearchEngine(_) => "Search engine error: "@,
        McpError::Other(_) => "Other error: "@,
    }
}

/// The message that an error holds.
pub open spec fn detail(err: McpError) -> Seq<char> {
    match err {
        McpError::Authentication(msg) => msg@,
        McpError::PermissionDenied(msg) => msg@,
        McpError::InvalidArguments(msg) => msg@,
        McpError::ToolNotFound(msg) => msg@,
        McpError::ResourceNotFound(msg) => msg@,
        McpError::ReadOnlyViolation(msg) => msg@,
        McpError::RateLimitExceeded => Seq::empty(),
        McpError::Network(msg) => msg@,
        McpError::Serialization(msg) => msg@,
        McpError::Io(msg) => msg@,
        McpError::SearchIndex(msg) => msg@,
        McpError::Manifest(msg) => msg@,
        McpError::InvalidUrl(msg) => msg@,
        McpError::SearchEngine(msg) => msg@,
        McpError::Other(msg) => msg@,
    }
}

/// The text that describes an error: its heading, then its message.
pub open spec fn description(err: McpError) -> Seq<char> {
    heading(err) + detail(err)
}

/// The code that a client is told.
pub open spec fn reply_code(err: McpError) -> i32 {
    match err {
        McpError::InvalidArguments(_) => INVALID_PARAMS,
        McpError::ToolNotFound(_) => METHOD_NOT_FOUND,
        McpError::ResourceNotFound(_) => RESOURCE_NOT_FOUND,
        _ => INTERNAL_ERROR,
    }
}

/// The message that a client is told. Errors whose code or place says enough are
/// told without their heading; a refusal is told as unauthorized.
pub open spec fn reply_message(err: McpError) -> Seq<char> {
    match err {
        McpError::InvalidArguments(msg) => msg@,
        McpError::ToolNotFound(msg) => msg@,
        McpError::ResourceNotFound(msg) => msg@,
        McpError::PermissionDenied(msg) => "Unauthorized: "@ + msg@,
        McpError::ReadOnlyViolation(msg) => "Unauthorized: "@ + msg@,
        McpError::SearchIndex(msg) => msg@,
        McpError::Manifest(msg) => msg@,
        McpError::InvalidUrl(msg) => msg@,
        McpError::SearchEngine(msg) => msg@,
        _ => description(err),
    }
}

impl McpError {
    /// Helper to create search index error
    pub fn search_index<S: Into<String>>(msg: S) -> (res: Self)
        ensures
            res matches McpError::SearchIndex(text) && call_ensures(
                <S as Into<String>>::into,
                (msg,),
                text,
            ),
    {
        McpError::SearchIndex(msg.into())
    }

    /// Helper to create manifest error
    pub fn manifest<S: Into<String>>(msg: S) -> (res: Self)
        ensures
            res matches McpError::Manifest(text) && call_ensures(
                <S as Into<String>>::into,
                (msg,),
                text,
            ),
    {
        McpError::Manifest(msg.into())
    }

    /// Helper to create invalid URL error
    pub fn invalid_url<S: Into<String>>(msg: S) -> (res: Self)
        ensures
            res matches McpError::InvalidUrl(text) && call_ensures(
                <S as Into<String>>::into,
                (msg,),
                text,
            ),
    {
        McpError::InvalidUrl(msg.into())
    }

    /// Helper to create search engine error
    pub fn search_engine<S: Into<String>>(msg: S) -> (res: Self)
        ensures
            res matches McpError::SearchEngine(text) && call_ensures(
                <S as Into<String>>::into,
                (msg,),
                text,
            ),
    {
        McpError::SearchEngine(msg.into())
    }

    /// Helper to create invalid arguments error
    pub fn invalid_arguments<S: Into<String>>(msg: S) -> (res: Self)
        ensures
            res matches McpError::InvalidArguments(text) && call_ensures(
                <S as Into<String>>::into,
                (msg,),
                text,
            ),
    {
        McpError::InvalidArguments(msg.into())
    }

    /// Helper to create resource not found error
    pub fn resource_not_found<S: Into<String>>(msg: S) -> (res: Self)
        ensures
            res matches McpError::ResourceNotFound(text) && call_ensures(
                <S as Into<String>>::into,
                (msg,),
                text,
            ),
    {
        McpError::ResourceNotFound(msg.into())
    }

    /// The text that describes the error
    pub fn to_string(&self) -> (res: String)
        ensures
            res@ == description(*self),
    {
        match self {
            McpError::Authentication(msg) => text::joined("Authentication error: ", msg.as_str()),
            McpError::PermissionDenied(msg) => text::joined("Permission denied: ", msg.as_str()),
            McpError::InvalidArguments(msg) => text::joined("Invalid arguments: ", msg.as_str()),
            McpError::ToolNotFound(msg) => text::joined("Tool not found: ", msg.as_str()),
            McpError::ResourceNotFound(msg) => text::joined("Resource not found: ", msg.as_str()),
            McpError::ReadOnlyViolation(msg) => text::joined(
                "Operation not supported in read-only mode: ",
                msg.as_str(),
            ),
            McpError::RateLimitExceeded => {
                let text = "Rate limit exceeded".to_owned();
                assert(text@ + Seq::<char>::empty() == text@);
                text
            },
            McpError::Network(msg) => text::joined("Network error: ", msg.as_str()),
            McpError::Serialization(msg) => text::joined("Serialization error: ", msg.as_str()),
            McpError::Io(msg) => text::joined("IO error: ", msg.as_str()),
            McpError::SearchIndex(msg) => text::joined("Search index error: ", msg.as_str()),
            McpError::Manifest(msg) => text::joined("Manifest error: ", msg.as_str()),
            McpError::InvalidUrl(msg) => text::joined("Invalid URL: ", msg.as_str()),
            McpError::SearchEngine(msg) => text::joined("Search engine error: ", msg.as_str()),
            McpError::Other(msg) => text::joined("Other error: ", msg.as_str()),
        }
    }
}

/// What a client is told of a failure.
#[derive(Debug)]
pub struct ErrorData {
    /// The error code.
    pub code: i32,
    /// A short description of the failure.
    pub message: String,
    /// Further information.
    pub data: Option<serde_json::Value>,
}

/// `rmcp::ErrorData::invalid_params`, called without further information: the
/// code is that of invalid parameters, the message is the given one.
#[verifier::external_body]
fn invalid_params(message: String) -> (res: ErrorData)
    ensures
        res.code == INVALID_PARAMS,
        res.message@ == message@,
        res.data is None,
{
    let built = rmcp::ErrorData::invalid_params(message, None);
    ErrorData { code: built.code.0, message: built.message.into_owned(), data: built.data }
}

/// `rmcp::ErrorData::new`, called with the code of a missing method and without
/// further information: the message is the given one.
#[verifier::external_body]
fn method_not_found(message: String) -> (res: ErrorData)
    ensures
        res.code == METHOD_NOT_FOUND,
        res.message@ == message@,
        res.data is None,
{
    let code = rmcp::model::ErrorCode::METHOD_NOT_FOUND;
    let built = rmcp::ErrorData::new(code, message, None);
    ErrorData { code: built.code.0, message: built.message.into_owned(), data: built.data }
}

/// `rmcp::ErrorData::resource_not_found`, called without further information:
/// the code is that of a missing resource, the message is the given one.
#[verifier::external_body]
fn resource_not_found(message: String) -> (res: ErrorData)
    ensures
        res.code == RESOURCE_NOT_FOUND,
        res.message@ == message@,
        res.data is None,
{
    let built = rmcp::ErrorData::resource_not_found(message, None);
    ErrorData { code: built.code.0, message: built.message.into_owned(), data: built.data }
}

/// `rmcp::ErrorData::internal_error`, called without further information: the
/// code is that of an internal error, the message is the given one.
#[verifier::external_body]
pub(crate) fn internal_error(message: String) -> (res: ErrorData)
    ensures
        res.code == INTERNAL_ERROR,
        res.message@ == message@,
        res.data is None,
{
    let built = rmcp::ErrorData::internal_error(message, None);
    ErrorData { code: built.code.0, message: built.message.into_owned(), data: built.data }
}

impl vstd::std_specs::convert::FromSpecImpl<McpError> for ErrorData {
    open spec fn obeys_from_spec() -> bool {
        false
    }

    open spec fn from_spec(err: McpError) -> Self {
        arbitrary()
    }
}

impl From<McpError> for ErrorData {
    fn from(err: McpError) -> (res: Self)
        ensures
            res.code == reply_code(err),
            res.message@ == reply_message(err),
            res.data is None,
    {
        match err {
            McpError::InvalidArguments(msg) => invalid_params(msg),
            McpError::ToolNotFound(msg) => method_not_found(msg),
            McpError::ResourceNotFound(msg) => resource_not_found(msg),
            McpError::PermissionDenied(msg) => {
                internal_error(text::joined("Unauthorized: ", msg.as_str()))
            },
            McpError::ReadOnlyViolation(msg) => {
                internal_error(text::joined("Unauthorized: ", msg.as_str()))
            },
            McpError::SearchIndex(msg) => internal_error(msg),
            McpError::Manifest(msg) => internal_error(msg),
            McpError::InvalidUrl(msg) => internal_error(msg),
            McpError::SearchEngine(msg) => internal_error(msg),
            _ => internal_error(err.to_string()),
        }
    }
}

/// Whatever the error, its own message reaches the client, at the end of the
/// message that it is told.
pub proof fn law_reply_ends_with_detail(err: McpError)
    ensures
        detail(err).is_suffix_of(reply_message(err)),
        detail(err).is_suffix_of(description(err)),
{
}

/// The code tells invalid arguments, a missing tool and a missing resource apart
/// from every other failure, and from one another.
pub proof fn law_reply_code_is_telling(err: McpError)
    ensures
        reply_code(err) == INVALID_PARAMS <==> err is InvalidArguments,
        reply_code(err) == METHOD_NOT_FOUND <==> err is ToolNotFound,
        reply_code(err) == RESOURCE_NOT_FOUND <==> err is ResourceNotFound,
        reply_code(err) == INTERNAL_ERROR <==> !(err is InvalidArguments || err is ToolNotFound
            || err is ResourceNotFound),
{
}

/// An error is described by what kind of error it is and by its own message,
/// whole and behind a heading.
pub proof fn law_description_names_kind_and_message(err: McpError, res: String)
    requires
        call_ensures(McpError::to_string, (&err,), res),
    ensures
        res@ == match err {
            McpError::Authentication(msg) => "Authentication error: "@ + msg@,
            McpError::PermissionDenied(msg) => "Permission denied: "@ + msg@,
            McpError::InvalidArguments(msg) => "Invalid arguments: "@ + msg@,
            McpError::ToolNotFound(msg) => "Tool not found: "@ + msg@,
            McpError::ResourceNotFound(msg) => "Resource not found: "@ + msg@,
            McpError::ReadOnlyViolation(msg) => "Operation not supported in read-only mode: "@ + msg@,
            McpError::Network(msg) => "Network error: "@ + msg@,
            McpError::Serialization(msg) => "Serialization error: "@ + msg@,
            McpError::Io(msg) => "IO error: "@ + msg@,
            McpError::SearchIndex(msg) => "Search index error: "@ + msg@,
            McpError::Manifest(msg) => "Manifest error: "@ + msg@,
            McpError::InvalidUrl(msg) => "Invalid URL: "@ + msg@,
            McpError::SearchEngine(msg) => "Search engine error: "@ + msg@,
            McpError::Other(msg) => "Other error: "@ + msg@,
            McpError::RateLimitExceeded => "Rate limit exceeded"@,
        },
{
    assert("Rate limit exceeded"@ + Seq::<char>::empty() == "Rate limit exceeded"@);
}

/// What a client is told of an error. Invalid arguments, a missing tool and a
/// missing resource have codes of their own and are told in the words of the
/// error. Everything else is an internal error: a refusal is told as
/// unauthorized, a failure of the search, a manifest or a URL in its own words,
/// and the rest by the description of the error.
pub proof fn law_client_is_told_code_and_message(err: McpError, told: ErrorData, described: String)
    requires
        call_ensures(<ErrorData as From<McpError>>::from, (err,), told),
        call_ensures(McpError::to_string, (&err,), described),
    ensures
        told.data is None,
        match err {
            McpError::InvalidArguments(msg) => told.code == -32602 && told.message@ == msg@,
            McpError::ToolNotFound(msg) => told.code == -32601 && told.message@ == msg@,
            McpError::ResourceNotFound(msg) => told.code == -32002 && told.message@ == msg@,
            McpError::PermissionDenied(msg) => told.code == -32603 && told.message@
                == "Unauthorized: "@ + msg@,
            McpError::ReadOnlyViolation(msg) => told.code == -32603 && told.message@
                == "Unauthorized: "@ + msg@,
            McpError::SearchIndex(msg) => told.code == -32603 && told.message@ == msg@,
            McpError::Manifest(msg) => told.code == -32603 && told.message@ == msg@,
            McpError::InvalidUrl(msg) => told.code == -32603 && told.message@ == msg@,
            McpError::SearchEngine(msg) => told.code == -32603 && told.message@ == msg@,
            _ => told.code == -32603 && told.message@ == described@,
        },
{
}

/// The helpers make the error of their name, with the given message.
pub proof fn law_helpers_keep_the_message(msg: &str, owned: String, res: McpError)
    ensures
        call_ensures(McpError::search_index::<&str>, (msg,), res) ==> (res matches McpError::SearchIndex(text) && text@
            == msg@),
        call_ensures(McpError::search_index::<String>, (owned,), res) ==> (res matches McpError::SearchIndex(text)
            && text@ == owned@),
        call_ensures(McpError::manifest::<&str>, (msg,), res) ==> (res matches McpError::Manifest(text) && text@
            == msg@),
        call_ensures(McpError::manifest::<String>, (owned,), res) ==> (res matches McpError::Manifest(text)
            && text@ == owned@),
        call_ensures(McpError::invalid_url::<&str>, (msg,), res) ==> (res matches McpError::InvalidUrl(text) && text@
            == msg@),
        call_ensures(McpError::invalid_url::<String>, (owned,), res) ==> (res matches McpError::InvalidUrl(text)
            && text@ == owned@),
        call_ensures(McpError::search_engine::<&str>, (msg,), res) ==> (res matches McpError::SearchEngine(text) && text@
            == msg@),
        call_ensures(McpError::search_engine::<String>, (owned,), res) ==> (res matches McpError::SearchEngine(text)
            && text@ == owned@),
        call_ensures(McpError::invalid_arguments::<&str>, (msg,), res) ==> (res matches McpError::InvalidArguments(text) && text@
            == msg@),
        call_ensures(McpError::invalid_arguments::<String>, (owned,), res) ==> (res matches McpError::InvalidArguments(text)
            && text@ == owned@),
        call_ensures(McpError::resource_not_found::<&str>, (msg,), res) ==> (res matches McpError::ResourceNotFound(text) && text@
            == msg@),
        call_ensures(McpError::resource_not_found::<String>, (owned,), res) ==> (res matches McpError::ResourceNotFound(text)
            && text@ == owned@),
{
}

} // verus!
