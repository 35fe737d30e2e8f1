//! What a tool is told about the call that it serves, and the progress that it
//! reports.

use crate::error::McpError;
use crate::text;
use vstd::prelude::*;

verus! {

/// The headers of an HTTP request.
#[verifier::external_type_specification]
#[verifier::external_body]
#[verifier::reject_recursive_types(Item)]
pub struct ExHeaderMap<Item>(http::HeaderMap<Item>);

/// The value of an HTTP header.
#[verifier::external_type_specification]
#[verifier::external_body]
pub struct ExHeaderValue(http::HeaderValue);

/// A token through which a call is cancelled.
#[verifier::external_type_specification]
#[verifier::external_body]
pub struct ExCancellationToken(tokio_util::sync::CancellationToken);

/// `CancellationToken::is_cancelled`. Whether the token was cancelled depends on
/// the moment, so nothing is stated of which of the two results comes back.
pub assume_specification[ tokio_util::sync::CancellationToken::is_cancelled ](
    token: &tokio_util::sync::CancellationToken,
) -> bool;

/// `CancellationToken::clone` returns another handle to the same token: when one
/// of them is cancelled, so is the other.
pub assume_specification[ <tokio_util::sync::CancellationToken as Clone>::clone ](
    token: &tokio_util::sync::CancellationToken,
) -> (res: tokio_util::sync::CancellationToken)
    ensures
        res == *token,
;

/// What a header map holds: for each header name, in lower case, the bytes of
/// the first value under it.
pub uninterp spec fn header_values(headers: http::HeaderMap) -> Map<Seq<char>, Seq<u8>>;

/// A header name in the form in which header maps store it, of letters, digits
/// and hyphens.
pub open spec fn is_header_name(name: Seq<char>) -> bool {
    &&& 0 < name.len() <= 64
    &&& forall|i: int|
        0 <= i < name.len() ==> ('a' <= #[trigger] name[i] <= 'z' || '0' <= name[i] <= '9'
            || name[i] == '-')
}

/// Whether a header value can be read as text: every byte is a visible ASCII
/// character, a space or a tab.
pub open spec fn is_visible(value: Seq<u8>) -> bool {
    forall|i: int| 0 <= i < value.len() ==> (32 <= #[trigger] value[i] < 127 || value[i] == 9)
}

/// ASCII bytes as text.
pub open spec fn ascii_text(value: Seq<u8>) -> Seq<char> {
    value.map_values(|byte: u8| byte as char)
}

/// The text of a header, if the header is there and can be read as text.
pub open spec fn header_text(headers: http::HeaderMap, name: Seq<char>) -> Option<Seq<char>> {
    if header_values(headers).contains_key(name) && is_visible(header_values(headers)[name]) {
        Some(ascii_text(header_values(headers)[name]))
    } else {
        None
    }
}

/// `http::HeaderMap::get` returns the first value under a name, or nothing if
/// there is none.
#[verifier::external_body]
fn first_header_value(headers: &http::HeaderMap, name: &str) -> (res: Option<Vec<u8>>)
    requires
        is_header_name(name@),
    ensures
        match res {
            Some(value) => header_values(*headers).contains_key(name@) && value@ == header_values(
                *headers,
            )[name@],
            None => !header_values(*headers).contains_key(name@),
        },
{
    headers.get(name).map(|value| value.as_bytes().to_vec())
}

/// `http::HeaderValue::to_str`, on the header value that has the given bytes:
/// the text, if every byte is visible ASCII, a space or a tab. Bytes that are no
/// header value hold a byte that is none of these.
#[verifier::external_body]
fn visible_text(value: &Vec<u8>) -> (res: Option<String>)
    ensures
        match res {
            Some(text) => is_visible(value@) && text@ == ascii_text(value@),
            None => !is_visible(value@),
        },
{
    let value = http::HeaderValue::from_bytes(value).ok()?;
    value.to_str().ok().map(String::from)
}

/// `kodegen_config::X_KODEGEN_CONNECTION_ID`, the name of the header that holds
/// the connection ID.
#[verifier::external_body]
fn connection_id_header() -> (res: &'static str)
    ensures
        res@ == "x-kodegen-connection-id"@,
{
    kodegen_config::X_KODEGEN_CONNECTION_ID
}

/// `kodegen_config::X_KODEGEN_PWD`, the name of the header that holds the
/// working directory.
#[verifier::external_body]
fn pwd_header() -> (res: &'static str)
    ensures
        res@ == "x-kodegen-pwd"@,
{
    kodegen_config::X_KODEGEN_PWD
}

/// `kodegen_config::X_KODEGEN_GITROOT`, the name of the header that holds the
/// root of the Git repository.
#[verifier::external_body]
fn git_root_header() -> (res: &'static str)
    ensures
        res@ == "x-kodegen-gitroot"@,
{
    kodegen_config::X_KODEGEN_GITROOT
}

/// Reads a header as text.
fn read_header(headers: &http::HeaderMap, name: &str) -> (res: Option<String>)
    requires
        is_header_name(name@),
    ensures
        text_of(res) == header_text(*headers, name@),
{
    match first_header_value(headers, name) {
        Some(value) => visible_text(&value),
        None => None,
    }
}

/// The content of an optional string.
pub open spec fn text_of(string: Option<String>) -> Option<Seq<char>> {
    match string {
        Some(content) => Some(content@),
        None => None,
    }
}

/// The identifier of a request.
#[derive(Debug)]
pub enum RequestId {
    Number(i64),
    Text(String),
}

impl Clone for RequestId {
    fn clone(&self) -> (res: Self)
        ensures
            res == *self,
    {
        match self {
            RequestId::Number(number) => RequestId::Number(*number),
            RequestId::Text(string) => RequestId::Text(string.clone()),
        }
    }
}

/// A request identifier as text.
pub open spec fn id_text(id: RequestId) -> Seq<char> {
    match id {
        RequestId::Number(number) => text::decimal(number as int),
        RequestId::Text(string) => string@,
    }
}

/// The token that the progress of a request is reported under.
pub open spec fn token_text(id: RequestId) -> Seq<char> {
    "tool_"@ + id_text(id)
}

/// The token that the progress of a request is reported under.
pub fn progress_token(id: &RequestId) -> (res: String)
    ensures
        res@ == token_text(*id),
{
    match id {
        RequestId::Number(number) => text::joined("tool_", text::decimal_text(*number).as_str()),
        RequestId::Text(string) => text::joined("tool_", string.as_str()),
    }
}

/// Requests whose identifiers differ as text report their progress under
/// different tokens.
pub proof fn law_progress_tokens_differ(first: RequestId, second: RequestId)
    requires
        id_text(first) != id_text(second),
    ensures
        token_text(first) != token_text(second),
{
    let prefix = "tool_"@;
    if token_text(first) == token_text(second) {
        let start = prefix.len() as int;
        assert(token_text(first).skip(start) == id_text(first));
        assert(token_text(second).skip(start) == id_text(second));
    }
}

/// Different identifiers of the same kind differ as text.
pub proof fn law_identifiers_of_a_kind_differ_as_text(first: RequestId, second: RequestId)
    requires
        match (first, second) {
            (RequestId::Number(a), RequestId::Number(b)) => a != b,
            (RequestId::Text(a), RequestId::Text(b)) => a@ != b@,
            _ => false,
        },
    ensures
        id_text(first) != id_text(second),
{
    match (first, second) {
        (RequestId::Number(a), RequestId::Number(b)) => {
            text::law_decimal_is_injective(a as int, b as int);
        },
        _ => {},
    }
}

/// A progress notification; `N` is the type of its numbers.
#[derive(Debug)]
pub struct ProgressNotification<N> {
    /// The token of the request that the progress is about.
    pub progress_token: String,
    /// The progress so far.
    pub progress: N,
    /// The progress at which the request is done, if it is known.
    pub total: Option<N>,
    /// A message about the progress.
    pub message: Option<String>,
}

/// The error that a failed progress notification is reported as; `cause`
/// describes the failure.
pub fn progress_failure(cause: &str) -> (res: McpError)
    ensures
        res matches McpError::Other(message) && message@
            == "Failed to send progress notification: "@ + cause@,
{
    McpError::Other(text::joined("Failed to send progress notification: ", cause))
}

/// Execution context provided to tools for progress notifications and
/// cancellation. `P` is the type of the peer that notifications are sent to.
///
/// Three patterns of progress are supported: a text message ([`Self::stream`]),
/// numeric progress ([`Self::progress`]), and both ([`Self::update`]). Each
/// makes the notification; the peer sends it.
pub struct ToolExecutionContext<P> {
    peer: P,
    ct: tokio_util::sync::CancellationToken,
    request_id: RequestId,
    connection_id: Option<String>,
    pwd: Option<String>,
    git_root: Option<String>,
}

/// What a [`ToolExecutionContext`] holds.
pub struct ContextView<P> {
    pub peer: P,
    pub ct: tokio_util::sync::CancellationToken,
    pub request_id: RequestId,
    pub connection_id: Option<Seq<char>>,
    pub pwd: Option<Seq<char>>,
    pub git_root: Option<Seq<char>>,
}

impl<P> View for ToolExecutionContext<P> {
    type V = ContextView<P>;

    closed spec fn view(&self) -> ContextView<P> {
        ContextView {
            peer: self.peer,
            ct: self.ct,
            request_id: self.request_id,
            connection_id: text_of(self.connection_id),
            pwd: text_of(self.pwd),
            git_root: text_of(self.git_root),
        }
    }
}

/// What an optional string holds, borrowed.
fn borrowed(string: &Option<String>) -> (res: Option<&str>)
    ensures
        match res {
            Some(content) => text_of(*string) == Some(content@),
            None => text_of(*string) is None,
        },
{
    match string {
        Some(content) => Some(content.as_str()),
        None => None,
    }
}

/// A copy of an optional string.
fn copied(string: &Option<String>) -> (res: Option<String>)
    ensures
        text_of(res) == text_of(*string),
{
    match string {
        Some(content) => Some(content.clone()),
        None => None,
    }
}

impl<P: Clone> Clone for ToolExecutionContext<P> {
    fn clone(&self) -> (res: Self)
        ensures
            cloned::<P>(self@.peer, res@.peer),
            res@ == (ContextView { peer: res@.peer, ..self@ }),
    {
        ToolExecutionContext {
            peer: self.peer.clone(),
            ct: self.ct.clone(),
            request_id: self.request_id.clone(),
            connection_id: copied(&self.connection_id),
            pwd: copied(&self.pwd),
            git_root: copied(&self.git_root),
        }
    }
}

impl<P> ToolExecutionContext<P> {
    /// Create a new ToolExecutionContext with the given peer, cancellation token, and request ID.
    pub fn new(
        peer: P,
        ct: tokio_util::sync::CancellationToken,
        request_id: RequestId,
    ) -> (res: Self)
        ensures
            res@ == (ContextView {
                peer,
                ct,
                request_id,
                connection_id: None,
                pwd: None,
                git_root: None,
            }),
    {
        ToolExecutionContext {
            peer,
            ct,
            request_id,
            connection_id: None,
            pwd: None,
            git_root: None,
        }
    }

    /// The context of a call that came with the given HTTP headers; there are
    /// none on other transports.
    pub fn from_context_part(
        headers: Option<&http::HeaderMap>,
        peer: P,
        ct: tokio_util::sync::CancellationToken,
        request_id: RequestId,
    ) -> (res: Self)
        ensures
            res@.peer == peer,
            res@.ct == ct,
            res@.request_id == request_id,
            match headers {
                Some(map) => {
                    &&& res@.connection_id == header_text(*map, "x-kodegen-connection-id"@)
                    &&& res@.pwd == header_text(*map, "x-kodegen-pwd"@)
                    &&& res@.git_root == header_text(*map, "x-kodegen-gitroot"@)
                },
                None => {
                    &&& res@.connection_id is None
                    &&& res@.pwd is None
                    &&& res@.git_root is None
                },
            },
    {
        proof {
            reveal_strlit("x-kodegen-connection-id");
            reveal_strlit("x-kodegen-pwd");
            reveal_strlit("x-kodegen-gitroot");
        }
        let (connection_id, pwd, git_root) = match headers {
            Some(map) => (
                read_header(map, connection_id_header()),
                read_header(map, pwd_header()),
                read_header(map, git_root_header()),
            ),
            None => (None, None, None),
        };
        ToolExecutionContext { peer, ct, request_id, connection_id, pwd, git_root }
    }

    /// Get connection ID from stdio server (for resource isolation)
    pub fn connection_id(&self) -> (res: Option<&str>)
        ensures
            match res {
                Some(content) => self@.connection_id == Some(content@),
                None => self@.connection_id is None,
            },
    {
        borrowed(&self.connection_id)
    }

    /// Get current working directory from client environment, as the text of its path
    pub fn pwd(&self) -> (res: Option<&str>)
        ensures
            match res {
                Some(content) => self@.pwd == Some(content@),
                None => self@.pwd is None,
            },
    {
        borrowed(&self.pwd)
    }

    /// Get git repository root from client environment, as the text of its path
    pub fn git_root(&self) -> (res: Option<&str>)
        ensures
            match res {
                Some(content) => self@.git_root == Some(content@),
                None => self@.git_root is None,
            },
    {
        borrowed(&self.git_root)
    }

    /// Get the request ID for this tool execution
    pub fn request_id(&self) -> (res: &RequestId)
        ensures
            *res == self@.request_id,
    {
        &self.request_id
    }

    /// Get the peer that notifications are sent to
    pub fn peer(&self) -> (res: &P)
        ensures
            *res == self@.peer,
    {
        &self.peer
    }

    /// A text message (for terminal output, logs, status updates); `origin` is
    /// the progress that it is reported with.
    pub fn stream<N, S: Into<String>>(&self, origin: N, message: S) -> (res: ProgressNotification<N>)
        ensures
            res.progress_token@ == token_text(self@.request_id),
            res.progress == origin,
            res.total is None,
            res.message matches Some(content) && call_ensures(
                <S as Into<String>>::into,
                (message,),
                content,
            ),
    {
        self.notify(origin, None, Some(message.into()))
    }

    /// Numeric progress (for progress bars, counters).
    pub fn progress<N>(&self, current: N, total: N) -> (res: ProgressNotification<N>)
        ensures
            res.progress_token@ == token_text(self@.request_id),
            res.progress == current,
            res.total == Some(total),
            res.message is None,
    {
        self.notify(current, Some(total), None)
    }

    /// Both numeric progress and a descriptive message.
    pub fn update<N, S: Into<String>>(
        &self,
        current: N,
        total: N,
        message: S,
    ) -> (res: ProgressNotification<N>)
        ensures
            res.progress_token@ == token_text(self@.request_id),
            res.progress == current,
            res.total == Some(total),
            res.message matches Some(content) && call_ensures(
                <S as Into<String>>::into,
                (message,),
                content,
            ),
    {
        self.notify(current, Some(total), Some(message.into()))
    }

    /// Full control over progress notification fields.
    pub fn notify<N>(
        &self,
        progress: N,
        total: Option<N>,
        message: Option<String>,
    ) -> (res: ProgressNotification<N>)
        ensures
            res.progress_token@ == token_text(self@.request_id),
            res.progress == progress,
            res.total == total,
            res.message == message,
    {
        ProgressNotification {
            progress_token: progress_token(&self.request_id),
            progress,
            total,
            message,
        }
    }

    /// Check if tool execution was cancelled by the client: what the cancellation
    /// token of this execution says at the moment of the call.
    pub fn is_cancelled(&self) -> (res: bool)
        ensures
            call_ensures(
                tokio_util::sync::CancellationToken::is_cancelled,
                (&self@.ct,),
                res,
            ),
    {
        self.ct.is_cancelled()
    }

    /// Get the cancellation token for custom logic.
    pub fn cancellation_token(&self) -> (res: &tokio_util::sync::CancellationToken)
        ensures
            *res == self@.ct,
    {
        &self.ct
    }
}

/// A context and its clones answer by the token that the context was made with:
/// what they say of cancellation is what that token says at the moment.
pub proof fn law_contexts_share_cancellation<P: Clone>(
    peer: P,
    ct: tokio_util::sync::CancellationToken,
    request_id: RequestId,
    made: ToolExecutionContext<P>,
    copy: ToolExecutionContext<P>,
    res: bool,
)
    requires
        call_ensures(ToolExecutionContext::<P>::new, (peer, ct, request_id), made),
        call_ensures(<ToolExecutionContext<P> as Clone>::clone, (&made,), copy),
        call_ensures(ToolExecutionContext::<P>::is_cancelled, (&made,), res) || call_ensures(
            ToolExecutionContext::<P>::is_cancelled,
            (&copy,),
            res,
        ),
    ensures
        call_ensures(tokio_util::sync::CancellationToken::is_cancelled, (&ct,), res),
        made@.ct == ct,
        copy@.ct == ct,
{
}

/// The connection is the text of its header: there is one exactly if the header is
/// there and holds only visible characters, spaces and tabs, and it is then read
/// character by character.
pub proof fn law_connection_id_is_read_from_its_header<P>(
    headers: &http::HeaderMap,
    peer: P,
    ct: tokio_util::sync::CancellationToken,
    request_id: RequestId,
    made: ToolExecutionContext<P>,
    res: Option<&str>,
)
    requires
        call_ensures(
            ToolExecutionContext::<P>::from_context_part,
            (Some(headers), peer, ct, request_id),
            made,
        ),
        call_ensures(ToolExecutionContext::<P>::connection_id, (&made,), res),
    ensures
        res is Some <==> {
            &&& header_values(*headers).contains_key("x-kodegen-connection-id"@)
            &&& forall|i: int|
                0 <= i < header_values(*headers)["x-kodegen-connection-id"@].len() ==> {
                    let byte = #[trigger] header_values(*headers)["x-kodegen-connection-id"@][i];
                    byte == 9 || 32 <= byte <= 126
                }
        },
        res matches Some(content) ==> {
            let value = header_values(*headers)["x-kodegen-connection-id"@];
            &&& content@.len() == value.len()
            &&& forall|i: int| 0 <= i < value.len() ==> #[trigger] content@[i] as int == value[i]
        },
{
    let name = "x-kodegen-connection-id"@;
    if let Some(content) = res {
        let value = header_values(*headers)[name];
        assert(content@ == ascii_text(value));
        assert forall|i: int| 0 <= i < value.len() implies #[trigger] content@[i] as int
            == value[i] by {
            assert(content@[i] == value[i] as char);
        }
    }
    if header_values(*headers).contains_key(name) {
        let value = header_values(*headers)[name];
        assert(is_visible(value) <==> forall|i: int|
            0 <= i < value.len() ==> {
                let byte = #[trigger] value[i];
                byte == 9 || 32 <= byte <= 126
            });
    }
}

/// The working directory is the text of its header, as the connection is of its.
pub proof fn law_pwd_is_read_from_its_header<P>(
    headers: &http::HeaderMap,
    peer: P,
    ct: tokio_util::sync::CancellationToken,
    request_id: RequestId,
    made: ToolExecutionContext<P>,
    res: Option<&str>,
)
    requires
        call_ensures(
            ToolExecutionContext::<P>::from_context_part,
            (Some(headers), peer, ct, request_id),
            made,
        ),
        call_ensures(ToolExecutionContext::<P>::pwd, (&made,), res),
    ensures
        res is Some <==> {
            &&& header_values(*headers).contains_key("x-kodegen-pwd"@)
            &&& forall|i: int|
                0 <= i < header_values(*headers)["x-kodegen-pwd"@].len() ==> {
                    let byte = #[trigger] header_values(*headers)["x-kodegen-pwd"@][i];
                    byte == 9 || 32 <= byte <= 126
                }
        },
        res matches Some(content) ==> {
            let value = header_values(*headers)["x-kodegen-pwd"@];
            &&& content@.len() == value.len()
            &&& forall|i: int| 0 <= i < value.len() ==> #[trigger] content@[i] as int == value[i]
        },
{
    let name = "x-kodegen-pwd"@;
    if let Some(content) = res {
        let value = header_values(*headers)[name];
        assert(content@ == ascii_text(value));
        assert forall|i: int| 0 <= i < value.len() implies #[trigger] content@[i] as int
            == value[i] by {
            assert(content@[i] == value[i] as char);
        }
    }
    if header_values(*headers).contains_key(name) {
        let value = header_values(*headers)[name];
        assert(is_visible(value) <==> forall|i: int|
            0 <= i < value.len() ==> {
                let byte = #[trigger] value[i];
                byte == 9 || 32 <= byte <= 126
            });
    }
}

/// The root of the repository is the text of its header, as the connection is of
/// its.
pub proof fn law_git_root_is_read_from_its_header<P>(
    headers: &http::HeaderMap,
    peer: P,
    ct: tokio_util::sync::CancellationToken,
    request_id: RequestId,
    made: ToolExecutionContext<P>,
    res: Option<&str>,
)
    requires
        call_ensures(
            ToolExecutionContext::<P>::from_context_part,
            (Some(headers), peer, ct, request_id),
            made,
        ),
        call_ensures(ToolExecutionContext::<P>::git_root, (&made,), res),
    ensures
        res is Some <==> {
            &&& header_values(*headers).contains_key("x-kodegen-gitroot"@)
            &&& forall|i: int|
                0 <= i < header_values(*headers)["x-kodegen-gitroot"@].len() ==> {
                    let byte = #[trigger] header_values(*headers)["x-kodegen-gitroot"@][i];
                    byte == 9 || 32 <= byte <= 126
                }
        },
        res matches Some(content) ==> {
            let value = header_values(*headers)["x-kodegen-gitroot"@];
            &&& content@.len() == value.len()
            &&& forall|i: int| 0 <= i < value.len() ==> #[trigger] content@[i] as int == value[i]
        },
{
    let name = "x-kodegen-gitroot"@;
    if let Some(content) = res {
        let value = header_values(*headers)[name];
        assert(content@ == ascii_text(value));
        assert forall|i: int| 0 <= i < value.len() implies #[trigger] content@[i] as int
            == value[i] by {
            assert(content@[i] == value[i] as char);
        }
    }
    if header_values(*headers).contains_key(name) {
        let value = header_values(*headers)[name];
        assert(is_visible(value) <==> forall|i: int|
            0 <= i < value.len() ==> {
                let byte = #[trigger] value[i];
                byte == 9 || 32 <= byte <= 126
            });
    }
}

/// Without headers a context knows of no connection, directory or repository.
pub proof fn law_without_headers_nothing_is_known<P>(
    peer: P,
    ct: tokio_util::sync::CancellationToken,
    request_id: RequestId,
    made: ToolExecutionContext<P>,
    res: Option<&str>,
)
    requires
        call_ensures(ToolExecutionContext::<P>::new, (peer, ct, request_id), made) || call_ensures(
            ToolExecutionContext::<P>::from_context_part,
            (None, peer, ct, request_id),
            made,
        ),
        call_ensures(ToolExecutionContext::<P>::connection_id, (&made,), res) || call_ensures(
            ToolExecutionContext::<P>::pwd,
            (&made,),
            res,
        ) || call_ensures(ToolExecutionContext::<P>::git_root, (&made,), res),
    ensures
        res is None,
{
}

/// A context gives back the request, the peer and the token that it was made with.
pub proof fn law_context_keeps_what_it_is_made_with<P>(
    headers: Option<&http::HeaderMap>,
    peer: P,
    ct: tokio_util::sync::CancellationToken,
    request_id: RequestId,
    made: ToolExecutionContext<P>,
    id: &RequestId,
    held: &P,
    token: &tokio_util::sync::CancellationToken,
)
    requires
        call_ensures(ToolExecutionContext::<P>::new, (peer, ct, request_id), made) || call_ensures(
            ToolExecutionContext::<P>::from_context_part,
            (headers, peer, ct, request_id),
            made,
        ),
        call_ensures(ToolExecutionContext::<P>::request_id, (&made,), id),
        call_ensures(ToolExecutionContext::<P>::peer, (&made,), held),
        call_ensures(ToolExecutionContext::<P>::cancellation_token, (&made,), token),
    ensures
        *id == request_id,
        *held == peer,
        *token == ct,
{
}

/// A clone gives the same answers as the context that it was made from.
pub proof fn law_clones_answer_alike<P: Clone>(
    context: ToolExecutionContext<P>,
    copy: ToolExecutionContext<P>,
    first: Option<&str>,
    second: Option<&str>,
)
    requires
        call_ensures(<ToolExecutionContext<P> as Clone>::clone, (&context,), copy),
        (call_ensures(ToolExecutionContext::<P>::connection_id, (&context,), first)
            && call_ensures(ToolExecutionContext::<P>::connection_id, (&copy,), second)) || (
        call_ensures(ToolExecutionContext::<P>::pwd, (&context,), first) && call_ensures(
            ToolExecutionContext::<P>::pwd,
            (&copy,),
            second,
        )) || (call_ensures(ToolExecutionContext::<P>::git_root, (&context,), first)
            && call_ensures(ToolExecutionContext::<P>::git_root, (&copy,), second)),
    ensures
        first is Some <==> second is Some,
        first is Some ==> first->0@ == second->0@,
        context@.request_id == copy@.request_id,
{
}

/// The token of a request is its identifier behind a fixed word: a text as it is,
/// a number in decimal.
pub proof fn law_progress_token_names_the_request(id: RequestId, res: String, number: String)
    requires
        call_ensures(progress_token, (&id,), res),
        id matches RequestId::Number(n) ==> call_ensures(text::decimal_text, (n,), number),
    ensures
        id matches RequestId::Text(string) ==> res@ == "tool_"@ + string@,
        id is Number ==> res@ == "tool_"@ + number@,
{
}

/// Progress is reported as it was given, under the token of the request.
pub proof fn law_progress_is_reported_as_given<P, N>(
    context: ToolExecutionContext<P>,
    progress: N,
    total: Option<N>,
    message: Option<String>,
    res: ProgressNotification<N>,
    id: &RequestId,
    token: String,
)
    requires
        call_ensures(
            ToolExecutionContext::<P>::notify::<N>,
            (&context, progress, total, message),
            res,
        ),
        call_ensures(ToolExecutionContext::<P>::request_id, (&context,), id),
        call_ensures(progress_token, (id,), token),
    ensures
        res.progress_token@ == token@,
        res.progress == progress,
        res.total == total,
        res.message == message,
{
}

/// A streamed text is reported whole and without a total.
pub proof fn law_streamed_text_is_reported<P, N>(
    context: ToolExecutionContext<P>,
    origin: N,
    message: &str,
    res: ProgressNotification<N>,
    id: &RequestId,
    token: String,
)
    requires
        call_ensures(
            ToolExecutionContext::<P>::stream::<N, &str>,
            (&context, origin, message),
            res,
        ),
        call_ensures(ToolExecutionContext::<P>::request_id, (&context,), id),
        call_ensures(progress_token, (id,), token),
    ensures
        res.progress_token@ == token@,
        res.progress == origin,
        res.total is None,
        res.message matches Some(content) && content@ == message@,
{
}

/// Numeric progress is reported with its total and without a text.
pub proof fn law_numeric_progress_is_reported<P, N>(
    context: ToolExecutionContext<P>,
    current: N,
    total: N,
    res: ProgressNotification<N>,
    id: &RequestId,
    token: String,
)
    requires
        call_ensures(ToolExecutionContext::<P>::progress::<N>, (&context, current, total), res),
        call_ensures(ToolExecutionContext::<P>::request_id, (&context,), id),
        call_ensures(progress_token, (id,), token),
    ensures
        res.progress_token@ == token@,
        res.progress == current,
        res.total == Some(total),
        res.message is None,
{
}

/// An update reports the progress, its total and the whole text.
pub proof fn law_update_is_reported<P, N>(
    context: ToolExecutionContext<P>,
    current: N,
    total: N,
    message: &str,
    res: ProgressNotification<N>,
    id: &RequestId,
    token: String,
)
    requires
        call_ensures(
            ToolExecutionContext::<P>::update::<N, &str>,
            (&context, current, total, message),
            res,
        ),
        call_ensures(ToolExecutionContext::<P>::request_id, (&context,), id),
        call_ensures(progress_token, (id,), token),
    ensures
        res.progress_token@ == token@,
        res.progress == current,
        res.total == Some(total),
        res.message matches Some(content) && content@ == message@,
{
}

/// A notification that could not be sent is an error that names the cause.
pub proof fn law_failed_notification_names_the_cause(cause: &str, err: McpError, res: String)
    requires
        call_ensures(progress_failure, (cause,), err),
        call_ensures(McpError::to_string, (&err,), res),
    ensures
        err is Other,
        res@ == "Other error: "@ + ("Failed to send progress notification: "@ + cause@),
{
}

/// A clone of an identifier is the same identifier.
pub proof fn law_identifier_clone_is_the_same(id: RequestId, copy: RequestId)
    requires
        call_ensures(<RequestId as Clone>::clone, (&id,), copy),
    ensures
        id matches RequestId::Number(number) ==> copy == RequestId::Number(number),
        id matches RequestId::Text(string) ==> (copy matches RequestId::Text(same) && same@
            == string@),
{
}

} // verus!
