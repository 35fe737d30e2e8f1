//! What a tool returns, and what the client gets of it.

use crate::json;
use vstd::prelude::*;

verus! {

/// Framework-provided response wrapper for tool outputs.
///
/// - `display`: human-readable output, the first content of the reply
/// - `metadata`: typed data, the second content of the reply
#[derive(Debug)]
pub struct ToolResponse<M> {
    /// Human-readable display output. Always present; empty for tools with no
    /// display output.
    pub display: String,
    /// Typed metadata, separate from the display output.
    pub metadata: M,
}

impl<M: Clone> Clone for ToolResponse<M> {
    fn clone(&self) -> (res: Self)
        ensures
            res.display == self.display,
            cloned::<M>(self.metadata, res.metadata),
    {
        ToolResponse { display: self.display.clone(), metadata: self.metadata.clone() }
    }
}

/// A piece of content in a reply: a text.
#[derive(Debug)]
pub struct Content {
    pub text: String,
}

impl Content {
    /// Content that is the given text
    pub fn text(text: String) -> (res: Self)
        ensures
            res.text == text,
    {
        Content { text }
    }
}

/// The texts of a list of contents.
pub open spec fn content_texts(contents: Seq<Content>) -> Seq<Seq<char>> {
    contents.map_values(|content: Content| content.text@)
}

impl<M> ToolResponse<M> {
    /// Create response with both display and metadata.
    pub fn new<S: Into<String>>(display: S, metadata: M) -> (res: Self)
        ensures
            call_ensures(<S as Into<String>>::into, (display,), res.display),
            res.metadata == metadata,
    {
        ToolResponse { display: display.into(), metadata }
    }

    /// Create response with empty display.
    pub fn empty_display(metadata: M) -> (res: Self)
        ensures
            res.display@ == Seq::<char>::empty(),
            res.metadata == metadata,
    {
        ToolResponse::new(String::new(), metadata)
    }

    /// Convert to the contents of a reply. `json` is the metadata as
    /// pretty-printed JSON, or why it could not be serialised.
    ///
    /// - first content: human-readable display (always present, may be empty)
    /// - second content: the metadata as JSON
    pub fn into_contents<E>(self, json: Result<String, E>) -> (res: Result<Vec<Content>, E>)
        ensures
            match json {
                Ok(text) => res matches Ok(contents) && content_texts(contents@) == seq![
                    self.display@,
                    text@,
                ],
                Err(cause) => res == Err::<Vec<Content>, E>(cause),
            },
    {
        match json {
            Ok(text) => {
                let mut contents: Vec<Content> = Vec::new();
                contents.push(Content::text(self.display));
                contents.push(Content::text(text));
                assert(content_texts(contents@) == seq![self.display@, text@]);
                Ok(contents)
            },
            Err(cause) => Err(cause),
        }
    }

    /// Get metadata as a JSON value (for history recording). `serialised` is
    /// what the metadata serialises to; where that failed, the empty object
    /// stands in.
    pub fn metadata_as_json<E>(
        &self,
        serialised: Result<serde_json::Value, E>,
    ) -> (res: serde_json::Value)
        ensures
            match serialised {
                Ok(value) => res == value,
                Err(_) => json::is_empty_object(res),
            },
    {
        json::value_or_empty(serialised)
    }
}

/// A response keeps what it is made of.
pub proof fn law_response_keeps_its_parts<M>(
    display: &str,
    owned: String,
    metadata: M,
    res: ToolResponse<M>,
)
    ensures
        call_ensures(ToolResponse::<M>::new::<&str>, (display, metadata), res) ==> res.display@
            == display@ && res.metadata == metadata,
        call_ensures(ToolResponse::<M>::new::<String>, (owned, metadata), res) ==> res.display@
            == owned@ && res.metadata == metadata,
        call_ensures(ToolResponse::<M>::empty_display, (metadata,), res) ==> res.display@.len() == 0
            && res.metadata == metadata,
{
}

/// The contents of a reply are the display and the printed metadata, in this
/// order and whole. They fail exactly if the printing did, with its cause.
pub proof fn law_contents_are_display_and_metadata<M, E>(
    response: ToolResponse<M>,
    json: Result<String, E>,
    res: Result<Vec<Content>, E>,
)
    requires
        call_ensures(ToolResponse::<M>::into_contents::<E>, (response, json), res),
    ensures
        json matches Ok(text) ==> (res matches Ok(contents) && {
            &&& contents@.len() == 2
            &&& contents@[0].text@ == response.display@
            &&& contents@[1].text@ == text@
        }),
        json matches Err(cause) ==> (res matches Err(kept) && kept == cause),
{
    if let Ok(text) = json {
        let contents = res->Ok_0@;
        assert(content_texts(contents).len() == contents.len());
        assert(content_texts(contents)[0] == contents[0].text@);
        assert(content_texts(contents)[1] == contents[1].text@);
    }
}

/// The metadata that the history gets is the serialised one; what could not be
/// serialised is an object without members.
pub proof fn law_metadata_is_kept<M, E>(
    response: ToolResponse<M>,
    serialised: Result<serde_json::Value, E>,
    res: serde_json::Value,
)
    requires
        call_ensures(ToolResponse::<M>::metadata_as_json::<E>, (&response, serialised), res),
    ensures
        serialised matches Ok(value) ==> res == value,
        serialised is Err ==> (json::object_members(res) matches Some(members)
            && forall|key: Seq<char>| !members.contains_key(key)),
{
}

/// A clone of a response shows the same and holds a clone of the metadata.
pub proof fn law_response_clone_shows_the_same<M: Clone>(
    response: ToolResponse<M>,
    copy: ToolResponse<M>,
)
    requires
        call_ensures(<ToolResponse<M> as Clone>::clone, (&response,), copy),
    ensures
        copy.display@ == response.display@,
        cloned::<M>(response.metadata, copy.metadata),
{
}

/// A text content is the given text.
pub proof fn law_content_is_the_text(text: String, res: Content)
    requires
        call_ensures(Content::text, (text,), res),
    ensures
        res.text@ == text@,
{
}

} // verus!
