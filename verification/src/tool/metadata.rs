//! How tools and their prompts are announced to clients.

use crate::error::{ErrorData, McpError};
use crate::tool::context;
use crate::{error, text};
use std::sync::Arc;
use vstd::prelude::*;

verus! {

/// Hints on the behavior of a tool.
#[derive(Debug)]
pub struct ToolAnnotations {
    pub title: Option<String>,
    pub read_only_hint: Option<bool>,
    pub destructive_hint: Option<bool>,
    pub idempotent_hint: Option<bool>,
    pub open_world_hint: Option<bool>,
}

/// What a client is told of a tool.
#[derive(Debug)]
pub struct ToolMetadata<Schema> {
    pub name: String,
    pub title: Option<String>,
    pub description: Option<String>,
    pub input_schema: Arc<Schema>,
    pub output_schema: Option<Arc<Schema>>,
    pub annotations: Option<ToolAnnotations>,
}

/// What a [`ToolMetadata`] holds.
pub struct ToolMetadataView<Schema> {
    pub name: Seq<char>,
    pub title: Option<Seq<char>>,
    pub description: Option<Seq<char>>,
    pub input_schema: Arc<Schema>,
    pub output_schema: Option<Arc<Schema>>,
    pub annotations: Option<AnnotationsView>,
}

/// What a [`ToolAnnotations`] holds.
pub struct AnnotationsView {
    pub title: Option<Seq<char>>,
    pub read_only_hint: Option<bool>,
    pub destructive_hint: Option<bool>,
    pub idempotent_hint: Option<bool>,
    pub open_world_hint: Option<bool>,
}

impl View for ToolAnnotations {
    type V = AnnotationsView;

    open spec fn view(&self) -> AnnotationsView {
        AnnotationsView {
            title: context::text_of(self.title),
            read_only_hint: self.read_only_hint,
            destructive_hint: self.destructive_hint,
            idempotent_hint: self.idempotent_hint,
            open_world_hint: self.open_world_hint,
        }
    }
}

impl<Schema> View for ToolMetadata<Schema> {
    type V = ToolMetadataView<Schema>;

    open spec fn view(&self) -> ToolMetadataView<Schema> {
        ToolMetadataView {
            name: self.name@,
            title: context::text_of(self.title),
            description: context::text_of(self.description),
            input_schema: self.input_schema,
            output_schema: self.output_schema,
            annotations: match self.annotations {
                Some(annotations) => Some(annotations@),
                None => None,
            },
        }
    }
}

/// An argument that a prompt accepts.
#[derive(Debug)]
pub struct PromptArgument {
    pub name: String,
    pub title: Option<String>,
    pub description: Option<String>,
    pub required: Option<bool>,
}

/// What a client is told of a prompt.
#[derive(Debug)]
pub struct PromptMetadata {
    pub name: String,
    pub title: Option<String>,
    pub description: Option<String>,
    pub arguments: Option<Vec<PromptArgument>>,
}

/// What a [`PromptArgument`] holds.
pub struct ArgumentView {
    pub name: Seq<char>,
    pub title: Option<Seq<char>>,
    pub description: Option<Seq<char>>,
    pub required: Option<bool>,
}

impl View for PromptArgument {
    type V = ArgumentView;

    open spec fn view(&self) -> ArgumentView {
        ArgumentView {
            name: self.name@,
            title: context::text_of(self.title),
            description: context::text_of(self.description),
            required: self.required,
        }
    }
}

/// What a list of arguments holds.
pub open spec fn argument_views(arguments: Seq<PromptArgument>) -> Seq<ArgumentView> {
    arguments.map_values(|argument: PromptArgument| argument@)
}

/// What a [`PromptMetadata`] holds.
pub struct PromptMetadataView {
    pub name: Seq<char>,
    pub title: Option<Seq<char>>,
    pub description: Option<Seq<char>>,
    pub arguments: Option<Seq<ArgumentView>>,
}

impl View for PromptMetadata {
    type V = PromptMetadataView;

    open spec fn view(&self) -> PromptMetadataView {
        PromptMetadataView {
            name: self.name@,
            title: context::text_of(self.title),
            description: context::text_of(self.description),
            arguments: match self.arguments {
                Some(arguments) => Some(argument_views(arguments@)),
                None => None,
            },
        }
    }
}

/// The reply to a client that asked for a prompt.
#[derive(Debug)]
pub struct PromptReply<Message> {
    pub description: Option<String>,
    pub messages: Vec<Message>,
}

/// Annotations that hint at the given behavior.
pub open spec fn annotates(
    annotations: ToolAnnotations,
    read_only: bool,
    destructive: bool,
    idempotent: bool,
    open_world: bool,
) -> bool {
    &&& annotations.title is None
    &&& annotations.read_only_hint == Some(read_only)
    &&& annotations.destructive_hint == Some(destructive)
    &&& annotations.idempotent_hint == Some(idempotent)
    &&& annotations.open_world_hint == Some(open_world)
}

/// The annotations of a tool that says of itself what the arguments say.
pub fn annotations(
    read_only: bool,
    destructive: bool,
    idempotent: bool,
    open_world: bool,
) -> (res: ToolAnnotations)
    ensures
        annotates(res, read_only, destructive, idempotent, open_world),
{
    ToolAnnotations {
        title: None,
        read_only_hint: Some(read_only),
        destructive_hint: Some(destructive),
        idempotent_hint: Some(idempotent),
        open_world_hint: Some(open_world),
    }
}

/// The announcement of a tool.
pub open spec fn announces_tool<Schema>(
    metadata: ToolMetadata<Schema>,
    name: Seq<char>,
    description: Seq<char>,
    annotations: ToolAnnotations,
    input_schema: Arc<Schema>,
    output_schema: Arc<Schema>,
) -> bool {
    &&& metadata.name@ == name
    &&& metadata.title is None
    &&& (metadata.description matches Some(text) && text@ == description)
    &&& metadata.input_schema == input_schema
    &&& metadata.output_schema == Some(output_schema)
    &&& metadata.annotations == Some(annotations)
}

/// The announcement of a tool with the given name, description, annotations and
/// schemas.
pub fn tool_metadata<Schema>(
    name: &str,
    description: &str,
    annotations: ToolAnnotations,
    input_schema: Arc<Schema>,
    output_schema: Arc<Schema>,
) -> (res: ToolMetadata<Schema>)
    ensures
        announces_tool(res, name@, description@, annotations, input_schema, output_schema),
{
    ToolMetadata {
        name: name.to_owned(),
        title: None,
        description: Some(description.to_owned()),
        input_schema,
        output_schema: Some(output_schema),
        annotations: Some(annotations),
    }
}

/// The name of the prompt that teaches the use of a tool.
pub fn help_name(tool_name: &str) -> (res: String)
    ensures
        res@ == tool_name@ + "_help"@,
{
    text::joined(tool_name, "_help")
}

/// The announcement of a prompt.
pub open spec fn announces_prompt(
    metadata: PromptMetadata,
    name: Seq<char>,
    description: Seq<char>,
    arguments: Vec<PromptArgument>,
) -> bool {
    &&& metadata.name@ == name
    &&& metadata.title is None
    &&& (metadata.description matches Some(text) && text@ == description)
    &&& metadata.arguments == Some(arguments)
}

/// The announcement of a prompt with the given name, description and arguments.
pub fn prompt_metadata(
    name: String,
    description: &str,
    arguments: Vec<PromptArgument>,
) -> (res: PromptMetadata)
    ensures
        announces_prompt(res, name@, description@, arguments),
{
    PromptMetadata {
        name,
        title: None,
        description: Some(description.to_owned()),
        arguments: Some(arguments),
    }
}

/// The reply to a request for a prompt: the conversation that the tool made, or
/// an internal error that describes why it made none.
pub fn prompt_reply<Message>(
    description: &str,
    outcome: Result<Vec<Message>, McpError>,
) -> (res: Result<PromptReply<Message>, ErrorData>)
    ensures
        match outcome {
            Ok(messages) => res matches Ok(reply) && reply.messages == messages && (
            reply.description matches Some(text) && text@ == description@),
            Err(err) => res matches Err(data) && data.code == error::INTERNAL_ERROR
                && data.message@ == error::description(err) && data.data is None,
        },
{
    match outcome {
        Ok(messages) => Ok(PromptReply { description: Some(description.to_owned()), messages }),
        Err(err) => Err(error::internal_error(err.to_string())),
    }
}

/// Requests for a prompt that went alike are answered alike: where the tool
/// returned the same, the client reads the same.
pub proof fn law_same_prompt_requests_are_answered_alike<Message>(
    description: &str,
    outcome: Result<Vec<Message>, McpError>,
    first: Result<PromptReply<Message>, ErrorData>,
    second: Result<PromptReply<Message>, ErrorData>,
)
    requires
        call_ensures(prompt_reply::<Message>, (description, outcome), first),
        call_ensures(prompt_reply::<Message>, (description, outcome), second),
    ensures
        match (first, second) {
            (Ok(a), Ok(b)) => a.messages == b.messages && context::text_of(a.description)
                == context::text_of(b.description),
            (Err(a), Err(b)) => a.code == b.code && a.message@ == b.message@ && a.data == b.data,
            _ => false,
        },
{
}

/// Each hint of the annotations is the answer to the question of its own name.
pub proof fn law_hints_are_the_answers(
    read_only: bool,
    destructive: bool,
    idempotent: bool,
    open_world: bool,
    res: ToolAnnotations,
)
    requires
        call_ensures(annotations, (read_only, destructive, idempotent, open_world), res),
    ensures
        res.read_only_hint == Some(read_only),
        res.destructive_hint == Some(destructive),
        res.idempotent_hint == Some(idempotent),
        res.open_world_hint == Some(open_world),
        res.title is None,
{
}

/// A tool is announced with exactly what was given.
pub proof fn law_tool_is_announced_whole<Schema>(
    name: &str,
    description: &str,
    annotations: ToolAnnotations,
    input_schema: Arc<Schema>,
    output_schema: Arc<Schema>,
    res: ToolMetadata<Schema>,
)
    requires
        call_ensures(
            tool_metadata::<Schema>,
            (name, description, annotations, input_schema, output_schema),
            res,
        ),
    ensures
        res.name@ == name@,
        res.title is None,
        res.description matches Some(told) && told@ == description@,
        res.input_schema == input_schema,
        res.output_schema == Some(output_schema),
        res.annotations == Some(annotations),
{
}

/// A prompt is announced with exactly what was given.
pub proof fn law_prompt_is_announced_whole(
    name: String,
    description: &str,
    arguments: Vec<PromptArgument>,
    res: PromptMetadata,
)
    requires
        call_ensures(prompt_metadata, (name, description, arguments), res),
    ensures
        res.name@ == name@,
        res.title is None,
        res.description matches Some(told) && told@ == description@,
        res.arguments == Some(arguments),
{
}

/// The prompt of a tool is named after it.
pub proof fn law_help_is_named_after_the_tool(tool_name: &str, res: String)
    requires
        call_ensures(help_name, (tool_name,), res),
    ensures
        res@ == tool_name@ + "_help"@,
{
}

/// A client that asks for a prompt gets the conversation that the tool made, with
/// the description of the prompt, or else an internal error with the description
/// of what went wrong.
pub proof fn law_prompt_reply_follows_from_outcome<Message>(
    description: &str,
    outcome: Result<Vec<Message>, McpError>,
    res: Result<PromptReply<Message>, ErrorData>,
    described: String,
)
    requires
        call_ensures(prompt_reply::<Message>, (description, outcome), res),
        outcome matches Err(err) ==> call_ensures(McpError::to_string, (&err,), described),
    ensures
        outcome matches Ok(messages) ==> (res matches Ok(reply) && reply.messages == messages && (
        reply.description matches Some(told) && told@ == description@)),
        outcome is Err ==> (res matches Err(data) && data.code == -32603 && data.message@
            == described@ && data.data is None),
{
}

} // verus!
