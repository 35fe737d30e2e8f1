//! Tools: what they say of themselves, and how a call to one is served.

pub mod context;
pub mod handler;
pub mod metadata;
pub mod response;
pub mod route;
pub mod schema;

pub use crate::tool::context::ToolExecutionContext;
pub use crate::tool::response::ToolResponse;

use crate::tool::metadata::{PromptArgument, PromptMetadata, ToolMetadata};
use std::borrow::Cow;
use std::marker::PhantomData;
use std::sync::Arc;
use vstd::prelude::*;

verus! {

/// Core trait that all tools must implement
///
/// Tools are structs that hold their own dependencies. The trait knows nothing
/// about specific services. The behavior annotations and the announcements have
/// defaults.
pub trait Tool: Send + Sync + Sized + 'static {
    /// Unique tool name (e.g., "`git_clone`")
    fn name() -> &'static str;

    /// Human-readable description of what this tool does
    fn description() -> &'static str;

    /// Does this tool only read (never modify) state?
    ///
    /// Default: true
    fn read_only() -> (res: bool)
        default_ensures
            res,
    {
        true
    }

    /// Can this tool delete or overwrite existing data?
    ///
    /// Only meaningful when `read_only` = false.
    ///
    /// Default: false
    fn destructive() -> (res: bool)
        default_ensures
            !res,
    {
        false
    }

    /// Is calling this tool repeatedly with same args safe/idempotent?
    ///
    /// Only meaningful when `read_only` = false.
    ///
    /// Default: true
    fn idempotent() -> (res: bool)
        default_ensures
            res,
    {
        true
    }

    /// Does this tool interact with external systems (network, filesystem outside repo)?
    ///
    /// Default: false
    fn open_world() -> (res: bool)
        default_ensures
            !res,
    {
        false
    }

    /// Prompt name (defaults to "{`tool_name`}_help")
    fn prompt_name() -> (res: Cow<'static, str>)
        default_ensures
            exists|name: &'static str| #[trigger]
                call_ensures(Self::name, (), name) && res@ == name@ + "_help"@,
    {
        Cow::Owned(metadata::help_name(Self::name()))
    }

    /// Prompt description (defaults to tool description)
    fn prompt_description() -> (res: &'static str)
        default_ensures
            call_ensures(Self::description, (), res),
    {
        Self::description()
    }

    /// What arguments does the teaching prompt accept?
    ///
    /// These let agents customize what they want to learn about.
    fn prompt_arguments() -> Vec<PromptArgument>;
}

/// Whether an announcement says what a tool says of itself.
pub open spec fn announces<T: Tool, Schema>(
    announced: ToolMetadata<Schema>,
    input_schema: Arc<Schema>,
    output_schema: Arc<Schema>,
) -> bool {
    exists|
        name: &'static str,
        description: &'static str,
        read_only: bool,
        destructive: bool,
        idempotent: bool,
        open_world: bool,
        annotations: metadata::ToolAnnotations,
    |
        {
            &&& #[trigger] call_ensures(T::name, (), name)
            &&& #[trigger] call_ensures(T::description, (), description)
            &&& #[trigger] call_ensures(T::read_only, (), read_only)
            &&& #[trigger] call_ensures(T::destructive, (), destructive)
            &&& #[trigger] call_ensures(T::idempotent, (), idempotent)
            &&& #[trigger] call_ensures(T::open_world, (), open_world)
            &&& metadata::annotates(annotations, read_only, destructive, idempotent, open_world)
            &&& #[trigger] metadata::announces_tool(
                announced,
                name@,
                description@,
                annotations,
                input_schema,
                output_schema,
            )
        }
}

/// The announcement of a tool, from what it says of itself and its schemas.
pub fn tool_metadata<T: Tool, Schema>(
    input_schema: Arc<Schema>,
    output_schema: Arc<Schema>,
) -> (res: ToolMetadata<Schema>)
    ensures
        announces::<T, Schema>(res, input_schema, output_schema),
{
    let annotations = metadata::annotations(
        T::read_only(),
        T::destructive(),
        T::idempotent(),
        T::open_world(),
    );
    metadata::tool_metadata(T::name(), T::description(), annotations, input_schema, output_schema)
}

/// Whether an announcement says what a tool says of its prompt.
pub open spec fn announces_prompt<T: Tool>(announced: PromptMetadata) -> bool {
    exists|name: Cow<'static, str>, description: &'static str, arguments: Vec<PromptArgument>|
        {
            &&& #[trigger] call_ensures(T::prompt_name, (), name)
            &&& #[trigger] call_ensures(T::prompt_description, (), description)
            &&& #[trigger] call_ensures(T::prompt_arguments, (), arguments)
            &&& metadata::announces_prompt(announced, name@, description@, arguments)
        }
}

/// The announcement of a tool's prompt, from what the tool says of itself.
pub fn prompt_metadata<T: Tool>() -> (res: PromptMetadata)
    ensures
        announces_prompt::<T>(res),
{
    let name: String = match T::prompt_name() {
        Cow::Borrowed(name) => name.to_owned(),
        Cow::Owned(name) => name,
    };
    metadata::prompt_metadata(name, T::prompt_description(), T::prompt_arguments())
}

/// The announcement of a tool hints at its behavior by the answers of the tool.
pub proof fn law_hints_are_answers_of_the_tool<T: Tool, Schema>(
    input_schema: Arc<Schema>,
    output_schema: Arc<Schema>,
    res: ToolMetadata<Schema>,
)
    requires
        call_ensures(tool_metadata::<T, Schema>, (input_schema, output_schema), res),
    ensures
        res.annotations matches Some(hints) && {
            &&& exists|answer: bool| #[trigger]
                call_ensures(T::read_only, (), answer) && hints.read_only_hint == Some(answer)
            &&& exists|answer: bool| #[trigger]
                call_ensures(T::destructive, (), answer) && hints.destructive_hint == Some(answer)
            &&& exists|answer: bool| #[trigger]
                call_ensures(T::idempotent, (), answer) && hints.idempotent_hint == Some(answer)
            &&& exists|answer: bool| #[trigger]
                call_ensures(T::open_world, (), answer) && hints.open_world_hint == Some(answer)
        },
        exists|name: &'static str| #[trigger]
            call_ensures(T::name, (), name) && res.name@ == name@,
        exists|description: &'static str| #[trigger]
            call_ensures(T::description, (), description) && (res.description matches Some(told)
                && told@ == description@),
        res.input_schema == input_schema,
        res.output_schema == Some(output_schema),
{
}

/// The announcement of a prompt is made of the answers of the tool.
pub proof fn law_prompt_parts_are_answers_of_the_tool<T: Tool>(res: PromptMetadata)
    requires
        call_ensures(prompt_metadata::<T>, (), res),
    ensures
        exists|name: Cow<'static, str>| #[trigger]
            call_ensures(T::prompt_name, (), name) && res.name@ == name@,
        exists|description: &'static str| #[trigger]
            call_ensures(T::prompt_description, (), description) && (
            res.description matches Some(told) && told@ == description@),
        exists|arguments: Vec<PromptArgument>| #[trigger]
            call_ensures(T::prompt_arguments, (), arguments) && res.arguments == Some(arguments),
{
}

/// What a tool says of itself where it says nothing but its name, its description
/// and the arguments of its prompt.
pub struct Defaults<T> {
    pub tool: PhantomData<T>,
}

impl<T: Tool> Tool for Defaults<T> {
    fn name() -> (res: &'static str)
        ensures
            call_ensures(T::name, (), res),
    {
        T::name()
    }

    fn description() -> (res: &'static str)
        ensures
            call_ensures(T::description, (), res),
    {
        T::description()
    }

    fn prompt_arguments() -> (res: Vec<PromptArgument>)
        ensures
            call_ensures(T::prompt_arguments, (), res),
    {
        T::prompt_arguments()
    }
}

/// By default a tool only reads, destroys nothing, can be called again safely and
/// keeps to itself.
pub proof fn law_tools_are_safe_by_default<T: Tool>(res: bool)
    ensures
        call_ensures(<Defaults<T> as Tool>::read_only, (), res) ==> res,
        call_ensures(<Defaults<T> as Tool>::destructive, (), res) ==> !res,
        call_ensures(<Defaults<T> as Tool>::idempotent, (), res) ==> res,
        call_ensures(<Defaults<T> as Tool>::open_world, (), res) ==> !res,
{
}

/// By default the prompt of a tool is named after the tool and described as the
/// tool is.
pub proof fn law_prompts_follow_the_tool_by_default<T: Tool>(
    prompt_name: Cow<'static, str>,
    description: &'static str,
)
    ensures
        call_ensures(<Defaults<T> as Tool>::prompt_name, (), prompt_name) ==> exists|
            name: &'static str,
        | #[trigger] call_ensures(T::name, (), name) && prompt_name@ == name@ + "_help"@,
        call_ensures(<Defaults<T> as Tool>::prompt_description, (), description) ==> call_ensures(
            T::description,
            (),
            description,
        ),
{
    if call_ensures(<Defaults<T> as Tool>::prompt_name, (), prompt_name) {
        let name = choose|name: &'static str| #[trigger]
            call_ensures(<Defaults<T> as Tool>::name, (), name) && prompt_name@ == name@
                + "_help"@;
        assert(call_ensures(T::name, (), name));
    }
}

} // verus!
