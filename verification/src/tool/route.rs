//! Routes: a tool together with what clients are told of it. The tool may be
//! handed over by itself or shared already; the route is the same.

use crate::tool;
use crate::tool::metadata;
use crate::tool::metadata::{PromptArgument, PromptMetadata, ToolMetadata};
use crate::tool::Tool;
use std::borrow::Cow;
use std::sync::Arc;
use vstd::prelude::*;

verus! {

/// The route to the execution of a tool. `H` is what is executed.
pub struct ToolRoute<H, Schema> {
    /// What clients are told of the tool.
    pub metadata: ToolMetadata<Schema>,
    /// What a call is handed to.
    pub tool: Arc<H>,
}

/// The route to the prompt of a tool. `H` is what makes the conversation.
pub struct PromptRoute<H> {
    /// What clients are told of the prompt.
    pub metadata: PromptMetadata,
    /// What a request is handed to.
    pub tool: Arc<H>,
}

/// The route to a tool that is shared already; `T` is what it says of itself.
pub fn arc_into_tool_route<T: Tool, H, Schema>(
    tool: Arc<H>,
    input_schema: Arc<Schema>,
    output_schema: Arc<Schema>,
) -> (res: ToolRoute<H, Schema>)
    ensures
        res.tool == tool,
        tool::announces::<T, Schema>(res.metadata, input_schema, output_schema),
{
    ToolRoute { metadata: tool::tool_metadata::<T, Schema>(input_schema, output_schema), tool }
}

/// The route to a tool; `T` is what it says of itself.
pub fn into_tool_route<T: Tool, H, Schema>(
    tool: H,
    input_schema: Arc<Schema>,
    output_schema: Arc<Schema>,
) -> (res: ToolRoute<H, Schema>)
    ensures
        *res.tool == tool,
        tool::announces::<T, Schema>(res.metadata, input_schema, output_schema),
{
    arc_into_tool_route::<T, H, Schema>(Arc::new(tool), input_schema, output_schema)
}

/// The route to the prompt of a tool that is shared already; `T` is what it says
/// of itself.
pub fn arc_into_prompt_route<T: Tool, H>(tool: Arc<H>) -> (res: PromptRoute<H>)
    ensures
        res.tool == tool,
        tool::announces_prompt::<T>(res.metadata),
{
    PromptRoute { metadata: tool::prompt_metadata::<T>(), tool }
}

/// The route to the prompt of a tool; `T` is what it says of itself.
pub fn into_prompt_route<T: Tool, H>(tool: H) -> (res: PromptRoute<H>)
    ensures
        *res.tool == tool,
        tool::announces_prompt::<T>(res.metadata),
{
    arc_into_prompt_route::<T, H>(Arc::new(tool))
}

/// Whether a tool says the same of itself whenever it is asked.
pub open spec fn is_steady<T: Tool>() -> bool {
    &&& forall|a: &'static str, b: &'static str| #[trigger]
        call_ensures(T::name, (), a) && #[trigger] call_ensures(T::name, (), b) ==> a@ == b@
    &&& forall|a: &'static str, b: &'static str| #[trigger]
        call_ensures(T::description, (), a) && #[trigger] call_ensures(T::description, (), b)
            ==> a@ == b@
    &&& forall|a: bool, b: bool| #[trigger]
        call_ensures(T::read_only, (), a) && #[trigger] call_ensures(T::read_only, (), b) ==> a == b
    &&& forall|a: bool, b: bool| #[trigger]
        call_ensures(T::destructive, (), a) && #[trigger] call_ensures(T::destructive, (), b) ==> a
            == b
    &&& forall|a: bool, b: bool| #[trigger]
        call_ensures(T::idempotent, (), a) && #[trigger] call_ensures(T::idempotent, (), b) ==> a
            == b
    &&& forall|a: bool, b: bool| #[trigger]
        call_ensures(T::open_world, (), a) && #[trigger] call_ensures(T::open_world, (), b) ==> a
            == b
}

/// Whether a tool says the same of its prompt whenever it is asked.
pub open spec fn is_prompt_steady<T: Tool>() -> bool {
    &&& forall|a: Cow<'static, str>, b: Cow<'static, str>| #[trigger]
        call_ensures(T::prompt_name, (), a) && #[trigger] call_ensures(T::prompt_name, (), b) ==> a@
            == b@
    &&& forall|a: &'static str, b: &'static str| #[trigger]
        call_ensures(T::prompt_description, (), a) && #[trigger] call_ensures(
            T::prompt_description,
            (),
            b,
        ) ==> a@ == b@
    &&& forall|a: Vec<PromptArgument>, b: Vec<PromptArgument>| #[trigger]
        call_ensures(T::prompt_arguments, (), a) && #[trigger] call_ensures(
            T::prompt_arguments,
            (),
            b,
        ) ==> metadata::argument_views(a@) == metadata::argument_views(b@)
}

/// The two forms of a tool's route agree: whether the tool was handed over by
/// itself or shared already, the same tool is executed and clients are told the
/// same of it.
pub proof fn law_tool_routes_agree<T: Tool, H, Schema>(
    tool: H,
    owned: ToolRoute<H, Schema>,
    shared: ToolRoute<H, Schema>,
    input_schema: Arc<Schema>,
    output_schema: Arc<Schema>,
)
    requires
        is_steady::<T>(),
        call_ensures(
            into_tool_route::<T, H, Schema>,
            (tool, input_schema, output_schema),
            owned,
        ),
        call_ensures(
            arc_into_tool_route::<T, H, Schema>,
            (Arc::new(tool), input_schema, output_schema),
            shared,
        ),
    ensures
        owned.tool == shared.tool,
        owned.metadata@ == shared.metadata@,
{
}

/// The two forms of a prompt's route agree: whether the tool was handed over by
/// itself or shared already, the same tool makes the conversation and clients are
/// told the same of it.
pub proof fn law_prompt_routes_agree<T: Tool, H>(
    tool: H,
    owned: PromptRoute<H>,
    shared: PromptRoute<H>,
)
    requires
        is_prompt_steady::<T>(),
        call_ensures(into_prompt_route::<T, H>, (tool,), owned),
        call_ensures(arc_into_prompt_route::<T, H>, (Arc::new(tool),), shared),
    ensures
        owned.tool == shared.tool,
        owned.metadata@ == shared.metadata@,
{
}

/// Clients are told of a tool what it says of itself: each part of the
/// announcement, and each hint, is what the tool answers to the question of that
/// name. The schemas are those given.
pub proof fn law_tool_route_says_what_the_tool_says<T: Tool, H, Schema>(
    tool: H,
    shared: Arc<H>,
    input_schema: Arc<Schema>,
    output_schema: Arc<Schema>,
    res: ToolRoute<H, Schema>,
)
    requires
        call_ensures(into_tool_route::<T, H, Schema>, (tool, input_schema, output_schema), res)
            || call_ensures(
            arc_into_tool_route::<T, H, Schema>,
            (shared, input_schema, output_schema),
            res,
        ),
    ensures
        exists|name: &'static str| #[trigger]
            call_ensures(T::name, (), name) && res.metadata.name@ == name@,
        exists|description: &'static str| #[trigger]
            call_ensures(T::description, (), description) && (
            res.metadata.description matches Some(told) && told@ == description@),
        res.metadata.title is None,
        res.metadata.input_schema == input_schema,
        res.metadata.output_schema == Some(output_schema),
        res.metadata.annotations matches Some(hints) && {
            &&& hints.title is None
            &&& exists|answer: bool| #[trigger]
                call_ensures(T::read_only, (), answer) && hints.read_only_hint == Some(answer)
            &&& exists|answer: bool| #[trigger]
                call_ensures(T::destructive, (), answer) && hints.destructive_hint == Some(answer)
            &&& exists|answer: bool| #[trigger]
                call_ensures(T::idempotent, (), answer) && hints.idempotent_hint == Some(answer)
            &&& exists|answer: bool| #[trigger]
                call_ensures(T::open_world, (), answer) && hints.open_world_hint == Some(answer)
        },
{
}

/// A call is handed to the tool that the route was made from.
pub proof fn law_routes_lead_to_the_tool<T: Tool, H, Schema>(
    tool: H,
    shared: Arc<H>,
    input_schema: Arc<Schema>,
    output_schema: Arc<Schema>,
    route: ToolRoute<H, Schema>,
    prompt_route: PromptRoute<H>,
)
    ensures
        call_ensures(into_tool_route::<T, H, Schema>, (tool, input_schema, output_schema), route)
            ==> *route.tool == tool,
        call_ensures(
            arc_into_tool_route::<T, H, Schema>,
            (shared, input_schema, output_schema),
            route,
        ) ==> route.tool == shared,
        call_ensures(into_prompt_route::<T, H>, (tool,), prompt_route) ==> *prompt_route.tool
            == tool,
        call_ensures(arc_into_prompt_route::<T, H>, (shared,), prompt_route) ==> prompt_route.tool
            == shared,
{
}

/// Clients are told of a prompt what the tool says of it.
pub proof fn law_prompt_route_says_what_the_tool_says<T: Tool, H>(
    tool: H,
    shared: Arc<H>,
    res: PromptRoute<H>,
)
    requires
        call_ensures(into_prompt_route::<T, H>, (tool,), res) || call_ensures(
            arc_into_prompt_route::<T, H>,
            (shared,),
            res,
        ),
    ensures
        exists|name: Cow<'static, str>| #[trigger]
            call_ensures(T::prompt_name, (), name) && res.metadata.name@ == name@,
        exists|description: &'static str| #[trigger]
            call_ensures(T::prompt_description, (), description) && (
            res.metadata.description matches Some(told) && told@ == description@),
        exists|arguments: Vec<PromptArgument>| #[trigger]
            call_ensures(T::prompt_arguments, (), arguments) && res.metadata.arguments == Some(
                arguments,
            ),
        res.metadata.title is None,
{
}

} // verus!
