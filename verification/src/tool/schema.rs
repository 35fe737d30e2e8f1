//! The JSON schemas of tools: the cache that they are kept in, and the report on
//! a schema that could not be generated.

use crate::text;
use std::sync::Arc;
use vstd::hash_map::StringHashMap;
use vstd::prelude::*;

verus! {

/// What a panic was raised with.
#[derive(Debug)]
pub enum PanicPayload {
    /// A string literal.
    Literal(String),
    /// A formatted string.
    Formatted(String),
    /// Anything else.
    Opaque,
}

/// The text that a panic is reported with.
pub open spec fn panic_text(payload: PanicPayload) -> Seq<char> {
    match payload {
        PanicPayload::Literal(message) => message@,
        PanicPayload::Formatted(message) => message@,
        PanicPayload::Opaque => "Unknown panic during schema generation"@,
    }
}

/// Reports on the generation of a tool's schema: `outcome` says whether it ended
/// or panicked.
pub fn validate_schema(tool_name: &str, outcome: Result<(), PanicPayload>) -> (res: Result<
    (),
    String,
>)
    ensures
        match outcome {
            Ok(_) => res is Ok,
            Err(payload) => res matches Err(report) && report@
                == "Schema generation failed for tool '"@ + tool_name@ + "': "@ + panic_text(
                payload,
            ),
        },
{
    match outcome {
        Ok(_) => Ok(()),
        Err(payload) => {
            let message = match payload {
                PanicPayload::Literal(message) => message,
                PanicPayload::Formatted(message) => message,
                PanicPayload::Opaque => "Unknown panic during schema generation".to_owned(),
            };
            let mut report = text::joined("Schema generation failed for tool '", tool_name);
            report.append("': ");
            report.append(message.as_str());
            Err(report)
        },
    }
}

/// The key that the output schema of a tool is kept under.
pub open spec fn output_key_text(tool_name: Seq<char>) -> Seq<char> {
    tool_name + "_output"@
}

/// The key that the output schema of a tool is kept under.
pub fn output_key(tool_name: &str) -> (res: String)
    ensures
        res@ == output_key_text(tool_name@),
{
    text::joined(tool_name, "_output")
}

/// The output schemas of different tools are kept under different keys.
pub proof fn law_output_keys_differ(first: Seq<char>, second: Seq<char>)
    requires
        first != second,
    ensures
        output_key_text(first) != output_key_text(second),
{
    if output_key_text(first) == output_key_text(second) {
        assert(output_key_text(first).len() == output_key_text(second).len());
        assert(output_key_text(first).take(first.len() as int) == first);
        assert(output_key_text(second).take(second.len() as int) == second);
    }
}

/// Schema cache to avoid repeated generation
#[verifier::reject_recursive_types(Schema)]
pub struct SchemaCache<Schema> {
    schemas: StringHashMap<Arc<Schema>>,
}

impl<Schema> View for SchemaCache<Schema> {
    type V = Map<Seq<char>, Arc<Schema>>;

    closed spec fn view(&self) -> Map<Seq<char>, Arc<Schema>> {
        self.schemas@
    }
}

impl<Schema> SchemaCache<Schema> {
    /// An empty cache
    pub fn new() -> (res: Self)
        ensures
            res@ == Map::<Seq<char>, Arc<Schema>>::empty(),
    {
        SchemaCache { schemas: StringHashMap::new() }
    }

    /// The schema kept under a key. Nothing means that it has to be generated.
    pub fn lookup(&self, key: &str) -> (res: Option<Arc<Schema>>)
        ensures
            match res {
                Some(schema) => self@.contains_key(key@) && schema == self@[key@],
                None => !self@.contains_key(key@),
            },
    {
        match self.schemas.get(key) {
            Some(schema) => Some(schema.clone()),
            None => None,
        }
    }

    /// Keeps a generated schema under a key, and returns it.
    pub fn store(&mut self, key: String, schema: Schema) -> (res: Arc<Schema>)
        ensures
            *res == schema,
            final(self)@ == old(self)@.insert(key@, res),
    {
        let shared = Arc::new(schema);
        self.schemas.insert(key, shared.clone());
        shared
    }
}

/// Which of the two schemas of a tool is meant.
#[derive(Debug, Clone, Copy, PartialEq, Eq, Structural)]
pub enum SchemaKind {
    /// The schema of its arguments.
    Input,
    /// The schema of its output.
    Output,
}

/// The schemas that were generated so far. Input schemas and output schemas are
/// kept apart.
#[verifier::reject_recursive_types(Schema)]
pub struct Schemas<Schema> {
    inputs: SchemaCache<Schema>,
    outputs: SchemaCache<Schema>,
}

/// What a [`Schemas`] holds.
pub struct SchemasView<Schema> {
    /// The input schemas, by tool name.
    pub inputs: Map<Seq<char>, Arc<Schema>>,
    /// The output schemas, by output key.
    pub outputs: Map<Seq<char>, Arc<Schema>>,
}

impl<Schema> View for Schemas<Schema> {
    type V = SchemasView<Schema>;

    closed spec fn view(&self) -> SchemasView<Schema> {
        SchemasView { inputs: self.inputs@, outputs: self.outputs@ }
    }
}

/// The schema of a tool that is kept, if one is.
pub open spec fn found<Schema>(
    state: SchemasView<Schema>,
    kind: SchemaKind,
    tool_name: Seq<char>,
) -> Option<Arc<Schema>> {
    match kind {
        SchemaKind::Input => state.inputs.get(tool_name),
        SchemaKind::Output => state.outputs.get(output_key_text(tool_name)),
    }
}

/// The schemas after one more was stored.
pub open spec fn after_store<Schema>(
    state: SchemasView<Schema>,
    kind: SchemaKind,
    tool_name: Seq<char>,
    schema: Arc<Schema>,
) -> SchemasView<Schema> {
    match kind {
        SchemaKind::Input => SchemasView {
            inputs: state.inputs.insert(tool_name, schema),
            ..state
        },
        SchemaKind::Output => SchemasView {
            outputs: state.outputs.insert(output_key_text(tool_name), schema),
            ..state
        },
    }
}

/// No schemas at all.
pub open spec fn no_schemas<Schema>() -> SchemasView<Schema> {
    SchemasView { inputs: Map::empty(), outputs: Map::empty() }
}

impl<Schema> Schemas<Schema> {
    /// No schemas yet
    pub fn new() -> (res: Self)
        ensures
            res@ == no_schemas::<Schema>(),
    {
        Schemas { inputs: SchemaCache::new(), outputs: SchemaCache::new() }
    }

    /// The schema of a tool. Nothing means that it has to be generated.
    pub fn lookup(&self, kind: SchemaKind, tool_name: &str) -> (res: Option<Arc<Schema>>)
        ensures
            res == found(self@, kind, tool_name@),
    {
        match kind {
            SchemaKind::Input => self.inputs.lookup(tool_name),
            SchemaKind::Output => self.outputs.lookup(output_key(tool_name).as_str()),
        }
    }

    /// Keeps a generated schema of a tool, and returns it.
    pub fn store(&mut self, kind: SchemaKind, tool_name: &str, schema: Schema) -> (res: Arc<Schema>)
        ensures
            *res == schema,
            final(self)@ == after_store(old(self)@, kind, tool_name@, res),
    {
        match kind {
            SchemaKind::Input => self.inputs.store(tool_name.to_owned(), schema),
            SchemaKind::Output => self.outputs.store(output_key(tool_name), schema),
        }
    }

    /// The schema of a tool: the one that is kept, or else one that is generated
    /// now and kept. `generate` is called only if none is kept.
    pub fn request<F: FnOnce() -> Schema>(
        &mut self,
        kind: SchemaKind,
        tool_name: &str,
        generate: F,
    ) -> (res: Arc<Schema>)
        requires
            found(old(self)@, kind, tool_name@) is None ==> call_requires(generate, ()),
        ensures
            match found(old(self)@, kind, tool_name@) {
                Some(kept) => res == kept && final(self)@ == old(self)@,
                None => {
                    &&& call_ensures(generate, (), *res)
                    &&& final(self)@ == after_store(old(self)@, kind, tool_name@, res)
                },
            },
    {
        match self.lookup(kind, tool_name) {
            Some(kept) => kept,
            None => {
                let schema = generate();
                self.store(kind, tool_name, schema)
            },
        }
    }
}

/// A schema of a tool that is stored or asked for. `schema` is the one that is
/// stored, or the one that is generated if none is kept.
pub struct SchemaRequest<Schema> {
    pub kind: SchemaKind,
    pub tool_name: Seq<char>,
    pub schema: Arc<Schema>,
}

/// Whether a request is about the given schema of the given tool.
pub open spec fn is_about<Schema>(
    request: SchemaRequest<Schema>,
    kind: SchemaKind,
    tool_name: Seq<char>,
) -> bool {
    request.kind == kind && request.tool_name == tool_name
}

/// The schemas after a run of stores.
pub open spec fn after_stores<Schema>(
    state: SchemasView<Schema>,
    stores: Seq<SchemaRequest<Schema>>,
) -> SchemasView<Schema>
    decreases stores.len(),
{
    if stores.len() == 0 {
        state
    } else {
        let last = stores.last();
        after_store(
            after_stores(state, stores.drop_last()),
            last.kind,
            last.tool_name,
            last.schema,
        )
    }
}

/// The schema that a request is answered with.
pub open spec fn answer<Schema>(
    state: SchemasView<Schema>,
    request: SchemaRequest<Schema>,
) -> Arc<Schema> {
    match found(state, request.kind, request.tool_name) {
        Some(kept) => kept,
        None => request.schema,
    }
}

/// Whether a request has a schema generated.
pub open spec fn generates<Schema>(
    state: SchemasView<Schema>,
    request: SchemaRequest<Schema>,
) -> bool {
    found(state, request.kind, request.tool_name) is None
}

/// The schemas after a run of requests.
pub open spec fn after_requests<Schema>(
    state: SchemasView<Schema>,
    requests: Seq<SchemaRequest<Schema>>,
) -> SchemasView<Schema>
    decreases requests.len(),
{
    if requests.len() == 0 {
        state
    } else {
        let before = after_requests(state, requests.drop_last());
        let last = requests.last();
        if generates(before, last) {
            after_store(before, last.kind, last.tool_name, last.schema)
        } else {
            before
        }
    }
}

/// A stored schema is found, and storing it changes no other schema of any tool.
proof fn lemma_after_store<Schema>(
    state: SchemasView<Schema>,
    stored: SchemaRequest<Schema>,
    kind: SchemaKind,
    tool_name: Seq<char>,
)
    ensures
        found(
            after_store(state, stored.kind, stored.tool_name, stored.schema),
            kind,
            tool_name,
        ) == if is_about(stored, kind, tool_name) {
            Some(stored.schema)
        } else {
            found(state, kind, tool_name)
        },
{
    if stored.tool_name != tool_name {
        law_output_keys_differ(stored.tool_name, tool_name);
    }
}

/// Stores of other schemas, in either namespace, change nothing about a schema:
/// what was found before is found after any number of them.
pub proof fn law_other_stores_change_nothing<Schema>(
    state: SchemasView<Schema>,
    stores: Seq<SchemaRequest<Schema>>,
    kind: SchemaKind,
    tool_name: Seq<char>,
)
    requires
        forall|i: int|
            0 <= i < stores.len() ==> !is_about(#[trigger] stores[i], kind, tool_name),
    ensures
        found(after_stores(state, stores), kind, tool_name) == found(state, kind, tool_name),
    decreases stores.len(),
{
    if stores.len() > 0 {
        let before = stores.drop_last();
        assert forall|i: int| 0 <= i < before.len() implies !is_about(
            #[trigger] before[i],
            kind,
            tool_name,
        ) by {
            assert(before[i] == stores[i]);
        }
        law_other_stores_change_nothing(state, before, kind, tool_name);
        assert(!is_about(stores[stores.len() - 1], kind, tool_name));
        lemma_after_store(after_stores(state, before), stores.last(), kind, tool_name);
    }
}

/// A stored schema is found after any number of later stores of other schemas.
pub proof fn law_stored_schema_is_found<Schema>(
    state: SchemasView<Schema>,
    stored: SchemaRequest<Schema>,
    later: Seq<SchemaRequest<Schema>>,
)
    requires
        forall|i: int|
            0 <= i < later.len() ==> !is_about(
                #[trigger] later[i],
                stored.kind,
                stored.tool_name,
            ),
    ensures
        found(
            after_stores(
                after_store(state, stored.kind, stored.tool_name, stored.schema),
                later,
            ),
            stored.kind,
            stored.tool_name,
        ) == Some(stored.schema),
{
    let kept = after_store(state, stored.kind, stored.tool_name, stored.schema);
    lemma_after_store(state, stored, stored.kind, stored.tool_name);
    law_other_stores_change_nothing(kept, later, stored.kind, stored.tool_name);
}

/// Input schemas and output schemas have namespaces of their own: whatever is
/// stored in one leaves every lookup in the other as it was.
pub proof fn law_namespaces_are_apart<Schema>(
    state: SchemasView<Schema>,
    stores: Seq<SchemaRequest<Schema>>,
    kind: SchemaKind,
)
    requires
        forall|i: int| 0 <= i < stores.len() ==> (#[trigger] stores[i]).kind != kind,
    ensures
        forall|tool_name: Seq<char>| #[trigger]
            found(after_stores(state, stores), kind, tool_name) == found(state, kind, tool_name),
{
    assert forall|tool_name: Seq<char>| #[trigger]
        found(after_stores(state, stores), kind, tool_name) == found(state, kind, tool_name) by {
        law_other_stores_change_nothing(state, stores, kind, tool_name);
    }
}

/// A schema that is kept stays the one that is found, whatever is requested.
pub proof fn law_kept_schema_stays<Schema>(
    state: SchemasView<Schema>,
    requests: Seq<SchemaRequest<Schema>>,
    kind: SchemaKind,
    tool_name: Seq<char>,
)
    requires
        found(state, kind, tool_name) is Some,
    ensures
        found(after_requests(state, requests), kind, tool_name) == found(state, kind, tool_name),
    decreases requests.len(),
{
    if requests.len() > 0 {
        let before = requests.drop_last();
        law_kept_schema_stays(state, before, kind, tool_name);
        lemma_after_store(after_requests(state, before), requests.last(), kind, tool_name);
    }
}

/// A run of requests is a run followed by the rest of it.
proof fn lemma_requests_split<Schema>(
    state: SchemasView<Schema>,
    requests: Seq<SchemaRequest<Schema>>,
    at: int,
)
    requires
        0 <= at <= requests.len(),
    ensures
        after_requests(state, requests) == after_requests(
            after_requests(state, requests.take(at)),
            requests.skip(at),
        ),
    decreases requests.len(),
{
    if at == requests.len() {
        assert(requests.take(at) == requests);
    } else {
        let before = requests.drop_last();
        lemma_requests_split(state, before, at);
        assert(before.take(at) == requests.take(at));
        assert(requests.skip(at).drop_last() == before.skip(at));
        assert(requests.skip(at).last() == requests.last());
    }
}

/// A schema is generated once and reused: of two requests for the same schema of
/// the same tool, whatever else is requested before, between and after, the
/// later one generates nothing and is answered as the earlier one was.
pub proof fn law_schema_is_generated_once<Schema>(
    state: SchemasView<Schema>,
    requests: Seq<SchemaRequest<Schema>>,
    first: int,
    later: int,
)
    requires
        0 <= first < later < requests.len(),
        requests[first].kind == requests[later].kind,
        requests[first].tool_name == requests[later].tool_name,
    ensures
        ({
            let at_first = after_requests(state, requests.take(first));
            let at_later = after_requests(state, requests.take(later));
            &&& !generates(at_later, requests[later])
            &&& answer(at_later, requests[later]) == answer(at_first, requests[first])
        }),
{
    let asked = requests[first];
    let at_first = after_requests(state, requests.take(first));
    let served = requests.take(first + 1);
    assert(served.drop_last() == requests.take(first));
    assert(served.last() == asked);
    lemma_after_store(at_first, asked, asked.kind, asked.tool_name);
    let run = requests.take(later);
    lemma_requests_split(state, run, first + 1);
    assert(run.take(first + 1) == served);
    law_kept_schema_stays(
        after_requests(state, served),
        run.skip(first + 1),
        asked.kind,
        asked.tool_name,
    );
}

/// Every request is answered with the tool's own schema of the requested kind:
/// where generating depends on the kind and the tool alone, no schema of another
/// kind or tool is ever returned, in whatever order they are requested.
pub proof fn law_answers_are_own_schemas<Schema>(
    requests: Seq<SchemaRequest<Schema>>,
    generated: spec_fn(SchemaKind, Seq<char>) -> Arc<Schema>,
    at: int,
)
    requires
        0 <= at < requests.len(),
        forall|i: int|
            0 <= i < requests.len() ==> (#[trigger] requests[i]).schema == generated(
                requests[i].kind,
                requests[i].tool_name,
            ),
    ensures
        answer(
            after_requests(no_schemas::<Schema>(), requests.take(at)),
            requests[at],
        ) == generated(requests[at].kind, requests[at].tool_name),
{
    lemma_kept_are_own(requests.take(at), generated, requests[at].kind, requests[at].tool_name);
}

/// Of what was requested, only a tool's own schema is kept as its schema.
proof fn lemma_kept_are_own<Schema>(
    requests: Seq<SchemaRequest<Schema>>,
    generated: spec_fn(SchemaKind, Seq<char>) -> Arc<Schema>,
    kind: SchemaKind,
    tool_name: Seq<char>,
)
    requires
        forall|i: int|
            0 <= i < requests.len() ==> (#[trigger] requests[i]).schema == generated(
                requests[i].kind,
                requests[i].tool_name,
            ),
    ensures
        found(after_requests(no_schemas::<Schema>(), requests), kind, tool_name) matches Some(
            kept,
        ) ==> kept == generated(kind, tool_name),
    decreases requests.len(),
{
    if requests.len() > 0 {
        let before = requests.drop_last();
        assert forall|i: int| 0 <= i < before.len() implies (#[trigger] before[i]).schema
            == generated(before[i].kind, before[i].tool_name) by {
            assert(before[i] == requests[i]);
        }
        lemma_kept_are_own(before, generated, kind, tool_name);
        assert(requests[requests.len() - 1] == requests.last());
        lemma_after_store(
            after_requests(no_schemas::<Schema>(), before),
            requests.last(),
            kind,
            tool_name,
        );
    }
}

/// A schema that was generated is reported as such. One that was not is reported
/// with the name of the tool and what the panic said.
pub proof fn law_report_names_tool_and_cause(
    tool_name: &str,
    outcome: Result<(), PanicPayload>,
    res: Result<(), String>,
)
    requires
        call_ensures(validate_schema, (tool_name, outcome), res),
    ensures
        outcome is Ok <==> res is Ok,
        outcome matches Err(payload) ==> (res matches Err(report) && report@
            == "Schema generation failed for tool '"@ + tool_name@ + "': "@ + match payload {
            PanicPayload::Literal(message) => message@,
            PanicPayload::Formatted(message) => message@,
            PanicPayload::Opaque => "Unknown panic during schema generation"@,
        }),
{
}

/// The output key of a tool is its name with a fixed ending.
pub proof fn law_output_key_is_made_of_the_name(tool_name: &str, res: String)
    requires
        call_ensures(output_key, (tool_name,), res),
    ensures
        res@ == tool_name@ + "_output"@,
{
}

/// Nothing is found among no schemas.
pub proof fn law_nothing_is_found_at_first<Schema>(
    schemas: Schemas<Schema>,
    kind: SchemaKind,
    tool_name: &str,
    res: Option<Arc<Schema>>,
)
    requires
        call_ensures(Schemas::<Schema>::new, (), schemas),
        call_ensures(Schemas::<Schema>::lookup, (&schemas, kind, tool_name), res),
    ensures
        res is None,
{
}

/// A schema that was stored is what a lookup gives, and no other lookup changes.
pub proof fn law_lookup_gives_what_was_stored<Schema>(
    schemas: &mut Schemas<Schema>,
    kind: SchemaKind,
    tool_name: &str,
    schema: Schema,
    stored: Arc<Schema>,
    asked_kind: SchemaKind,
    asked_name: &str,
    before: Option<Arc<Schema>>,
    after: Option<Arc<Schema>>,
)
    requires
        call_ensures(Schemas::<Schema>::store, (schemas, kind, tool_name, schema), stored),
        call_ensures(Schemas::<Schema>::lookup, (&*old(schemas), asked_kind, asked_name), before),
        call_ensures(Schemas::<Schema>::lookup, (&*final(schemas), asked_kind, asked_name), after),
    ensures
        *stored == schema,
        kind == asked_kind && tool_name@ == asked_name@ ==> after == Some(stored),
        kind != asked_kind || tool_name@ != asked_name@ ==> after == before,
{
    if tool_name@ != asked_name@ {
        law_output_keys_differ(tool_name@, asked_name@);
    }
}

/// A request gives the schema that is kept and changes nothing, or else what is
/// generated now, and keeps it.
pub proof fn law_request_keeps_what_it_gives<Schema, F: FnOnce() -> Schema>(
    schemas: &mut Schemas<Schema>,
    kind: SchemaKind,
    tool_name: &str,
    generate: F,
    given: Arc<Schema>,
    before: Option<Arc<Schema>>,
    after: Option<Arc<Schema>>,
)
    requires
        call_ensures(Schemas::<Schema>::request::<F>, (schemas, kind, tool_name, generate), given),
        call_ensures(Schemas::<Schema>::lookup, (&*old(schemas), kind, tool_name), before),
        call_ensures(Schemas::<Schema>::lookup, (&*final(schemas), kind, tool_name), after),
    ensures
        before matches Some(kept) ==> given == kept && final(schemas)@ == old(schemas)@,
        before is None ==> call_ensures(generate, (), *given),
        after == Some(given),
{
}

/// A cache gives what was last stored under a key, and storing changes nothing
/// under another key. A new cache gives nothing.
pub proof fn law_cache_gives_what_was_stored<Schema>(
    cache: &mut SchemaCache<Schema>,
    key: String,
    schema: Schema,
    stored: Arc<Schema>,
    asked: &str,
    before: Option<Arc<Schema>>,
    after: Option<Arc<Schema>>,
)
    requires
        call_ensures(SchemaCache::<Schema>::store, (cache, key, schema), stored),
        call_ensures(SchemaCache::<Schema>::lookup, (&*old(cache), asked), before),
        call_ensures(SchemaCache::<Schema>::lookup, (&*final(cache), asked), after),
    ensures
        *stored == schema,
        key@ == asked@ ==> after == Some(stored),
        key@ != asked@ ==> after == before,
        call_ensures(SchemaCache::<Schema>::new, (), *old(cache)) ==> before is None,
{
}

} // verus!
