//! The dispatcher: the lifecycle of a connection, and what each request is
//! answered with.
//!
//! A connection is negotiated, acknowledged, and then served. Every request
//! is answered with exactly one [`Reply`]; a request that its phase does not
//! allow is answered with an ordering failure and changes nothing. Calling a
//! tool is answered with the request to make of the backend; what came back
//! is wrapped by [`complete_call`].

use crate::backend::{
    id_field_name, plan_of, resource_url, shape_of, FetchRequest, Handler,
};
use crate::blob::{blob_entries, blob_new, no_entries, ParamBlob, ParamValueView};
use crate::decode::{decode, decode_all, decode_failure, decode_field, some_field_fails};
use crate::endpoint::{
    address_of, backend_for, default_backend, lemma_default_is_legal,
    lemma_family_tags_are_the_legal_tags,
};
use crate::failure::{
    ordering_message, unknown_tool_message, Failure, FailureKind, FailureView,
};
use crate::registry::{
    catalog_of, find_tool, holds_name, listings_view, registry_ok, tool_ok, Registry, ToolListing,
    ToolListingView, ToolView,
};
use crate::schema::schema_of;
use vstd::prelude::*;

verus! {

/// The phase of a connection.
#[derive(Clone, Copy, Debug, PartialEq, Eq, Structural)]
pub enum Phase {
    /// Nothing has been negotiated yet.
    Uninitialized,
    /// Capabilities were negotiated; the caller has not acknowledged yet.
    Ready,
    /// The caller acknowledged; tools can be listed and called.
    Serving,
    /// The transport was shut down.
    Closed,
}

/// The kind of a request.
#[derive(Clone, Copy, Debug, PartialEq, Eq, Structural)]
pub enum RequestKind {
    Negotiate,
    Acknowledge,
    ListTools,
    CallTool,
}

/// A request as it reaches the dispatcher.
#[derive(Debug)]
pub enum Request {
    /// Negotiate capabilities.
    Negotiate,
    /// The caller's acknowledgement of the negotiation. It gets no response.
    Acknowledge,
    /// List the tools. The cursor is accepted and not looked at: the listing
    /// always comes whole.
    ListTools { cursor: Option<String> },
    /// Call a tool by name with an argument object.
    CallTool { name: String, arguments: Option<ParamBlob> },
}

/// The mathematical value of a [`Request`]: what of it bears on the reply.
pub enum RequestView {
    Negotiate,
    Acknowledge,
    ListTools,
    CallTool { name: Seq<char>, entries: Map<Seq<char>, ParamValueView> },
}

/// The entries of an optional argument object: none where there is no
/// object.
pub open spec fn entries_of(arguments: Option<ParamBlob>) -> Map<Seq<char>, ParamValueView> {
    match arguments {
        Some(blob) => blob_entries(blob),
        None => no_entries(),
    }
}

impl View for Request {
    type V = RequestView;

    open spec fn view(&self) -> RequestView {
        match self {
            Request::Negotiate => RequestView::Negotiate,
            Request::Acknowledge => RequestView::Acknowledge,
            Request::ListTools { cursor } => RequestView::ListTools,
            Request::CallTool { name, arguments } => RequestView::CallTool {
                name: name@,
                entries: entries_of(*arguments),
            },
        }
    }
}

/// The kind of a request.
pub open spec fn kind_of(request: RequestView) -> RequestKind {
    match request {
        RequestView::Negotiate => RequestKind::Negotiate,
        RequestView::Acknowledge => RequestKind::Acknowledge,
        RequestView::ListTools => RequestKind::ListTools,
        RequestView::CallTool { .. } => RequestKind::CallTool,
    }
}

/// Who the server says it is when capabilities are negotiated.
#[derive(Debug)]
pub struct ServerIdentity {
    pub name: String,
    pub version: String,
    /// Whether the server offers tools that can be called.
    pub offers_tools: bool,
}

/// The mathematical value of a [`ServerIdentity`].
pub struct ServerIdentityView {
    pub name: Seq<char>,
    pub version: Seq<char>,
    pub offers_tools: bool,
}

impl View for ServerIdentity {
    type V = ServerIdentityView;

    open spec fn view(&self) -> ServerIdentityView {
        ServerIdentityView {
            name: self.name@,
            version: self.version@,
            offers_tools: self.offers_tools,
        }
    }
}

/// The identity of this server.
pub open spec fn server_identity() -> ServerIdentityView {
    ServerIdentityView {
        name: "Bitcoin Data MCP Server"@,
        version: "0.1.0"@,
        offers_tools: true,
    }
}

/// What a request is answered with.
#[derive(Debug)]
pub enum Reply {
    /// The answer to a negotiation.
    Identity(ServerIdentity),
    /// No response: the request was a notification.
    Nothing,
    /// The whole listing. There is never a next page.
    Tools { tools: Vec<ToolListing>, next_cursor: Option<String> },
    /// The request to make of the backend for a tool call.
    Fetch(FetchRequest),
    /// The request failed.
    Failed(Failure),
}

/// The mathematical value of a [`Reply`].
pub enum ReplyView {
    Identity(ServerIdentityView),
    Nothing,
    Tools { tools: Seq<ToolListingView>, next_cursor: Option<Seq<char>> },
    Fetch(Seq<char>),
    Failed(FailureView),
}

impl View for Reply {
    type V = ReplyView;

    open spec fn view(&self) -> ReplyView {
        match self {
            Reply::Identity(identity) => ReplyView::Identity(identity@),
            Reply::Nothing => ReplyView::Nothing,
            Reply::Tools { tools, next_cursor } => ReplyView::Tools {
                tools: listings_view(tools@),
                next_cursor: match next_cursor {
                    Some(c) => Some(c@),
                    None => None,
                },
            },
            Reply::Fetch(request) => ReplyView::Fetch(request@),
            Reply::Failed(failure) => ReplyView::Failed(failure@),
        }
    }
}

/// Whether a phase allows a kind of request.
pub open spec fn permitted(phase: Phase, kind: RequestKind) -> bool {
    match (phase, kind) {
        (Phase::Uninitialized, RequestKind::Negotiate) => true,
        (Phase::Ready, RequestKind::Acknowledge) => true,
        (Phase::Serving, RequestKind::ListTools) => true,
        (Phase::Serving, RequestKind::CallTool) => true,
        _ => false,
    }
}

/// The phase after a request: negotiation leads to `Ready`, the
/// acknowledgement to `Serving`, and everything else leaves the phase as it
/// was, a request that is not allowed in particular.
pub open spec fn next_phase(phase: Phase, kind: RequestKind) -> Phase {
    match (phase, kind) {
        (Phase::Uninitialized, RequestKind::Negotiate) => Phase::Ready,
        (Phase::Ready, RequestKind::Acknowledge) => Phase::Serving,
        _ => phase,
    }
}

/// The name of a phase in messages.
pub open spec fn phase_label(phase: Phase) -> Seq<char> {
    match phase {
        Phase::Uninitialized => "uninitialized"@,
        Phase::Ready => "ready"@,
        Phase::Serving => "serving"@,
        Phase::Closed => "closed"@,
    }
}

/// The name of a kind of request in messages.
pub open spec fn kind_label(kind: RequestKind) -> Seq<char> {
    match kind {
        RequestKind::Negotiate => "initialize"@,
        RequestKind::Acknowledge => "notifications/initialized"@,
        RequestKind::ListTools => "tools/list"@,
        RequestKind::CallTool => "tools/call"@,
    }
}

/// The failure for a request that its phase does not allow.
pub open spec fn ordering_failure(phase: Phase, kind: RequestKind) -> FailureView {
    FailureView {
        kind: FailureKind::ProtocolOrdering,
        message: ordering_message(kind_label(kind) + " is not allowed while "@ + phase_label(phase)),
    }
}

/// The failure for a name that the registry does not hold.
pub open spec fn unknown_tool_failure(name: Seq<char>) -> FailureView {
    FailureView { kind: FailureKind::UnknownTool, message: unknown_tool_message(name) }
}

/// What calling a tool comes to, before anything is fetched: the request to
/// make of the backend, or the failure of the first step that fails. The
/// steps are the lookup of the name, the decoding of the arguments against
/// the tool's schema, and the handler's plan.
pub open spec fn call_plan(
    tools: Seq<ToolView>,
    name: Seq<char>,
    entries: Map<Seq<char>, ParamValueView>,
) -> Result<Seq<char>, FailureView> {
    match find_tool(tools, name) {
        None => Err(unknown_tool_failure(name)),
        Some(tool) => match decode_all(tool.schema, entries) {
            Err(e) => Err(decode_failure(e)),
            Ok(values) => plan_of(tool.handler, values),
        },
    }
}

/// What a request is answered with in a phase, over a list of tools.
pub open spec fn reply_of(phase: Phase, tools: Seq<ToolView>, request: RequestView) -> ReplyView {
    if !permitted(phase, kind_of(request)) {
        ReplyView::Failed(ordering_failure(phase, kind_of(request)))
    } else {
        match request {
            RequestView::Negotiate => ReplyView::Identity(server_identity()),
            RequestView::Acknowledge => ReplyView::Nothing,
            RequestView::ListTools => ReplyView::Tools {
                tools: catalog_of(tools),
                next_cursor: None,
            },
            RequestView::CallTool { name, entries } => match call_plan(tools, name, entries) {
                Ok(url) => ReplyView::Fetch(url),
                Err(f) => ReplyView::Failed(f),
            },
        }
    }
}

impl Phase {
    /// The name of this phase in messages.
    pub fn label(self) -> (r: &'static str)
        ensures
            r@ == phase_label(self),
    {
        match self {
            Phase::Uninitialized => "uninitialized",
            Phase::Ready => "ready",
            Phase::Serving => "serving",
            Phase::Closed => "closed",
        }
    }

    /// Whether this phase allows a kind of request.
    pub fn permits(self, kind: RequestKind) -> (r: bool)
        ensures
            r == permitted(self, kind),
    {
        match (self, kind) {
            (Phase::Uninitialized, RequestKind::Negotiate) => true,
            (Phase::Ready, RequestKind::Acknowledge) => true,
            (Phase::Serving, RequestKind::ListTools) => true,
            (Phase::Serving, RequestKind::CallTool) => true,
            _ => false,
        }
    }

    /// The phase after a request of a kind.
    pub fn after(self, kind: RequestKind) -> (r: Phase)
        ensures
            r == next_phase(self, kind),
    {
        match (self, kind) {
            (Phase::Uninitialized, RequestKind::Negotiate) => Phase::Ready,
            (Phase::Ready, RequestKind::Acknowledge) => Phase::Serving,
            _ => self,
        }
    }
}

impl RequestKind {
    /// The name of this kind of request in messages.
    pub fn label(self) -> (r: &'static str)
        ensures
            r@ == kind_label(self),
    {
        match self {
            RequestKind::Negotiate => "initialize",
            RequestKind::Acknowledge => "notifications/initialized",
            RequestKind::ListTools => "tools/list",
            RequestKind::CallTool => "tools/call",
        }
    }
}

impl Request {
    /// The kind of this request.
    pub fn kind(&self) -> (r: RequestKind)
        ensures
            r == kind_of(self@),
    {
        match self {
            Request::Negotiate => RequestKind::Negotiate,
            Request::Acknowledge => RequestKind::Acknowledge,
            Request::ListTools { .. } => RequestKind::ListTools,
            Request::CallTool { .. } => RequestKind::CallTool,
        }
    }
}

impl ServerIdentity {
    /// The identity of this server.
    pub fn standard() -> (r: ServerIdentity)
        ensures
            r@ == server_identity(),
    {
        ServerIdentity {
            name: String::from_str("Bitcoin Data MCP Server"),
            version: String::from_str("0.1.0"),
            offers_tools: true,
        }
    }
}

/// The failure for a request of a kind that a phase does not allow.
pub fn ordering_violation(phase: Phase, kind: RequestKind) -> (r: Failure)
    ensures
        r@ == ordering_failure(phase, kind),
{
    let mut detail = String::from_str(kind.label());
    detail.append(" is not allowed while ");
    detail.append(phase.label());
    Failure::ordering(detail.as_str())
}

/// Plan the call of a tool: look the name up, decode the arguments against
/// the tool's schema, and let the handler name the request to make of the
/// backend. A call without an argument object is decoded as one with an
/// empty object.
pub fn plan_call(registry: &Registry, name: &str, arguments: &Option<ParamBlob>) -> (r: Result<
    FetchRequest,
    Failure,
>)
    ensures
        match r {
            Ok(request) => call_plan(registry@, name@, entries_of(*arguments)) == Ok::<
                Seq<char>,
                FailureView,
            >(request@),
            Err(f) => call_plan(registry@, name@, entries_of(*arguments)) == Err::<
                Seq<char>,
                FailureView,
            >(f@),
        },
{
    let tool = match registry.lookup(name) {
        Some(tool) => tool,
        None => {
            return Err(Failure::unknown_tool(name));
        },
    };
    let decoded = match arguments {
        Some(blob) => decode(tool.schema(), blob),
        None => {
            let empty = blob_new();
            decode(tool.schema(), &empty)
        },
    };
    match decoded {
        Ok(values) => tool.handler().plan(&values),
        Err(e) => Err(e.into_failure()),
    }
}

/// The mathematical value of a dispatcher: its phase and its tools.
pub struct DispatcherView {
    pub phase: Phase,
    pub tools: Seq<ToolView>,
}

/// The dispatcher of one connection.
#[derive(Debug)]
pub struct Dispatcher {
    phase: Phase,
    registry: Registry,
}

impl View for Dispatcher {
    type V = DispatcherView;

    closed spec fn view(&self) -> DispatcherView {
        DispatcherView { phase: self.phase, tools: self.registry@ }
    }
}

impl Dispatcher {
    /// A dispatcher over a registry, before anything is negotiated.
    pub fn new(registry: Registry) -> (r: Dispatcher)
        ensures
            r@.phase == Phase::Uninitialized,
            r@.tools == registry@,
    {
        Dispatcher { phase: Phase::Uninitialized, registry }
    }

    /// A dispatcher over this server's catalog.
    pub fn standard() -> (r: Dispatcher)
        ensures
            r@.phase == Phase::Uninitialized,
            r@.tools == crate::catalog::standard_tools(),
    {
        Dispatcher::new(Registry::standard())
    }

    /// The phase of the connection.
    pub fn phase(&self) -> (r: Phase)
        ensures
            r == self@.phase,
    {
        self.phase
    }

    /// The registry that this dispatcher serves.
    pub fn registry(&self) -> (r: &Registry)
        ensures
            r@ == self@.tools,
    {
        &self.registry
    }

    /// Answer a request. The tools never change; the phase moves on exactly
    /// where the request was allowed and was a negotiation or an
    /// acknowledgement.
    pub fn handle(&mut self, request: Request) -> (reply: Reply)
        ensures
            final(self)@.tools == old(self)@.tools,
            final(self)@.phase == next_phase(old(self)@.phase, kind_of(request@)),
            reply@ == reply_of(old(self)@.phase, old(self)@.tools, request@),
    {
        let kind = request.kind();
        if !self.phase.permits(kind) {
            return Reply::Failed(ordering_violation(self.phase, kind));
        }
        self.phase = self.phase.after(kind);
        match request {
            Request::Negotiate => Reply::Identity(ServerIdentity::standard()),
            Request::Acknowledge => Reply::Nothing,
            Request::ListTools { cursor } => Reply::Tools {
                tools: self.registry.list(),
                next_cursor: None,
            },
            Request::CallTool { name, arguments } => {
                match plan_call(&self.registry, name.as_str(), &arguments) {
                    Ok(fetch) => Reply::Fetch(fetch),
                    Err(failure) => Reply::Failed(failure),
                }
            },
        }
    }

    /// Note that the transport was shut down. Nothing is allowed afterwards.
    pub fn close(&mut self)
        ensures
            final(self)@.tools == old(self)@.tools,
            final(self)@.phase == Phase::Closed,
    {
        self.phase = Phase::Closed;
    }
}

/// One item of a successful result.
#[derive(Debug)]
pub enum Content {
    Text(String),
}

/// The result of a tool call that succeeded.
#[derive(Debug)]
pub struct CallSuccess {
    pub content: Vec<Content>,
}

/// The texts of a list of content items.
pub open spec fn content_texts(content: Seq<Content>) -> Seq<Seq<char>> {
    Seq::new(content.len(), |i: int| content[i]->Text_0@)
}

/// The envelope of a finished call, given what the backend returned: its body
/// as the one text item of a success, or its message as an internal failure.
pub open spec fn envelope_of(outcome: Result<Seq<char>, Seq<char>>) -> Result<
    Seq<Seq<char>>,
    FailureView,
> {
    match outcome {
        Ok(body) => Ok(seq![body]),
        Err(message) => Err(FailureView { kind: FailureKind::Internal, message }),
    }
}

/// Wrap what the backend returned for a call. The body is passed on as it
/// is; of a failure only the message is.
pub fn complete_call(outcome: Result<String, String>) -> (r: Result<CallSuccess, Failure>)
    ensures
        match (outcome, r) {
            (Ok(body), Ok(success)) => content_texts(success.content@) == seq![body@],
            (Err(message), Err(failure)) => failure@ == (FailureView {
                kind: FailureKind::Internal,
                message: message@,
            }),
            _ => false,
        },
{
    match outcome {
        Ok(body) => {
            let mut content: Vec<Content> = Vec::new();
            let ghost text = body@;
            content.push(Content::Text(body));
            assert(content_texts(content@) =~= seq![text]);
            Ok(CallSuccess { content })
        },
        Err(message) => Err(Failure::internal(message)),
    }
}

/// Calling a name that the registry does not hold gives an unknown-tool
/// failure whose message is the fixed lead followed by exactly that name.
pub proof fn lemma_unregistered_name_is_unknown_tool(
    tools: Seq<ToolView>,
    name: Seq<char>,
    entries: Map<Seq<char>, ParamValueView>,
)
    requires
        !holds_name(tools, name),
    ensures
        call_plan(tools, name, entries) == Err::<Seq<char>, FailureView>(
            unknown_tool_failure(name),
        ),
        unknown_tool_failure(name).kind == FailureKind::UnknownTool,
        unknown_tool_failure(name).message == "Unknown tool: "@ + name,
{
}

/// Before negotiation, listing and calling are answered with an ordering
/// failure and leave the connection as it was; the connection can then still
/// be negotiated and acknowledged, after which the same request is answered
/// on its merits.
pub proof fn lemma_early_request_is_refused_and_harmless(tools: Seq<ToolView>, request: RequestView)
    requires
        kind_of(request) == RequestKind::ListTools || kind_of(request) == RequestKind::CallTool,
    ensures
        reply_of(Phase::Uninitialized, tools, request) == ReplyView::Failed(
            ordering_failure(Phase::Uninitialized, kind_of(request)),
        ),
        ordering_failure(Phase::Uninitialized, kind_of(request)).kind
            == FailureKind::ProtocolOrdering,
        next_phase(Phase::Uninitialized, kind_of(request)) == Phase::Uninitialized,
        reply_of(Phase::Uninitialized, tools, RequestView::Negotiate) == ReplyView::Identity(
            server_identity(),
        ),
        next_phase(Phase::Uninitialized, RequestKind::Negotiate) == Phase::Ready,
        reply_of(Phase::Ready, tools, RequestView::Acknowledge) == ReplyView::Nothing,
        next_phase(Phase::Ready, RequestKind::Acknowledge) == Phase::Serving,
        permitted(Phase::Serving, kind_of(request)),
        next_phase(Phase::Serving, kind_of(request)) == Phase::Serving,
{
}

/// A request that its phase does not allow never moves the phase, and a
/// closed connection allows nothing.
pub proof fn lemma_refused_request_changes_nothing(phase: Phase, kind: RequestKind)
    ensures
        !permitted(phase, kind) ==> next_phase(phase, kind) == phase,
        !permitted(Phase::Closed, kind),
{
}

/// What a handler's schema makes of arguments that decode: the first value
/// is the id as the caller wrote it, the second the network tag, which is the
/// caller's where there is one and the family's default where there is none,
/// and the family serves it either way.
pub proof fn lemma_decoded_arguments_fit_the_handler(
    handler: Handler,
    entries: Map<Seq<char>, ParamValueView>,
)
    requires
        decode_all(schema_of(shape_of(handler)), entries) is Ok,
    ensures
        ({
            let values = decode_all(schema_of(shape_of(handler)), entries)->Ok_0;
            &&& values.len() == 2
            &&& entries.contains_key(id_field_name(handler.resource))
            &&& values[0] is Text
            &&& values[1] is Text
            &&& backend_for(handler.family, values[1]->Text_0) is Some
            &&& !entries.contains_key("network"@) ==> backend_for(handler.family, values[1]->Text_0)
                == Some(default_backend(handler.family))
            &&& plan_of(handler, values) == Ok::<Seq<char>, FailureView>(
                resource_url(
                    handler.resource,
                    address_of(backend_for(handler.family, values[1]->Text_0)->Some_0),
                    values[0]->Text_0,
                ),
            )
        }),
{
    let fields = schema_of(shape_of(handler));
    assert(!some_field_fails(fields, entries));
    assert(decode_field(fields[0], entries) is Ok);
    assert(decode_field(fields[1], entries) is Ok);
    let values = decode_all(fields, entries)->Ok_0;
    assert(values[0] == decode_field(fields[0], entries)->Ok_0);
    assert(values[1] == decode_field(fields[1], entries)->Ok_0);
    lemma_default_is_legal(handler.family);
    if entries.contains_key("network"@) {
        let tag = values[1]->Text_0;
        lemma_family_tags_are_the_legal_tags(handler.family, tag);
    }
}

/// Calling a registered tool succeeds exactly where its arguments decode: a
/// registered name together with arguments that fit the tool's schema always
/// yields a request, and a failure comes from the lookup or from the decoding
/// alone.
pub proof fn lemma_call_succeeds_iff_arguments_decode(
    tools: Seq<ToolView>,
    name: Seq<char>,
    entries: Map<Seq<char>, ParamValueView>,
)
    requires
        registry_ok(tools),
    ensures
        call_plan(tools, name, entries) is Ok <==> (find_tool(tools, name) matches Some(tool)
            && decode_all(tool.schema, entries) is Ok),
{
    if find_tool(tools, name) is Some {
        let tool = find_tool(tools, name)->Some_0;
        crate::registry::lemma_found_tool_is_listed(tools, name);
        assert(tool_ok(tool));
        if decode_all(tool.schema, entries) is Ok {
            lemma_decoded_arguments_fit_the_handler(tool.handler, entries);
        }
    }
}

/// A network tag that the tool's family does not serve fails the call with
/// an invalid-parameters failure, whatever the tag: no address stands in
/// for it.
pub proof fn lemma_unserved_network_fails_the_call(
    handler: Handler,
    entries: Map<Seq<char>, ParamValueView>,
    tag: Seq<char>,
)
    requires
        entries.contains_key("network"@),
        entries["network"@] == ParamValueView::Text(tag),
        backend_for(handler.family, tag) is None,
    ensures
        decode_all(schema_of(shape_of(handler)), entries) is Err,
{
    let fields = schema_of(shape_of(handler));
    lemma_family_tags_are_the_legal_tags(handler.family, tag);
    assert(decode_field(fields[1], entries) is Err);
}

} // verus!
