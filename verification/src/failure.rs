//! The failure envelope: every failure that leaves the dispatcher carries a
//! kind and a message, and nothing else.

use vstd::prelude::*;

verus! {

/// What went wrong, by kind.
#[derive(Clone, Copy, Debug, PartialEq, Eq, Structural)]
pub enum FailureKind {
    /// A request arrived in a phase of the lifecycle that does not allow it.
    ProtocolOrdering,
    /// The named tool is not in the registry.
    UnknownTool,
    /// The arguments do not fit the tool's parameter shape.
    InvalidParameters,
    /// The tool's handler itself failed.
    Internal,
}

/// A failure as it is handed to the caller.
#[derive(Debug)]
pub struct Failure {
    pub kind: FailureKind,
    pub message: String,
}

/// The mathematical value of a [`Failure`].
pub struct FailureView {
    pub kind: FailureKind,
    pub message: Seq<char>,
}

impl View for Failure {
    type V = FailureView;

    open spec fn view(&self) -> FailureView {
        FailureView { kind: self.kind, message: self.message@ }
    }
}

/// The message of an unknown-tool failure: a fixed lead, then the name as the
/// caller wrote it.
pub open spec fn unknown_tool_message(name: Seq<char>) -> Seq<char> {
    "Unknown tool: "@ + name
}

/// The message of an invalid-parameters failure with the given detail.
pub open spec fn invalid_parameters_message(detail: Seq<char>) -> Seq<char> {
    "Invalid parameters: "@ + detail
}

/// The message of an ordering failure with the given detail.
pub open spec fn ordering_message(detail: Seq<char>) -> Seq<char> {
    "Protocol ordering violation: "@ + detail
}

/// The error code under which a kind of failure travels in a JSON-RPC
/// response: `-32603` (internal error) for a failed handler, `-32600`
/// (invalid request) for everything the caller got wrong.
pub open spec fn rpc_code_of(kind: FailureKind) -> int {
    match kind {
        FailureKind::Internal => -32603,
        _ => -32600,
    }
}

impl FailureKind {
    /// The JSON-RPC error code of this kind.
    pub fn rpc_code(self) -> (r: i32)
        ensures
            r == rpc_code_of(self),
    {
        match self {
            FailureKind::Internal => -32603,
            _ => -32600,
        }
    }
}

impl Failure {
    /// The failure for a tool name that the registry does not hold.
    pub fn unknown_tool(name: &str) -> (r: Failure)
        ensures
            r@.kind == FailureKind::UnknownTool,
            r@.message == unknown_tool_message(name@),
    {
        let mut message = String::from_str("Unknown tool: ");
        message.append(name);
        Failure { kind: FailureKind::UnknownTool, message }
    }

    /// The failure for arguments that do not fit a parameter shape.
    pub fn invalid_parameters(detail: &str) -> (r: Failure)
        ensures
            r@.kind == FailureKind::InvalidParameters,
            r@.message == invalid_parameters_message(detail@),
    {
        let mut message = String::from_str("Invalid parameters: ");
        message.append(detail);
        Failure { kind: FailureKind::InvalidParameters, message }
    }

    /// The failure for a request that its phase does not allow.
    pub fn ordering(detail: &str) -> (r: Failure)
        ensures
            r@.kind == FailureKind::ProtocolOrdering,
            r@.message == ordering_message(detail@),
    {
        let mut message = String::from_str("Protocol ordering violation: ");
        message.append(detail);
        Failure { kind: FailureKind::ProtocolOrdering, message }
    }

    /// The failure for a handler that failed: its message crosses unchanged,
    /// and nothing else of it does.
    pub fn internal(message: String) -> (r: Failure)
        ensures
            r@.kind == FailureKind::Internal,
            r@.message == message@,
    {
        Failure { kind: FailureKind::Internal, message }
    }
}

/// An unknown-tool message ends in exactly the name that was asked for.
pub proof fn lemma_unknown_tool_names_it(name: Seq<char>)
    ensures
        unknown_tool_message(name).len() == "Unknown tool: "@.len() + name.len(),
        unknown_tool_message(name).subrange(
            "Unknown tool: "@.len() as int,
            unknown_tool_message(name).len() as int,
        ) == name,
{
}

/// Two unknown-tool messages agree only when they name the same tool.
pub proof fn lemma_unknown_tool_message_injective(a: Seq<char>, b: Seq<char>)
    requires
        unknown_tool_message(a) == unknown_tool_message(b),
    ensures
        a == b,
{
    lemma_unknown_tool_names_it(a);
    lemma_unknown_tool_names_it(b);
}

} // verus!
