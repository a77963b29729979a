//! Validated dispatch of a tool call: the tool must exist and its payload
//! must fit the tool's parameters before any work is done.
use vstd::prelude::*;
use vstd::string::StringExecFns;
use crate::tools::{ToolKind, tool_named, lookup_tool};

verus! {

/// A value in a call's payload, as far as parameter decoding reads it.
#[derive(Clone, Debug)]
pub enum ArgValue {
    Text(String),
    Other,
}

/// One named field of a call's payload.
#[derive(Clone, Debug)]
pub struct Argument {
    pub key: String,
    pub value: ArgValue,
}

/// The parameters of `execute_query`.
#[derive(Clone, Debug)]
pub struct QueryRequest {
    pub query: String,
}

/// A pair of integer operands.
#[derive(Clone, Copy, Debug, PartialEq, Eq, Structural)]
pub struct StructRequest {
    pub a: i32,
    pub b: i32,
}

/// Why a call produced an error frame.
#[derive(Clone, Copy, Debug, PartialEq, Eq, Structural)]
pub enum ErrorKind {
    UnknownTool,
    InvalidParams,
    InvalidRequest,
    BackendFailure,
}

/// The error frame of a tool call.
#[derive(Clone, Debug)]
pub struct ToolError {
    pub kind: ErrorKind,
    pub message: String,
}

/// A decoded call, ready to run against the store.
#[derive(Clone, Debug)]
pub enum ToolCall {
    DatabaseSchema,
    Query(QueryRequest),
}

pub open spec fn query_key() -> Seq<char> {
    "query"@
}

/// Index of the first payload field with the given key, from `i` on.
pub open spec fn find_key(args: Seq<Argument>, key: Seq<char>, i: int) -> Option<int>
    decreases args.len() - i,
{
    if i < 0 || i >= args.len() {
        None
    } else if args[i].key@ == key {
        Some(i)
    } else {
        find_key(args, key, i + 1)
    }
}

/// The text of the `query` field, if the payload has one holding text.
pub open spec fn query_arg(args: Seq<Argument>) -> Option<Seq<char>> {
    match find_key(args, query_key(), 0) {
        Some(i) => match args[i].value {
            ArgValue::Text(s) => Some(s@),
            ArgValue::Other => None,
        },
        None => None,
    }
}

proof fn lemma_find_key_none_below(args: Seq<Argument>, key: Seq<char>, i: int, j: int)
    requires
        0 <= j <= i,
        forall|k: int| j <= k < i ==> args[k].key@ != key,
    ensures
        find_key(args, key, j) == find_key(args, key, i),
    decreases i - j,
{
    if j < i {
        lemma_find_key_none_below(args, key, i, j + 1);
    }
}

/// Decodes the parameters of `execute_query`: the payload must hold a
/// `query` field whose value is text.
pub fn decode_query_request(args: &Vec<Argument>) -> (r: Result<QueryRequest, ToolError>)
    ensures
        match query_arg(args@) {
            Some(q) => r matches Ok(req) && req.query@ == q,
            None => r matches Err(e) && e.kind == ErrorKind::InvalidParams,
        },
{
    let key = String::from_str("query");
    proof {
        reveal_strlit("query");
    }
    let mut i: usize = 0;
    while i < args.len()
        invariant
            0 <= i <= args.len(),
            key@ == query_key(),
            forall|k: int| 0 <= k < i ==> args@[k].key@ != query_key(),
        decreases args.len() - i,
    {
        if args[i].key == key {
            proof {
                lemma_find_key_none_below(args@, query_key(), i as int, 0);
            }
            return match &args[i].value {
                ArgValue::Text(s) => Ok(QueryRequest { query: s.clone() }),
                ArgValue::Other => Err(invalid_params()),
            };
        }
        i = i + 1;
    }
    proof {
        lemma_find_key_none_below(args@, query_key(), i as int, 0);
    }
    Err(invalid_params())
}

fn invalid_params() -> (e: ToolError)
    ensures
        e.kind == ErrorKind::InvalidParams,
        e.message@ == "failed to deserialize parameters: missing text field `query`"@,
{
    ToolError {
        kind: ErrorKind::InvalidParams,
        message: String::from_str("failed to deserialize parameters: missing text field `query`"),
    }
}

/// Routes a call to its tool. An unknown name, or a payload that does not fit
/// the tool's parameters, gives an error and no call to run.
pub fn dispatch(name: &str, args: &Vec<Argument>) -> (r: Result<ToolCall, ToolError>)
    ensures
        match tool_named(name@) {
            None => r matches Err(e) && e.kind == ErrorKind::UnknownTool
                && e.message@ == "tool not found"@,
            Some(ToolKind::GetDatabaseSchema) => r matches Ok(ToolCall::DatabaseSchema),
            Some(ToolKind::ExecuteQuery) => match query_arg(args@) {
                Some(q) => r matches Ok(ToolCall::Query(req)) && req.query@ == q,
                None => r matches Err(e) && e.kind == ErrorKind::InvalidParams,
            },
        },
{
    match lookup_tool(name) {
        None => {
            proof {
                reveal_strlit("tool not found");
            }
            Err(ToolError { kind: ErrorKind::UnknownTool, message: String::from_str("tool not found") })
        },
        Some(ToolKind::GetDatabaseSchema) => Ok(ToolCall::DatabaseSchema),
        Some(ToolKind::ExecuteQuery) => match decode_query_request(args) {
            Ok(req) => Ok(ToolCall::Query(req)),
            Err(e) => Err(e),
        },
    }
}

/// A name other than the two registered ones names no tool, so `dispatch`
/// answers it with an unknown-tool error and hands back no call to run.
pub proof fn lemma_unknown_name_rejected(name: Seq<char>)
    requires
        name != "get_database_schema"@,
        name != "execute_query"@,
    ensures
        tool_named(name) == None::<ToolKind>,
{
}

/// A payload with no `query` field has no query text, so `dispatch` answers
/// an `execute_query` call with it by an invalid-parameters error, before
/// any connection is needed.
pub proof fn lemma_missing_query_rejected(args: Seq<Argument>)
    requires
        forall|i: int| 0 <= i < args.len() ==> #[trigger] args[i].key@ != "query"@,
    ensures
        query_arg(args) == None::<Seq<char>>,
{
    lemma_find_key_none_below(args, query_key(), args.len() as int, 0);
}

} // verus!
