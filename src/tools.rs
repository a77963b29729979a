//! The tool registry: which tools exist and how a call names one.
use vstd::prelude::*;
use vstd::string::StringExecFns;

verus! {

/// The tools that the server offers.
#[derive(Clone, Copy, Debug, PartialEq, Eq, Structural)]
pub enum ToolKind {
    GetDatabaseSchema,
    ExecuteQuery,
}

pub open spec fn tool_name(k: ToolKind) -> Seq<char> {
    match k {
        ToolKind::GetDatabaseSchema => "get_database_schema"@,
        ToolKind::ExecuteQuery => "execute_query"@,
    }
}

/// The registered tool with the given name, if any.
pub open spec fn tool_named(name: Seq<char>) -> Option<ToolKind> {
    if name == tool_name(ToolKind::GetDatabaseSchema) {
        Some(ToolKind::GetDatabaseSchema)
    } else if name == tool_name(ToolKind::ExecuteQuery) {
        Some(ToolKind::ExecuteQuery)
    } else {
        None
    }
}

/// Looks up a tool by name.
pub fn lookup_tool(name: &str) -> (r: Option<ToolKind>)
    ensures
        r == tool_named(name@),
{
    let n = String::from_str(name);
    let schema = String::from_str("get_database_schema");
    let query = String::from_str("execute_query");
    proof {
        reveal_strlit("get_database_schema");
        reveal_strlit("execute_query");
    }
    if n == schema {
        Some(ToolKind::GetDatabaseSchema)
    } else if n == query {
        Some(ToolKind::ExecuteQuery)
    } else {
        None
    }
}

} // verus!
