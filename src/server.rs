//! The server: its fixed tool registry, its pool, and its handshake answer.
use vstd::prelude::*;
use vstd::string::StringExecFns;
use crate::tools::{ToolKind, tool_name, tool_named};
use crate::dispatch::{Argument, ToolCall, ToolError, ErrorKind, query_arg, dispatch};

verus! {

/// Most connections that the pool lends at once.
pub const POOL_CAPACITY: u32 = 5;

/// The protocol version that the handshake announces.
pub open spec fn protocol_version() -> Seq<char> {
    "2024-11-05"@
}

/// The catalog query behind `get_database_schema`: every column of the four
/// tables, ordered by table name.
pub open spec fn schema_query_text() -> Seq<char> {
    "SELECT\n    table_name,\n    column_name,\n    data_type\nFROM\n    information_schema.columns\nWHERE\n    table_name = ANY('{classes, courses, enrollments, students}'::text[])\nORDER BY table_name;"@
}

/// Text of the catalog query behind `get_database_schema`.
pub fn schema_query() -> (r: &'static str)
    ensures
        r@ == schema_query_text(),
{
    proof {
        reveal_strlit(
            "SELECT\n    table_name,\n    column_name,\n    data_type\nFROM\n    information_schema.columns\nWHERE\n    table_name = ANY('{classes, courses, enrollments, students}'::text[])\nORDER BY table_name;",
        );
    }
    "SELECT\n    table_name,\n    column_name,\n    data_type\nFROM\n    information_schema.columns\nWHERE\n    table_name = ANY('{classes, courses, enrollments, students}'::text[])\nORDER BY table_name;"
}

/// A registered tool as clients see it.
#[derive(Clone, Debug)]
pub struct ToolDefinition {
    pub kind: ToolKind,
    pub name: String,
    pub description: String,
}

/// The capabilities that the handshake announces.
#[derive(Clone, Copy, Debug, PartialEq, Eq, Structural)]
pub struct Capabilities {
    pub tools: bool,
    pub prompts: bool,
    pub resources: bool,
    pub logging: bool,
    pub completions: bool,
}

/// The handshake answer, apart from the server's identity.
#[derive(Clone, Debug)]
pub struct ServerDescription {
    pub protocol_version: String,
    pub capabilities: Capabilities,
    pub instructions: Option<String>,
}

pub open spec fn instructions_text() -> Seq<char> {
    "This server gives access to a relational database. Tools: get_database_schema lists the columns of the known tables; execute_query runs the given SQL text."@
}

pub open spec fn tool_description(k: ToolKind) -> Seq<char> {
    match k {
        ToolKind::GetDatabaseSchema => "Get the database schema"@,
        ToolKind::ExecuteQuery => "Execute a SQL query"@,
    }
}

pub open spec fn defines(d: ToolDefinition, k: ToolKind) -> bool {
    d.kind == k && d.name@ == tool_name(k) && d.description@ == tool_description(k)
}

fn definition(k: ToolKind) -> (d: ToolDefinition)
    ensures
        defines(d, k),
{
    proof {
        reveal_strlit("get_database_schema");
        reveal_strlit("execute_query");
        reveal_strlit("Get the database schema");
        reveal_strlit("Execute a SQL query");
    }
    match k {
        ToolKind::GetDatabaseSchema => ToolDefinition {
            kind: k,
            name: String::from_str("get_database_schema"),
            description: String::from_str("Get the database schema"),
        },
        ToolKind::ExecuteQuery => ToolDefinition {
            kind: k,
            name: String::from_str("execute_query"),
            description: String::from_str("Execute a SQL query"),
        },
    }
}

/// The tool server: a registry fixed at construction and the pool of store
/// connections that its tools borrow from.
pub struct Counter<P> {
    registry: Vec<ToolDefinition>,
    pool: P,
}

impl<P> Counter<P> {
    /// The registry holds exactly the two tools, schema listing first.
    pub open spec fn wf(&self) -> bool {
        &&& self.spec_tools().len() == 2
        &&& defines(self.spec_tools()[0], ToolKind::GetDatabaseSchema)
        &&& defines(self.spec_tools()[1], ToolKind::ExecuteQuery)
    }

    pub closed spec fn spec_pool(&self) -> P {
        self.pool
    }

    pub closed spec fn spec_tools(&self) -> Seq<ToolDefinition> {
        self.registry@
    }

    pub fn new(pool: P) -> (r: Self)
        ensures
            r.wf(),
            r.spec_pool() == pool,
    {
        let mut registry: Vec<ToolDefinition> = Vec::new();
        registry.push(definition(ToolKind::GetDatabaseSchema));
        registry.push(definition(ToolKind::ExecuteQuery));
        Counter { registry, pool }
    }

    /// The registered tools.
    pub fn tools(&self) -> (r: &Vec<ToolDefinition>)
        ensures
            r@ == self.spec_tools(),
    {
        &self.registry
    }

    /// The pool that the tools borrow connections from.
    pub fn pool(&self) -> (r: &P)
        ensures
            *r == self.spec_pool(),
    {
        &self.pool
    }

    /// Validates a call against the registry; see `dispatch`.
    pub fn invoke(&self, name: &str, args: &Vec<Argument>) -> (r: Result<ToolCall, ToolError>)
        ensures
            match tool_named(name@) {
                None => r matches Err(e) && e.kind == ErrorKind::UnknownTool,
                Some(ToolKind::GetDatabaseSchema) => r matches Ok(ToolCall::DatabaseSchema),
                Some(ToolKind::ExecuteQuery) => match query_arg(args@) {
                    Some(q) => r matches Ok(ToolCall::Query(req)) && req.query@ == q,
                    None => r matches Err(e) && e.kind == ErrorKind::InvalidParams,
                },
            },
    {
        dispatch(name, args)
    }

    /// The handshake answer: the protocol version, tool invocation as the
    /// only capability, and a descriptive text for people.
    pub fn get_info(&self) -> (r: ServerDescription)
        ensures
            r.protocol_version@ == protocol_version(),
            r.capabilities == (Capabilities {
                tools: true,
                prompts: false,
                resources: false,
                logging: false,
                completions: false,
            }),
            r.instructions matches Some(t) && t@ == instructions_text(),
    {
        proof {
            reveal_strlit("2024-11-05");
            reveal_strlit(
                "This server gives access to a relational database. Tools: get_database_schema lists the columns of the known tables; execute_query runs the given SQL text.",
            );
        }
        ServerDescription {
            protocol_version: String::from_str("2024-11-05"),
            capabilities: Capabilities {
                tools: true,
                prompts: false,
                resources: false,
                logging: false,
                completions: false,
            },
            instructions: Some(
                String::from_str(
                    "This server gives access to a relational database. Tools: get_database_schema lists the columns of the known tables; execute_query runs the given SQL text.",
                ),
            ),
        }
    }
}

} // verus!
