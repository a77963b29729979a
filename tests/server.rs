use db_tools::dispatch::{ArgValue, Argument, ErrorKind, ToolCall};
use db_tools::server::{schema_query, Counter, POOL_CAPACITY};
use db_tools::tools::ToolKind;

#[test]
fn registry_holds_the_two_tools() {
    let c = Counter::new(7u8);
    let tools = c.tools();
    assert_eq!(tools.len(), 2);
    assert_eq!(tools[0].kind, ToolKind::GetDatabaseSchema);
    assert_eq!(tools[0].name, "get_database_schema");
    assert_eq!(tools[0].description, "Get the database schema");
    assert_eq!(tools[1].kind, ToolKind::ExecuteQuery);
    assert_eq!(tools[1].name, "execute_query");
    assert_eq!(tools[1].description, "Execute a SQL query");
    assert_eq!(*c.pool(), 7u8);
}

#[test]
fn handshake_enables_tools_only() {
    let info = Counter::new(()).get_info();
    assert_eq!(info.protocol_version, "2024-11-05");
    assert!(info.capabilities.tools);
    assert!(!info.capabilities.prompts);
    assert!(!info.capabilities.resources);
    assert!(!info.capabilities.logging);
    assert!(!info.capabilities.completions);
    assert!(info.instructions.is_some());
}

#[test]
fn invoke_goes_through_the_registry() {
    let c = Counter::new(());
    let args = vec![Argument { key: "query".to_string(), value: ArgValue::Text("SELECT 1".to_string()) }];
    assert!(matches!(c.invoke("execute_query", &args), Ok(ToolCall::Query(q)) if q.query == "SELECT 1"));
    assert_eq!(c.invoke("decrement", &args).unwrap_err().kind, ErrorKind::UnknownTool);
    assert_eq!(c.invoke("execute_query", &vec![]).unwrap_err().kind, ErrorKind::InvalidParams);
}

#[test]
fn schema_query_names_the_four_tables_in_order() {
    let q = schema_query();
    assert!(q.contains("'{classes, courses, enrollments, students}'"));
    assert!(q.trim_end().ends_with("ORDER BY table_name;"));
    assert_eq!(POOL_CAPACITY, 5);
}
