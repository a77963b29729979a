use db_tools::dispatch::ErrorKind;
use db_tools::render::{finish_query, finish_schema, render_record, render_rows, render_schema, SchemaRecord};

fn rec(t: &str, c: &str, d: &str) -> SchemaRecord {
    SchemaRecord { table_name: t.to_string(), column_name: c.to_string(), data_type: d.to_string() }
}

#[test]
fn record_line_format() {
    assert_eq!(render_record(&rec("students", "id", "integer")), "students: id (integer)");
}

#[test]
fn schema_listing_keeps_order() {
    let records = vec![
        rec("classes", "id", "integer"),
        rec("courses", "title", "text"),
        rec("enrollments", "student_id", "integer"),
        rec("students", "name", "character varying"),
    ];
    assert_eq!(
        render_schema(&records),
        "## Database schema \n\nclasses: id (integer)\ncourses: title (text)\nenrollments: student_id (integer)\nstudents: name (character varying)"
    );
}

#[test]
fn empty_listings_are_bare_headings() {
    assert_eq!(render_schema(&vec![]), "## Database schema \n\n");
    assert_eq!(render_rows(&vec![]), "## Query result \n\n");
}

#[test]
fn select_one_gives_one_row() {
    let out = finish_query("SELECT 1", Ok(vec!["PgRow { ?column?: 1 }".to_string()])).unwrap();
    assert_eq!(out, "## Query result \n\nPgRow { ?column?: 1 }");
    assert_eq!(out.lines().filter(|l| l.contains('1')).count(), 1);
}

#[test]
fn rows_are_joined_by_newlines() {
    let rows = vec!["a".to_string(), "b".to_string(), "c".to_string()];
    assert_eq!(render_rows(&rows), "## Query result \n\na\nb\nc");
}

#[test]
fn failing_query_quotes_its_text() {
    let e = finish_query("SELEKT 1", Err(())).unwrap_err();
    assert_eq!(e.kind, ErrorKind::InvalidRequest);
    assert_eq!(e.message, "Invalid query: SELEKT 1");
    // a later call is still served
    assert!(finish_query("SELECT 1", Ok(vec!["1".to_string()])).is_ok());
}

#[test]
fn schema_failure_is_an_error_frame() {
    let e = finish_schema(Err(())).unwrap_err();
    assert_eq!(e.kind, ErrorKind::BackendFailure);
    assert_eq!(e.message, "failed to read the database schema");
    assert_eq!(finish_schema(Ok(vec![rec("t", "c", "d")])).unwrap(), "## Database schema \n\nt: c (d)");
}
