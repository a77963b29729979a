//! Text rendering of results, and the frames that end a tool call once the
//! store has answered.
use vstd::prelude::*;
use vstd::string::StringExecFns;
use crate::dispatch::{ErrorKind, ToolError};

verus! {

/// One column of a table, as the database catalog describes it.
#[derive(Clone, Debug)]
pub struct SchemaRecord {
    pub table_name: String,
    pub column_name: String,
    pub data_type: String,
}

/// The lines joined by newlines, with no newline after the last.
pub open spec fn join_lines(lines: Seq<Seq<char>>) -> Seq<char>
    decreases lines.len(),
{
    if lines.len() == 0 {
        Seq::empty()
    } else if lines.len() == 1 {
        lines[0]
    } else {
        join_lines(lines.drop_last()) + "\n"@ + lines.last()
    }
}

/// `table: column (type)`.
pub open spec fn record_line(r: SchemaRecord) -> Seq<char> {
    r.table_name@ + ": "@ + r.column_name@ + " ("@ + r.data_type@ + ")"@
}

pub open spec fn schema_header() -> Seq<char> {
    "## Database schema \n\n"@
}

pub open spec fn rows_header() -> Seq<char> {
    "## Query result \n\n"@
}

/// The listing of schema records, one line each, in the order given.
pub open spec fn schema_text(records: Seq<SchemaRecord>) -> Seq<char> {
    schema_header() + join_lines(records.map_values(|r: SchemaRecord| record_line(r)))
}

/// The listing of rendered rows, one line each, in the order given.
pub open spec fn rows_text(rows: Seq<String>) -> Seq<char> {
    rows_header() + join_lines(rows.map_values(|r: String| r@))
}

pub open spec fn invalid_query_message(query: Seq<char>) -> Seq<char> {
    "Invalid query: "@ + query
}

/// Appends the lines to `out`, joined by newlines.
fn push_lines(out: &mut String, lines: &Vec<String>)
    ensures
        final(out)@ == old(out)@ + join_lines(lines@.map_values(|l: String| l@)),
{
    let ghost start = out@;
    let ghost views = lines@.map_values(|l: String| l@);
    proof {
        reveal_strlit("\n");
        assert(views.take(0) =~= Seq::<Seq<char>>::empty());
    }
    let mut i: usize = 0;
    while i < lines.len()
        invariant
            0 <= i <= lines.len(),
            views == lines@.map_values(|l: String| l@),
            out@ == start + join_lines(views.take(i as int)),
        decreases lines.len() - i,
    {
        proof {
            assert(views.take(i as int + 1).drop_last() =~= views.take(i as int));
        }
        if i > 0 {
            out.append("\n");
        }
        out.append(lines[i].as_str());
        proof {
            if i == 0 {
                assert(views.take(1) =~= seq![lines@[0]@]);
            }
            assert(out@ =~= start + join_lines(views.take(i as int + 1)));
        }
        i = i + 1;
    }
    proof {
        assert(views.take(lines.len() as int) =~= views);
    }
}

/// The line for one schema record.
pub fn render_record(r: &SchemaRecord) -> (s: String)
    ensures
        s@ == record_line(*r),
{
    let mut s = r.table_name.clone();
    s.append(": ");
    s.append(r.column_name.as_str());
    s.append(" (");
    s.append(r.data_type.as_str());
    s.append(")");
    s
}

/// Renders schema records under a heading, one `table: column (type)` line
/// each, keeping their order.
pub fn render_schema(records: &Vec<SchemaRecord>) -> (s: String)
    ensures
        s@ == schema_text(records@),
{
    let mut lines: Vec<String> = Vec::new();
    let mut i: usize = 0;
    while i < records.len()
        invariant
            0 <= i <= records.len(),
            lines@.len() == i,
            forall|k: int| 0 <= k < i ==> #[trigger] lines@[k]@ == record_line(records@[k]),
        decreases records.len() - i,
    {
        let line = render_record(&records[i]);
        lines.push(line);
        i = i + 1;
    }
    let mut s = String::from_str("## Database schema \n\n");
    proof {
        reveal_strlit("## Database schema \n\n");
    }
    push_lines(&mut s, &lines);
    proof {
        assert(lines@.map_values(|l: String| l@) =~= records@.map_values(
            |r: SchemaRecord| record_line(r),
        ));
    }
    s
}

/// Renders rows, each already turned into text, under a heading, one line
/// each, keeping their order.
pub fn render_rows(rows: &Vec<String>) -> (s: String)
    ensures
        s@ == rows_text(rows@),
{
    let mut s = String::from_str("## Query result \n\n");
    proof {
        reveal_strlit("## Query result \n\n");
    }
    push_lines(&mut s, rows);
    s
}

/// The frame that ends `execute_query` once the store has answered: the
/// rendered rows, or an invalid-request error that quotes the query.
pub fn finish_query(query: &str, outcome: Result<Vec<String>, ()>) -> (r: Result<String, ToolError>)
    ensures
        match outcome {
            Ok(rows) => r matches Ok(s) && s@ == rows_text(rows@),
            Err(_) => r matches Err(e) && e.kind == ErrorKind::InvalidRequest
                && e.message@ == invalid_query_message(query@),
        },
{
    match outcome {
        Ok(rows) => Ok(render_rows(&rows)),
        Err(_) => {
            let mut m = String::from_str("Invalid query: ");
            proof {
                reveal_strlit("Invalid query: ");
            }
            m.append(query);
            Err(ToolError { kind: ErrorKind::InvalidRequest, message: m })
        },
    }
}

/// The frame that ends `get_database_schema` once the store has answered:
/// the listing, or an error frame when the catalog could not be read.
pub fn finish_schema(outcome: Result<Vec<SchemaRecord>, ()>) -> (r: Result<String, ToolError>)
    ensures
        match outcome {
            Ok(records) => r matches Ok(s) && s@ == schema_text(records@),
            Err(_) => r matches Err(e) && e.kind == ErrorKind::BackendFailure
                && e.message@ == "failed to read the database schema"@,
        },
{
    match outcome {
        Ok(records) => Ok(render_schema(&records)),
        Err(_) => {
            proof {
                reveal_strlit("failed to read the database schema");
            }
            Err(
                ToolError {
                    kind: ErrorKind::BackendFailure,
                    message: String::from_str("failed to read the database schema"),
                },
            )
        },
    }
}

} // verus!
