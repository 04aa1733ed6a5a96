//! The execution of the agent's tools: which tool a call names, the SQL
//! text each catalog tool runs, the row limit of a query, the result a
//! tool call ends in, and the REST route of a generated OpenAPI tool with
//! the failure it reports. Running the SQL and the HTTP request is left to
//! the caller.

use vstd::prelude::*;
use crate::agent::{arg_lookup, tool_error_text, ToolArg, ToolCall, ToolError};
use crate::agent_loop::{to_uppercase, uppercase, ToolResult};
use crate::text::{
    chars_of, decimal, decimal_string, find_char_from, first_from, is_first_from, replace_all, replace_str, same_text,
    string_from_chars, sub_chars,
};
use vstd::string::StringSliceAdditionalSpecFns;
use vstd::utf8::{decode_utf8, encode_utf8};

verus! {

/// The catalog and query tools.
pub enum DbTool {
    ListSchemas,
    ListTables,
    ListColumns,
    ListIndexes,
    ListConstraints,
    ExecuteQuery,
    ListConnections,
    GetActiveConnection,
}

/// The tool a name stands for.
pub open spec fn db_tool_of(name: Seq<char>) -> Option<DbTool> {
    if name == "list_schemas"@ {
        Some(DbTool::ListSchemas)
    } else if name == "list_tables"@ {
        Some(DbTool::ListTables)
    } else if name == "list_columns"@ {
        Some(DbTool::ListColumns)
    } else if name == "list_indexes"@ {
        Some(DbTool::ListIndexes)
    } else if name == "list_constraints"@ {
        Some(DbTool::ListConstraints)
    } else if name == "execute_query"@ {
        Some(DbTool::ExecuteQuery)
    } else if name == "list_connections"@ {
        Some(DbTool::ListConnections)
    } else if name == "get_active_connection"@ {
        Some(DbTool::GetActiveConnection)
    } else {
        None
    }
}

/// The tool a call names; an unknown name is an error.
pub fn db_tool_for(name: &str) -> (r: Result<DbTool, ToolError>)
    ensures
        match db_tool_of(name@) {
            Some(t) => r == Ok::<DbTool, ToolError>(t),
            None => r matches Err(ToolError::UnknownTool(n)) && n@ == name@,
        },
{
    proof {
        reveal_strlit("list_schemas");
        reveal_strlit("list_tables");
        reveal_strlit("list_columns");
        reveal_strlit("list_indexes");
        reveal_strlit("list_constraints");
        reveal_strlit("execute_query");
        reveal_strlit("list_connections");
        reveal_strlit("get_active_connection");
    }
    if same_text(name, "list_schemas") {
        Ok(DbTool::ListSchemas)
    } else if same_text(name, "list_tables") {
        Ok(DbTool::ListTables)
    } else if same_text(name, "list_columns") {
        Ok(DbTool::ListColumns)
    } else if same_text(name, "list_indexes") {
        Ok(DbTool::ListIndexes)
    } else if same_text(name, "list_constraints") {
        Ok(DbTool::ListConstraints)
    } else if same_text(name, "execute_query") {
        Ok(DbTool::ExecuteQuery)
    } else if same_text(name, "list_connections") {
        Ok(DbTool::ListConnections)
    } else if same_text(name, "get_active_connection") {
        Ok(DbTool::GetActiveConnection)
    } else {
        Err(ToolError::UnknownTool(String::from_str(name)))
    }
}

/// An owner or table name as an SQL string literal's content: upper case,
/// with each quote doubled.
pub open spec fn sql_name(s: Seq<char>) -> Seq<char> {
    replace_all(uppercase(s), "'"@, "''"@)
}

/// `sql_name` computed.
fn sql_name_of(s: &str) -> (r: String)
    ensures
        r@ == sql_name(s@),
{
    let u = to_uppercase(s);
    replace_str(u.as_str(), "'", "''")
}

/// The query listing the schemas.
pub open spec fn list_schemas_sql() -> Seq<char> {
    "SELECT username as schema_name FROM all_users WHERE oracle_maintained = 'N' ORDER BY username"@
}

/// The query listing a schema's tables.
pub open spec fn list_tables_sql(schema: Seq<char>) -> Seq<char> {
    "SELECT table_name, num_rows, TO_CHAR(last_analyzed, 'YYYY-MM-DD') as last_analyzed FROM all_tables WHERE owner = '"@
        + sql_name(schema) + "' ORDER BY table_name"@
}

/// The query listing a table's columns.
pub open spec fn list_columns_sql(schema: Seq<char>, table: Seq<char>) -> Seq<char> {
    "SELECT column_name, data_type, data_length, nullable, column_id FROM all_tab_columns WHERE owner = '"@
        + sql_name(schema) + "' AND table_name = '"@ + sql_name(table) + "' ORDER BY column_id"@
}

/// The query listing a schema's indexes.
pub open spec fn list_indexes_sql(schema: Seq<char>) -> Seq<char> {
    "SELECT index_name, table_name, index_type, uniqueness, status FROM all_indexes WHERE owner = '"@
        + sql_name(schema) + "' ORDER BY table_name, index_name"@
}

/// The query listing a schema's constraints.
pub open spec fn list_constraints_sql(schema: Seq<char>) -> Seq<char> {
    "SELECT constraint_name, constraint_type, table_name, status FROM all_constraints WHERE owner = '"@
        + sql_name(schema) + "' ORDER BY table_name, constraint_name"@
}

/// The catalog query of a tool call: the tool's query over the call's
/// `schema` (and `table`) parameters, `None` for the tools that run no
/// catalog query; a missing parameter is an error.
pub open spec fn catalog_sql(tool: DbTool, args: Seq<(String, ToolArg)>) -> Option<Result<Seq<char>, Seq<char>>> {
    let schema = arg_lookup(args, "schema"@);
    let table = arg_lookup(args, "table"@);
    match tool {
        DbTool::ListSchemas => Some(Ok(list_schemas_sql())),
        DbTool::ListTables => Some(match schema {
            Some(ToolArg::Text(s)) => Ok(list_tables_sql(s@)),
            _ => Err("schema"@),
        }),
        DbTool::ListColumns => Some(match schema {
            Some(ToolArg::Text(s)) => match table {
                Some(ToolArg::Text(t)) => Ok(list_columns_sql(s@, t@)),
                _ => Err("table"@),
            },
            _ => Err("schema"@),
        }),
        DbTool::ListIndexes => Some(match schema {
            Some(ToolArg::Text(s)) => Ok(list_indexes_sql(s@)),
            _ => Err("schema"@),
        }),
        DbTool::ListConstraints => Some(match schema {
            Some(ToolArg::Text(s)) => Ok(list_constraints_sql(s@)),
            _ => Err("schema"@),
        }),
        _ => None,
    }
}

/// The catalog query a tool call runs; `Err` names the missing parameter
/// (as `ToolError::MissingParameter`), `Ok(None)` is a tool without one.
pub fn catalog_query(tool: &DbTool, call: &ToolCall) -> (r: Result<Option<String>, ToolError>)
    ensures
        match catalog_sql(*tool, call.arguments@) {
            None => r matches Ok(None),
            Some(Ok(q)) => r matches Ok(Some(s)) && s@ == q,
            Some(Err(p)) => r matches Err(ToolError::MissingParameter(n)) && n@ == p,
        },
{
    proof {
        reveal_strlit("SELECT username as schema_name FROM all_users WHERE oracle_maintained = 'N' ORDER BY username");
        reveal_strlit("schema");
        reveal_strlit("table");
    }
    match tool {
        DbTool::ListSchemas => Ok(Some(String::from_str(
            "SELECT username as schema_name FROM all_users WHERE oracle_maintained = 'N' ORDER BY username",
        ))),
        DbTool::ListTables => {
            let schema = call.get_param("schema")?;
            let q = String::from_str(
                "SELECT table_name, num_rows, TO_CHAR(last_analyzed, 'YYYY-MM-DD') as last_analyzed FROM all_tables WHERE owner = '",
            ).concat(sql_name_of(schema.as_str()).as_str()).concat("' ORDER BY table_name");
            Ok(Some(q))
        },
        DbTool::ListColumns => {
            let schema = call.get_param("schema")?;
            let table = call.get_param("table")?;
            let q = String::from_str(
                "SELECT column_name, data_type, data_length, nullable, column_id FROM all_tab_columns WHERE owner = '",
            ).concat(sql_name_of(schema.as_str()).as_str()).concat("' AND table_name = '").concat(
                sql_name_of(table.as_str()).as_str(),
            ).concat("' ORDER BY column_id");
            Ok(Some(q))
        },
        DbTool::ListIndexes => {
            let schema = call.get_param("schema")?;
            let q = String::from_str(
                "SELECT index_name, table_name, index_type, uniqueness, status FROM all_indexes WHERE owner = '",
            ).concat(sql_name_of(schema.as_str()).as_str()).concat("' ORDER BY table_name, index_name");
            Ok(Some(q))
        },
        DbTool::ListConstraints => {
            let schema = call.get_param("schema")?;
            let q = String::from_str(
                "SELECT constraint_name, constraint_type, table_name, status FROM all_constraints WHERE owner = '",
            ).concat(sql_name_of(schema.as_str()).as_str()).concat(
                "' ORDER BY table_name, constraint_name",
            );
            Ok(Some(q))
        },
        _ => Ok(None),
    }
}

/// The row limit of a query: the call's `max_rows` (100 without one), at
/// most 1000.
pub fn query_row_limit(call: &ToolCall) -> (r: u32)
    ensures
        r == (match arg_lookup(call.arguments@, "max_rows"@) {
            Some(ToolArg::Count(n)) => if (n as u32) < 1000u32 {
                n as u32
            } else {
                1000u32
            },
            _ => 100u32,
        }),
{
    proof {
        reveal_strlit("max_rows");
    }
    let n = call.get_int_param_or("max_rows", 100);
    if n < 1000 {
        n
    } else {
        1000
    }
}

/// The result of a tool call: its data on success, else the error's text.
pub fn executed(call: &ToolCall, outcome: Result<String, ToolError>) -> (r: ToolResult)
    ensures
        r.tool_call_id@ == call.id@,
        match outcome {
            Ok(data) => r.success && r.data_json@ == data@ && r.error is None,
            Err(e) => !r.success && r.data_json@ == "null"@ && (r.error matches Some(m) && m@
                == tool_error_text(e)),
        },
{
    match outcome {
        Ok(data) => ToolResult::json(call.id.as_str(), data),
        Err(e) => ToolResult::error(call.id.as_str(), e.message().as_str()),
    }
}

// ---------------------------------------------------------------------------
// OpenAPI tools
// ---------------------------------------------------------------------------

/// The HTTP methods of the generated tools.
pub enum HttpMethod {
    Get,
    Post,
    Put,
    Delete,
}

/// The method part of a generated tool's name: up to its first `_`.
pub open spec fn method_part(name: Seq<char>) -> Seq<char> {
    match first_from(name, '_', 0) {
        Some(i) => name.take(i),
        None => name,
    }
}

/// The path part of a generated tool's name: after its first `_`.
pub open spec fn path_part(name: Seq<char>) -> Seq<char> {
    match first_from(name, '_', 0) {
        Some(i) => name.skip(i + 1),
        None => Seq::<char>::empty(),
    }
}

/// The REST path of a generated tool: `/` and its path part with each `_`
/// turned into `/` (`get_jira_list` is `/jira/list`).
pub open spec fn route_path(name: Seq<char>) -> Seq<char> {
    "/"@ + replace_all(path_part(name), "_"@, "/"@)
}

/// The HTTP method a method part names.
pub open spec fn method_of(m: Seq<char>) -> Option<HttpMethod> {
    if m == "get"@ {
        Some(HttpMethod::Get)
    } else if m == "post"@ {
        Some(HttpMethod::Post)
    } else if m == "put"@ {
        Some(HttpMethod::Put)
    } else if m == "delete"@ {
        Some(HttpMethod::Delete)
    } else {
        None
    }
}

/// The method and URL of a generated tool (its name is `<method>_<path>`
/// with `/` written `_`); a method other than get, post, put and delete is
/// refused.
pub fn openapi_route(base_url: &str, tool_name: &str) -> (r: Result<(HttpMethod, String), ToolError>)
    ensures
        match method_of(method_part(tool_name@)) {
            Some(m) => r matches Ok((rm, url)) && rm == m && url@ == base_url@ + route_path(tool_name@),
            None => r matches Err(ToolError::InvalidParameter(msg)) && msg@
                == "Unsupported HTTP method: "@ + method_part(tool_name@),
        },
{
    proof {
        reveal_strlit("get");
        reveal_strlit("post");
        reveal_strlit("put");
        reveal_strlit("delete");
    }
    let chars = chars_of(tool_name);
    let (method, rest) = match find_char_from(&chars, '_', 0) {
        Some(i) => {
            assert(is_first_from(chars@, '_', 0, i as int));
            assert(i < chars.len());
            let m = sub_chars(&chars, 0, i);
            let p = sub_chars(&chars, i + 1, chars.len());
            assert(m@ =~= tool_name@.take(i as int));
            assert(p@ =~= tool_name@.skip(i + 1));
            (string_from_chars(&m), string_from_chars(&p))
        },
        None => (String::from_str(tool_name), String::new()),
    };
    let path = String::from_str("/").concat(replace_str(rest.as_str(), "_", "/").as_str());
    let url = String::from_str(base_url).concat(path.as_str());
    let m = if same_text(method.as_str(), "get") {
        HttpMethod::Get
    } else if same_text(method.as_str(), "post") {
        HttpMethod::Post
    } else if same_text(method.as_str(), "put") {
        HttpMethod::Put
    } else if same_text(method.as_str(), "delete") {
        HttpMethod::Delete
    } else {
        return Err(
            ToolError::InvalidParameter(
                String::from_str("Unsupported HTTP method: ").concat(method.as_str()),
            ),
        );
    };
    Ok((m, url))
}

/// The text of an argument as a query parameter: a string as it is, any
/// other value as JSON.
pub open spec fn query_value(a: ToolArg) -> Seq<char> {
    match a {
        ToolArg::Text(s) => s@,
        ToolArg::Count(n) => decimal(n as nat),
        ToolArg::Other(j) => j@,
    }
}

/// The query parameters of a GET tool: each argument's name and text.
pub fn query_pairs(args: &[(String, ToolArg)]) -> (r: Vec<(String, String)>)
    ensures
        r@.len() == args@.len(),
        forall|k: int|
            0 <= k < r@.len() ==> (#[trigger] r@[k]).0@ == args@[k].0@ && r@[k].1@ == query_value(
                args@[k].1,
            ),
{
    let mut r: Vec<(String, String)> = Vec::new();
    let mut k: usize = 0;
    while k < args.len()
        invariant
            k <= args@.len(),
            r@.len() == k,
            forall|j: int|
                0 <= j < k ==> (#[trigger] r@[j]).0@ == args@[j].0@ && r@[j].1@ == query_value(
                    args@[j].1,
                ),
        decreases args@.len() - k,
    {
        let v = match &args[k].1 {
            ToolArg::Text(s) => s.clone(),
            ToolArg::Count(n) => decimal_string(*n),
            ToolArg::Other(j) => j.clone(),
        };
        r.push((args[k].0.clone(), v));
        k = k + 1;
    }
    r
}

/// What came of a generated tool's HTTP request.
pub enum HttpReply {
    /// The request could not be sent.
    SendFailed(String),
    /// The response body could not be read.
    ReadFailed(String),
    /// A response with a success status or not, its status text
    /// (`404 Not Found`) and body.
    Received { success: bool, status: String, body: String },
}

/// The first 500 bytes of a body (all of a shorter one).
pub open spec fn body_excerpt(body: Seq<char>) -> Seq<char> {
    let b = encode_utf8(body);
    if b.len() > 500 {
        decode_utf8(b.take(500))
    } else {
        body
    }
}

/// The reply can be reported: a long failed body is cut at a character
/// boundary (the text is sliced after 500 bytes).
pub open spec fn reply_cut_ok(reply: HttpReply) -> bool {
    match reply {
        HttpReply::Received { success, body, .. } => !success ==> {
            &&& encode_utf8(body@).len() <= usize::MAX
            &&& encode_utf8(body@).len() > 500 ==> vstd::utf8::is_char_boundary(encode_utf8(body@), 500)
        },
        _ => true,
    }
}

/// The outcome of a generated tool: the body of a successful response; a
/// request that failed, a body that could not be read, or a failure status
/// (with the first 500 bytes of the body) is a database error.
pub fn openapi_outcome(reply: HttpReply) -> (r: Result<String, ToolError>)
    requires
        reply_cut_ok(reply),
    ensures
        match reply {
            HttpReply::SendFailed(e) => r matches Err(ToolError::DatabaseError(m)) && m@
                == "HTTP request failed: "@ + e@,
            HttpReply::ReadFailed(e) => r matches Err(ToolError::DatabaseError(m)) && m@
                == "Failed to read response: "@ + e@,
            HttpReply::Received { success, status, body } => if success {
                r matches Ok(b) && b@ == body@
            } else {
                r matches Err(ToolError::DatabaseError(m)) && m@ == "API returned HTTP "@ + status@
                    + ": "@ + body_excerpt(body@)
            },
        },
{
    broadcast use vstd::utf8::encode_utf8_decode_utf8;
    match reply {
        HttpReply::SendFailed(e) => Err(
            ToolError::DatabaseError(String::from_str("HTTP request failed: ").concat(e.as_str())),
        ),
        HttpReply::ReadFailed(e) => Err(
            ToolError::DatabaseError(String::from_str("Failed to read response: ").concat(e.as_str())),
        ),
        HttpReply::Received { success, status, body } => {
            if success {
                Ok(body)
            } else {
                let b = body.as_str();
                let excerpt = if b.len() > 500 {
                    let (head, _) = b.split_at(500);
                    assert(head.spec_bytes() =~= encode_utf8(body@).take(500));
                    assert(decode_utf8(encode_utf8(head@)) == head@);
                    String::from_str(head)
                } else {
                    body.clone()
                };
                Err(
                    ToolError::DatabaseError(
                        String::from_str("API returned HTTP ").concat(status.as_str()).concat(
                            ": ",
                        ).concat(excerpt.as_str()),
                    ),
                )
            }
        },
    }
}

} // verus!
