//! The tools offered to the agent's LLM, and their function declarations
//! in the providers' formats (as values; the caller writes them as JSON).

use vstd::prelude::*;

verus! {

/// The default value of a tool parameter.
pub enum ParamDefault {
    Text(String),
    Integer(i64),
}

/// A parameter of a tool.
pub struct ToolParameter {
    pub name: String,
    /// "string", "integer", "boolean", "array" or "object".
    pub param_type: String,
    pub description: String,
    pub required: bool,
    pub default: Option<ParamDefault>,
    pub enum_values: Option<Vec<String>>,
}

/// A tool available to the agent.
pub struct ToolDefinition {
    pub name: String,
    pub description: String,
    pub parameters: Vec<ToolParameter>,
}

/// What a parameter of a tool is, as the contracts see it.
pub open spec fn param_is(
    p: ToolParameter,
    name: Seq<char>,
    ty: Seq<char>,
    description: Seq<char>,
    required: bool,
) -> bool {
    &&& p.name@ == name
    &&& p.param_type@ == ty
    &&& p.description@ == description
    &&& p.required == required
    &&& p.enum_values is None
}

impl ToolDefinition {
    /// A tool without parameters.
    pub fn new(name: &str, description: &str) -> (r: ToolDefinition)
        ensures
            r.name@ == name@,
            r.description@ == description@,
            r.parameters@.len() == 0,
    {
        ToolDefinition {
            name: String::from_str(name),
            description: String::from_str(description),
            parameters: Vec::new(),
        }
    }

    /// Add a required string parameter.
    pub fn with_string_param(self, name: &str, description: &str) -> (r: ToolDefinition)
        ensures
            r.name == self.name,
            r.description == self.description,
            r.parameters@.len() == self.parameters@.len() + 1,
            r.parameters@.take(self.parameters@.len() as int) == self.parameters@,
            param_is(r.parameters@.last(), name@, "string"@, description@, true),
            r.parameters@.last().default is None,
    {
        let mut s = self;
        let ghost before = s.parameters@;
        s.parameters.push(
            ToolParameter {
                name: String::from_str(name),
                param_type: String::from_str("string"),
                description: String::from_str(description),
                required: true,
                default: None,
                enum_values: None,
            },
        );
        assert(s.parameters@.take(before.len() as int) =~= before);
        s
    }

    /// Add an optional string parameter with a default.
    pub fn with_optional_string_param(self, name: &str, description: &str, default: &str) -> (r:
        ToolDefinition)
        ensures
            r.name == self.name,
            r.description == self.description,
            r.parameters@.len() == self.parameters@.len() + 1,
            r.parameters@.take(self.parameters@.len() as int) == self.parameters@,
            param_is(r.parameters@.last(), name@, "string"@, description@, false),
            r.parameters@.last().default matches Some(ParamDefault::Text(d)) && d@ == default@,
    {
        let mut s = self;
        let ghost before = s.parameters@;
        s.parameters.push(
            ToolParameter {
                name: String::from_str(name),
                param_type: String::from_str("string"),
                description: String::from_str(description),
                required: false,
                default: Some(ParamDefault::Text(String::from_str(default))),
                enum_values: None,
            },
        );
        assert(s.parameters@.take(before.len() as int) =~= before);
        s
    }

    /// Add an optional integer parameter with a default.
    pub fn with_optional_int_param(self, name: &str, description: &str, default: i64) -> (r:
        ToolDefinition)
        ensures
            r.name == self.name,
            r.description == self.description,
            r.parameters@.len() == self.parameters@.len() + 1,
            r.parameters@.take(self.parameters@.len() as int) == self.parameters@,
            param_is(r.parameters@.last(), name@, "integer"@, description@, false),
            r.parameters@.last().default == Some(ParamDefault::Integer(default)),
    {
        let mut s = self;
        let ghost before = s.parameters@;
        s.parameters.push(
            ToolParameter {
                name: String::from_str(name),
                param_type: String::from_str("integer"),
                description: String::from_str(description),
                required: false,
                default: Some(ParamDefault::Integer(default)),
                enum_values: None,
            },
        );
        assert(s.parameters@.take(before.len() as int) =~= before);
        s
    }
}

/// The names of the agent's tools, in order.
pub open spec fn tool_names() -> Seq<Seq<char>> {
    seq![
        "list_schemas"@,
        "list_tables"@,
        "list_columns"@,
        "list_indexes"@,
        "list_constraints"@,
        "execute_query"@,
        "list_connections"@,
        "get_active_connection"@,
    ]
}

/// All tools available to the agent: schema exploration, a constrained
/// SELECT query, and the connections.
pub fn get_tool_definitions() -> (r: Vec<ToolDefinition>)
    ensures
        r@.len() == 8,
        forall|i: int| 0 <= i < 8 ==> (#[trigger] r@[i]).name@ == tool_names()[i],
        r@[0].parameters@.len() == 0,
        r@[1].parameters@.len() == 1 && param_is(
            r@[1].parameters@[0],
            "schema"@,
            "string"@,
            r@[1].parameters@[0].description@,
            true,
        ),
        r@[2].parameters@.len() == 2 && r@[2].parameters@[0].name@ == "schema"@
            && r@[2].parameters@[1].name@ == "table"@ && r@[2].parameters@[0].required
            && r@[2].parameters@[1].required,
        r@[3].parameters@.len() == 1 && r@[3].parameters@[0].name@ == "schema"@,
        r@[4].parameters@.len() == 1 && r@[4].parameters@[0].name@ == "schema"@,
        r@[5].parameters@.len() == 2 && param_is(
            r@[5].parameters@[0],
            "sql"@,
            "string"@,
            r@[5].parameters@[0].description@,
            true,
        ) && param_is(
            r@[5].parameters@[1],
            "max_rows"@,
            "integer"@,
            r@[5].parameters@[1].description@,
            false,
        ) && r@[5].parameters@[1].default == Some(ParamDefault::Integer(100)),
        r@[6].parameters@.len() == 0,
        r@[7].parameters@.len() == 0,
{
    let mut v: Vec<ToolDefinition> = Vec::new();
    v.push(
        ToolDefinition::new(
            "list_schemas",
            "List all accessible database schemas. Returns schema names that the current user can access.",
        ),
    );
    v.push(
        ToolDefinition::new(
            "list_tables",
            "List all tables in a specific schema. Returns table names, row counts, and last analyzed dates.",
        ).with_string_param("schema", "The schema name to list tables from (e.g., 'HR', 'SALES')"),
    );
    v.push(
        ToolDefinition::new(
            "list_columns",
            "List all columns in a specific table. Returns column names, data types, lengths, and nullability.",
        ).with_string_param("schema", "The schema name (e.g., 'HR')").with_string_param(
            "table",
            "The table name (e.g., 'EMPLOYEES')",
        ),
    );
    v.push(
        ToolDefinition::new(
            "list_indexes",
            "List all indexes in a specific schema. Returns index names, types, uniqueness, and status.",
        ).with_string_param("schema", "The schema name to list indexes from"),
    );
    v.push(
        ToolDefinition::new(
            "list_constraints",
            "List all constraints in a specific schema. Returns constraint names, types, table names, and status.",
        ).with_string_param("schema", "The schema name to list constraints from"),
    );
    v.push(
        ToolDefinition::new(
            "execute_query",
            "Execute a SELECT query against the database. Only SELECT statements are allowed. Results are limited to prevent overwhelming responses. Use this to answer questions about the actual data in the database.",
        ).with_string_param(
            "sql",
            "The SELECT SQL query to execute. Must be a valid Oracle SELECT statement. No DDL (CREATE, ALTER, DROP) or DML (INSERT, UPDATE, DELETE) allowed.",
        ).with_optional_int_param(
            "max_rows",
            "Maximum number of rows to return (default: 100, max: 1000)",
            100,
        ),
    );
    v.push(
        ToolDefinition::new(
            "list_connections",
            "List all available database connections. Returns connection IDs, names, and environments. Use this to find which connections are available before running queries.",
        ),
    );
    v.push(
        ToolDefinition::new(
            "get_active_connection",
            "Get the currently active database connection. Returns the connection ID, name, and environment of the connection that will be used for queries if no specific connection_id is provided.",
        ),
    );
    v
}

/// A property of a function declaration's parameters.
pub struct PropertyDecl {
    pub name: String,
    pub prop_type: String,
    pub description: String,
    pub enum_values: Option<Vec<String>>,
}

/// The parameters schema of a function declaration: an object with the
/// given properties; `required` is absent when there are no properties.
pub struct ParametersDecl {
    pub properties: Vec<PropertyDecl>,
    pub required: Option<Vec<String>>,
}

/// A function declaration for a provider.
pub struct FunctionDecl {
    pub name: String,
    pub description: String,
    pub parameters: ParametersDecl,
}

/// The values of optional enum values.
pub open spec fn enum_view(o: Option<Vec<String>>) -> Option<Seq<String>> {
    match o {
        Some(v) => Some(v@),
        None => None,
    }
}

/// The names of the required parameters, in order.
pub open spec fn required_names(ps: Seq<ToolParameter>) -> Seq<Seq<char>>
    decreases ps.len(),
{
    if ps.len() == 0 {
        Seq::empty()
    } else {
        let rest = required_names(ps.drop_last());
        if ps.last().required {
            rest.push(ps.last().name@)
        } else {
            rest
        }
    }
}

/// Whether a declaration declares the tool.
pub open spec fn declares(f: FunctionDecl, t: ToolDefinition, gemini: bool) -> bool {
    &&& f.name == t.name
    &&& f.description == t.description
    &&& f.parameters.properties@.len() == t.parameters@.len()
    &&& forall|k: int|
        0 <= k < t.parameters@.len() ==> {
            let p = #[trigger] f.parameters.properties@[k];
            let q = t.parameters@[k];
            &&& p.name == q.name
            &&& p.prop_type == q.param_type
            &&& p.description == q.description
            &&& enum_view(p.enum_values) == enum_view(q.enum_values)
        }
    &&& if gemini && t.parameters@.len() == 0 {
        f.parameters.required is None
    } else {
        f.parameters.required matches Some(r) && crate::text::strings_view(r@) == required_names(
            t.parameters@,
        )
    }
}

/// The declaration of one tool.
fn declare(t: &ToolDefinition, gemini: bool) -> (r: FunctionDecl)
    ensures
        declares(r, *t, gemini),
{
    let mut properties: Vec<PropertyDecl> = Vec::new();
    let mut required: Vec<String> = Vec::new();
    let mut k: usize = 0;
    assert(t.parameters@.take(0) =~= Seq::<ToolParameter>::empty());
    while k < t.parameters.len()
        invariant
            k <= t.parameters@.len(),
            properties@.len() == k,
            forall|j: int|
                0 <= j < k ==> {
                    let p = #[trigger] properties@[j];
                    let q = t.parameters@[j];
                    &&& p.name == q.name
                    &&& p.prop_type == q.param_type
                    &&& p.description == q.description
                    &&& enum_view(p.enum_values) == enum_view(q.enum_values)
                },
            crate::text::strings_view(required@) == required_names(t.parameters@.take(k as int)),
        decreases t.parameters@.len() - k,
    {
        let q = &t.parameters[k];
        let ghost pre = t.parameters@.take(k + 1);
        assert(pre.drop_last() =~= t.parameters@.take(k as int));
        assert(pre.last() == *q);
        let enum_values = match &q.enum_values {
            Some(e) => Some(crate::changesignore::clone_strings(e)),
            None => None,
        };
        properties.push(
            PropertyDecl {
                name: q.name.clone(),
                prop_type: q.param_type.clone(),
                description: q.description.clone(),
                enum_values,
            },
        );
        if q.required {
            let ghost before = required@;
            required.push(q.name.clone());
            assert(crate::text::strings_view(required@) =~= crate::text::strings_view(before).push(
                q.name@,
            ));
        }
        k = k + 1;
    }
    assert(t.parameters@.take(k as int) =~= t.parameters@);
    let required = if gemini && properties.len() == 0 {
        None
    } else {
        Some(required)
    };
    FunctionDecl {
        name: t.name.clone(),
        description: t.description.clone(),
        parameters: ParametersDecl { properties, required },
    }
}

/// The Gemini function declarations of the tools (a tool without
/// parameters declares no `required` list).
pub fn to_gemini_functions(tools: &[ToolDefinition]) -> (r: Vec<FunctionDecl>)
    ensures
        r@.len() == tools@.len(),
        forall|i: int| 0 <= i < tools@.len() ==> declares(#[trigger] r@[i], tools@[i], true),
{
    let mut r: Vec<FunctionDecl> = Vec::new();
    let mut i: usize = 0;
    while i < tools.len()
        invariant
            i <= tools@.len(),
            r@.len() == i,
            forall|k: int| 0 <= k < i ==> declares(#[trigger] r@[k], tools@[k], true),
        decreases tools@.len() - i,
    {
        r.push(declare(&tools[i], true));
        i = i + 1;
    }
    r
}

/// The OpenAI function declarations of the tools (each with its
/// `required` list, which may be empty).
pub fn to_openai_functions(tools: &[ToolDefinition]) -> (r: Vec<FunctionDecl>)
    ensures
        r@.len() == tools@.len(),
        forall|i: int| 0 <= i < tools@.len() ==> declares(#[trigger] r@[i], tools@[i], false),
{
    let mut r: Vec<FunctionDecl> = Vec::new();
    let mut i: usize = 0;
    while i < tools.len()
        invariant
            i <= tools@.len(),
            r@.len() == i,
            forall|k: int| 0 <= k < i ==> declares(#[trigger] r@[k], tools@[k], false),
        decreases tools@.len() - i,
    {
        r.push(declare(&tools[i], false));
        i = i + 1;
    }
    r
}

} // verus!
