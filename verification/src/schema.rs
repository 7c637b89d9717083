//! The JSON schemas the tool publishes: their names and how a requested
//! name resolves to a schema id.

use vstd::prelude::*;

use crate::cli::SchemaCommand;
use crate::dto::{SchemaListOutput, Warning};
use crate::error::{CampusError, Result};
use crate::text;

verus! {

/// The published schemas, by short name.
pub open spec fn schema_names() -> Seq<Seq<char>> {
    seq![
        "auth_login.v1"@,
        "auth_logout.v1"@,
        "auth_status.v1"@,
        "whoami.v1"@,
        "doctor.v1"@,
        "courses.v1"@,
        "todo.v1"@,
        "assignment.v1"@,
        "ai_snapshot.v1"@,
        "schema_list.v1"@,
        "capabilities.v1"@,
        "errors.v1"@,
        "error.v1"@,
        "init.v1"@,
        "cleanup.v1"@,
        "uninstall.v1"@,
    ]
}

/// The id of a schema: its short name under `campus-lms.`.
pub open spec fn schema_id(name: Seq<char>) -> Seq<char> {
    "campus-lms."@ + name
}

fn schema_name_list() -> (r: Vec<&'static str>)
    ensures
        r@.map_values(|s: &'static str| s@) == schema_names(),
{
    let mut v: Vec<&'static str> = Vec::new();
    v.push("auth_login.v1");
    v.push("auth_logout.v1");
    v.push("auth_status.v1");
    v.push("whoami.v1");
    v.push("doctor.v1");
    v.push("courses.v1");
    v.push("todo.v1");
    v.push("assignment.v1");
    v.push("ai_snapshot.v1");
    v.push("schema_list.v1");
    v.push("capabilities.v1");
    v.push("errors.v1");
    v.push("error.v1");
    v.push("init.v1");
    v.push("cleanup.v1");
    v.push("uninstall.v1");
    assert(v@.map_values(|s: &'static str| s@) =~= schema_names());
    v
}

/// The short names of the published schemas, in order.
pub fn schema_list() -> (r: Vec<String>)
    ensures
        r@.map_values(|s: String| s@) == schema_names(),
{
    let names = schema_name_list();
    let mut out: Vec<String> = Vec::new();
    let n = names.len();
    for i in 0..n
        invariant
            n == names@.len(),
            names@.map_values(|s: &'static str| s@) == schema_names(),
            out@.map_values(|s: String| s@) == schema_names().take(i as int),
    {
        let ghost before = out@;
        out.push(text::owned(names[i]));
        assert(out@.map_values(|s: String| s@) == before.map_values(|s: String| s@).push(
            names@[i as int]@,
        ));
        assert(schema_names().take(i + 1) == schema_names().take(i as int).push(
            schema_names()[i as int],
        ));
    }
    assert(schema_names().take(n as int) == schema_names());
    out
}

/// The output of `schema list`.
pub fn schema_list_output(generated_at: String) -> (r: SchemaListOutput)
    ensures
        r.schema_version@ == "campus-lms.schema_list.v1"@,
        r.generated_at == generated_at,
        r.schemas@.map_values(|s: String| s@) == schema_names(),
        r.warnings@.len() == 0,
{
    SchemaListOutput {
        schema_version: "campus-lms.schema_list.v1",
        generated_at,
        schemas: schema_list(),
        warnings: Vec::<Warning>::new(),
    }
}

/// Whether `name` names the `i`-th schema, by short name or by id.
pub open spec fn names_schema(name: Seq<char>, i: int) -> bool {
    0 <= i < schema_names().len() && (name == schema_names()[i] || name == schema_id(
        schema_names()[i],
    ))
}

/// The schema id a requested name stands for, or `NOT_FOUND`.
pub fn resolve_schema(name: &str) -> (r: Result<String>)
    ensures
        match r {
            Ok(id) => exists|i: int| names_schema(name@, i) && id@ == schema_id(schema_names()[i]),
            Err(e) => (forall|i: int| !names_schema(name@, i)) && e is NotFound
                && e->NotFound_json && e->NotFound_message@ == "schema "@ + name@
                + " is not implemented yet"@,
        },
{
    let names = schema_name_list();
    let n = names.len();
    for i in 0..n
        invariant
            n == names@.len(),
            names@.map_values(|s: &'static str| s@) == schema_names(),
            forall|k: int| 0 <= k < i ==> !names_schema(name@, k),
    {
        let id = text::concat2("campus-lms.", names[i]);
        assert(names@[i as int]@ == schema_names()[i as int]);
        if text::str_eq(name, names[i]) || text::str_eq(name, id.as_str()) {
            assert(names_schema(name@, i as int));
            return Ok(id);
        }
    }
    let message = text::concat3("schema ", name, " is not implemented yet");
    Err(CampusError::NotFound { message, json: true })
}

/// Every listed schema can be shown, by its short name or by its id, and
/// either resolves to that schema's id alone.
pub proof fn law_listed_schemas_resolve(i: int)
    requires
        0 <= i < schema_names().len(),
    ensures
        names_schema(schema_names()[i], i),
        names_schema(schema_id(schema_names()[i]), i),
        forall|j: int|
            #![trigger names_schema(schema_names()[i], j)]
            #![trigger names_schema(schema_id(schema_names()[i]), j)]
            names_schema(schema_names()[i], j) || names_schema(schema_id(schema_names()[i]), j)
                ==> schema_id(schema_names()[j]) == schema_id(schema_names()[i]),
{
    reveal_strlit("campus-lms.");
    reveal_strlit("auth_login.v1");
    reveal_strlit("auth_logout.v1");
    reveal_strlit("auth_status.v1");
    reveal_strlit("whoami.v1");
    reveal_strlit("doctor.v1");
    reveal_strlit("courses.v1");
    reveal_strlit("todo.v1");
    reveal_strlit("assignment.v1");
    reveal_strlit("ai_snapshot.v1");
    reveal_strlit("schema_list.v1");
    reveal_strlit("capabilities.v1");
    reveal_strlit("errors.v1");
    reveal_strlit("error.v1");
    reveal_strlit("init.v1");
    reveal_strlit("cleanup.v1");
    reveal_strlit("uninstall.v1");
    assert forall|j: int|
        names_schema(schema_names()[i], j) || names_schema(schema_id(schema_names()[i]), j)
            implies schema_id(schema_names()[j]) == schema_id(schema_names()[i]) by {
        let a = schema_names()[i];
        let b = schema_names()[j];
        if a == schema_id(b) {
            assert(a[0] == 'c' && a[1] == 'a' && a[2] == 'm');
            assert(false);
        }
        if schema_id(a) == b {
            assert(b[0] == 'c' && b[1] == 'a' && b[2] == 'm');
            assert(false);
        }
        if schema_id(a) == schema_id(b) {
            assert(a =~= schema_id(a).subrange(11, schema_id(a).len() as int));
            assert(b =~= schema_id(b).subrange(11, schema_id(b).len() as int));
        }
    }
}


/// What a `schema` command answers: the list, or the id of the schema to
/// print.
#[derive(Debug, Clone)]
pub enum SchemaAnswer {
    List(SchemaListOutput),
    Show(String),
}

pub fn run(command: &SchemaCommand, generated_at: String) -> (r: Result<SchemaAnswer>)
    ensures
        match command {
            SchemaCommand::List => r matches Ok(SchemaAnswer::List(out))
                && out.schema_version@ == "campus-lms.schema_list.v1"@ && out.generated_at
                == generated_at && out.schemas@.map_values(|s: String| s@) == schema_names()
                && out.warnings@.len() == 0,
            SchemaCommand::Show { name } => match r {
                Ok(SchemaAnswer::Show(id)) => exists|i: int|
                    names_schema(name@, i) && id@ == schema_id(schema_names()[i]),
                Ok(SchemaAnswer::List(_)) => false,
                Err(e) => (forall|i: int| !names_schema(name@, i)) && e is NotFound
                    && e->NotFound_json && e->NotFound_message@ == "schema "@ + name@
                    + " is not implemented yet"@,
            },
        },
{
    match command {
        SchemaCommand::List => Ok(SchemaAnswer::List(schema_list_output(generated_at))),
        SchemaCommand::Show { name } => match resolve_schema(name.as_str()) {
            Ok(id) => Ok(SchemaAnswer::Show(id)),
            Err(e) => Err(e),
        },
    }
}

} // verus!
