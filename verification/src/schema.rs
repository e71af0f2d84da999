//! The description of the tool's parameters, as a JSON schema.
use crate::json::{json_tree, list_value, object_value, text_value, Json};
use vstd::prelude::*;

verus! {

pub const PROMPT: &'static str = "prompt";

pub const WORKING_DIRECTORY: &'static str = "working_directory";

pub const SESSION_ID: &'static str = "session_id";

pub const MODEL: &'static str = "model";

pub const PROMPT_DESCRIPTION: &'static str = "The coding task to delegate to Grok Build CLI";

pub const WORKING_DIRECTORY_DESCRIPTION: &'static str = "Working directory within the workspace (must be inside workspace_dir)";

pub const SESSION_ID_DESCRIPTION: &'static str = "Optional Grok session ID to resume with --resume (from a previous --output-format json response)";

pub const MODEL_DESCRIPTION: &'static str = "Optional model ID override (e.g. grok-4.5). Falls back to [grok_cli].default_model when set.";

/// The schema of a parameter that is a string.
pub open spec fn property_tree(description: Seq<char>) -> Json {
    Json::Object(
        map![
            "type"@ => Json::Text("string"@),
            "description"@ => Json::Text(description),
        ],
    )
}

/// The parameters, each with its schema.
pub open spec fn properties() -> Map<Seq<char>, Json> {
    map![
        PROMPT@ => property_tree(PROMPT_DESCRIPTION@),
        WORKING_DIRECTORY@ => property_tree(WORKING_DIRECTORY_DESCRIPTION@),
        SESSION_ID@ => property_tree(SESSION_ID_DESCRIPTION@),
        MODEL@ => property_tree(MODEL_DESCRIPTION@),
    ]
}

/// The parameters that a call must have.
pub open spec fn required_parameters() -> Seq<Json> {
    seq![Json::Text(PROMPT@)]
}

/// The whole schema.
pub open spec fn schema_tree() -> Json {
    Json::Object(
        map![
            "type"@ => Json::Text("object"@),
            "properties"@ => Json::Object(properties()),
            "required"@ => Json::List(required_parameters()),
        ],
    )
}

/// The schema of a parameter that is a string.
fn property(description: &str) -> (r: serde_json::Value)
    ensures
        json_tree(r) == property_tree(description@),
{
    let mut members: serde_json::Map<String, serde_json::Value> = serde_json::Map::new();
    members.insert("type".to_owned(), text_value("string".to_owned()));
    members.insert("description".to_owned(), text_value(description.to_owned()));
    object_value(members)
}

/// The schema of the tool's parameters.
pub fn build_schema() -> (r: serde_json::Value)
    ensures
        json_tree(r) == schema_tree(),
{
    let mut members: serde_json::Map<String, serde_json::Value> = serde_json::Map::new();
    members.insert(PROMPT.to_owned(), property(PROMPT_DESCRIPTION));
    members.insert(WORKING_DIRECTORY.to_owned(), property(WORKING_DIRECTORY_DESCRIPTION));
    members.insert(SESSION_ID.to_owned(), property(SESSION_ID_DESCRIPTION));
    members.insert(MODEL.to_owned(), property(MODEL_DESCRIPTION));
    let mut required: Vec<serde_json::Value> = Vec::new();
    required.push(text_value(PROMPT.to_owned()));
    assert(required@.map_values(|v: serde_json::Value| json_tree(v)) =~= required_parameters());
    let mut schema: serde_json::Map<String, serde_json::Value> = serde_json::Map::new();
    schema.insert("type".to_owned(), text_value("object".to_owned()));
    schema.insert("properties".to_owned(), object_value(members));
    schema.insert("required".to_owned(), list_value(required));
    object_value(schema)
}

} // verus!
