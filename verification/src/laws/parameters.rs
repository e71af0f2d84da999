//! What holds of the parameters of a call.
use crate::config::ConfigView;
use crate::json::{as_text, member, text_member, Json};
use crate::schema::schema_tree;
use crate::text::trimmed;
use crate::tool::{args_of, chosen_model, request_of, CallArgsView};
use vstd::prelude::*;

verus! {

/// A member is found exactly where the value is an object that holds the key, and is read as text
/// exactly where it is a string.
pub proof fn law_members_are_found(tree: Json, key: Seq<char>, found: Json, s: Seq<char>)
    ensures
        member(tree, key) == Some(found) <==> (tree matches Json::Object(members)
            && members.contains_key(key) && members[key] == found),
        as_text(tree) == Some(s) <==> tree == Json::Text(s),
        text_member(tree, key) == Some(s) <==> (tree matches Json::Object(members)
            && members.contains_key(key) && members[key] == Json::Text(s)),
{
}

/// Each parameter is exactly the string that the call's object holds under its name.
pub proof fn law_parameters_are_read_by_name(tree: Json, s: Seq<char>)
    ensures
        args_of(tree).prompt == Some(s) <==> (tree matches Json::Object(members)
            && members.contains_key("prompt"@) && members["prompt"@] == Json::Text(s)),
        args_of(tree).working_directory == Some(s) <==> (tree matches Json::Object(members)
            && members.contains_key("working_directory"@) && members["working_directory"@]
            == Json::Text(s)),
        args_of(tree).session_id == Some(s) <==> (tree matches Json::Object(members)
            && members.contains_key("session_id"@) && members["session_id"@] == Json::Text(s)),
        args_of(tree).model == Some(s) <==> (tree matches Json::Object(members)
            && members.contains_key("model"@) && members["model"@] == Json::Text(s)),
{
}

/// The prompt is asked as it was given. The session is the one that the call names, trimmed, and
/// the model the one that the call names or else the operator's, trimmed; blank ones count for
/// nothing, and nothing else plays a part.
pub proof fn law_requests_hold_what_was_asked(
    config: ConfigView,
    prompt: Seq<char>,
    args: CallArgsView,
)
    ensures
        ({
            let request = request_of(config, prompt, args);
            let named = args.model is Some && trimmed(args.model->0).len() > 0;
            let preset = config.default_model is Some && trimmed(config.default_model->0).len() > 0;
            let resumed = args.session_id is Some && trimmed(args.session_id->0).len() > 0;
            &&& request.prompt == prompt
            &&& resumed ==> request.session_id == Some(trimmed(args.session_id->0))
            &&& !resumed ==> request.session_id is None
            &&& named ==> request.model == Some(trimmed(args.model->0))
            &&& !named && preset ==> request.model == Some(trimmed(config.default_model->0))
            &&& !named && !preset ==> request.model is None
        }),
{
}

/// Of a named model and the operator's, the first that holds text is used, trimmed.
pub proof fn law_first_model_with_text(named: Option<Seq<char>>, preset: Option<Seq<char>>)
    ensures
        named is Some && trimmed(named->0).len() > 0 ==> chosen_model(named, preset) == Some(
            trimmed(named->0),
        ),
        !(named is Some && trimmed(named->0).len() > 0) && preset is Some && trimmed(
            preset->0,
        ).len() > 0 ==> chosen_model(named, preset) == Some(trimmed(preset->0)),
        !(named is Some && trimmed(named->0).len() > 0) && !(preset is Some && trimmed(
            preset->0,
        ).len() > 0) ==> chosen_model(named, preset) is None,
{
}

/// The schema says of every key whether it describes a parameter, and how. Only the prompt is
/// required.
pub proof fn law_schema_by_key(key: Seq<char>)
    ensures
        ({
            let top = schema_tree()->Object_0;
            let parameters = top["properties"@]->Object_0;
            let described = {
                ||| key == "prompt"@
                ||| key == "working_directory"@
                ||| key == "session_id"@
                ||| key == "model"@
            };
            &&& schema_tree() is Object
            &&& top.contains_key(key) <==> {
                ||| key == "type"@
                ||| key == "properties"@
                ||| key == "required"@
            }
            &&& top["type"@] == Json::Text("object"@)
            &&& top["required"@] == Json::List(seq![Json::Text("prompt"@)])
            &&& top["properties"@] is Object
            &&& parameters.contains_key(key) <==> described
            &&& described ==> {
                let about = parameters[key]->Object_0;
                &&& parameters[key] is Object
                &&& about.dom() == set!["type"@, "description"@]
                &&& about["type"@] == Json::Text("string"@)
                &&& key == "prompt"@ ==> about["description"@] == Json::Text(
                    "The coding task to delegate to Grok Build CLI"@,
                )
                &&& key == "working_directory"@ ==> about["description"@] == Json::Text(
                    "Working directory within the workspace (must be inside workspace_dir)"@,
                )
                &&& key == "session_id"@ ==> about["description"@] == Json::Text(
                    "Optional Grok session ID to resume with --resume (from a previous --output-format json response)"@,
                )
                &&& key == "model"@ ==> about["description"@] == Json::Text(
                    "Optional model ID override (e.g. grok-4.5). Falls back to [grok_cli].default_model when set."@,
                )
            }
        }),
{
    reveal_strlit("type");
    reveal_strlit("description");
    reveal_strlit("properties");
    reveal_strlit("required");
    reveal_strlit("prompt");
    reveal_strlit("working_directory");
    reveal_strlit("session_id");
    reveal_strlit("model");
    assert("type"@.len() == 4);
    assert("description"@.len() == 11);
    assert("properties"@.len() == 10);
    assert("required"@.len() == 8);
    assert("prompt"@.len() == 6);
    assert("working_directory"@.len() == 17);
    assert("model"@.len() == 5);
    assert("session_id"@.len() == 10);
    let parameters = schema_tree()->Object_0["properties"@]->Object_0;
    if parameters.contains_key(key) {
        assert(parameters[key]->Object_0.dom() =~= set!["type"@, "description"@]);
    }
}

} // verus!
