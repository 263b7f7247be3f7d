//! The decisions of the tool that writes a file in the workspace. This module checks
//! the arguments, resolves the path inside the workspace and words the results; the
//! caller touches the file system.
use crate::json::{
    entries_view, entry_lookup, items_view, lemma_entries_view, lemma_items_view, text_at, text_of, Json,
    JsonV,
};
use crate::text::{concat2, concat3, join, joined, trim_end, trim_end_char};
use crate::tools::paths::{parts_within, resolve_within};
use crate::tools::base::ToolResult;
use vstd::prelude::*;
use vstd::string::StringExecFns;

verus! {

/// The tool that writes a file in the workspace.
#[derive(Debug, Clone)]
pub struct WriteFileTool {
    pub workspace: String,
}

/// The text argument `key` of an argument object.
pub open spec fn text_argument(args: Seq<(Seq<char>, JsonV)>, key: Seq<char>) -> Option<Seq<char>> {
    text_of(crate::json::entry_value(args, key))
}

/// Whether `r` is a plain error result for the model with `message`: no user text, not
/// silent, not asynchronous.
pub open spec fn is_error_result(r: ToolResult, message: Seq<char>) -> bool {
    &&& r.is_error
    &&& r.for_llm@ == message
    &&& r.for_user is None
    &&& !r.silent
    &&& !r.async_exec
}

/// The file that `path` names in `workspace`: the workspace path, `/`, and the parts
/// below it joined by `/`; the workspace path itself when the path names no part below
/// it (writing there then fails as the file system refuses it); `None` when the path
/// leaves the workspace.
pub open spec fn target_path(workspace: Seq<char>, path: Seq<char>) -> Option<Seq<char>> {
    match parts_within(workspace, path) {
        Some(rel) => if rel.len() == 0 {
            Some(workspace)
        } else {
            Some(trim_end(workspace, '/') + "/"@ + joined(rel, "/"@))
        },
        None => None,
    }
}

/// The schema of a text parameter with the given description.
pub open spec fn string_property(description: Seq<char>) -> JsonV {
    JsonV::Object(seq![("type"@, JsonV::Str("string"@)), ("description"@, JsonV::Str(description))])
}

/// The JSON Schema of the tool's arguments: an object with the text properties `path`
/// and `content`, both required.
pub open spec fn write_file_parameters() -> JsonV {
    JsonV::Object(
        seq![
            ("type"@, JsonV::Str("object"@)),
            ("properties"@, JsonV::Object(seq![
                ("path"@, string_property("File path relative to workspace"@)),
                ("content"@, string_property("File content to write"@)),
            ])),
            ("required"@, JsonV::Array(seq![JsonV::Str("path"@), JsonV::Str("content"@)])),
        ],
    )
}

/// The schema of a text parameter.
fn string_property_json(description: &str) -> (r: Json)
    ensures
        r@ == string_property(description@),
{
    let mut e: Vec<(String, Json)> = Vec::new();
    e.push(("type".to_owned(), Json::Str("string".to_owned())));
    e.push(("description".to_owned(), Json::Str(description.to_owned())));
    proof {
        lemma_entries_view(e@);
        assert(entries_view(e@) =~= seq![("type"@, JsonV::Str("string"@)), ("description"@, JsonV::Str(description@))]);
    }
    Json::Object(e)
}

/// What a valid call writes: the path relative to the workspace, and the content.
#[derive(Debug)]
pub struct WriteRequest {
    pub path: String,
    pub content: String,
}

impl WriteFileTool {
    /// A tool that writes in `workspace`.
    pub fn new(workspace: String) -> (r: Self)
        ensures
            r.workspace == workspace,
    {
        WriteFileTool { workspace }
    }

    /// The tool's name.
    pub fn name(&self) -> (r: &'static str)
        ensures
            r@ == "write_file"@,
    {
        "write_file"
    }

    /// The tool's description.
    pub fn description(&self) -> (r: &'static str)
        ensures
            r@ == "Write content to a file in the workspace"@,
    {
        "Write content to a file in the workspace"
    }

    /// The JSON Schema of the tool's arguments.
    pub fn parameters(&self) -> (r: Json)
        ensures
            r@ == write_file_parameters(),
    {
        let path = string_property_json("File path relative to workspace");
        let content = string_property_json("File content to write");
        let mut props: Vec<(String, Json)> = Vec::new();
        props.push(("path".to_owned(), path));
        props.push(("content".to_owned(), content));
        let mut required: Vec<Json> = Vec::new();
        required.push(Json::Str("path".to_owned()));
        required.push(Json::Str("content".to_owned()));
        let ghost props_v = props@;
        let ghost required_v = required@;
        let mut outer: Vec<(String, Json)> = Vec::new();
        outer.push(("type".to_owned(), Json::Str("object".to_owned())));
        outer.push(("properties".to_owned(), Json::Object(props)));
        outer.push(("required".to_owned(), Json::Array(required)));
        proof {
            lemma_entries_view(props_v);
            lemma_items_view(required_v);
            lemma_entries_view(outer@);
            assert(entries_view(props_v) =~= seq![
                ("path"@, string_property("File path relative to workspace"@)),
                ("content"@, string_property("File content to write"@)),
            ]);
            assert(items_view(required_v) =~= seq![JsonV::Str("path"@), JsonV::Str("content"@)]);
            assert(entries_view(outer@) =~= seq![
                ("type"@, JsonV::Str("object"@)),
                ("properties"@, JsonV::Object(entries_view(props_v))),
                ("required"@, JsonV::Array(items_view(required_v))),
            ]);
        }
        Json::Object(outer)
    }

    /// Checks the arguments: both `path` and `content` must be strings; a missing one
    /// gives the error result that names it, `path` first.
    pub fn check_arguments(&self, args: &Vec<(String, Json)>) -> (r: Result<WriteRequest, ToolResult>)
        ensures
            match (text_argument(entries_view(args@), "path"@), text_argument(entries_view(args@), "content"@)) {
                (Some(p), Some(c)) => r matches Ok(w) && w.path@ == p && w.content@ == c,
                (None, _) => r matches Err(e) && is_error_result(e, "Missing 'path' parameter"@),
                (Some(_), None) => r matches Err(e) && is_error_result(e, "Missing 'content' parameter"@),
            },
    {
        let path = match text_at(entry_lookup(args, "path")) {
            Some(p) => p.clone(),
            None => return Err(ToolResult::error("Missing 'path' parameter")),
        };
        let content = match text_at(entry_lookup(args, "content")) {
            Some(c) => c.clone(),
            None => return Err(ToolResult::error("Missing 'content' parameter")),
        };
        Ok(WriteRequest { path, content })
    }

    /// The file that `path` names in the workspace, or `None` when the path leaves the
    /// workspace: a relative path may not climb above it with `..`, and an absolute
    /// path must lie under it once `.` and `..` are resolved.
    pub fn resolve_target(&self, path: &str) -> (r: Option<String>)
        ensures
            match r {
                Some(t) => target_path(self.workspace@, path@) == Some(t@),
                None => target_path(self.workspace@, path@) is None,
            },
    {
        let rel = match resolve_within(self.workspace.as_str(), path) {
            Some(v) => v,
            None => return None,
        };
        if rel.len() == 0 {
            return Some(self.workspace.clone());
        }
        let mut t = trim_end_char(self.workspace.as_str(), '/').to_owned();
        t.append("/");
        t.append(join(&rel, "/").as_str());
        Some(t)
    }

    /// The result for a path outside the workspace.
    pub fn outside_workspace_result() -> (r: ToolResult)
        ensures
            is_error_result(r, "Path is outside workspace"@),
    {
        ToolResult::error("Path is outside workspace")
    }

    /// The result for a file written at `path`, which is the file `full_path`: a
    /// success for the model, with a notice for the user that shows both paths.
    pub fn written_result(path: &str, full_path: &str) -> (r: ToolResult)
        ensures
            !r.is_error,
            !r.silent,
            !r.async_exec,
            r.for_llm@ == "File written successfully: "@ + path@,
            r.for_user matches Some(u) && u@ == "✓ Created file: "@ + path@ + " ("@ + full_path@ + ")"@,
    {
        let text = concat2("File written successfully: ", path);
        let mut notice = concat3("✓ Created file: ", path, " (");
        notice.append(full_path);
        notice.append(")");
        ToolResult::success(text.as_str()).with_user_content(notice.as_str())
    }

    /// The result for a failure of the file system, with its description.
    pub fn failure_result(what: &str, detail: &str) -> (r: ToolResult)
        ensures
            is_error_result(r, what@ + detail@),
    {
        let text = concat2(what, detail);
        ToolResult::error(text.as_str())
    }
}

} // verus!
