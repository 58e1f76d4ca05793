//! The functions that the assistant offers to a model by name: how each is
//! declared, how a call by name and JSON arguments is read, and what each
//! call answers once the caller has touched the file system, the shell or
//! the network for it.

use vstd::prelude::*;
use vstd::string::*;
use crate::json::{
    JsonView, JsonNumber, member, value_model, value_get, value_as_str, value_string, value_bool,
    value_integer, value_array, models, object1, object2, object3, strings_array, string_views,
};
use crate::text::{
    text_eq, join2, join4, occurs, occurs_at, first_occurrence, replaced_at, contains_text,
    replace_first, trimmed, trim_text, lemma_first_occurrence,
};

verus! {

// ---------------------------------------------------------------------------
// Declarations
// ---------------------------------------------------------------------------

/// How a function is announced: its name, what it does, the JSON schema of
/// its arguments, and whether only an agent may call it.
#[derive(Debug)]
pub struct FunctionDeclaration {
    pub name: String,
    pub description: String,
    pub parameters: serde_json::Value,
    pub agent: bool,
}

pub struct DeclarationView {
    pub name: Seq<char>,
    pub description: Seq<char>,
    pub parameters: JsonView,
    pub agent: bool,
}

impl View for FunctionDeclaration {
    type V = DeclarationView;

    open spec fn view(&self) -> DeclarationView {
        DeclarationView {
            name: self.name@,
            description: self.description@,
            parameters: value_model(self.parameters),
            agent: self.agent,
        }
    }
}

/// The views of a sequence of declarations, in order.
pub open spec fn declaration_views(ds: Seq<FunctionDeclaration>) -> Seq<DeclarationView> {
    ds.map_values(|d: FunctionDeclaration| d@)
}

/// The schema of an argument that is a text.
pub open spec fn text_property(description: Seq<char>) -> JsonView {
    JsonView::Object(
        map![
            "type"@ => JsonView::String("string"@),
            "description"@ => JsonView::String(description),
        ],
    )
}

/// The schema of arguments of which none is required.
pub open spec fn open_schema(properties: Map<Seq<char>, JsonView>) -> JsonView {
    JsonView::Object(
        map![
            "type"@ => JsonView::String("object"@),
            "properties"@ => JsonView::Object(properties),
        ],
    )
}

/// The schema of arguments of which those named in `required` must be given.
pub open spec fn schema(properties: Map<Seq<char>, JsonView>, required: Seq<JsonView>) -> JsonView {
    JsonView::Object(
        map![
            "type"@ => JsonView::String("object"@),
            "properties"@ => JsonView::Object(properties),
            "required"@ => JsonView::Array(required),
        ],
    )
}

/// A function that any caller may use.
pub open spec fn declared(name: Seq<char>, description: Seq<char>, parameters: JsonView) -> DeclarationView {
    DeclarationView { name, description, parameters, agent: false }
}

/// The functions that are offered, in the order in which they are announced.
pub open spec fn declaration_table() -> Seq<DeclarationView> {
    seq![
        declared(
            "fs_cat"@,
            "Read the contents of a file."@,
            schema(
                map!["path"@ => text_property("The path to the file to read"@)],
                seq![JsonView::String("path"@)],
            ),
        ),
        declared(
            "fs_ls"@,
            "List files in a directory."@,
            open_schema(
                map![
                    "path"@ => text_property(
                        "The path to the directory to list (defaults to current directory)"@,
                    ),
                ],
            ),
        ),
        declared(
            "fs_mkdir"@,
            "Create a directory."@,
            schema(
                map!["path"@ => text_property("The path to the directory to create"@)],
                seq![JsonView::String("path"@)],
            ),
        ),
        declared(
            "fs_write"@,
            "Write content to a file."@,
            schema(
                map![
                    "path"@ => text_property("The path to the file to write"@),
                    "contents"@ => text_property("The content to write to the file"@),
                ],
                seq![JsonView::String("path"@), JsonView::String("contents"@)],
            ),
        ),
        declared(
            "fs_patch"@,
            "Patch a file by replacing a search string with a replacement string."@,
            schema(
                map![
                    "path"@ => text_property("The path to the file to patch"@),
                    "search"@ => text_property("The string to search for"@),
                    "replace"@ => text_property("The string to replace with"@),
                ],
                seq![
                    JsonView::String("path"@),
                    JsonView::String("search"@),
                    JsonView::String("replace"@),
                ],
            ),
        ),
        declared(
            "fs_search"@,
            "Search for text in files (substring search)."@,
            schema(
                map![
                    "path"@ => text_property("The path to the directory to search in"@),
                    "text"@ => text_property("The text to search for"@),
                    "file_pattern"@ => text_property(
                        "The file pattern to filter by (substring match on filename)"@,
                    ),
                ],
                seq![JsonView::String("path"@), JsonView::String("text"@)],
            ),
        ),
        declared(
            "command_run"@,
            "Run a shell command."@,
            schema(
                map!["command"@ => text_property("The command to run"@)],
                seq![JsonView::String("command"@)],
            ),
        ),
        declared(
            "web_search"@,
            "Search the web using DuckDuckGo Lite."@,
            schema(
                map!["query"@ => text_property("The query to search for"@)],
                seq![JsonView::String("query"@)],
            ),
        ),
        declared(
            "web_browse"@,
            "Browse a webpage and return its content as markdown."@,
            schema(
                map!["url"@ => text_property("The URL to browse"@)],
                seq![JsonView::String("url"@)],
            ),
        ),
    ]
}

fn text_property_value(description: &str) -> (v: serde_json::Value)
    ensures
        value_model(v) == text_property(description@),
{
    proof {
        reveal_strlit("type");
        reveal_strlit("description");
        assert("type"@.len() != "description"@.len());
    }
    object2("type", value_string("string"), "description", value_string(description))
}

fn names1(a: &str) -> (v: serde_json::Value)
    ensures
        value_model(v) == JsonView::Array(seq![JsonView::String(a@)]),
{
    let mut items: Vec<serde_json::Value> = Vec::new();
    items.push(value_string(a));
    assert(models(items@) == seq![JsonView::String(a@)]);
    value_array(items)
}

fn names2(a: &str, b: &str) -> (v: serde_json::Value)
    ensures
        value_model(v) == JsonView::Array(seq![JsonView::String(a@), JsonView::String(b@)]),
{
    let mut items: Vec<serde_json::Value> = Vec::new();
    items.push(value_string(a));
    items.push(value_string(b));
    assert(models(items@) == seq![JsonView::String(a@), JsonView::String(b@)]);
    value_array(items)
}

fn names3(a: &str, b: &str, c: &str) -> (v: serde_json::Value)
    ensures
        value_model(v) == JsonView::Array(
            seq![JsonView::String(a@), JsonView::String(b@), JsonView::String(c@)],
        ),
{
    let mut items: Vec<serde_json::Value> = Vec::new();
    items.push(value_string(a));
    items.push(value_string(b));
    items.push(value_string(c));
    assert(models(items@) == seq![
        JsonView::String(a@),
        JsonView::String(b@),
        JsonView::String(c@),
    ]);
    value_array(items)
}

fn schema_value(properties: serde_json::Value, required: serde_json::Value) -> (v:
    serde_json::Value)
    requires
        value_model(properties) is Object,
        value_model(required) is Array,
    ensures
        value_model(v) == schema(
            value_model(properties)->Object_0,
            value_model(required)->Array_0,
        ),
{
    proof {
        reveal_strlit("type");
        reveal_strlit("properties");
        reveal_strlit("required");
        assert("type"@.len() != "properties"@.len());
        assert("type"@.len() != "required"@.len());
        assert("properties"@.len() != "required"@.len());
    }
    object3("type", value_string("object"), "properties", properties, "required", required)
}

fn open_schema_value(properties: serde_json::Value) -> (v: serde_json::Value)
    requires
        value_model(properties) is Object,
    ensures
        value_model(v) == open_schema(value_model(properties)->Object_0),
{
    proof {
        reveal_strlit("type");
        reveal_strlit("properties");
        assert("type"@.len() != "properties"@.len());
    }
    object2("type", value_string("object"), "properties", properties)
}

fn declare(name: &str, description: &str, parameters: serde_json::Value) -> (d:
    FunctionDeclaration)
    ensures
        d@ == declared(name@, description@, value_model(parameters)),
{
    FunctionDeclaration {
        name: name.to_owned(),
        description: description.to_owned(),
        parameters,
        agent: false,
    }
}

/// A function with the one required argument `argument`, a text.
fn declare_unary(name: &str, description: &str, argument: &str, about: &str) -> (d:
    FunctionDeclaration)
    ensures
        d@ == declared(
            name@,
            description@,
            schema(map![argument@ => text_property(about@)], seq![JsonView::String(argument@)]),
        ),
{
    let properties = object1(argument, text_property_value(about));
    declare(name, description, schema_value(properties, names1(argument)))
}

/// The functions that are offered, in the order in which they are announced.
pub fn declarations() -> (ds: Vec<FunctionDeclaration>)
    ensures
        declaration_views(ds@) == declaration_table(),
{
    proof {
        reveal_strlit("path");
        reveal_strlit("contents");
        reveal_strlit("search");
        reveal_strlit("replace");
        reveal_strlit("text");
        reveal_strlit("file_pattern");
        assert("path"@.len() != "contents"@.len());
        assert("path"@.len() != "search"@.len());
        assert("path"@.len() != "replace"@.len());
        assert("search"@.len() != "replace"@.len());
        assert("path"@[0] != "text"@[0]);
        assert("path"@.len() != "file_pattern"@.len());
        assert("text"@.len() != "file_pattern"@.len());
    }
    let fs_cat = declare_unary(
        "fs_cat",
        "Read the contents of a file.",
        "path",
        "The path to the file to read",
    );
    let fs_ls = declare(
        "fs_ls",
        "List files in a directory.",
        open_schema_value(
            object1(
                "path",
                text_property_value(
                    "The path to the directory to list (defaults to current directory)",
                ),
            ),
        ),
    );
    let fs_mkdir = declare_unary(
        "fs_mkdir",
        "Create a directory.",
        "path",
        "The path to the directory to create",
    );
    let fs_write = declare(
        "fs_write",
        "Write content to a file.",
        schema_value(
            object2(
                "path",
                text_property_value("The path to the file to write"),
                "contents",
                text_property_value("The content to write to the file"),
            ),
            names2("path", "contents"),
        ),
    );
    let fs_patch = declare(
        "fs_patch",
        "Patch a file by replacing a search string with a replacement string.",
        schema_value(
            object3(
                "path",
                text_property_value("The path to the file to patch"),
                "search",
                text_property_value("The string to search for"),
                "replace",
                text_property_value("The string to replace with"),
            ),
            names3("path", "search", "replace"),
        ),
    );
    let fs_search = declare(
        "fs_search",
        "Search for text in files (substring search).",
        schema_value(
            object3(
                "path",
                text_property_value("The path to the directory to search in"),
                "text",
                text_property_value("The text to search for"),
                "file_pattern",
                text_property_value("The file pattern to filter by (substring match on filename)"),
            ),
            names2("path", "text"),
        ),
    );
    let command_run = declare_unary(
        "command_run",
        "Run a shell command.",
        "command",
        "The command to run",
    );
    let web_search = declare_unary(
        "web_search",
        "Search the web using DuckDuckGo Lite.",
        "query",
        "The query to search for",
    );
    let web_browse = declare_unary(
        "web_browse",
        "Browse a webpage and return its content as markdown.",
        "url",
        "The URL to browse",
    );
    let mut ds: Vec<FunctionDeclaration> = Vec::new();
    ds.push(fs_cat);
    ds.push(fs_ls);
    ds.push(fs_mkdir);
    ds.push(fs_write);
    ds.push(fs_patch);
    ds.push(fs_search);
    ds.push(command_run);
    ds.push(web_search);
    ds.push(web_browse);
    ds
}

// ---------------------------------------------------------------------------
// Calls
// ---------------------------------------------------------------------------

/// A call of one of the functions, with its arguments read.
#[derive(Debug, Clone)]
pub enum ToolCall {
    FsCat { path: String },
    FsLs { path: String },
    FsMkdir { path: String },
    FsWrite { path: String, contents: String },
    FsPatch { path: String, search: String, replace: String },
    FsSearch { path: String, text: String, file_pattern: Option<String> },
    CommandRun { command: String },
    WebSearch { query: String },
    WebBrowse { url: String },
}

pub enum ToolCallView {
    FsCat { path: Seq<char> },
    FsLs { path: Seq<char> },
    FsMkdir { path: Seq<char> },
    FsWrite { path: Seq<char>, contents: Seq<char> },
    FsPatch { path: Seq<char>, search: Seq<char>, replace: Seq<char> },
    FsSearch { path: Seq<char>, text: Seq<char>, file_pattern: Option<Seq<char>> },
    CommandRun { command: Seq<char> },
    WebSearch { query: Seq<char> },
    WebBrowse { url: Seq<char> },
}

impl View for ToolCall {
    type V = ToolCallView;

    open spec fn view(&self) -> ToolCallView {
        match self {
            ToolCall::FsCat { path } => ToolCallView::FsCat { path: path@ },
            ToolCall::FsLs { path } => ToolCallView::FsLs { path: path@ },
            ToolCall::FsMkdir { path } => ToolCallView::FsMkdir { path: path@ },
            ToolCall::FsWrite { path, contents } => ToolCallView::FsWrite {
                path: path@,
                contents: contents@,
            },
            ToolCall::FsPatch { path, search, replace } => ToolCallView::FsPatch {
                path: path@,
                search: search@,
                replace: replace@,
            },
            ToolCall::FsSearch { path, text, file_pattern } => ToolCallView::FsSearch {
                path: path@,
                text: text@,
                file_pattern: match file_pattern {
                    Some(p) => Some(p@),
                    None => None,
                },
            },
            ToolCall::CommandRun { command } => ToolCallView::CommandRun { command: command@ },
            ToolCall::WebSearch { query } => ToolCallView::WebSearch { query: query@ },
            ToolCall::WebBrowse { url } => ToolCallView::WebBrowse { url: url@ },
        }
    }
}

/// Why a call fails before or after the caller's work.
#[derive(Debug, Clone)]
pub enum ToolError {
    /// No function of that name is declared.
    UnknownFunction { name: String },
    /// A required argument is absent, or is no text.
    MissingArgument { name: String },
    /// The text to replace does not stand in the file.
    SearchNotFound,
}

pub enum ToolErrorView {
    UnknownFunction { name: Seq<char> },
    MissingArgument { name: Seq<char> },
    SearchNotFound,
}

impl View for ToolError {
    type V = ToolErrorView;

    open spec fn view(&self) -> ToolErrorView {
        match self {
            ToolError::UnknownFunction { name } => ToolErrorView::UnknownFunction { name: name@ },
            ToolError::MissingArgument { name } => ToolErrorView::MissingArgument { name: name@ },
            ToolError::SearchNotFound => ToolErrorView::SearchNotFound,
        }
    }
}

/// The message that an error shows.
pub open spec fn tool_message(e: ToolErrorView) -> Seq<char> {
    match e {
        ToolErrorView::UnknownFunction { name } => "Unknown function "@ + name,
        ToolErrorView::MissingArgument { name } => "Missing "@ + name,
        ToolErrorView::SearchNotFound => "Search string not found in file"@,
    }
}

impl ToolError {
    /// The message that the error shows.
    pub fn message(&self) -> (r: String)
        ensures
            r@ == tool_message(self@),
    {
        match self {
            ToolError::UnknownFunction { name } => join2("Unknown function ", name.as_str()),
            ToolError::MissingArgument { name } => join2("Missing ", name.as_str()),
            ToolError::SearchNotFound => "Search string not found in file".to_owned(),
        }
    }
}

/// The argument `name` of a call, where it is given as a text.
pub open spec fn text_argument(args: JsonView, name: Seq<char>) -> Option<Seq<char>> {
    match member(args, name) {
        Some(JsonView::String(text)) => Some(text),
        _ => None,
    }
}

/// A call that needs the one argument `name`.
pub open spec fn with_argument(
    args: JsonView,
    name: Seq<char>,
    call: spec_fn(Seq<char>) -> ToolCallView,
) -> Result<ToolCallView, ToolErrorView> {
    match text_argument(args, name) {
        Some(text) => Ok(call(text)),
        None => Err(ToolErrorView::MissingArgument { name }),
    }
}

/// How a call by name and arguments is read. A name that stands for no
/// declared function fails the call. A function's required arguments are
/// looked for in the order of its declaration, and the first that is
/// absent, or is no text, fails the call. `fs_ls` lists the current
/// directory where no path is given.
pub open spec fn planned(name: Seq<char>, args: JsonView) -> Result<ToolCallView, ToolErrorView> {
    if name == "fs_cat"@ {
        with_argument(args, "path"@, |path: Seq<char>| ToolCallView::FsCat { path })
    } else if name == "fs_ls"@ {
        Ok(
            ToolCallView::FsLs {
                path: match text_argument(args, "path"@) {
                    Some(path) => path,
                    None => "."@,
                },
            },
        )
    } else if name == "fs_mkdir"@ {
        with_argument(args, "path"@, |path: Seq<char>| ToolCallView::FsMkdir { path })
    } else if name == "fs_write"@ {
        match text_argument(args, "path"@) {
            Some(path) => with_argument(
                args,
                "contents"@,
                |contents: Seq<char>| ToolCallView::FsWrite { path, contents },
            ),
            None => Err(ToolErrorView::MissingArgument { name: "path"@ }),
        }
    } else if name == "fs_patch"@ {
        match text_argument(args, "path"@) {
            Some(path) => match text_argument(args, "search"@) {
                Some(search) => with_argument(
                    args,
                    "replace"@,
                    |replace: Seq<char>| ToolCallView::FsPatch { path, search, replace },
                ),
                None => Err(ToolErrorView::MissingArgument { name: "search"@ }),
            },
            None => Err(ToolErrorView::MissingArgument { name: "path"@ }),
        }
    } else if name == "fs_search"@ {
        match text_argument(args, "path"@) {
            Some(path) => with_argument(
                args,
                "text"@,
                |text: Seq<char>|
                    ToolCallView::FsSearch {
                        path,
                        text,
                        file_pattern: text_argument(args, "file_pattern"@),
                    },
            ),
            None => Err(ToolErrorView::MissingArgument { name: "path"@ }),
        }
    } else if name == "command_run"@ {
        with_argument(args, "command"@, |command: Seq<char>| ToolCallView::CommandRun { command })
    } else if name == "web_search"@ {
        with_argument(args, "query"@, |query: Seq<char>| ToolCallView::WebSearch { query })
    } else if name == "web_browse"@ {
        with_argument(args, "url"@, |url: Seq<char>| ToolCallView::WebBrowse { url })
    } else {
        Err(ToolErrorView::UnknownFunction { name })
    }
}

fn optional_text(args: &serde_json::Value, name: &str) -> (r: Option<String>)
    ensures
        match r {
            Some(text) => text_argument(value_model(*args), name@) == Some(text@),
            None => text_argument(value_model(*args), name@) is None,
        },
{
    match value_get(args, name) {
        Some(v) => match value_as_str(v) {
            Some(text) => Some(text.to_owned()),
            None => None,
        },
        None => None,
    }
}

fn required_text(args: &serde_json::Value, name: &str) -> (r: Result<String, ToolError>)
    ensures
        match r {
            Ok(text) => text_argument(value_model(*args), name@) == Some(text@),
            Err(e) => text_argument(value_model(*args), name@) is None && e@ == (
            ToolErrorView::MissingArgument { name: name@ }),
        },
{
    match optional_text(args, name) {
        Some(text) => Ok(text),
        None => Err(ToolError::MissingArgument { name: name.to_owned() }),
    }
}

/// Reads a call by name and arguments. The caller then does the work of
/// the call and hands what it found to the function that answers the call.
/// A call that is read is always there: an unknown name is a failure, not
/// an absent call.
pub fn run(name: &str, args: &serde_json::Value) -> (r: Result<Option<ToolCall>, ToolError>)
    ensures
        match planned(name@, value_model(*args)) {
            Ok(call) => r matches Ok(Some(c)) && c@ == call,
            Err(e) => r matches Err(f) && f@ == e,
        },
{
    if text_eq(name, "fs_cat") {
        match required_text(args, "path") {
            Ok(path) => Ok(Some(ToolCall::FsCat { path })),
            Err(e) => Err(e),
        }
    } else if text_eq(name, "fs_ls") {
        let path = match optional_text(args, "path") {
            Some(path) => path,
            None => ".".to_owned(),
        };
        Ok(Some(ToolCall::FsLs { path }))
    } else if text_eq(name, "fs_mkdir") {
        match required_text(args, "path") {
            Ok(path) => Ok(Some(ToolCall::FsMkdir { path })),
            Err(e) => Err(e),
        }
    } else if text_eq(name, "fs_write") {
        let path = match required_text(args, "path") {
            Ok(path) => path,
            Err(e) => {
                return Err(e);
            },
        };
        match required_text(args, "contents") {
            Ok(contents) => Ok(Some(ToolCall::FsWrite { path, contents })),
            Err(e) => Err(e),
        }
    } else if text_eq(name, "fs_patch") {
        let path = match required_text(args, "path") {
            Ok(path) => path,
            Err(e) => {
                return Err(e);
            },
        };
        let search = match required_text(args, "search") {
            Ok(search) => search,
            Err(e) => {
                return Err(e);
            },
        };
        match required_text(args, "replace") {
            Ok(replace) => Ok(Some(ToolCall::FsPatch { path, search, replace })),
            Err(e) => Err(e),
        }
    } else if text_eq(name, "fs_search") {
        let path = match required_text(args, "path") {
            Ok(path) => path,
            Err(e) => {
                return Err(e);
            },
        };
        match required_text(args, "text") {
            Ok(text) => {
                let file_pattern = optional_text(args, "file_pattern");
                Ok(Some(ToolCall::FsSearch { path, text, file_pattern }))
            },
            Err(e) => Err(e),
        }
    } else if text_eq(name, "command_run") {
        match required_text(args, "command") {
            Ok(command) => Ok(Some(ToolCall::CommandRun { command })),
            Err(e) => Err(e),
        }
    } else if text_eq(name, "web_search") {
        match required_text(args, "query") {
            Ok(query) => Ok(Some(ToolCall::WebSearch { query })),
            Err(e) => Err(e),
        }
    } else if text_eq(name, "web_browse") {
        match required_text(args, "url") {
            Ok(url) => Ok(Some(ToolCall::WebBrowse { url })),
            Err(e) => Err(e),
        }
    } else {
        Err(ToolError::UnknownFunction { name: name.to_owned() })
    }
}

// ---------------------------------------------------------------------------
// Answers
// ---------------------------------------------------------------------------

/// An object with the one member `name`.
pub open spec fn answer(name: Seq<char>, value: JsonView) -> JsonView {
    JsonView::Object(map![name => value])
}

/// The answer of `fs_cat` and of `web_browse`: the content that was read.
pub fn content_output(content: &str) -> (v: serde_json::Value)
    ensures
        value_model(v) == answer("content"@, JsonView::String(content@)),
{
    object1("content", value_string(content))
}

/// The word that `fs_ls` puts behind the name of an entry.
pub open spec fn entry_kind(is_dir: bool) -> Seq<char> {
    if is_dir {
        "dir"@
    } else {
        "file"@
    }
}

/// How `fs_ls` shows one entry of a directory.
pub fn fs_ls_entry(file_name: &str, is_dir: bool) -> (r: String)
    ensures
        r@ == file_name@ + " ("@ + entry_kind(is_dir) + ")"@,
{
    let kind = if is_dir {
        "dir"
    } else {
        "file"
    };
    join4(file_name, " (", kind, ")")
}

/// The answer of `fs_ls`: the entries, in the order in which they were
/// read.
pub fn fs_ls_output(files: &Vec<String>) -> (v: serde_json::Value)
    ensures
        value_model(v) == answer("files"@, JsonView::Array(string_views(files@))),
{
    object1("files", strings_array(files))
}

/// The answer of `fs_mkdir`, `fs_write` and `fs_patch` once the work is done.
pub fn success_output() -> (v: serde_json::Value)
    ensures
        value_model(v) == answer("success"@, JsonView::Bool(true)),
{
    object1("success", value_bool(true))
}

/// The new content of a file for `fs_patch`: `content` with `replace` in
/// place of the first `search`. Where `search` does not stand in `content`
/// the call fails, and there is no content to write.
pub fn fs_patch(content: &str, search: &str, replace: &str) -> (r: Result<String, ToolError>)
    ensures
        match r {
            Ok(patched) => exists|i: int|
                first_occurrence(content@, search@, i) && patched@ == replaced_at(
                    content@,
                    search@,
                    replace@,
                    i,
                ),
            Err(e) => !occurs(content@, search@) && e@ == ToolErrorView::SearchNotFound,
        },
{
    if !contains_text(content, search) {
        return Err(ToolError::SearchNotFound);
    }
    proof {
        let at = choose|i: int| occurs_at(content@, search@, i);
        lemma_first_occurrence(content@, search@, at);
    }
    Ok(replace_first(content, search, replace))
}

/// Whether `fs_search` reads the file at `path`: always without a pattern,
/// and with one where the pattern stands in the path.
pub fn fs_search_selects(path: &str, file_pattern: Option<&str>) -> (r: bool)
    ensures
        r == (file_pattern matches Some(pattern) ==> occurs(path@, pattern@)),
{
    match file_pattern {
        Some(pattern) => contains_text(path, pattern),
        None => true,
    }
}

/// The line that `fs_search` reports for the file at `path`, where `text`
/// stands in its content.
pub fn fs_search_hit(path: &str, content: &str, text: &str) -> (r: Option<String>)
    ensures
        match r {
            Some(line) => occurs(content@, text@) && line@ == path@ + ": Found match"@,
            None => !occurs(content@, text@),
        },
{
    if contains_text(content, text) {
        Some(join2(path, ": Found match"))
    } else {
        None
    }
}

/// The answer of `fs_search`: the lines of the files that matched, in the
/// order in which they were found.
pub fn fs_search_output(results: &Vec<String>) -> (v: serde_json::Value)
    ensures
        value_model(v) == answer("results"@, JsonView::Array(string_views(results@))),
{
    object1("results", strings_array(results))
}

/// The exit code that `command_run` reports: 0 where the command has none.
pub open spec fn reported_code(exit_code: Option<i32>) -> int {
    match exit_code {
        Some(code) => code as int,
        None => 0,
    }
}

/// The answer of `command_run`: what the command wrote and how it ended.
pub fn command_output(stdout: &str, stderr: &str, exit_code: Option<i32>) -> (v: serde_json::Value)
    ensures
        value_model(v) == JsonView::Object(
            map![
                "stdout"@ => JsonView::String(stdout@),
                "stderr"@ => JsonView::String(stderr@),
                "exit_code"@ => JsonView::Number(JsonNumber::Integer(reported_code(exit_code))),
            ],
        ),
{
    proof {
        reveal_strlit("stdout");
        reveal_strlit("stderr");
        reveal_strlit("exit_code");
        assert("stdout"@[3] != "stderr"@[3]);
        assert("stdout"@.len() != "exit_code"@.len());
        assert("stderr"@.len() != "exit_code"@.len());
    }
    let code: i64 = match exit_code {
        Some(code) => code as i64,
        None => 0,
    };
    object3(
        "stdout",
        value_string(stdout),
        "stderr",
        value_string(stderr),
        "exit_code",
        value_integer(code),
    )
}

// ---------------------------------------------------------------------------
// Web search
// ---------------------------------------------------------------------------

/// An element of a page as the search reads it: the value of one of its
/// attributes, if it has that attribute, and the texts below it, piece by
/// piece.
#[derive(Debug, Clone)]
pub struct ElementData {
    pub attribute: Option<String>,
    pub texts: Vec<String>,
}

pub struct ElementView {
    pub attribute: Option<Seq<char>>,
    pub texts: Seq<Seq<char>>,
}

impl View for ElementData {
    type V = ElementView;

    open spec fn view(&self) -> ElementView {
        ElementView {
            attribute: match self.attribute {
                Some(value) => Some(value@),
                None => None,
            },
            texts: self.texts@.map_values(|t: String| t@),
        }
    }
}

/// The views of the elements found below one element.
pub open spec fn element_views(below: Seq<ElementData>) -> Seq<ElementView> {
    below.map_values(|e: ElementData| e@)
}

/// The views of the elements found below each of a sequence of elements.
pub open spec fn found_views(found: Seq<Vec<ElementData>>) -> Seq<Seq<ElementView>> {
    found.map_values(|below: Vec<ElementData>| element_views(below@))
}

/// What `scraper` finds in the page `html`: for each element that
/// `Html::select` yields for the CSS selector `outer`, in the order in which
/// it yields them, the elements below it that `ElementRef::select` yields
/// for the selector `inner`, in that order, each with the value of its
/// attribute `attribute` and the texts below it. Nothing where `outer` or
/// `inner` is no CSS selector.
pub uninterp spec fn elements_below(
    html: Seq<char>,
    outer: Seq<char>,
    inner: Seq<char>,
    attribute: Seq<char>,
) -> Option<Seq<Seq<ElementView>>>;

/// Parses the two selectors with `Selector::parse` and the page with
/// `Html::parse_document`, walks the page with `Html::select` and each
/// element found with `ElementRef::select`, and reads the elements below it
/// with `Element::attr` and `ElementRef::text`. The result is what
/// `elements_below` names.
#[verifier::external_body]
pub(crate) fn select_below(html: &str, outer: &str, inner: &str, attribute: &str) -> (r: Option<
    Vec<Vec<ElementData>>,
>)
    ensures
        match r {
            Some(found) => elements_below(html@, outer@, inner@, attribute@) == Some(
                found_views(found@),
            ),
            None => elements_below(html@, outer@, inner@, attribute@) is None,
        },
{
    let outer = scraper::Selector::parse(outer).ok()?;
    let inner = scraper::Selector::parse(inner).ok()?;
    let page = scraper::Html::parse_document(html);
    let read = |e: scraper::ElementRef| ElementData {
        attribute: e.value().attr(attribute).map(str::to_owned),
        texts: e.text().map(str::to_owned).collect(),
    };
    Some(page.select(&outer).map(|e| e.select(&inner).map(read).collect()).collect())
}

/// One result of a web search.
#[derive(Debug, Clone)]
pub struct SearchResult {
    pub title: String,
    pub url: String,
}

pub struct SearchResultView {
    pub title: Seq<char>,
    pub url: Seq<char>,
}

impl View for SearchResult {
    type V = SearchResultView;

    open spec fn view(&self) -> SearchResultView {
        SearchResultView { title: self.title@, url: self.url@ }
    }
}

/// The views of a sequence of results, in order.
pub open spec fn result_views(results: Seq<SearchResult>) -> Seq<SearchResultView> {
    results.map_values(|r: SearchResult| r@)
}

/// The texts, one after the other.
pub open spec fn joined(texts: Seq<Seq<char>>) -> Seq<char>
    decreases texts.len(),
{
    if texts.len() == 0 {
        Seq::empty()
    } else {
        joined(texts.drop_last()) + texts.last()
    }
}

/// The result that one result element gives, from the links below it: none
/// without a link, and none where the first link has no address; else the
/// text of the first link without the white space at its ends, and its
/// address.
pub open spec fn link_result(links: Seq<ElementView>) -> Seq<SearchResultView> {
    if links.len() > 0 && links[0].attribute is Some {
        seq![
            SearchResultView {
                title: trimmed(joined(links[0].texts)),
                url: links[0].attribute->0,
            },
        ]
    } else {
        Seq::empty()
    }
}

/// The results that the result elements of a page give, in the order of the
/// page.
pub open spec fn link_results(found: Seq<Seq<ElementView>>) -> Seq<SearchResultView>
    decreases found.len(),
{
    if found.len() == 0 {
        Seq::empty()
    } else {
        link_results(found.drop_last()) + link_result(found.last())
    }
}

fn join_texts(texts: &Vec<String>) -> (r: String)
    ensures
        r@ == joined(texts@.map_values(|t: String| t@)),
{
    let ghost all = texts@.map_values(|t: String| t@);
    let mut out: String = String::new();
    let mut i: usize = 0;
    while i < texts.len()
        invariant
            i <= texts.len(),
            all == texts@.map_values(|t: String| t@),
            out@ == joined(all.take(i as int)),
        decreases texts.len() - i,
    {
        proof {
            assert(all.take(i + 1).drop_last() == all.take(i as int));
        }
        out.append(texts[i].as_str());
        i = i + 1;
    }
    proof {
        assert(all.take(i as int) == all);
    }
    out
}

/// The results of a web search, from the links found below each result
/// element of the page.
pub fn search_results(found: &Vec<Vec<ElementData>>) -> (results: Vec<SearchResult>)
    ensures
        result_views(results@) == link_results(found_views(found@)),
{
    let ghost all = found_views(found@);
    let mut results: Vec<SearchResult> = Vec::new();
    let mut i: usize = 0;
    while i < found.len()
        invariant
            i <= found.len(),
            all == found_views(found@),
            result_views(results@) == link_results(all.take(i as int)),
        decreases found.len() - i,
    {
        proof {
            assert(all.take(i + 1).drop_last() == all.take(i as int));
        }
        let links = &found[i];
        if links.len() > 0 {
            match &links[0].attribute {
                Some(url) => {
                    let text = join_texts(&links[0].texts);
                    let result = SearchResult { title: trim_text(text.as_str()), url: url.clone() };
                    results.push(result);
                },
                None => {},
            }
        }
        i = i + 1;
    }
    proof {
        assert(all.take(i as int) == all);
    }
    results
}

/// The JSON object of one result.
pub open spec fn result_object(r: SearchResultView) -> JsonView {
    JsonView::Object(map!["title"@ => JsonView::String(r.title), "url"@ => JsonView::String(r.url)])
}

/// The answer of `web_search`: the results, in order.
pub fn web_search_output(results: &Vec<SearchResult>) -> (v: serde_json::Value)
    ensures
        value_model(v) == answer(
            "results"@,
            JsonView::Array(result_views(results@).map_values(|r: SearchResultView| result_object(r))),
        ),
{
    proof {
        reveal_strlit("title");
        reveal_strlit("url");
        assert("title"@.len() != "url"@.len());
    }
    let ghost all = result_views(results@);
    let mut items: Vec<serde_json::Value> = Vec::new();
    let mut i: usize = 0;
    while i < results.len()
        invariant
            i <= results.len(),
            all == result_views(results@),
            "title"@ != "url"@,
            models(items@) == all.take(i as int).map_values(|r: SearchResultView| result_object(r)),
        decreases results.len() - i,
    {
        let item = object2(
            "title",
            value_string(results[i].title.as_str()),
            "url",
            value_string(results[i].url.as_str()),
        );
        proof {
            assert(models(items@.push(item)) == models(items@).push(value_model(item)));
        }
        items.push(item);
        i = i + 1;
    }
    proof {
        assert(all.take(i as int) == all);
    }
    object1("results", value_array(items))
}

/// The selector of the links of a result page.
pub const RESULT_LINK: &'static str = ".result-link";

/// The results that a result page gives: those of the links that `scraper`
/// finds below its result elements. Nothing where `scraper` takes one of
/// the two selectors of the search for no selector.
pub open spec fn page_results(html: Seq<char>) -> Option<Seq<SearchResultView>> {
    match elements_below(html, RESULT_LINK@, "a"@, "href"@) {
        Some(found) => Some(link_results(found)),
        None => None,
    }
}

/// The results of a web search, read from the page that the search engine
/// answered with.
pub fn web_search(html: &str) -> (r: Option<Vec<SearchResult>>)
    ensures
        match r {
            Some(results) => page_results(html@) == Some(result_views(results@)),
            None => page_results(html@) is None,
        },
{
    match select_below(html, RESULT_LINK, "a", "href") {
        Some(found) => Some(search_results(&found)),
        None => None,
    }
}

} // verus!
