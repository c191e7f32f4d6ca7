//! The built-in tools `rhd_set_todo_list` and `rhd_set_role`: reading their
//! JSON arguments and the results they report back to the AI.
use crate::error::ChatError;
use crate::stream_fsm::texts;
use crate::templates::TemplateLoaderRef;
use crate::tools::{RHD_SET_ROLE_TOOL_NAME, RHD_SET_TODO_LIST_TOOL_NAME};
use crate::text::{append_str, to_owned_string};
use crate::todo::{items_view, parse_todo_list, todo_items, TodoItem};
use vstd::prelude::*;

verus! {

/// The result of a tool call, as reported back to the AI.
#[derive(Debug)]
pub struct ToolResult {
    pub content: String,
    pub is_error: Option<bool>,
}

/// What `serde_json` makes of `text` when asked for the member `key`: the
/// member's text when `text` is a JSON object whose `key` member is a string,
/// nothing when it is JSON but has no such string member, and the parser's
/// error message when it is not JSON.
pub uninterp spec fn json_string_member(text: Seq<char>, key: Seq<char>) -> Result<Option<Seq<char>>, Seq<char>>;

/// The texts of a parse outcome.
pub open spec fn member_texts(r: Result<Option<String>, String>) -> Result<Option<Seq<char>>, Seq<char>> {
    match r {
        Ok(Some(s)) => Ok(Some(s@)),
        Ok(None) => Ok(None),
        Err(e) => Err(e@),
    }
}

/// Parses `text` with `serde_json::from_str` into a `serde_json::Value` and
/// reads its member `key` with `Value::get` and `Value::as_str`; a parse
/// failure gives the error's `Display` text. The result is named
/// `json_string_member`: what the JSON grammar accepts is not written out
/// here.
#[verifier::external_body]
pub(crate) fn read_string_member(text: &str, key: &str) -> (r: Result<Option<String>, String>)
    ensures
        member_texts(r) == json_string_member(text@, key@),
{
    match serde_json::from_str::<serde_json::Value>(text) {
        Ok(v) => Ok(v.get(key).and_then(|m| m.as_str()).map(|s| s.to_string())),
        Err(e) => Err(e.to_string()),
    }
}

/// What `serde_json` makes of `text` when asked for the boolean member `key`:
/// its value when `text` is a JSON object whose `key` member is a boolean,
/// nothing otherwise (not JSON, or no such boolean member).
pub uninterp spec fn json_bool_member(text: Seq<char>, key: Seq<char>) -> Option<bool>;

/// Parses `text` with `serde_json::from_str` into a `serde_json::Value` and
/// reads its member `key` with `Value::get` and `Value::as_bool`; a parse
/// failure gives nothing. The result is named `json_bool_member`.
#[verifier::external_body]
pub(crate) fn read_bool_member(text: &str, key: &str) -> (r: Option<bool>)
    ensures
        r == json_bool_member(text@, key@),
{
    match serde_json::from_str::<serde_json::Value>(text) {
        Ok(v) => v.get(key).and_then(|m| m.as_bool()),
        Err(_) => None,
    }
}

/// What `serde_json` makes of `text` when asked for the array member `key`:
/// the compact JSON text of each element, in order, when `text` is a JSON
/// object whose `key` member is an array; nothing otherwise (not JSON, no such
/// member, or a member that is not an array).
pub uninterp spec fn json_array_member(text: Seq<char>, key: Seq<char>) -> Option<Seq<Seq<char>>>;

/// Parses `text` with `serde_json::from_str` into a `serde_json::Value`, reads
/// its member `key` with `Value::get` and `Value::as_array`, and writes each
/// element back as JSON text with `Value`'s `Display`. The result is named
/// `json_array_member`.
#[verifier::external_body]
pub(crate) fn read_array_member(text: &str, key: &str) -> (r: Option<Vec<String>>)
    ensures
        match r {
            Some(v) => json_array_member(text@, key@) == Some(texts(v@)),
            None => json_array_member(text@, key@) is None,
        },
{
    match serde_json::from_str::<serde_json::Value>(text) {
        Ok(v) => v.get(key).and_then(|m| m.as_array()).map(|a| a.iter().map(|e| e.to_string()).collect()),
        Err(_) => None,
    }
}

/// What `serde_json` makes of `text` when asked for the member `key` as JSON
/// text: the member written back compactly when `text` is a JSON object with a
/// `key` member, nothing when it is JSON without one, and the parser's error
/// message when it is not JSON.
pub uninterp spec fn json_member_text(text: Seq<char>, key: Seq<char>) -> Result<Option<Seq<char>>, Seq<char>>;

/// Parses `text` with `serde_json::from_str` into a `serde_json::Value`, reads
/// its member `key` with `Value::get` and writes it back with `Value`'s
/// `Display`; a parse failure gives the error's `Display` text. The result is
/// named `json_member_text`.
#[verifier::external_body]
pub(crate) fn read_member_text(text: &str, key: &str) -> (r: Result<Option<String>, String>)
    ensures
        member_texts(r) == json_member_text(text@, key@),
{
    match serde_json::from_str::<serde_json::Value>(text) {
        Ok(v) => Ok(v.get(key).map(|m| m.to_string())),
        Err(e) => Err(e.to_string()),
    }
}

/// The JSON string literal that `serde_json` writes for `s`: `s` in double
/// quotes, with quotes, backslashes and control characters escaped.
pub uninterp spec fn json_quoted(s: Seq<char>) -> Seq<char>;

/// `serde_json::to_string` of a string. Writing into memory cannot fail, so
/// the error arm only converts. The result is named `json_quoted`.
#[verifier::external_body]
pub(crate) fn quote_json(s: &str) -> (r: String)
    ensures
        r@ == json_quoted(s@),
{
    match serde_json::to_string(s) {
        Ok(t) => t,
        Err(_) => String::new(),
    }
}

/// A function the AI may call: its name, what it does, and its parameters as a
/// JSON schema text.
#[derive(Debug, Clone)]
pub struct FunctionDefinition {
    pub name: String,
    pub description: String,
    pub parameters: String,
}

/// A tool offered to the AI.
#[derive(Debug, Clone)]
pub struct ToolDefinition {
    pub tool_type: String,
    pub function: FunctionDefinition,
}

/// `d` is the definition of the tool `tool` that the template text `template`
/// gives: a function tool named `tool`, described by the template's string
/// `description` member (empty when there is none) and with the template's
/// `parameters` member as parameters (`null` when there is none). A missing
/// template, or one that is not JSON, is an internal error.
pub open spec fn defined_as(
    r: Result<ToolDefinition, ChatError>,
    tool: Seq<char>,
    template_name: Seq<char>,
    template: Option<Seq<char>>,
) -> bool {
    match template {
        None => r matches Err(ChatError::Internal(m)) && m@ == "Template '"@ + template_name + "' not found"@,
        Some(t) => match json_member_text(t, "parameters"@) {
            Err(e) => r matches Err(ChatError::Internal(m)) && m@ == "Failed to parse tool definition template as JSON: "@ + e,
            Ok(p) => r matches Ok(d) && d.tool_type@ == "function"@ && d.function.name@ == tool
                && d.function.description@ == (match json_string_member(t, "description"@) {
                    Ok(Some(x)) => x,
                    _ => Seq::<char>::empty(),
                }) && d.function.parameters@ == (match p {
                    Some(x) => x,
                    None => "null"@,
                }),
        },
    }
}

/// The definition of the tool `tool_name` that the template `template_name`
/// gives, once the template has been looked up.
pub fn tool_definition_from_template(tool_name: &str, template_name: &str, template: Option<String>) -> (r: Result<
    ToolDefinition,
    ChatError,
>)
    ensures
        defined_as(r, tool_name@, template_name@, crate::scenario::opt_text(template)),
{
    match template {
        None => {
            let mut m = String::new();
            append_str(&mut m, "Template '");
            append_str(&mut m, template_name);
            append_str(&mut m, "' not found");
            Err(ChatError::Internal(m))
        },
        Some(t) => match read_member_text(t.as_str(), "parameters") {
            Err(e) => {
                let mut m = String::new();
                append_str(&mut m, "Failed to parse tool definition template as JSON: ");
                append_str(&mut m, e.as_str());
                Err(ChatError::Internal(m))
            },
            Ok(p) => {
                let description = match read_string_member(t.as_str(), "description") {
                    Ok(Some(x)) => x,
                    _ => String::new(),
                };
                let parameters = match p {
                    Some(x) => x,
                    None => to_owned_string("null"),
                };
                let function = FunctionDefinition { name: to_owned_string(tool_name), description, parameters };
                Ok(ToolDefinition { tool_type: to_owned_string("function"), function })
            },
        },
    }
}

/// The definition of `rhd_set_todo_list`, from the template
/// `mcp_internal/rhd_set_todo_list/tool_definition`.
pub fn rhd_set_todo_list_tool_definition<F: Fn(&str) -> Option<String>>(template_loader: &TemplateLoaderRef<F>) -> (r: Result<
    ToolDefinition,
    ChatError,
>)
    requires
        call_requires(template_loader.lookup(), ("mcp_internal/rhd_set_todo_list/tool_definition",)),
    ensures
        exists|t: Option<String>|
            call_ensures(template_loader.lookup(), ("mcp_internal/rhd_set_todo_list/tool_definition",), t)
                && defined_as(
                r,
                RHD_SET_TODO_LIST_TOOL_NAME@,
                "mcp_internal/rhd_set_todo_list/tool_definition"@,
                crate::scenario::opt_text(t),
            ),
{
    let t = template_loader.get_template("mcp_internal/rhd_set_todo_list/tool_definition");
    tool_definition_from_template(RHD_SET_TODO_LIST_TOOL_NAME, "mcp_internal/rhd_set_todo_list/tool_definition", t)
}

/// The definition of `rhd_set_role`, from the template
/// `mcp_internal/rhd_set_role/tool_definition`.
pub fn rhd_set_role_tool_definition<F: Fn(&str) -> Option<String>>(template_loader: &TemplateLoaderRef<F>) -> (r: Result<
    ToolDefinition,
    ChatError,
>)
    requires
        call_requires(template_loader.lookup(), ("mcp_internal/rhd_set_role/tool_definition",)),
    ensures
        exists|t: Option<String>|
            call_ensures(template_loader.lookup(), ("mcp_internal/rhd_set_role/tool_definition",), t)
                && defined_as(
                r,
                RHD_SET_ROLE_TOOL_NAME@,
                "mcp_internal/rhd_set_role/tool_definition"@,
                crate::scenario::opt_text(t),
            ),
{
    let t = template_loader.get_template("mcp_internal/rhd_set_role/tool_definition");
    tool_definition_from_template(RHD_SET_ROLE_TOOL_NAME, "mcp_internal/rhd_set_role/tool_definition", t)
}

/// The content and error flag of a tool result.
pub open spec fn result_is(r: ToolResult, content: Seq<char>, is_error: bool) -> bool {
    r.content@ == content && r.is_error == Some(is_error)
}

fn tool_result(content: String, is_error: bool) -> (r: ToolResult)
    ensures
        result_is(r, content@, is_error),
{
    ToolResult { content, is_error: Some(is_error) }
}

fn error_with(prefix: &str, detail: &str) -> (r: ToolResult)
    ensures
        result_is(r, prefix@ + detail@, true),
{
    let mut c = String::new();
    append_str(&mut c, prefix);
    append_str(&mut c, detail);
    tool_result(c, true)
}

/// What the arguments of `rhd_set_todo_list` ask for, given what the JSON
/// parser made of them: the checklist text and its items, or the error result
/// to report.
pub fn todo_list_request_from(parsed: Result<Option<String>, String>) -> (r: Result<(String, Vec<TodoItem>), ToolResult>)
    ensures
        match member_texts(parsed) {
            Err(e) => r matches Err(t) && result_is(t, "Error: invalid arguments: "@ + e, true),
            Ok(None) => r matches Err(t) && result_is(t, "Error: missing required parameter 'todos'"@, true),
            Ok(Some(todos)) => r matches Ok((s, items)) && s@ == todos && items_view(items@) == todo_items(todos),
        },
{
    match parsed {
        Err(e) => Err(error_with("Error: invalid arguments: ", e.as_str())),
        Ok(None) => Err(tool_result(to_owned_string("Error: missing required parameter 'todos'"), true)),
        Ok(Some(todos)) => {
            match parse_todo_list(todos.as_str()) {
                Ok(items) => Ok((todos, items)),
                Err(e) => Err(error_with("Error: failed to parse todo list: ", e.as_str())),
            }
        },
    }
}

/// Reads the arguments of a `rhd_set_todo_list` call (see
/// `todo_list_request_from`).
pub fn todo_list_request(arguments: &str) -> (r: Result<(String, Vec<TodoItem>), ToolResult>)
    ensures
        match json_string_member(arguments@, "todos"@) {
            Err(e) => r matches Err(t) && result_is(t, "Error: invalid arguments: "@ + e, true),
            Ok(None) => r matches Err(t) && result_is(t, "Error: missing required parameter 'todos'"@, true),
            Ok(Some(todos)) => r matches Ok((s, items)) && s@ == todos && items_view(items@) == todo_items(todos),
        },
{
    todo_list_request_from(read_string_member(arguments, "todos"))
}

/// The result of a TODO list that was saved.
pub fn todo_list_saved() -> (r: ToolResult)
    ensures
        result_is(r, "Todo list updated successfully."@, false),
{
    tool_result(to_owned_string("Todo list updated successfully."), false)
}

/// The result of a TODO list that could not be saved.
pub fn todo_list_save_failed(error: &str) -> (r: ToolResult)
    ensures
        result_is(r, "Error: failed to save todo list: "@ + error@, true),
{
    error_with("Error: failed to save todo list: ", error)
}

/// The role that the arguments of `rhd_set_role` name, given what the JSON
/// parser made of them, or the error result to report.
pub fn role_request_from(parsed: Result<Option<String>, String>) -> (r: Result<String, ToolResult>)
    ensures
        match member_texts(parsed) {
            Err(e) => r matches Err(t) && result_is(t, "Error: invalid arguments: "@ + e, true),
            Ok(None) => r matches Err(t) && result_is(t, "Error: missing required parameter 'role_name'"@, true),
            Ok(Some(name)) => r matches Ok(s) && s@ == name,
        },
{
    match parsed {
        Err(e) => Err(error_with("Error: invalid arguments: ", e.as_str())),
        Ok(None) => Err(tool_result(to_owned_string("Error: missing required parameter 'role_name'"), true)),
        Ok(Some(name)) => Ok(name),
    }
}

/// Reads the arguments of a `rhd_set_role` call (see `role_request_from`).
pub fn role_request(arguments: &str) -> (r: Result<String, ToolResult>)
    ensures
        match json_string_member(arguments@, "role_name"@) {
            Err(e) => r matches Err(t) && result_is(t, "Error: invalid arguments: "@ + e, true),
            Ok(None) => r matches Err(t) && result_is(t, "Error: missing required parameter 'role_name'"@, true),
            Ok(Some(name)) => r matches Ok(s) && s@ == name,
        },
{
    role_request_from(read_string_member(arguments, "role_name"))
}

/// The result when the attached projects could not be read.
pub fn projects_unavailable(error: &str) -> (r: ToolResult)
    ensures
        result_is(r, "Error: failed to get attached projects: "@ + error@, true),
{
    error_with("Error: failed to get attached projects: ", error)
}

/// The result when no attached project offers the role.
pub fn role_not_found(role_name: &str) -> (r: ToolResult)
    ensures
        result_is(r, "Error: role '"@ + role_name@ + "' not found in any attached project"@, true),
{
    let mut c = String::new();
    append_str(&mut c, "Error: role '");
    append_str(&mut c, role_name);
    append_str(&mut c, "' not found in any attached project");
    tool_result(c, true)
}

/// The result of a successful role switch.
pub fn role_switched(role_name: &str) -> (r: ToolResult)
    ensures
        result_is(r, "Successfully switched to role '"@ + role_name@ + "'"@, false),
{
    let mut c = String::new();
    append_str(&mut c, "Successfully switched to role '");
    append_str(&mut c, role_name);
    append_str(&mut c, "'");
    tool_result(c, false)
}

/// The result of a role switch that failed.
pub fn role_switch_failed(error: &str) -> (r: ToolResult)
    ensures
        result_is(r, "Error: failed to set role: "@ + error@, true),
{
    error_with("Error: failed to set role: ", error)
}

/// The result of an MCP tool call that failed.
pub fn tool_call_failed(error: &str) -> (r: ToolResult)
    ensures
        result_is(r, "Error: "@ + error@, true),
{
    error_with("Error: ", error)
}

} // verus!
