//! The wire format: what a request line holds and how a response line is
//! written.
//!
//! A request is one JSON value on a line. Of it the server reads the
//! `method`, the `id`, and under `params` the tool's `name` and the
//! `kenteken` among its `arguments`; a member that is missing or is no
//! string reads as the empty text. A response is one JSON object on a line,
//! `{"jsonrpc":"2.0","id":…,"result":…}`, with the request's `id` handed
//! back as it came. There is no error object: what goes wrong is said in
//! the text of a result, or not at all.

use crate::json::{
    as_text, json_compact, json_member, json_str, json_string, json_value_of, member, read_value,
    string_value, write_compact,
};
use crate::tools::{ToolDescriptor, ToolDescriptorView, descriptor_views};
use vstd::prelude::*;
use vstd::string::StringExecFns;

verus! {

/// Why the server cannot go on with a line.
#[derive(Clone, Copy, Debug, PartialEq, Eq, Structural)]
pub enum ServerError {
    /// The request line is not one JSON value.
    MalformedRequest,
    /// A value could not be written as JSON text.
    Unserializable,
}

/// One request, as far as the server reads it.
#[derive(Clone, Debug)]
pub struct Request {
    /// The method asked for.
    pub method: String,
    /// The caller's identifier for the request, any JSON value.
    pub id: serde_json::Value,
    /// The name of the tool to call.
    pub tool_name: String,
    /// The kenteken as the caller wrote it.
    pub kenteken: String,
}

/// A request as the contracts see it: each text by its characters.
pub struct RequestView {
    pub method: Seq<char>,
    pub id: serde_json::Value,
    pub tool_name: Seq<char>,
    pub kenteken: Seq<char>,
}

impl View for Request {
    type V = RequestView;

    open spec fn view(&self) -> RequestView {
        RequestView {
            method: self.method@,
            id: self.id,
            tool_name: self.tool_name@,
            kenteken: self.kenteken@,
        }
    }
}

/// The content of a JSON string, and the empty text for any other value.
pub open spec fn text_or_empty(value: serde_json::Value) -> Seq<char> {
    match json_str(value) {
        Some(text) => text,
        None => Seq::empty(),
    }
}

/// The request that a JSON value stands for.
pub open spec fn request_of(value: serde_json::Value) -> RequestView {
    let params = json_member(value, "params"@);
    RequestView {
        method: text_or_empty(json_member(value, "method"@)),
        id: json_member(value, "id"@),
        tool_name: text_or_empty(json_member(params, "name"@)),
        kenteken: text_or_empty(json_member(json_member(params, "arguments"@), "kenteken"@)),
    }
}

/// A response line around the JSON texts of an id and of a result.
pub open spec fn response_line(id_json: Seq<char>, result_json: Seq<char>) -> Seq<char> {
    "{\"jsonrpc\":\"2.0\",\"id\":"@ + id_json + ",\"result\":"@ + result_json + "}"@
}

/// The result of `initialize`: protocol version, capabilities and the
/// server's name and version.
pub open spec fn initialize_result_text() -> Seq<char> {
    "{\"protocolVersion\":\"2024-11-05\",\"capabilities\":{\"tools\":{}},\"serverInfo\":{\"name\":\"rdw-server\",\"version\":\"2.0.0\"}}"@
}

/// The result of a tool call: a content array with one block of text, given
/// as a JSON string.
pub open spec fn content_result_text(text_json: Seq<char>) -> Seq<char> {
    "{\"content\":[{\"type\":\"text\",\"text\":"@ + text_json + "}]}"@
}

/// `text` as a JSON string, quotes and escapes included.
pub open spec fn quoted(text: Seq<char>) -> Option<Seq<char>> {
    json_compact(json_string(text))
}

/// One entry of the tool list, as JSON text.
pub open spec fn descriptor_text(tool: ToolDescriptorView) -> Option<Seq<char>> {
    match (quoted(tool.name), quoted(tool.description)) {
        (Some(name), Some(description)) => Some(
            "{\"name\":"@ + name + ",\"description\":"@ + description + ",\"inputSchema\":"@
                + tool.input_schema + "}"@,
        ),
        _ => None,
    }
}

/// The parts one after the other, with a comma between neighbours.
pub open spec fn comma_joined(parts: Seq<Seq<char>>) -> Seq<char>
    decreases parts.len(),
{
    if parts.len() == 0 {
        Seq::empty()
    } else if parts.len() == 1 {
        parts[0]
    } else {
        comma_joined(parts.drop_last()) + ","@ + parts.last()
    }
}

/// The entries of the first `n` tools of a catalog.
pub open spec fn descriptor_texts(catalog: Seq<ToolDescriptorView>, n: nat) -> Seq<Seq<char>> {
    Seq::new(n, |i: int| descriptor_text(catalog[i])->0)
}

/// The result of `list_tools` for a catalog: every entry in order. There is
/// none where an entry cannot be written.
pub open spec fn tools_result_text(catalog: Seq<ToolDescriptorView>) -> Option<Seq<char>> {
    if forall|i: int| 0 <= i < catalog.len() ==> (#[trigger] descriptor_text(catalog[i])) is Some {
        Some("{\"tools\":["@ + comma_joined(descriptor_texts(catalog, catalog.len())) + "]}"@)
    } else {
        None
    }
}

/// The response line for a request id and the JSON text of a result, where
/// there is one.
pub open spec fn response_of(
    id: serde_json::Value,
    result_json: Option<Seq<char>>,
) -> Option<Seq<char>> {
    match (json_compact(id), result_json) {
        (Some(id_json), Some(result)) => Some(response_line(id_json, result)),
        _ => None,
    }
}

/// The response line that carries `text` as the outcome of a tool call.
pub open spec fn text_response_of(id: serde_json::Value, text: Seq<char>) -> Option<Seq<char>> {
    response_of(
        id,
        match quoted(text) {
            Some(text_json) => Some(content_result_text(text_json)),
            None => None,
        },
    )
}

/// Whether `written` is the outcome owed for `text`: the text itself, or the
/// error for a value that serde_json could not write.
pub open spec fn is_written(written: Result<String, ServerError>, text: Option<Seq<char>>) -> bool {
    match text {
        Some(expected) => written is Ok && written->Ok_0@ == expected,
        None => written is Err && written->Err_0 == ServerError::Unserializable,
    }
}

impl ServerError {
    /// A sentence for the operator.
    pub fn message(self) -> (text: &'static str)
        ensures
            text@ == match self {
                ServerError::MalformedRequest => "request line is not valid JSON"@,
                ServerError::Unserializable => "value cannot be written as JSON"@,
            },
    {
        match self {
            ServerError::MalformedRequest => "request line is not valid JSON",
            ServerError::Unserializable => "value cannot be written as JSON",
        }
    }
}

/// Reads the member `key` of `value` as text.
fn text_member(value: &serde_json::Value, key: &str) -> (text: String)
    ensures
        text@ == text_or_empty(json_member(*value, key@)),
{
    match as_text(member(value, key)) {
        Some(text) => String::from_str(text),
        None => String::new(),
    }
}

/// Takes from a JSON value what the server reads of a request.
pub fn request_from_value(value: &serde_json::Value) -> (request: Request)
    ensures
        request@ == request_of(*value),
{
    let params = member(value, "params");
    let arguments = member(params, "arguments");
    Request {
        method: text_member(value, "method"),
        id: member(value, "id").clone(),
        tool_name: text_member(params, "name"),
        kenteken: text_member(arguments, "kenteken"),
    }
}

/// Reads one request line. Any line that is one JSON value is a request;
/// any other line is refused.
pub fn parse_request(line: &str) -> (parsed: Result<Request, ServerError>)
    ensures
        match json_value_of(line@) {
            Some(value) => parsed is Ok && parsed->Ok_0@ == request_of(value),
            None => parsed is Err && parsed->Err_0 == ServerError::MalformedRequest,
        },
{
    match read_value(line) {
        Ok(value) => Ok(request_from_value(&value)),
        Err(_) => Err(ServerError::MalformedRequest),
    }
}

/// Writes a response line around the JSON texts of an id and of a result.
pub fn frame_response(id_json: &str, result_json: &str) -> (line: String)
    ensures
        line@ == response_line(id_json@, result_json@),
{
    let mut line = String::from_str("{\"jsonrpc\":\"2.0\",\"id\":");
    line.append(id_json);
    line.append(",\"result\":");
    line.append(result_json);
    line.append("}");
    line
}

/// The result of `initialize`.
pub fn initialize_result() -> (result: &'static str)
    ensures
        result@ == initialize_result_text(),
{
    "{\"protocolVersion\":\"2024-11-05\",\"capabilities\":{\"tools\":{}},\"serverInfo\":{\"name\":\"rdw-server\",\"version\":\"2.0.0\"}}"
}

/// Writes the result of a tool call around its text, given as a JSON string.
pub fn content_result(text_json: &str) -> (result: String)
    ensures
        result@ == content_result_text(text_json@),
{
    let mut result = String::from_str("{\"content\":[{\"type\":\"text\",\"text\":");
    result.append(text_json);
    result.append("}]}");
    result
}

/// Writes `text` as a JSON string.
pub fn quote(text: &str) -> (written: Result<String, ServerError>)
    ensures
        is_written(written, quoted(text@)),
{
    let value = string_value(String::from_str(text));
    match write_compact(&value) {
        Ok(text_json) => Ok(text_json),
        Err(_) => Err(ServerError::Unserializable),
    }
}

/// Writes one entry of the tool list.
pub fn render_descriptor(tool: &ToolDescriptor) -> (written: Result<String, ServerError>)
    ensures
        is_written(written, descriptor_text(tool@)),
{
    let name = match quote(tool.name) {
        Ok(name) => name,
        Err(error) => { return Err(error); },
    };
    let description = match quote(tool.description) {
        Ok(description) => description,
        Err(error) => { return Err(error); },
    };
    let mut entry = String::from_str("{\"name\":");
    entry.append(name.as_str());
    entry.append(",\"description\":");
    entry.append(description.as_str());
    entry.append(",\"inputSchema\":");
    entry.append(tool.input_schema);
    entry.append("}");
    Ok(entry)
}

/// Writes the result of `list_tools` for a catalog.
pub fn tools_result(catalog: &Vec<ToolDescriptor>) -> (written: Result<String, ServerError>)
    ensures
        is_written(written, tools_result_text(descriptor_views(catalog@))),
{
    let ghost tools = descriptor_views(catalog@);
    let mut result = String::from_str("{\"tools\":[");
    let mut i: usize = 0;
    while i < catalog.len()
        invariant
            i <= catalog.len(),
            tools == descriptor_views(catalog@),
            forall|j: int| 0 <= j < i ==> (#[trigger] descriptor_text(tools[j])) is Some,
            result@ == "{\"tools\":["@ + comma_joined(descriptor_texts(tools, i as nat)),
        decreases catalog.len() - i,
    {
        let entry = match render_descriptor(&catalog[i]) {
            Ok(entry) => entry,
            Err(error) => {
                assert(descriptor_text(tools[i as int]) is None);
                return Err(error);
            },
        };
        if i > 0 {
            result.append(",");
        }
        result.append(entry.as_str());
        proof {
            let before = descriptor_texts(tools, i as nat);
            let after = descriptor_texts(tools, (i + 1) as nat);
            assert(after.drop_last() =~= before);
            assert(after.last() == entry@);
            assert(result@ =~= "{\"tools\":["@ + comma_joined(after));
        }
        i += 1;
    }
    result.append("]}");
    Ok(result)
}

/// Writes the response line for a request id and the JSON text of a result.
pub fn respond(id: &serde_json::Value, result_json: &str) -> (written: Result<String, ServerError>)
    ensures
        is_written(written, response_of(*id, Some(result_json@))),
{
    match write_compact(id) {
        Ok(id_json) => Ok(frame_response(id_json.as_str(), result_json)),
        Err(_) => Err(ServerError::Unserializable),
    }
}

/// Writes the response line that carries `text` as the outcome of a tool
/// call.
pub fn respond_text(id: &serde_json::Value, text: &str) -> (written: Result<String, ServerError>)
    ensures
        is_written(written, text_response_of(*id, text@)),
{
    match quote(text) {
        Ok(text_json) => respond(id, content_result(text_json.as_str()).as_str()),
        Err(error) => Err(error),
    }
}

} // verus!
