//! The dispatcher: what the server does with one request.
//!
//! The server itself never waits for anything. `plan` looks at a request
//! and says what is to be done: write a line, look something up first, or
//! nothing at all. Where something is to be looked up, the embedding
//! program queries the URLs it is given, in any order or all at once, and
//! hands the replies to `finish_lookup` or `finish_bodywork`, which write
//! the line. A request with a method that the server does not know gets no
//! line, not even an empty one.

use crate::json::{
    array_value, json_array, json_object, json_pretty, json_string, member_views, object_value,
    string_value, write_pretty,
};
use crate::kenteken::{normalize_kenteken, normalized};
use crate::protocol::{
    initialize_result, initialize_result_text, is_written, respond, respond_text, response_of,
    text_response_of, tools_result, tools_result_text, Request, RequestView, ServerError,
};
use crate::registry::Dataset;
use crate::text::same_text;
use crate::tools::{
    bodywork_tool_name, dataset_for_tool, dataset_of_tool, is_bodywork_tool, tool_catalog,
    tool_catalog_entries,
};
use crate::upstream::{fetch_result, records_of, request_url, request_url_text, Reply};
use vstd::prelude::*;
use vstd::string::StringExecFns;

verus! {

/// What is to be done for a request.
#[derive(Clone, Debug)]
pub enum Step {
    /// Write this response line.
    Respond(String),
    /// Query one register at `url`, then finish with `finish_lookup`.
    Lookup { dataset: Dataset, kenteken: String, url: String },
    /// Query the three bodywork registers, then finish with
    /// `finish_bodywork`.
    LookupBodywork { kenteken: String, bodywork_url: String, specific_url: String, class_url: String },
    /// Write nothing.
    Ignore,
}

/// A step as the contracts see it: each text by its characters.
pub enum StepView {
    Respond(Seq<char>),
    Lookup { dataset: Dataset, kenteken: Seq<char>, url: Seq<char> },
    LookupBodywork {
        kenteken: Seq<char>,
        bodywork_url: Seq<char>,
        specific_url: Seq<char>,
        class_url: Seq<char>,
    },
    Ignore,
}

impl View for Step {
    type V = StepView;

    open spec fn view(&self) -> StepView {
        match self {
            Step::Respond(line) => StepView::Respond(line@),
            Step::Lookup { dataset, kenteken, url } => StepView::Lookup {
                dataset: *dataset,
                kenteken: kenteken@,
                url: url@,
            },
            Step::LookupBodywork { kenteken, bodywork_url, specific_url, class_url } => {
                StepView::LookupBodywork {
                    kenteken: kenteken@,
                    bodywork_url: bodywork_url@,
                    specific_url: specific_url@,
                    class_url: class_url@,
                }
            },
            Step::Ignore => StepView::Ignore,
        }
    }
}

/// What of a register's answer is shown to the caller.
#[derive(Clone, Debug)]
pub enum Payload {
    /// The register holds nothing for the kenteken.
    NotFound,
    /// One record.
    Record(serde_json::Value),
    /// All records, in the order in which the register gave them.
    Records(Vec<serde_json::Value>),
}

/// A payload as the contracts see it.
pub enum PayloadView {
    NotFound,
    Record(serde_json::Value),
    Records(Seq<serde_json::Value>),
}

impl View for Payload {
    type V = PayloadView;

    open spec fn view(&self) -> PayloadView {
        match self {
            Payload::NotFound => PayloadView::NotFound,
            Payload::Record(record) => PayloadView::Record(*record),
            Payload::Records(records) => PayloadView::Records(records@),
        }
    }
}

/// What the server emits for a request in the end.
pub enum Outcome {
    /// One response line.
    Line(Seq<char>),
    /// No line.
    Silence,
    /// The server gives up: a value could not be written.
    Failure,
}

/// Whether the server knows the method.
pub open spec fn known_method(method: Seq<char>) -> bool {
    method == "initialize"@ || method == "list_tools"@ || method == "call_tool"@
}

/// The text for a tool that the server does not offer.
pub open spec fn tool_not_found_text() -> Seq<char> {
    "Tool niet gevonden"@
}

/// The text for a register that holds nothing for `kenteken`.
pub open spec fn no_data_text(kenteken: Seq<char>) -> Seq<char> {
    "Geen gegevens gevonden voor kenteken: "@ + kenteken
}

/// The text for a vehicle of which none of the bodywork registers holds
/// anything.
pub open spec fn no_bodywork_text(kenteken: Seq<char>) -> Seq<char> {
    "Geen carrosseriegegevens gevonden voor kenteken: "@ + kenteken
}

/// What is shown of `records`: nothing where there are none; of a register
/// with one record per vehicle the first record, whatever follows it; of
/// any other register all of them.
pub open spec fn payload_of(dataset: Dataset, records: Seq<serde_json::Value>) -> PayloadView {
    if records.len() == 0 {
        PayloadView::NotFound
    } else if dataset.single_record() {
        PayloadView::Record(records[0])
    } else {
        PayloadView::Records(records)
    }
}

/// The text of a payload: the not-found sentence, or the payload as
/// indented JSON.
pub open spec fn payload_text(payload: PayloadView, kenteken: Seq<char>) -> Option<Seq<char>> {
    match payload {
        PayloadView::NotFound => Some(no_data_text(kenteken)),
        PayloadView::Record(record) => json_pretty(record),
        PayloadView::Records(records) => json_pretty(json_array(records)),
    }
}

/// The text that answers a single-register tool.
pub open spec fn lookup_text_of(
    dataset: Dataset,
    kenteken: Seq<char>,
    records: Seq<serde_json::Value>,
) -> Option<Seq<char>> {
    payload_text(payload_of(dataset, records), kenteken)
}

/// The members of the combined bodywork object: the kenteken and the three
/// sequences of records, each under its own key.
pub open spec fn bodywork_members(
    kenteken: Seq<char>,
    bodywork: Seq<serde_json::Value>,
    specific: Seq<serde_json::Value>,
    class: Seq<serde_json::Value>,
) -> Seq<(Seq<char>, serde_json::Value)> {
    seq![
        ("kenteken"@, json_string(kenteken)),
        ("carrosserie"@, json_array(bodywork)),
        ("carrosserie_specifiek"@, json_array(specific)),
        ("voertuigklasse"@, json_array(class)),
    ]
}

/// The combined bodywork object; there is none where all three registers
/// came back empty.
pub open spec fn bodywork_of(
    kenteken: Seq<char>,
    bodywork: Seq<serde_json::Value>,
    specific: Seq<serde_json::Value>,
    class: Seq<serde_json::Value>,
) -> Option<serde_json::Value> {
    if bodywork.len() == 0 && specific.len() == 0 && class.len() == 0 {
        None
    } else {
        Some(json_object(bodywork_members(kenteken, bodywork, specific, class)))
    }
}

/// The text that answers the composite tool.
pub open spec fn bodywork_text_of(
    kenteken: Seq<char>,
    bodywork: Seq<serde_json::Value>,
    specific: Seq<serde_json::Value>,
    class: Seq<serde_json::Value>,
) -> Option<Seq<char>> {
    match bodywork_of(kenteken, bodywork, specific, class) {
        Some(combined) => json_pretty(combined),
        None => Some(no_bodywork_text(kenteken)),
    }
}

/// The response line for a tool call whose text is `text`, where there is
/// one.
pub open spec fn tool_response_of(
    id: serde_json::Value,
    text: Option<Seq<char>>,
) -> Option<Seq<char>> {
    match text {
        Some(text) => text_response_of(id, text),
        None => None,
    }
}

/// The response line that ends a single-register lookup.
pub open spec fn lookup_response_of(
    id: serde_json::Value,
    dataset: Dataset,
    kenteken: Seq<char>,
    reply: Reply,
) -> Option<Seq<char>> {
    tool_response_of(id, lookup_text_of(dataset, kenteken, records_of(reply)))
}

/// The response line that ends a bodywork lookup.
pub open spec fn bodywork_response_of(
    id: serde_json::Value,
    kenteken: Seq<char>,
    bodywork: Reply,
    specific: Reply,
    class: Reply,
) -> Option<Seq<char>> {
    tool_response_of(
        id,
        bodywork_text_of(kenteken, records_of(bodywork), records_of(specific), records_of(class)),
    )
}

/// The step that responds with `line`, where there is one.
pub open spec fn respond_step(line: Option<Seq<char>>) -> Option<StepView> {
    match line {
        Some(line) => Some(StepView::Respond(line)),
        None => None,
    }
}

/// What is to be done for a tool call.
pub open spec fn call_plan_of(request: RequestView) -> Option<StepView> {
    let kenteken = normalized(request.kenteken);
    if request.tool_name == bodywork_tool_name() {
        Some(
            StepView::LookupBodywork {
                kenteken,
                bodywork_url: request_url_text(Dataset::Bodywork.url_text(), kenteken),
                specific_url: request_url_text(Dataset::BodyworkSpecific.url_text(), kenteken),
                class_url: request_url_text(Dataset::VehicleClass.url_text(), kenteken),
            },
        )
    } else {
        match dataset_of_tool(request.tool_name) {
            Some(dataset) => Some(
                StepView::Lookup {
                    dataset,
                    kenteken,
                    url: request_url_text(dataset.url_text(), kenteken),
                },
            ),
            None => respond_step(text_response_of(request.id, tool_not_found_text())),
        }
    }
}

/// What is to be done for a request; `None` where a line is owed and cannot
/// be written.
pub open spec fn plan_of(request: RequestView) -> Option<StepView> {
    if request.method == "initialize"@ {
        respond_step(response_of(request.id, Some(initialize_result_text())))
    } else if request.method == "list_tools"@ {
        respond_step(response_of(request.id, tools_result_text(tool_catalog_entries())))
    } else if request.method == "call_tool"@ {
        call_plan_of(request)
    } else {
        Some(StepView::Ignore)
    }
}

/// Whether `planned` is the outcome owed for `step`.
pub open spec fn is_planned(planned: Result<Step, ServerError>, step: Option<StepView>) -> bool {
    match step {
        Some(expected) => planned is Ok && planned->Ok_0@ == expected,
        None => planned is Err && planned->Err_0 == ServerError::Unserializable,
    }
}

/// A line where there is one, failure where there is none.
pub open spec fn line_or_failure(line: Option<Seq<char>>) -> Outcome {
    match line {
        Some(line) => Outcome::Line(line),
        None => Outcome::Failure,
    }
}

/// What the server emits for a request when the register at each URL
/// replies as `upstream` says.
pub open spec fn outcome_of(request: RequestView, upstream: spec_fn(Seq<char>) -> Reply) -> Outcome {
    match plan_of(request) {
        None => Outcome::Failure,
        Some(StepView::Respond(line)) => Outcome::Line(line),
        Some(StepView::Ignore) => Outcome::Silence,
        Some(StepView::Lookup { dataset, kenteken, url }) => line_or_failure(
            lookup_response_of(request.id, dataset, kenteken, upstream(url)),
        ),
        Some(StepView::LookupBodywork { kenteken, bodywork_url, specific_url, class_url }) => {
            line_or_failure(
                bodywork_response_of(
                    request.id,
                    kenteken,
                    upstream(bodywork_url),
                    upstream(specific_url),
                    upstream(class_url),
                ),
            )
        },
    }
}

/// Whether the server queries `url` for `request`.
pub open spec fn is_queried(request: RequestView, url: Seq<char>) -> bool {
    match plan_of(request) {
        Some(StepView::Lookup { url: asked, .. }) => url == asked,
        Some(StepView::LookupBodywork { bodywork_url, specific_url, class_url, .. }) => {
            url == bodywork_url || url == specific_url || url == class_url
        },
        _ => false,
    }
}

/// The three methods are three different words.
proof fn lemma_methods_differ()
    ensures
        "initialize"@ != "list_tools"@,
        "initialize"@ != "call_tool"@,
        "list_tools"@ != "call_tool"@,
{
    reveal_strlit("initialize");
    reveal_strlit("list_tools");
    reveal_strlit("call_tool");
    assert("initialize"@[0] == 'i' && "list_tools"@[0] == 'l' && "call_tool"@[0] == 'c');
}

/// Chooses what of a register's answer is shown.
pub fn select_payload(dataset: Dataset, records: Vec<serde_json::Value>) -> (payload: Payload)
    ensures
        payload@ == payload_of(dataset, records@),
{
    let mut records = records;
    if records.len() == 0 {
        Payload::NotFound
    } else if dataset.is_single_record() {
        Payload::Record(records.swap_remove(0))
    } else {
        Payload::Records(records)
    }
}

/// The sentence for a register that holds nothing for `kenteken`.
pub fn no_data_message(kenteken: &str) -> (text: String)
    ensures
        text@ == no_data_text(kenteken@),
{
    let mut text = String::from_str("Geen gegevens gevonden voor kenteken: ");
    text.append(kenteken);
    text
}

/// The sentence for a vehicle without any bodywork data.
pub fn no_bodywork_message(kenteken: &str) -> (text: String)
    ensures
        text@ == no_bodywork_text(kenteken@),
{
    let mut text = String::from_str("Geen carrosseriegegevens gevonden voor kenteken: ");
    text.append(kenteken);
    text
}

/// Writes a value as indented JSON.
fn pretty(value: &serde_json::Value) -> (written: Result<String, ServerError>)
    ensures
        is_written(written, json_pretty(*value)),
{
    match write_pretty(value) {
        Ok(text) => Ok(text),
        Err(_) => Err(ServerError::Unserializable),
    }
}

/// Writes the text that answers a single-register tool.
pub fn lookup_text(
    dataset: Dataset,
    kenteken: &str,
    records: Vec<serde_json::Value>,
) -> (written: Result<String, ServerError>)
    ensures
        is_written(written, lookup_text_of(dataset, kenteken@, records@)),
        records@.len() == 0 ==> written is Ok && written->Ok_0@ == no_data_text(kenteken@),
        records@.len() > 0 && dataset.single_record() ==> is_written(
            written,
            json_pretty(records@[0]),
        ),
        records@.len() > 0 && !dataset.single_record() ==> is_written(
            written,
            json_pretty(json_array(records@)),
        ),
{
    match select_payload(dataset, records) {
        Payload::NotFound => Ok(no_data_message(kenteken)),
        Payload::Record(record) => pretty(&record),
        Payload::Records(records) => pretty(&array_value(records)),
    }
}

/// Merges the answers of the three bodywork registers into one object.
/// A register that came back empty is in it with an empty array.
pub fn combine_bodywork(
    kenteken: &str,
    bodywork: Vec<serde_json::Value>,
    specific: Vec<serde_json::Value>,
    class: Vec<serde_json::Value>,
) -> (combined: Option<serde_json::Value>)
    ensures
        combined == bodywork_of(kenteken@, bodywork@, specific@, class@),
{
    if bodywork.len() == 0 && specific.len() == 0 && class.len() == 0 {
        return None;
    }
    let ghost expected = bodywork_members(kenteken@, bodywork@, specific@, class@);
    let mut members: Vec<(String, serde_json::Value)> = Vec::new();
    members.push((String::from_str("kenteken"), string_value(String::from_str(kenteken))));
    members.push((String::from_str("carrosserie"), array_value(bodywork)));
    members.push((String::from_str("carrosserie_specifiek"), array_value(specific)));
    members.push((String::from_str("voertuigklasse"), array_value(class)));
    assert(member_views(members@) =~= expected);
    Some(object_value(members))
}

/// Writes the text that answers the composite tool.
pub fn bodywork_text(
    kenteken: &str,
    bodywork: Vec<serde_json::Value>,
    specific: Vec<serde_json::Value>,
    class: Vec<serde_json::Value>,
) -> (written: Result<String, ServerError>)
    ensures
        is_written(written, bodywork_text_of(kenteken@, bodywork@, specific@, class@)),
        bodywork@.len() == 0 && specific@.len() == 0 && class@.len() == 0 ==> written is Ok
            && written->Ok_0@ == no_bodywork_text(kenteken@),
        bodywork@.len() > 0 || specific@.len() > 0 || class@.len() > 0 ==> is_written(
            written,
            json_pretty(json_object(bodywork_members(kenteken@, bodywork@, specific@, class@))),
        ),
{
    match combine_bodywork(kenteken, bodywork, specific, class) {
        Some(combined) => pretty(&combined),
        None => Ok(no_bodywork_message(kenteken)),
    }
}

/// Decides what is to be done for a request.
pub fn plan(request: &Request) -> (planned: Result<Step, ServerError>)
    ensures
        is_planned(planned, plan_of(request@)),
        !known_method(request.method@) ==> planned is Ok && planned->Ok_0 is Ignore,
        request.method@ == "call_tool"@ && request.tool_name@ != bodywork_tool_name()
            && dataset_of_tool(request.tool_name@) is None ==> is_planned(
            planned,
            respond_step(text_response_of(request.id, tool_not_found_text())),
        ),
{
    proof {
        lemma_methods_differ();
    }
    if same_text(request.method.as_str(), "initialize") {
        match respond(&request.id, initialize_result()) {
            Ok(line) => Ok(Step::Respond(line)),
            Err(error) => Err(error),
        }
    } else if same_text(request.method.as_str(), "list_tools") {
        let result = match tools_result(&tool_catalog()) {
            Ok(result) => result,
            Err(error) => { return Err(error); },
        };
        match respond(&request.id, result.as_str()) {
            Ok(line) => Ok(Step::Respond(line)),
            Err(error) => Err(error),
        }
    } else if same_text(request.method.as_str(), "call_tool") {
        plan_call(request)
    } else {
        Ok(Step::Ignore)
    }
}

/// Decides what is to be done for a tool call.
fn plan_call(request: &Request) -> (planned: Result<Step, ServerError>)
    ensures
        is_planned(planned, call_plan_of(request@)),
{
    let kenteken = normalize_kenteken(request.kenteken.as_str());
    if is_bodywork_tool(request.tool_name.as_str()) {
        let bodywork_url = request_url(Dataset::Bodywork.url(), kenteken.as_str());
        let specific_url = request_url(Dataset::BodyworkSpecific.url(), kenteken.as_str());
        let class_url = request_url(Dataset::VehicleClass.url(), kenteken.as_str());
        Ok(Step::LookupBodywork { kenteken, bodywork_url, specific_url, class_url })
    } else {
        match dataset_for_tool(request.tool_name.as_str()) {
            Some(dataset) => {
                let url = request_url(dataset.url(), kenteken.as_str());
                Ok(Step::Lookup { dataset, kenteken, url })
            },
            None => match respond_text(&request.id, "Tool niet gevonden") {
                Ok(line) => Ok(Step::Respond(line)),
                Err(error) => Err(error),
            },
        }
    }
}

/// Writes the response line that ends a single-register lookup.
pub fn finish_lookup(
    id: &serde_json::Value,
    dataset: Dataset,
    kenteken: &str,
    reply: &Reply,
) -> (written: Result<String, ServerError>)
    ensures
        is_written(written, lookup_response_of(*id, dataset, kenteken@, *reply)),
{
    match lookup_text(dataset, kenteken, fetch_result(reply)) {
        Ok(text) => respond_text(id, text.as_str()),
        Err(error) => Err(error),
    }
}

/// Writes the response line that ends a bodywork lookup.
pub fn finish_bodywork(
    id: &serde_json::Value,
    kenteken: &str,
    bodywork: &Reply,
    specific: &Reply,
    class: &Reply,
) -> (written: Result<String, ServerError>)
    ensures
        is_written(written, bodywork_response_of(*id, kenteken@, *bodywork, *specific, *class)),
{
    let text = bodywork_text(
        kenteken,
        fetch_result(bodywork),
        fetch_result(specific),
        fetch_result(class),
    );
    match text {
        Ok(text) => respond_text(id, text.as_str()),
        Err(error) => Err(error),
    }
}

/// The same request against the same registers gives the same outcome: what
/// the server emits depends on the request and on the records behind the
/// URLs that it queries for it, and on nothing else.
pub proof fn lemma_outcome_is_determined(
    request: RequestView,
    first: spec_fn(Seq<char>) -> Reply,
    second: spec_fn(Seq<char>) -> Reply,
)
    requires
        forall|url: Seq<char>| #[trigger]
            is_queried(request, url) ==> records_of(first(url)) == records_of(second(url)),
    ensures
        outcome_of(request, first) == outcome_of(request, second),
{
    match plan_of(request) {
        Some(StepView::Lookup { url, .. }) => {
            assert(is_queried(request, url));
        },
        Some(StepView::LookupBodywork { bodywork_url, specific_url, class_url, .. }) => {
            assert(is_queried(request, bodywork_url));
            assert(is_queried(request, specific_url));
            assert(is_queried(request, class_url));
        },
        _ => {},
    }
}

/// A request gets no line exactly when its method is unknown, and then no
/// register is queried for it either; with a known method it gets one line,
/// unless a value cannot be written.
pub proof fn lemma_silence_means_unknown_method(
    request: RequestView,
    upstream: spec_fn(Seq<char>) -> Reply,
)
    ensures
        outcome_of(request, upstream) is Silence <==> !known_method(request.method),
        !known_method(request.method) ==> forall|url: Seq<char>| !is_queried(request, url),
{
}

} // verus!
