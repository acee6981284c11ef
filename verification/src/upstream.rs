//! What is asked of a register and what is made of its answer.
//!
//! A register is queried with a GET request on its resource URL, with the
//! canonical kenteken as the only query parameter. It answers with a JSON
//! array of records. Whatever goes wrong on the way (no connection, an
//! error page, a body that is no JSON array) counts as "no records": at
//! this level a failure and an unknown vehicle look the same.

use crate::json::{json_list_of, read_list};
use vstd::prelude::*;
use vstd::string::StringExecFns;

verus! {

/// How one request to a register ended.
#[derive(Clone, Debug)]
pub enum Reply {
    /// The register answered; these are the bytes of the body.
    Body(Vec<u8>),
    /// No answer could be had.
    Failed,
}

/// The URL that queries the register at `endpoint` for `kenteken`.
pub open spec fn request_url_text(endpoint: Seq<char>, kenteken: Seq<char>) -> Seq<char> {
    endpoint + "?kenteken="@ + kenteken
}

/// The records that a reply stands for: the elements of the JSON array in
/// its body, and none at all where there is no body or no array in it.
pub open spec fn records_of(reply: Reply) -> Seq<serde_json::Value> {
    match reply {
        Reply::Body(bytes) => match json_list_of(bytes@) {
            Some(records) => records,
            None => Seq::empty(),
        },
        Reply::Failed => Seq::empty(),
    }
}

/// Builds the URL that queries the register at `endpoint` for `kenteken`.
/// The kenteken is appended as it is.
pub fn request_url(endpoint: &str, kenteken: &str) -> (url: String)
    ensures
        url@ == request_url_text(endpoint@, kenteken@),
{
    let mut url = String::from_str(endpoint);
    url.append("?kenteken=");
    url.append(kenteken);
    url
}

/// Decodes the body of an answer into records; a body that does not decode
/// gives no records.
pub fn decode_records(body: &[u8]) -> (records: Vec<serde_json::Value>)
    ensures
        records@ == match json_list_of(body@) {
            Some(list) => list,
            None => Seq::empty(),
        },
{
    match read_list(body) {
        Ok(records) => records,
        Err(_) => Vec::new(),
    }
}

/// The records of a reply, with every failure absorbed into "no records".
pub fn fetch_result(reply: &Reply) -> (records: Vec<serde_json::Value>)
    ensures
        records@ == records_of(*reply),
{
    match reply {
        Reply::Body(bytes) => decode_records(bytes.as_slice()),
        Reply::Failed => Vec::new(),
    }
}

} // verus!
