use rdw_server::upstream::{decode_records, fetch_result, request_url, Reply};

#[test]
fn request_url_carries_the_kenteken_as_query() {
    assert_eq!(
        request_url("https://opendata.rdw.nl/resource/m9d7-ebf2.json", "41TDK8"),
        "https://opendata.rdw.nl/resource/m9d7-ebf2.json?kenteken=41TDK8"
    );
}

#[test]
fn request_url_appends_the_kenteken_unchanged() {
    assert_eq!(request_url("http://x/y.json", ""), "http://x/y.json?kenteken=");
    assert_eq!(request_url("", "A&B=C"), "?kenteken=A&B=C");
}

#[test]
fn decode_reads_an_array_of_records() {
    let records = decode_records(b"[{\"merk\":\"VOLVO\"},{\"merk\":\"DAF\"}]");
    assert_eq!(records.len(), 2);
    assert_eq!(records[0]["merk"], "VOLVO");
    assert_eq!(records[1]["merk"], "DAF");
}

#[test]
fn decode_reads_an_empty_array() {
    assert!(decode_records(b"[]").is_empty());
    assert!(decode_records(b"  [ ]\n").is_empty());
}

#[test]
fn decode_absorbs_malformed_json() {
    assert!(decode_records(b"").is_empty());
    assert!(decode_records(b"[{\"merk\":").is_empty());
    assert!(decode_records(b"<html>Bad Gateway</html>").is_empty());
    assert!(decode_records(b"[{\"a\":1}] trailing").is_empty());
    assert!(decode_records(&[0xff, 0xfe, 0x5b, 0x5d]).is_empty());
}

#[test]
fn decode_absorbs_json_that_is_no_array() {
    assert!(decode_records(b"{\"error\":true,\"message\":\"no such column\"}").is_empty());
    assert!(decode_records(b"null").is_empty());
    assert!(decode_records(b"\"text\"").is_empty());
    assert!(decode_records(b"42").is_empty());
}

#[test]
fn fetch_result_of_a_body_is_its_records() {
    let reply = Reply::Body(b"[{\"aantal_assen\":\"2\"}]".to_vec());
    let records = fetch_result(&reply);
    assert_eq!(records.len(), 1);
    assert_eq!(records[0]["aantal_assen"], "2");
}

#[test]
fn fetch_result_of_a_failure_is_empty() {
    assert!(fetch_result(&Reply::Failed).is_empty());
    assert!(fetch_result(&Reply::Body(b"oops".to_vec())).is_empty());
    assert!(fetch_result(&Reply::Body(Vec::new())).is_empty());
}
