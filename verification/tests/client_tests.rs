use todo_access::client::{decode_fact, Client, FetchOutcome};
use todo_access::error::Error;

fn response(status: u16, body: &[u8]) -> FetchOutcome {
    FetchOutcome::Response { status, body: body.to_vec() }
}

#[test]
fn request_shape() {
    let client = Client::new();
    assert_eq!(client.get_url(), "https://cat-fact.herokuapp.com");
    let req = client.fact_request();
    assert_eq!(req.method, "GET");
    assert_eq!(req.uri, "https://cat-fact.herokuapp.com/facts/random");
    assert_eq!(req.headers.len(), 2);
    assert_eq!(req.headers[0].0, "content-type");
    assert_eq!(req.headers[0].1, "application/json");
    assert_eq!(req.headers[1].0, "accept");
    assert_eq!(req.headers[1].1, "application/json");
    assert!(req.body.is_empty());
}

#[test]
fn transport_failure_is_transport_error() {
    let client = Client::new();
    let r = client.get_cat_fact(FetchOutcome::TransportFailed);
    assert_eq!(r.unwrap_err(), Error::TransportError);
}

#[test]
fn status_failure_wins_over_undecodable_body() {
    let client = Client::new();
    let r = client.get_cat_fact(response(500, b"<html>server on fire</html>"));
    assert_eq!(r.unwrap_err(), Error::UpstreamStatusError(500));
}

#[test]
fn status_failure_wins_even_over_decodable_body() {
    let client = Client::new();
    let r = client.get_cat_fact(response(500, br#"{"text":"fine"}"#));
    assert_eq!(r.unwrap_err(), Error::UpstreamStatusError(500));
}

#[test]
fn empty_object_is_missing_text() {
    assert!(decode_fact(&b"{}".to_vec()).is_none());
    assert!(decode_fact(&b" { } ".to_vec()).is_none());
}

#[test]
fn missing_text_member_is_decode_error() {
    let client = Client::new();
    let r = client.get_cat_fact(response(200, br#"{"unexpected":"field"}"#));
    assert_eq!(r.unwrap_err(), Error::DecodeError);
}

#[test]
fn happy_path_returns_exact_text() {
    let client = Client::new();
    let r = client.get_cat_fact(response(200, br#"{"text":"Cats sleep 70% of their lives."}"#));
    assert_eq!(r.unwrap(), "Cats sleep 70% of their lives.");
}

#[test]
fn status_range_boundaries() {
    let client = Client::new();
    let body = br#"{"text":"hi"}"#;
    assert_eq!(
        client.get_cat_fact(response(199, body)).unwrap_err(),
        Error::UpstreamStatusError(199)
    );
    assert_eq!(client.get_cat_fact(response(200, body)).unwrap(), "hi");
    assert_eq!(client.get_cat_fact(response(299, body)).unwrap(), "hi");
    assert_eq!(
        client.get_cat_fact(response(300, body)).unwrap_err(),
        Error::UpstreamStatusError(300)
    );
}

#[test]
fn extra_members_of_any_shape_are_ignored() {
    let body =
        br#" { "a" : [1, -2.5e3, {"deep":[true,null,"s"]}], "text" : "kept", "z" : false } "#;
    let fact = decode_fact(&body.to_vec()).unwrap();
    assert_eq!(fact.text, "kept");
}

#[test]
fn escapes_are_resolved() {
    let body = br#"{"text":"a\nb\"c\\d\/e\tf"}"#;
    let fact = decode_fact(&body.to_vec()).unwrap();
    assert_eq!(fact.text, "a\nb\"c\\d/e\tf");
}

#[test]
fn unsupported_unicode_escape_is_rejected() {
    assert!(decode_fact(&br#"{"text":"\u0041"}"#.to_vec()).is_none());
}

#[test]
fn duplicate_text_member_is_rejected() {
    assert!(decode_fact(&br#"{"text":"a","text":"b"}"#.to_vec()).is_none());
}

#[test]
fn non_string_text_member_is_rejected() {
    assert!(decode_fact(&br#"{"text":5}"#.to_vec()).is_none());
    let client = Client::new();
    let r = client.get_cat_fact(response(200, br#"{"text":5}"#));
    assert_eq!(r.unwrap_err(), Error::DecodeError);
}

#[test]
fn trailing_bytes_are_rejected() {
    assert!(decode_fact(&br#"{"text":"x"} tail"#.to_vec()).is_none());
}

#[test]
fn top_level_non_object_is_rejected() {
    assert!(decode_fact(&br#"["text","x"]"#.to_vec()).is_none());
    assert!(decode_fact(&br#""text""#.to_vec()).is_none());
    assert!(decode_fact(&b"".to_vec()).is_none());
    assert!(decode_fact(&b"not json at all".to_vec()).is_none());
}

#[test]
fn malformed_documents_are_rejected() {
    assert!(decode_fact(&br#"{"text":"x""#.to_vec()).is_none());
    assert!(decode_fact(&br#"{"text" "x"}"#.to_vec()).is_none());
    assert!(decode_fact(&br#"{"text":"x",}"#.to_vec()).is_none());
    assert!(decode_fact(&br#"{text:"x"}"#.to_vec()).is_none());
    assert!(decode_fact(&br#"{"text":01}"#.to_vec()).is_none());
}

#[test]
fn non_ascii_utf8_text_round_trips() {
    let body = "{\"text\":\"ch\u{00e8}re minette \u{1F408}\"}".as_bytes().to_vec();
    let fact = decode_fact(&body).unwrap();
    assert_eq!(fact.text, "ch\u{00e8}re minette \u{1F408}");
}

#[test]
fn invalid_utf8_in_text_is_rejected() {
    let mut body: Vec<u8> = Vec::new();
    body.extend_from_slice(br#"{"text":""#);
    body.push(0xff);
    body.extend_from_slice(br#""}"#);
    assert!(decode_fact(&body).is_none());
    let client = Client::new();
    let r = client.get_cat_fact(FetchOutcome::Response { status: 200, body });
    assert_eq!(r.unwrap_err(), Error::DecodeError);
}
