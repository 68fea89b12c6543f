use kvstore::http::Response;
use kvstore::json::PutDecode;
use kvstore::json::decode_put_object;
use kvstore::http::Status;
use kvstore::http::format_response;
use kvstore::http::handle_request;
use kvstore::shared::SharedStore;
use kvstore::shared::handle_request_shared;
use kvstore::store::Store;
use kvstore::store::Value;

#[test]
fn put_request_stores_and_replies_ok() {
    let mut store = Store::new();
    let resp = handle_request("PUT / HTTP/1.1\r\n\r\n{\"key\":\"a\",\"value\":5}", &mut store)
        .expect("a PUT with a decodable body gets a reply");
    assert_eq!(resp.status, Status::Success);
    assert_eq!(resp.body, "PUT successful");
    assert_eq!(store.get(&String::from("a")), Value::Integer(5));
}

#[test]
fn get_after_put_renders_the_integer() {
    let mut store = Store::new();
    handle_request("PUT / HTTP/1.1\r\n\r\n{\"key\":\"a\",\"value\":5}", &mut store).unwrap();
    let resp = handle_request("GET /?key=a HTTP/1.1\r\n\r\n", &mut store).unwrap();
    assert_eq!(resp.status, Status::Success);
    assert_eq!(resp.body, "GET result: Integer(5)");
}

#[test]
fn get_on_missing_key_renders_the_sentinel() {
    let mut store = Store::new();
    let resp = handle_request("GET /?key=missing HTTP/1.1\r\n\r\n", &mut store).unwrap();
    assert_eq!(resp.status, Status::Success);
    assert_eq!(resp.body, "GET result: String(\"NULL\")");
}

#[test]
fn put_without_value_field_is_invalid_json() {
    let mut store = Store::new();
    let resp = handle_request("PUT / HTTP/1.1\r\n\r\n{\"key\":\"a\"}", &mut store).unwrap();
    assert_eq!(resp.status, Status::BadRequest);
    assert_eq!(resp.body, "Invalid JSON");
    assert_eq!(store.get(&String::from("a")), Value::Text(String::from("NULL")));
}

#[test]
fn put_without_key_field_is_invalid_json() {
    let mut store = Store::new();
    let resp = handle_request("PUT / HTTP/1.1\r\n\r\n{\"value\":5}", &mut store).unwrap();
    assert_eq!(resp.status, Status::BadRequest);
    assert_eq!(resp.body, "Invalid JSON");
}

#[test]
fn unknown_verb_is_invalid_request() {
    let mut store = Store::new();
    let resp = handle_request("DELETE / HTTP/1.1\r\n\r\n", &mut store).unwrap();
    assert_eq!(resp.status, Status::BadRequest);
    assert_eq!(resp.body, "Invalid request");
}

#[test]
fn put_without_blank_line_is_invalid_request_body() {
    let mut store = Store::new();
    let resp = handle_request("PUT / HTTP/1.1", &mut store).unwrap();
    assert_eq!(resp.status, Status::BadRequest);
    assert_eq!(resp.body, "Invalid request body");
}

#[test]
fn put_with_malformed_json_gets_no_reply() {
    let mut store = Store::new();
    assert_eq!(handle_request("PUT / HTTP/1.1\r\n\r\nnot json}", &mut store), None);
    assert_eq!(handle_request("PUT / HTTP/1.1\r\n\r\n{\"key\":5,\"value\":1}", &mut store), None);
}

#[test]
fn get_without_query_string_is_invalid_get() {
    let mut store = Store::new();
    let resp = handle_request("GET / HTTP/1.1\r\n\r\n", &mut store).unwrap();
    assert_eq!(resp.status, Status::BadRequest);
    assert_eq!(resp.body, "Invalid GET request");
}

#[test]
fn get_with_query_without_equals_looks_up_the_empty_key() {
    let mut store = Store::new();
    handle_request("PUT / HTTP/1.1\r\n\r\n{\"key\":\"\",\"value\":1}", &mut store).unwrap();
    let resp = handle_request("GET /?key HTTP/1.1\r\n\r\n", &mut store).unwrap();
    assert_eq!(resp.status, Status::Success);
    assert_eq!(resp.body, "GET result: Integer(1)");
}

#[test]
fn put_decodes_a_string_value() {
    let mut store = Store::new();
    handle_request("PUT / HTTP/1.1\r\n\r\n{\"key\":\"s\",\"value\":\"hi\"}", &mut store).unwrap();
    assert_eq!(store.get(&String::from("s")), Value::Text(String::from("hi")));
}

#[test]
fn put_decodes_a_fractional_number_as_double() {
    let mut store = Store::new();
    handle_request("PUT / HTTP/1.1\r\n\r\n{\"key\":\"d\",\"value\":5.5}", &mut store).unwrap();
    assert_eq!(store.get(&String::from("d")), Value::Double(String::from("5.5")));
    let resp = handle_request("GET /?key=d HTTP/1.1\r\n\r\n", &mut store).unwrap();
    assert_eq!(resp.body, "GET result: Double(5.5)");
}

#[test]
fn put_of_a_non_scalar_value_stores_the_null_text() {
    let mut store = Store::new();
    handle_request("PUT / HTTP/1.1\r\n\r\n{\"key\":\"b\",\"value\":true}", &mut store).unwrap();
    assert_eq!(store.get(&String::from("b")), Value::Text(String::from("NULL")));
}

#[test]
fn put_truncates_a_wide_integer_to_32_bits() {
    let mut store = Store::new();
    handle_request("PUT / HTTP/1.1\r\n\r\n{\"key\":\"w\",\"value\":3000000000}", &mut store)
        .unwrap();
    assert_eq!(store.get(&String::from("w")), Value::Integer(3000000000u32 as i32));
}

#[test]
fn put_ignores_trailing_bytes_after_the_object() {
    let mut store = Store::new();
    let req = "PUT / HTTP/1.1\r\n\r\n{\"key\":\"a\",\"value\":5}trailing garbage\0\0\0";
    let resp = handle_request(req, &mut store).unwrap();
    assert_eq!(resp.status, Status::Success);
    assert_eq!(store.get(&String::from("a")), Value::Integer(5));
}

#[test]
fn query_key_stops_at_space_and_second_separator() {
    let mut store = Store::new();
    handle_request("PUT / HTTP/1.1\r\n\r\n{\"key\":\"a\",\"value\":5}", &mut store).unwrap();
    let resp = handle_request("GET /?name=a&x=y HTTP/1.1\r\n\r\n", &mut store).unwrap();
    assert_eq!(resp.body, "GET result: String(\"NULL\")");
    let resp = handle_request("GET /?k=a=b HTTP/1.1\r\n\r\n", &mut store).unwrap();
    assert_eq!(resp.body, "GET result: Integer(5)");
}

#[test]
fn decode_classifies_each_shape() {
    assert!(matches!(
        decode_put_object("{\"key\":\"a\",\"value\":5}"),
        PutDecode::Object { .. },
    ));
    assert!(matches!(decode_put_object("not json"), PutDecode::Malformed));
    assert!(matches!(decode_put_object("{\"key\":5,\"value\":1}"), PutDecode::Malformed));
    assert!(matches!(decode_put_object("{\"key\":\"a\"}"), PutDecode::MissingField));
    assert!(matches!(decode_put_object("5"), PutDecode::MissingField));
}

#[test]
fn formatted_response_has_status_header_and_body() {
    let ok = Response { status: Status::Success, body: String::from("PUT successful") };
    assert_eq!(
        format_response(&ok),
        "HTTP/1.1 200 OK\r\nContent-Type: text/plain\r\n\r\nPUT successful",
    );
    let bad = Response { status: Status::BadRequest, body: String::from("Invalid request") };
    assert_eq!(
        format_response(&bad),
        "HTTP/1.1 400 Bad Request\r\nContent-Type: text/plain\r\n\r\nInvalid request",
    );
}

#[test]
fn shared_handler_serves_put_then_get() {
    let (shared, _) = SharedStore::new();
    let resp = handle_request_shared("PUT / HTTP/1.1\r\n\r\n{\"key\":\"a\",\"value\":5}", &shared)
        .unwrap();
    assert_eq!(resp.status, Status::Success);
    assert_eq!(resp.body, "PUT successful");
    let resp = handle_request_shared("GET /?key=a HTTP/1.1\r\n\r\n", &shared).unwrap();
    assert_eq!(resp.status, Status::Success);
    assert_eq!(resp.body, "GET result: Integer(5)");
}

#[test]
fn shared_handler_refuses_and_aborts_like_the_plain_one() {
    let (shared, _) = SharedStore::new();
    let resp = handle_request_shared("DELETE / HTTP/1.1\r\n\r\n", &shared).unwrap();
    assert_eq!(resp.status, Status::BadRequest);
    assert_eq!(resp.body, "Invalid request");
    assert_eq!(handle_request_shared("PUT / HTTP/1.1\r\n\r\nnot json}", &shared), None);
}
