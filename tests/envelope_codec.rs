use fn_gateway::envelope::{FunctionContext, FunctionRequest, FunctionResponse, WasmResponse};

fn sample_context() -> FunctionContext {
    let mut req = FunctionRequest::new(
        String::from("./handler.js"),
        String::from("/users"),
        String::from("POST"),
        String::from("a=1&b=2"),
    );
    req.headers.push((String::from("x-request"), String::from("abc")));
    req.headers.push((String::from("accept"), String::from("*/*")));
    req.body = Some(String::from("payload"));
    let mut res = FunctionResponse::new();
    res.headers.push((String::from("x-test"), String::from("abc")));
    res.status_code = 201;
    FunctionContext::new(req, res)
}

fn sorted(mut h: Vec<(String, String)>) -> Vec<(String, String)> {
    h.sort();
    h
}

fn assert_same_context(a: &FunctionContext, b: &FunctionContext) {
    assert_eq!(a.req.path, b.req.path);
    assert_eq!(a.req.method, b.req.method);
    assert_eq!(a.req.query_string, b.req.query_string);
    assert_eq!(a.req.body, b.req.body);
    assert_eq!(a.req.script, b.req.script);
    assert_eq!(sorted(a.req.headers.clone()), sorted(b.req.headers.clone()));
    assert_eq!(a.res.body, b.res.body);
    assert_eq!(a.res.status_code, b.res.status_code);
    assert_eq!(sorted(a.res.headers.clone()), sorted(b.res.headers.clone()));
}

#[test]
fn new_request_has_empty_body_and_no_headers() {
    let req = FunctionRequest::new(
        String::from("cat"),
        String::from("/"),
        String::from("GET"),
        String::new(),
    );
    assert_eq!(req.body, Some(String::new()));
    assert!(req.headers.is_empty());
    assert_eq!(req.script, "cat");
}

#[test]
fn new_response_is_empty_200() {
    let res = FunctionResponse::new();
    assert_eq!(res.status_code, 200);
    assert_eq!(res.body, "");
    assert!(res.headers.is_empty());
    assert_eq!(FunctionResponse::default_status_code(), 200);
}

#[test]
fn binary_round_trip_keeps_context() {
    let c = sample_context();
    let bytes = c.to_bytes().unwrap();
    let back = FunctionContext::from_slice(&bytes).unwrap();
    assert_same_context(&c, &back);
}

#[test]
fn text_round_trip_keeps_context() {
    let c = sample_context();
    let text = c.to_string().unwrap();
    let back = FunctionContext::from_str(&text).unwrap();
    assert_same_context(&c, &back);
}

#[test]
fn text_encoding_is_field_named() {
    let text = sample_context().to_string().unwrap();
    let v: serde_json::Value = serde_json::from_str(&text).unwrap();
    assert_eq!(v["req"]["path"], "/users");
    assert_eq!(v["req"]["query_string"], "a=1&b=2");
    assert_eq!(v["req"]["headers"]["x-request"], "abc");
    assert_eq!(v["res"]["status_code"], 201);
}

#[test]
fn absent_body_is_written_as_null() {
    let mut c = sample_context();
    c.req.body = None;
    let text = c.to_string().unwrap();
    let v: serde_json::Value = serde_json::from_str(&text).unwrap();
    assert!(v["req"]["body"].is_null());
    let back = FunctionContext::from_str(&text).unwrap();
    assert_eq!(back.req.body, None);
}

#[test]
fn missing_status_code_reads_as_200() {
    let r = FunctionResponse::from_str(r#"{"body":"hi","headers":{"a":"b"}}"#).unwrap();
    assert_eq!(r.status_code, 200);
    assert_eq!(r.body, "hi");
    assert_eq!(r.headers, vec![(String::from("a"), String::from("b"))]);
}

#[test]
fn unknown_fields_are_ignored() {
    let r = FunctionResponse::from_str(r#"{"body":"x","headers":{},"status_code":404,"extra":[1,2]}"#)
        .unwrap();
    assert_eq!(r.status_code, 404);
    assert_eq!(r.body, "x");
}

#[test]
fn malformed_response_is_a_deserialization_error() {
    assert!(matches!(
        FunctionResponse::from_str("raw output"),
        Err(fn_gateway::envelope::Errors::DeserializationError(_))
    ));
    assert!(matches!(
        FunctionResponse::from_str(r#"{"body":"x","headers":{"a":1}}"#),
        Err(fn_gateway::envelope::Errors::DeserializationError(_))
    ));
    assert!(matches!(
        FunctionResponse::from_str(r#"{"body":"x","headers":{},"status_code":70000}"#),
        Err(fn_gateway::envelope::Errors::DeserializationError(_))
    ));
}

#[test]
fn response_binary_round_trip() {
    let mut r = FunctionResponse::new();
    r.body = String::from("hello from wasm -- test");
    r.headers.push((String::from("x-test"), String::from("abc")));
    let bytes = r.to_bytes().unwrap();
    let back = FunctionResponse::from_slice(&bytes).unwrap();
    assert_eq!(back.body, "hello from wasm -- test");
    assert_eq!(back.headers, r.headers);
    assert_eq!(back.status_code, 200);
}

#[test]
fn wasm_response_record_round_trip_and_width() {
    let w = WasmResponse::new(1_114_112, 100);
    let bytes = w.to_bytes().unwrap();
    assert_eq!(bytes.len(), 16);
    assert_eq!(WasmResponse::from_slice(&bytes).unwrap(), w);
    assert!(WasmResponse::from_slice(b"not a record").is_err());
}

#[test]
fn encoding_errors_have_messages() {
    let e = match FunctionResponse::from_str("raw output") {
        Err(e) => e,
        Ok(_) => panic!("expected an error"),
    };
    assert!(e.message().starts_with("Failed to deserialize the value: "));
}
