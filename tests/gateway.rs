use std::sync::Arc;

use fn_gateway::cache::InstanceCache;
use fn_gateway::config::FunctionConfig;
use fn_gateway::envelope::{FunctionContext, FunctionResponse};
use fn_gateway::gateway::{
    function_context, handler_output, reply_for, reply_from_output, request_payload, select_runtime,
    ReplyBody, Runtime,
};

fn config(method: &str, runtime: &str) -> FunctionConfig {
    FunctionConfig::new(
        String::from(method),
        String::from("/"),
        String::from("cat"),
        None,
        String::from(runtime),
    )
}

/// Runs a request through a handler that writes back what it received.
fn echo(config: &FunctionConfig, method: &str, body: Option<&str>) -> (u16, String) {
    let ctx = function_context(
        config,
        String::from("/"),
        String::from(method),
        String::new(),
        body.map(String::from),
    );
    let sent = request_payload(&ctx).unwrap();
    let output = handler_output(sent).unwrap();
    let reply = reply_for(Ok(output));
    let body = match reply.body {
        ReplyBody::Bytes(b) => String::from_utf8(b).unwrap(),
        ReplyBody::Text(t) => t,
    };
    (reply.status, body)
}

#[test]
fn test_get_req_echo() {
    let config = config("GET", "unix_socket");
    let (status, body_str) = echo(&config, "GET", None);

    assert_eq!(status, 200);

    let func_payload = FunctionContext::from_str(&body_str).unwrap();

    assert_eq!(func_payload.res.body, "");
}

#[test]
fn test_post_req_echo() {
    let config = config("POST", "unix_socket");
    let (status, body_str) = echo(&config, "POST", Some("hello world"));

    assert_eq!(status, 200);

    let func_payload = FunctionContext::from_str(&body_str).unwrap();

    assert_eq!(func_payload.req.method, "POST");

    assert_eq!(func_payload.req.body.unwrap(), String::from("hello world"));
}

#[test]
fn context_carries_request_and_fresh_response() {
    let config = config("GET", "wasm");
    let ctx = function_context(
        &config,
        String::from("/a"),
        String::from("GET"),
        String::from("q=1"),
        None,
    );
    assert_eq!(ctx.req.path, "/a");
    assert_eq!(ctx.req.query_string, "q=1");
    assert_eq!(ctx.req.body, Some(String::new()));
    assert_eq!(ctx.req.script, "cat");
    assert_eq!(ctx.res.status_code, 200);
}

#[test]
fn runtime_is_chosen_by_tag() {
    assert_eq!(select_runtime(&String::from("unix_socket")), Ok(Runtime::UnixSocket));
    assert_eq!(select_runtime(&String::from("wasm")), Ok(Runtime::Wasm));
}

#[test]
fn unknown_runtime_is_a_500_naming_it() {
    let message = select_runtime(&String::from("nope")).unwrap_err();
    assert_eq!(message, "runtime not implemented: nope");
    let reply = reply_for(Err(message));
    assert_eq!(reply.status, 500);
    match reply.body {
        ReplyBody::Text(t) => assert!(t.contains("nope")),
        ReplyBody::Bytes(_) => panic!("expected text"),
    }
}

#[test]
fn raw_output_falls_back_to_plain_text() {
    let output = handler_output(b"raw output".to_vec()).unwrap();
    assert_eq!(output, b"raw output".to_vec());
    let reply = reply_from_output(output);
    assert_eq!(reply.status, 200);
    assert_eq!(
        reply.headers,
        vec![(String::from("content-type"), String::from("text/plain"))]
    );
    match reply.body {
        ReplyBody::Bytes(b) => assert_eq!(b, b"raw output".to_vec()),
        ReplyBody::Text(_) => panic!("expected raw bytes"),
    }
}

#[test]
fn textual_response_is_reencoded_and_installed() {
    let output =
        handler_output(br#"{"body":"made","headers":{"x-test":"abc"},"status_code":201}"#.to_vec())
            .unwrap();
    let decoded = FunctionResponse::from_slice(&output).unwrap();
    assert_eq!(decoded.body, "made");
    let reply = reply_from_output(output);
    assert_eq!(reply.status, 201);
    assert_eq!(reply.headers, vec![(String::from("x-test"), String::from("abc"))]);
    match reply.body {
        ReplyBody::Text(t) => assert_eq!(t, "made"),
        ReplyBody::Bytes(_) => panic!("expected text"),
    }
}

#[test]
fn invalid_status_becomes_200() {
    let mut res = FunctionResponse::new();
    res.status_code = 42;
    res.body = String::from("odd");
    let reply = reply_from_output(res.to_bytes().unwrap());
    assert_eq!(reply.status, 200);
}

#[test]
fn wasm_style_response_is_installed() {
    let mut res = FunctionResponse::new();
    res.body = String::from("hello from wasm -- test");
    res.headers.push((String::from("x-test"), String::from("abc")));
    let reply = reply_from_output(res.to_bytes().unwrap());
    assert_eq!(reply.status, 200);
    assert_eq!(reply.headers, vec![(String::from("x-test"), String::from("abc"))]);
    match reply.body {
        ReplyBody::Text(t) => assert_eq!(t, "hello from wasm -- test"),
        ReplyBody::Bytes(_) => panic!("expected text"),
    }
}

#[test]
fn unknown_runtime_initializes_nothing() {
    let mut cache: InstanceCache<u32> = InstanceCache::new();
    let cfg = config("GET", "nope");
    let mut runs = 0;
    let r = fn_gateway::gateway::initialize_function(&mut cache, &cfg, |_| {
        runs += 1;
        Ok(Arc::new(1))
    });
    assert_eq!(r.err(), Some(String::from("runtime not implemented: nope")));
    assert_eq!(runs, 0);
    assert_eq!(cache.len(), 0);
}

#[test]
fn known_runtime_initializes_once_with_its_runtime() {
    let mut cache: InstanceCache<u32> = InstanceCache::new();
    let cfg = config("GET", "wasm");
    let mut seen = Vec::new();
    for _ in 0..3 {
        let r = fn_gateway::gateway::initialize_function(&mut cache, &cfg, |rt| {
            seen.push(rt);
            Ok(Arc::new(7))
        });
        assert_eq!(*r.unwrap(), 7);
    }
    assert_eq!(seen, vec![Runtime::Wasm]);
    assert!(cache.lookup(cfg.id()).is_some());
}

#[test]
fn request_payload_is_the_textual_envelope() {
    let cfg = config("GET", "unix_socket");
    let ctx = function_context(&cfg, String::from("/"), String::from("GET"), String::new(), None);
    let sent = request_payload(&ctx).unwrap();
    assert_eq!(String::from_utf8(sent).unwrap(), ctx.to_string().unwrap());
}
