//! The dispatch façade: the envelope built for an HTTP request, the runtime
//! chosen for a function, and the HTTP reply made of what the function
//! returned.
use vstd::prelude::*;

use std::sync::Arc;

use crate::cache::InstanceCache;
use crate::codec::{context_tree, response_from_tree, response_tree};
use crate::config::FunctionConfig;
use crate::document::{
    cbor_bytes_of, cbor_parse_of, json_bytes_parse_of, json_text_of, parse_json_bytes, text_bytes,
    utf8_of,
};
use crate::envelope::{
    headers_view, ContextModel, Errors, FunctionContext, FunctionRequest, FunctionResponse,
    RequestModel, ResponseModel,
};

verus! {

/// The runtimes that a function can declare.
#[derive(Debug, Clone, Copy, PartialEq, Eq, Structural)]
pub enum Runtime {
    UnixSocket,
    Wasm,
}

pub open spec fn runtime_of(tag: Seq<char>) -> Option<Runtime> {
    if tag == "unix_socket"@ {
        Some(Runtime::UnixSocket)
    } else if tag == "wasm"@ {
        Some(Runtime::Wasm)
    } else {
        None
    }
}

/// The runtime that a function declares; an unknown one gives the message
/// of the reply.
pub fn select_runtime(tag: &String) -> (r: Result<Runtime, String>)
    ensures
        match runtime_of(tag@) {
            Some(rt) => r == Ok::<Runtime, String>(rt),
            None => r is Err && r->Err_0@ == "runtime not implemented: "@ + tag@,
        },
{
    if *tag == String::from_str("unix_socket") {
        Ok(Runtime::UnixSocket)
    } else if *tag == String::from_str("wasm") {
        Ok(Runtime::Wasm)
    } else {
        let mut m = String::from_str("runtime not implemented: ");
        m.append(tag.as_str());
        Err(m)
    }
}

/// The write phase of a cold start for a function, under the cache's write
/// lock. A function whose runtime is unknown is refused with the message of
/// the reply, and the cache is left as it was; otherwise `initialize` runs for
/// the function's runtime unless an instance is already installed, and a
/// success is installed.
pub fn initialize_function<B, F>(cache: &mut InstanceCache<B>, config: &FunctionConfig, initialize: F) -> (r: Result<
    Arc<B>,
    String,
>)
    where
        F: FnOnce(Runtime) -> Result<Arc<B>, String>,
    requires
        forall|rt: Runtime| initialize.requires((rt,)),
    ensures
        runtime_of(config.runtime@) is None ==> {
            &&& final(cache)@ == old(cache)@
            &&& r is Err
            &&& r->Err_0@ == "runtime not implemented: "@ + config.runtime@
        },
        runtime_of(config.runtime@) is Some && old(cache)@.contains_key(config.id) ==> {
            &&& final(cache)@ == old(cache)@
            &&& r == Ok::<Arc<B>, String>(old(cache)@[config.id])
        },
        runtime_of(config.runtime@) is Some && !old(cache)@.contains_key(config.id) ==> {
            &&& initialize.ensures((runtime_of(config.runtime@)->0,), r)
            &&& r is Ok ==> final(cache)@ == old(cache)@.insert(config.id, r->Ok_0)
            &&& r is Err ==> final(cache)@ == old(cache)@
        },
{
    let rt = match select_runtime(&config.runtime) {
        Ok(rt) => rt,
        Err(m) => return Err(m),
    };
    if let Some(a) = cache.lookup(config.id) {
        return Ok(a);
    }
    let outcome = initialize(rt);
    let ghost o = outcome;
    let r = cache.complete(config.id, outcome);
    proof {
        assert(r == o);
    }
    r
}

/// The envelope for a request to a function: the request as received, with
/// an empty body when it has none, and a fresh 200 response.
pub fn function_context(
    config: &FunctionConfig,
    path: String,
    method: String,
    query_string: String,
    body: Option<String>,
) -> (r: FunctionContext)
    ensures
        r.wf(),
        r@ == (ContextModel {
            req: RequestModel {
                path: path@,
                method: method@,
                headers: Map::empty(),
                query_string: query_string@,
                body: Some(
                    match body {
                        Some(b) => b@,
                        None => Seq::empty(),
                    },
                ),
                script: config.handler@,
            },
            res: ResponseModel { body: Seq::empty(), headers: Map::empty(), status_code: 200 },
        }),
{
    let mut req = FunctionRequest::new(config.handler.clone(), path, method, query_string);
    if body.is_some() {
        req.body = body;
    }
    let res = FunctionResponse::new();
    let ctx = FunctionContext::new(req, res);
    proof {
        assert(ctx.req@.body =~= Some(
            match body {
                Some(b) => b@,
                None => Seq::empty(),
            },
        ));
        assert(ctx.res@.body =~= Seq::<char>::empty());
    }
    ctx
}

/// What a socket handler sends for a request: the textual encoding of the
/// envelope.
pub fn request_payload(ctx: &FunctionContext) -> (r: Result<Vec<u8>, Errors>)
    ensures
        r is Ok,
        r->Ok_0@ == utf8_of(json_text_of(context_tree(ctx@))),
{
    match ctx.to_string() {
        Ok(s) => Ok(text_bytes(s)),
        Err(e) => Err(e),
    }
}

/// What a socket handler returned, as the compact binary response that the
/// façade reads: a textual response is re-encoded, anything else is passed
/// on as it is.
pub open spec fn is_handler_output(reply: Vec<u8>, r: Result<Vec<u8>, Errors>) -> bool {
    match json_bytes_parse_of(reply@) {
        Some(t) => match response_from_tree(t) {
            Some(m) => r is Ok && r->Ok_0@ == cbor_bytes_of(response_tree(m)),
            None => r == Ok::<Vec<u8>, Errors>(reply),
        },
        None => r == Ok::<Vec<u8>, Errors>(reply),
    }
}

/// What a socket handler returned, as the compact binary response that the
/// façade reads (see `is_handler_output`).
pub fn handler_output(reply: Vec<u8>) -> (r: Result<Vec<u8>, Errors>)
    ensures
        is_handler_output(reply, r),
{
    let parsed = match parse_json_bytes(reply.as_slice()) {
        Ok(v) => FunctionResponse::from_value(v),
        Err(_) => None,
    };
    match parsed {
        Some(res) => res.to_bytes(),
        None => Ok(reply),
    }
}

/// The body of an HTTP reply.
#[derive(Debug)]
pub enum ReplyBody {
    Text(String),
    Bytes(Vec<u8>),
}

/// An HTTP reply: status, headers in order, body.
#[derive(Debug)]
pub struct HttpReply {
    pub status: u16,
    pub headers: Vec<(String, String)>,
    pub body: ReplyBody,
}

/// A status that an HTTP reply can carry.
pub open spec fn valid_status(code: u16) -> bool {
    100 <= code <= 999
}

pub open spec fn plain_text_headers() -> Seq<(Seq<char>, Seq<char>)> {
    seq![("content-type"@, "text/plain"@)]
}

pub open spec fn pair_views(h: Seq<(String, String)>) -> Seq<(Seq<char>, Seq<char>)> {
    h.map_values(|p: (String, String)| (p.0@, p.1@))
}

/// The reply for what a function returned. A compact binary response is
/// installed: its status (200 when it is not a valid status), its headers,
/// its body. Any other bytes are delivered as a `text/plain` 200.
pub open spec fn is_output_reply(output: Vec<u8>, r: HttpReply) -> bool {
        match cbor_parse_of(output@) {
            Some(t) if response_from_tree(t) is Some => {
                let m = response_from_tree(t)->0;
                &&& r.status == if valid_status(m.status_code) { m.status_code } else { 200 }
                &&& headers_view(r.headers@) == m.headers
                &&& r.body matches ReplyBody::Text(b) && b@ == m.body
            },
            _ => {
                &&& r.status == 200
                &&& pair_views(r.headers@) == plain_text_headers()
                &&& r.body == ReplyBody::Bytes(output)
            },
        }
}

/// The reply for what a function returned (see `is_output_reply`).
pub fn reply_from_output(output: Vec<u8>) -> (r: HttpReply)
    ensures
        is_output_reply(output, r),
{
    match FunctionResponse::from_slice(output.as_slice()) {
        Ok(res) => {
            let status = if 100 <= res.status_code && res.status_code <= 999 {
                res.status_code
            } else {
                200
            };
            HttpReply { status, headers: res.headers, body: ReplyBody::Text(res.body) }
        },
        Err(_) => {
            let mut headers: Vec<(String, String)> = Vec::new();
            headers.push((String::from_str("content-type"), String::from_str("text/plain")));
            proof {
                assert(pair_views(headers@) =~= plain_text_headers());
            }
            HttpReply { status: 200, headers, body: ReplyBody::Bytes(output) }
        },
    }
}

/// Raw output: when a socket handler writes bytes that are neither a textual
/// nor a compact binary response, they pass through unchanged and are
/// delivered as a `text/plain` 200.
pub proof fn lemma_raw_output_fallback(reply: Vec<u8>, out: Result<Vec<u8>, Errors>, http: HttpReply)
    requires
        is_handler_output(reply, out),
        out is Ok ==> is_output_reply(out->Ok_0, http),
        !(json_bytes_parse_of(reply@) matches Some(t) && response_from_tree(t) is Some),
        !(cbor_parse_of(reply@) matches Some(t) && response_from_tree(t) is Some),
    ensures
        out == Ok::<Vec<u8>, Errors>(reply),
        http.status == 200,
        pair_views(http.headers@) == plain_text_headers(),
        http.body == ReplyBody::Bytes(reply),
{
}

/// The reply for a request that failed: a 500 whose body is the message.
pub fn error_reply(message: String) -> (r: HttpReply)
    ensures
        r.status == 500,
        r.headers@.len() == 0,
        r.body == ReplyBody::Text(message),
{
    HttpReply { status: 500, headers: Vec::new(), body: ReplyBody::Text(message) }
}

/// The reply for the outcome of a request: what the function returned, or
/// the message of the error.
pub fn reply_for(outcome: Result<Vec<u8>, String>) -> (r: HttpReply)
    ensures
        match outcome {
            Ok(output) => is_output_reply(output, r),
            Err(m) => r.status == 500 && r.body == ReplyBody::Text(m),
        },
{
    match outcome {
        Ok(output) => reply_from_output(output),
        Err(m) => error_reply(m),
    }
}

} // verus!
