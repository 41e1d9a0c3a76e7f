//! The two encodings of the envelopes, and what is proved of them.
use vstd::prelude::*;

use crate::codec::{
    context_from_tree, context_tree, headers_from_tree, optional_text, request_from_tree, request_tree,
    response_from_tree, response_tree, text_object, wasm_response_from_tree, wasm_response_tree,
};
use crate::document::{
    cbor_bytes_of, cbor_error_text, cbor_parse_of, is_flat_object, is_nested_object, is_plain,
    json_error_text, json_parse_of, json_text_of, parse_cbor, parse_json, print_cbor, print_json,
    Tree,
};
use crate::envelope::{
    ContextModel, Errors, FunctionContext, FunctionRequest, FunctionResponse, RequestModel, ResponseModel,
    WasmResponse,
};

verus! {

proof fn lemma_text_object_flat(h: Map<Seq<char>, Seq<char>>)
    ensures
        is_flat_object(text_object(h)),
{
}

proof fn lemma_request_nested(m: RequestModel)
    ensures
        is_nested_object(request_tree(m)),
{
    lemma_text_object_flat(m.headers);
    let o = request_tree(m)->Object_0;
    assert forall|k| #[trigger] o.contains_key(k) implies is_flat_object(o[k]) by {}
}

proof fn lemma_response_nested(m: ResponseModel)
    ensures
        is_nested_object(response_tree(m)),
{
    lemma_text_object_flat(m.headers);
    let o = response_tree(m)->Object_0;
    assert forall|k| #[trigger] o.contains_key(k) implies is_flat_object(o[k]) by {}
}

proof fn lemma_context_plain(m: ContextModel)
    ensures
        is_plain(context_tree(m)),
{
    lemma_request_nested(m.req);
    lemma_response_nested(m.res);
    let o = context_tree(m)->Object_0;
    assert forall|k| #[trigger] o.contains_key(k) implies is_nested_object(o[k]) by {}
}

proof fn lemma_response_plain(m: ResponseModel)
    ensures
        is_plain(response_tree(m)),
{
    lemma_response_nested(m);
}

proof fn lemma_wasm_response_plain(w: WasmResponse)
    ensures
        is_plain(wasm_response_tree(w)),
{
    let o = wasm_response_tree(w)->Object_0;
    assert forall|k| #[trigger] o.contains_key(k) implies is_flat_object(o[k]) by {}
}

/// A header map written as an object of text values reads back as itself.
pub proof fn lemma_headers_round_trip(h: Map<Seq<char>, Seq<char>>)
    ensures
        headers_from_tree(text_object(h)) == Some(h),
{
    assert(text_object(h)->Object_0.map_values(|v: Tree| v->Text_0) =~= h);
}

/// A request written as a document reads back as the same request, its
/// headers compared as a map.
pub proof fn lemma_request_document_round_trip(m: RequestModel)
    ensures
        request_from_tree(request_tree(m)) == Some(m),
{
    reveal_strlit("path");
    reveal_strlit("method");
    reveal_strlit("headers");
    reveal_strlit("query_string");
    reveal_strlit("body");
    reveal_strlit("script");
    assert("path"@[0] != "method"@[0] && "path"@[0] != "headers"@[0] && "path"@[0] != "query_string"@[0]
        && "path"@[0] != "body"@[0] && "path"@[0] != "script"@[0]);
    assert("method"@[0] != "headers"@[0] && "method"@[0] != "query_string"@[0] && "method"@[0] != "body"@[0]
        && "method"@[0] != "script"@[0]);
    assert("headers"@[0] != "query_string"@[0] && "headers"@[0] != "body"@[0] && "headers"@[0] != "script"@[0]);
    assert("query_string"@[0] != "body"@[0] && "query_string"@[0] != "script"@[0] && "body"@[0] != "script"@[0]);
    lemma_headers_round_trip(m.headers);
    let o = request_tree(m)->Object_0;
    assert(o["path"@] == Tree::Text(m.path));
    assert(o["method"@] == Tree::Text(m.method));
    assert(o["headers"@] == text_object(m.headers));
    assert(o["query_string"@] == Tree::Text(m.query_string));
    assert(o["script"@] == Tree::Text(m.script));
    assert(o["body"@] == optional_text(m.body));
}

/// A response written as a document reads back as the same response, its
/// headers compared as a map.
pub proof fn lemma_response_document_round_trip(m: ResponseModel)
    ensures
        response_from_tree(response_tree(m)) == Some(m),
{
    reveal_strlit("body");
    reveal_strlit("headers");
    reveal_strlit("status_code");
    assert("body"@[0] != "headers"@[0] && "body"@[0] != "status_code"@[0] && "headers"@[0] != "status_code"@[0]);
    lemma_headers_round_trip(m.headers);
    let o = response_tree(m)->Object_0;
    assert(o["body"@] == Tree::Text(m.body));
    assert(o["headers"@] == text_object(m.headers));
    assert(o["status_code"@] == Tree::Int(m.status_code as int));
}

/// A context written as a document reads back as the same context, its
/// headers compared as maps. The encodings write exactly this document
/// (`to_bytes`, `to_string`) and read their input through it (`from_slice`,
/// `from_str`).
pub proof fn lemma_context_document_round_trip(m: ContextModel)
    ensures
        context_from_tree(context_tree(m)) == Some(m),
{
    reveal_strlit("req");
    reveal_strlit("res");
    assert("req"@[2] != "res"@[2]);
    lemma_request_document_round_trip(m.req);
    lemma_response_document_round_trip(m.res);
    let o = context_tree(m)->Object_0;
    assert(o["req"@] == request_tree(m.req));
    assert(o["res"@] == response_tree(m.res));
}

/// A WebAssembly response record written as a document reads back as itself.
pub proof fn lemma_wasm_response_document_round_trip(w: WasmResponse)
    ensures
        wasm_response_from_tree(wasm_response_tree(w)) == Some(w),
{
    reveal_strlit("ptr");
    reveal_strlit("len");
    assert("ptr"@[0] != "len"@[0]);
    let o = wasm_response_tree(w)->Object_0;
    assert(o["ptr"@] == Tree::Int(w.ptr as int));
}

/// A response document that omits `status_code` reads with status 200.
pub proof fn lemma_default_status(o: Map<Seq<char>, Tree>)
    requires
        response_from_tree(Tree::Object(o.insert("status_code"@, Tree::Int(200)))) is Some,
        !o.contains_key("status_code"@),
    ensures
        response_from_tree(Tree::Object(o)) is Some,
        response_from_tree(Tree::Object(o))->0.status_code == 200,
{
    reveal_strlit("body");
    reveal_strlit("headers");
    reveal_strlit("status_code");
    let with = o.insert("status_code"@, Tree::Int(200));
    assert(with["body"@] == o["body"@]);
    assert(with["headers"@] == o["headers"@]);
}

impl FunctionContext {
    /// The compact binary (CBOR) encoding.
    pub fn to_bytes(&self) -> (r: Result<Vec<u8>, Errors>)
        ensures
            r is Ok,
            r->Ok_0@ == cbor_bytes_of(context_tree(self@)),
    {
        let v = self.to_value();
        proof {
            lemma_context_plain(self@);
        }
        match print_cbor(&v) {
            Ok(b) => Ok(b),
            Err(e) => Err(Errors::SerializationError(cbor_error_text(&e))),
        }
    }

    /// Reads the compact binary (CBOR) encoding.
    pub fn from_slice(b: &[u8]) -> (r: Result<FunctionContext, Errors>)
        ensures
            r is Ok <==> cbor_parse_of(b@) is Some && context_from_tree(cbor_parse_of(b@)->0) is Some,
            r is Ok ==> r->Ok_0@ == context_from_tree(cbor_parse_of(b@)->0)->0 && r->Ok_0.wf(),
    {
        match parse_cbor(b) {
            Ok(v) => match FunctionContext::from_value(v) {
                Some(c) => Ok(c),
                None => Err(Errors::DeserializationError(String::from_str("not a function context"))),
            },
            Err(e) => Err(Errors::DeserializationError(cbor_error_text(&e))),
        }
    }

    /// The textual (JSON) encoding.
    pub fn to_string(&self) -> (r: Result<String, Errors>)
        ensures
            r is Ok,
            r->Ok_0@ == json_text_of(context_tree(self@)),
    {
        let v = self.to_value();
        proof {
            lemma_context_plain(self@);
        }
        match print_json(&v) {
            Ok(s) => Ok(s),
            Err(e) => Err(Errors::SerializationError(json_error_text(&e))),
        }
    }

    /// Reads the textual (JSON) encoding.
    pub fn from_str(s: &str) -> (r: Result<FunctionContext, Errors>)
        ensures
            r is Ok <==> json_parse_of(s@) is Some && context_from_tree(json_parse_of(s@)->0) is Some,
            r is Ok ==> r->Ok_0@ == context_from_tree(json_parse_of(s@)->0)->0 && r->Ok_0.wf(),
    {
        match parse_json(s) {
            Ok(v) => match FunctionContext::from_value(v) {
                Some(c) => Ok(c),
                None => Err(Errors::DeserializationError(String::from_str("not a function context"))),
            },
            Err(e) => Err(Errors::DeserializationError(json_error_text(&e))),
        }
    }
}

impl FunctionRequest {
    /// The textual (JSON) encoding.
    pub fn to_string(&self) -> (r: Result<String, Errors>)
        ensures
            r is Ok,
            r->Ok_0@ == json_text_of(request_tree(self@)),
    {
        let v = self.to_value();
        proof {
            lemma_request_nested(self@);
        }
        match print_json(&v) {
            Ok(s) => Ok(s),
            Err(e) => Err(Errors::SerializationError(json_error_text(&e))),
        }
    }

    /// Reads the textual (JSON) encoding.
    pub fn from_str(s: &str) -> (r: Result<FunctionRequest, Errors>)
        ensures
            r is Ok <==> json_parse_of(s@) is Some && request_from_tree(json_parse_of(s@)->0) is Some,
            r is Ok ==> r->Ok_0@ == request_from_tree(json_parse_of(s@)->0)->0 && r->Ok_0.wf(),
    {
        match parse_json(s) {
            Ok(v) => match FunctionRequest::from_value(v) {
                Some(c) => Ok(c),
                None => Err(Errors::DeserializationError(String::from_str("not a function request"))),
            },
            Err(e) => Err(Errors::DeserializationError(json_error_text(&e))),
        }
    }
}

impl FunctionResponse {
    /// The compact binary (CBOR) encoding.
    pub fn to_bytes(&self) -> (r: Result<Vec<u8>, Errors>)
        ensures
            r is Ok,
            r->Ok_0@ == cbor_bytes_of(response_tree(self@)),
    {
        let v = self.to_value();
        proof {
            lemma_response_plain(self@);
        }
        match print_cbor(&v) {
            Ok(b) => Ok(b),
            Err(e) => Err(Errors::SerializationError(cbor_error_text(&e))),
        }
    }

    /// Reads the compact binary (CBOR) encoding.
    pub fn from_slice(b: &[u8]) -> (r: Result<FunctionResponse, Errors>)
        ensures
            r is Ok <==> cbor_parse_of(b@) is Some && response_from_tree(cbor_parse_of(b@)->0) is Some,
            r is Ok ==> r->Ok_0@ == response_from_tree(cbor_parse_of(b@)->0)->0 && r->Ok_0.wf(),
    {
        match parse_cbor(b) {
            Ok(v) => match FunctionResponse::from_value(v) {
                Some(c) => Ok(c),
                None => Err(Errors::DeserializationError(String::from_str("not a function response"))),
            },
            Err(e) => Err(Errors::DeserializationError(cbor_error_text(&e))),
        }
    }

    /// The textual (JSON) encoding.
    pub fn to_string(&self) -> (r: Result<String, Errors>)
        ensures
            r is Ok,
            r->Ok_0@ == json_text_of(response_tree(self@)),
    {
        let v = self.to_value();
        proof {
            lemma_response_plain(self@);
        }
        match print_json(&v) {
            Ok(s) => Ok(s),
            Err(e) => Err(Errors::SerializationError(json_error_text(&e))),
        }
    }

    /// Reads the textual (JSON) encoding.
    pub fn from_str(s: &str) -> (r: Result<FunctionResponse, Errors>)
        ensures
            r is Ok <==> json_parse_of(s@) is Some && response_from_tree(json_parse_of(s@)->0) is Some,
            r is Ok ==> r->Ok_0@ == response_from_tree(json_parse_of(s@)->0)->0 && r->Ok_0.wf(),
    {
        match parse_json(s) {
            Ok(v) => match FunctionResponse::from_value(v) {
                Some(c) => Ok(c),
                None => Err(Errors::DeserializationError(String::from_str("not a function response"))),
            },
            Err(e) => Err(Errors::DeserializationError(json_error_text(&e))),
        }
    }
}

impl WasmResponse {
    /// The compact binary (CBOR) encoding.
    pub fn to_bytes(&self) -> (r: Result<Vec<u8>, Errors>)
        ensures
            r is Ok,
            r->Ok_0@ == cbor_bytes_of(wasm_response_tree(*self)),
    {
        let v = self.to_value();
        proof {
            lemma_wasm_response_plain(*self);
        }
        match print_cbor(&v) {
            Ok(b) => Ok(b),
            Err(e) => Err(Errors::SerializationError(cbor_error_text(&e))),
        }
    }

    /// Reads the compact binary (CBOR) encoding.
    pub fn from_slice(b: &[u8]) -> (r: Result<WasmResponse, Errors>)
        ensures
            r is Ok <==> cbor_parse_of(b@) is Some && wasm_response_from_tree(cbor_parse_of(b@)->0) is Some,
            r is Ok ==> r->Ok_0 == wasm_response_from_tree(cbor_parse_of(b@)->0)->0,
    {
        match parse_cbor(b) {
            Ok(v) => match WasmResponse::from_value(v) {
                Some(w) => Ok(w),
                None => Err(Errors::DeserializationError(String::from_str("not a response record"))),
            },
            Err(e) => Err(Errors::DeserializationError(cbor_error_text(&e))),
        }
    }
}

} // verus!
