//! The request/response envelope exchanged with function code, and its two
//! encodings: compact binary (CBOR) and textual (JSON), both field-named.
use vstd::prelude::*;

use crate::document::distinct_keys;

verus! {

/// Failure of an envelope encoding.
#[derive(Debug)]
pub enum Errors {
    SerializationError(String),
    DeserializationError(String),
}

/// `prefix` followed by `m`.
pub(crate) fn prefixed(prefix: &str, m: &String) -> (r: String)
    ensures
        r@ == prefix@ + m@,
{
    let mut s = String::from_str(prefix);
    s.append(m.as_str());
    s
}

impl Errors {
    /// The message of the failure.
    pub fn message(&self) -> (r: String)
        ensures
            match self {
                Errors::SerializationError(m) => r@ == "Failed to serialize the value: "@ + m@,
                Errors::DeserializationError(m) => r@ == "Failed to deserialize the value: "@ + m@,
            },
    {
        match self {
            Errors::SerializationError(m) => prefixed("Failed to serialize the value: ", m),
            Errors::DeserializationError(m) => prefixed("Failed to deserialize the value: ", m),
        }
    }
}

/// The header map that a list of pairs makes, a later name replacing an earlier one.
pub open spec fn headers_view(s: Seq<(String, String)>) -> Map<Seq<char>, Seq<char>>
    decreases s.len(),
{
    if s.len() == 0 {
        Map::empty()
    } else {
        headers_view(s.drop_last()).insert(s.last().0@, s.last().1@)
    }
}

/// What the gateway forwards of an HTTP request to the function.
pub struct FunctionRequest {
    pub path: String,
    pub method: String,
    /// Header names are unique.
    pub headers: Vec<(String, String)>,
    /// Empty when the request has none.
    pub query_string: String,
    pub body: Option<String>,
    /// Location of the handler that serves the request.
    pub script: String,
}

pub ghost struct RequestModel {
    pub path: Seq<char>,
    pub method: Seq<char>,
    pub headers: Map<Seq<char>, Seq<char>>,
    pub query_string: Seq<char>,
    pub body: Option<Seq<char>>,
    pub script: Seq<char>,
}

/// What the function answers; a response without a status means 200.
pub struct FunctionResponse {
    pub body: String,
    /// Header names are unique.
    pub headers: Vec<(String, String)>,
    pub status_code: u16,
}

pub ghost struct ResponseModel {
    pub body: Seq<char>,
    pub headers: Map<Seq<char>, Seq<char>>,
    pub status_code: u16,
}

/// One request paired with the response that the function fills in.
pub struct FunctionContext {
    pub req: FunctionRequest,
    pub res: FunctionResponse,
}

pub ghost struct ContextModel {
    pub req: RequestModel,
    pub res: ResponseModel,
}

/// Two-field record by which a WebAssembly guest returns a byte region
/// through a single integer result.
#[derive(Debug, Clone, Copy, PartialEq, Eq, Structural)]
pub struct WasmResponse {
    pub ptr: i32,
    pub len: i32,
}

impl View for FunctionRequest {
    type V = RequestModel;

    open spec fn view(&self) -> RequestModel {
        RequestModel {
            path: self.path@,
            method: self.method@,
            headers: headers_view(self.headers@),
            query_string: self.query_string@,
            body: match self.body {
                Some(b) => Some(b@),
                None => None,
            },
            script: self.script@,
        }
    }
}

impl View for FunctionResponse {
    type V = ResponseModel;

    open spec fn view(&self) -> ResponseModel {
        ResponseModel { body: self.body@, headers: headers_view(self.headers@), status_code: self.status_code }
    }
}

impl View for FunctionContext {
    type V = ContextModel;

    open spec fn view(&self) -> ContextModel {
        ContextModel { req: self.req@, res: self.res@ }
    }
}

pub open spec fn unique_names(h: Seq<(String, String)>) -> bool {
    distinct_keys(h)
}

impl FunctionRequest {
    pub open spec fn wf(&self) -> bool {
        unique_names(self.headers@)
    }

    /// A request with no headers and an empty body.
    pub fn new(script: String, path: String, method: String, query_string: String) -> (r: FunctionRequest)
        ensures
            r.wf(),
            r.script@ == script@,
            r.path@ == path@,
            r.method@ == method@,
            r.query_string@ == query_string@,
            r.headers@.len() == 0,
            r.body matches Some(b) && b@.len() == 0,
    {
        FunctionRequest { script, path, method, headers: Vec::new(), query_string, body: Some(String::new()) }
    }
}

impl FunctionResponse {
    pub open spec fn wf(&self) -> bool {
        unique_names(self.headers@)
    }

    /// An empty 200 response with no headers.
    pub fn new() -> (r: FunctionResponse)
        ensures
            r.wf(),
            r.body@.len() == 0,
            r.headers@.len() == 0,
            r.status_code == 200,
    {
        FunctionResponse { body: String::new(), headers: Vec::new(), status_code: 200 }
    }

    /// The status of a response that does not state one.
    pub fn default_status_code() -> (r: u16)
        ensures
            r == 200,
    {
        200
    }
}

impl FunctionContext {
    pub open spec fn wf(&self) -> bool {
        self.req.wf() && self.res.wf()
    }

    pub fn new(req: FunctionRequest, res: FunctionResponse) -> (r: FunctionContext)
        ensures
            r.req == req,
            r.res == res,
    {
        FunctionContext { req, res }
    }
}

impl WasmResponse {
    pub fn new(ptr: i32, len: i32) -> (r: WasmResponse)
        ensures
            r.ptr == ptr,
            r.len == len,
    {
        WasmResponse { ptr, len }
    }
}

} // verus!
