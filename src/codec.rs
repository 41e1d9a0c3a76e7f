//! How each envelope is written as a document, and read back from one.
use vstd::prelude::*;

use crate::document::{
    copy_value, distinct_keys, entries_map, find_entry, int_value, lemma_entries_map, null_value,
    object_value, open_value, push_entry, text_value, value_tree, Node, Tree,
};
use crate::envelope::{
    headers_view, unique_names, ContextModel, FunctionContext, FunctionRequest, FunctionResponse,
    RequestModel, ResponseModel, WasmResponse,
};

verus! {

pub open spec fn text_object(m: Map<Seq<char>, Seq<char>>) -> Tree {
    Tree::Object(m.map_values(|v: Seq<char>| Tree::Text(v)))
}

pub open spec fn optional_text(o: Option<Seq<char>>) -> Tree {
    match o {
        Some(s) => Tree::Text(s),
        None => Tree::Null,
    }
}

pub open spec fn request_tree(m: RequestModel) -> Tree {
    Tree::Object(
        Map::empty()
            .insert("path"@, Tree::Text(m.path))
            .insert("method"@, Tree::Text(m.method))
            .insert("headers"@, text_object(m.headers))
            .insert("query_string"@, Tree::Text(m.query_string))
            .insert("body"@, optional_text(m.body))
            .insert("script"@, Tree::Text(m.script)),
    )
}

pub open spec fn response_tree(m: ResponseModel) -> Tree {
    Tree::Object(
        Map::empty()
            .insert("body"@, Tree::Text(m.body))
            .insert("headers"@, text_object(m.headers))
            .insert("status_code"@, Tree::Int(m.status_code as int)),
    )
}

pub open spec fn context_tree(m: ContextModel) -> Tree {
    Tree::Object(Map::empty().insert("req"@, request_tree(m.req)).insert("res"@, response_tree(m.res)))
}

pub open spec fn wasm_response_tree(w: WasmResponse) -> Tree {
    Tree::Object(Map::empty().insert("ptr"@, Tree::Int(w.ptr as int)).insert("len"@, Tree::Int(w.len as int)))
}

pub open spec fn field_text(o: Map<Seq<char>, Tree>, k: Seq<char>) -> Option<Seq<char>> {
    if o.contains_key(k) && o[k] is Text {
        Some(o[k]->Text_0)
    } else {
        None
    }
}

/// An object whose values are all text.
pub open spec fn headers_from_tree(t: Tree) -> Option<Map<Seq<char>, Seq<char>>> {
    if t is Object && (forall|k| #[trigger] t->Object_0.contains_key(k) ==> t->Object_0[k] is Text) {
        Some(t->Object_0.map_values(|v: Tree| v->Text_0))
    } else {
        None
    }
}

pub open spec fn field_headers(o: Map<Seq<char>, Tree>, k: Seq<char>) -> Option<Map<Seq<char>, Seq<char>>> {
    if o.contains_key(k) {
        headers_from_tree(o[k])
    } else {
        None
    }
}

/// An absent or null field reads as `None`.
pub open spec fn field_optional_text(o: Map<Seq<char>, Tree>, k: Seq<char>) -> Option<Option<Seq<char>>> {
    if !o.contains_key(k) {
        Some(None)
    } else {
        match o[k] {
            Tree::Null => Some(None),
            Tree::Text(s) => Some(Some(s)),
            _ => None,
        }
    }
}

/// An absent status reads as 200.
pub open spec fn field_status(o: Map<Seq<char>, Tree>, k: Seq<char>) -> Option<u16> {
    if !o.contains_key(k) {
        Some(200)
    } else if o[k] is Int && 0 <= o[k]->Int_0 <= u16::MAX {
        Some(o[k]->Int_0 as u16)
    } else {
        None
    }
}

pub open spec fn field_i32(o: Map<Seq<char>, Tree>, k: Seq<char>) -> Option<i32> {
    if o.contains_key(k) && o[k] is Int && i32::MIN <= o[k]->Int_0 <= i32::MAX {
        Some(o[k]->Int_0 as i32)
    } else {
        None
    }
}

/// The request a document describes; fields it does not name are ignored.
pub open spec fn request_from_tree(t: Tree) -> Option<RequestModel> {
    match t {
        Tree::Object(o) => {
            let path = field_text(o, "path"@);
            let method = field_text(o, "method"@);
            let headers = field_headers(o, "headers"@);
            let query_string = field_text(o, "query_string"@);
            let body = field_optional_text(o, "body"@);
            let script = field_text(o, "script"@);
            if path is Some && method is Some && headers is Some && query_string is Some && body is Some
                && script is Some {
                Some(
                    RequestModel {
                        path: path->0,
                        method: method->0,
                        headers: headers->0,
                        query_string: query_string->0,
                        body: body->0,
                        script: script->0,
                    },
                )
            } else {
                None
            }
        },
        _ => None,
    }
}

/// The response a document describes; fields it does not name are ignored.
pub open spec fn response_from_tree(t: Tree) -> Option<ResponseModel> {
    match t {
        Tree::Object(o) => {
            let body = field_text(o, "body"@);
            let headers = field_headers(o, "headers"@);
            let status = field_status(o, "status_code"@);
            if body is Some && headers is Some && status is Some {
                Some(ResponseModel { body: body->0, headers: headers->0, status_code: status->0 })
            } else {
                None
            }
        },
        _ => None,
    }
}

pub open spec fn context_from_tree(t: Tree) -> Option<ContextModel> {
    match t {
        Tree::Object(o) => if o.contains_key("req"@) && o.contains_key("res"@) {
            let req = request_from_tree(o["req"@]);
            let res = response_from_tree(o["res"@]);
            if req is Some && res is Some {
                Some(ContextModel { req: req->0, res: res->0 })
            } else {
                None
            }
        } else {
            None
        },
        _ => None,
    }
}

pub open spec fn wasm_response_from_tree(t: Tree) -> Option<WasmResponse> {
    match t {
        Tree::Object(o) => {
            let ptr = field_i32(o, "ptr"@);
            let len = field_i32(o, "len"@);
            if ptr is Some && len is Some {
                Some(WasmResponse { ptr: ptr->0, len: len->0 })
            } else {
                None
            }
        },
        _ => None,
    }
}

fn key(s: &str) -> (r: String)
    ensures
        r@ == s@,
{
    String::from_str(s)
}

fn read_text(es: &Vec<(String, serde_json::Value)>, k: &str) -> (r: Option<String>)
    requires
        distinct_keys(es@),
    ensures
        r is Some <==> field_text(entries_map(es@), k@) is Some,
        r is Some ==> r->0@ == field_text(entries_map(es@), k@)->0,
{
    match find_entry(es, &key(k)) {
        Some(v) => match open_value(v) {
            Node::Text(s) => Some(s),
            _ => None,
        },
        None => None,
    }
}

fn read_optional_text(es: &Vec<(String, serde_json::Value)>, k: &str) -> (r: Option<Option<String>>)
    requires
        distinct_keys(es@),
    ensures
        r is Some <==> field_optional_text(entries_map(es@), k@) is Some,
        r is Some ==> match r->0 {
            Some(s) => field_optional_text(entries_map(es@), k@)->0 == Some(s@),
            None => field_optional_text(entries_map(es@), k@)->0 is None,
        },
{
    match find_entry(es, &key(k)) {
        Some(v) => match open_value(v) {
            Node::Text(s) => Some(Some(s)),
            Node::Null => Some(None),
            _ => None,
        },
        None => Some(None),
    }
}

fn read_status(es: &Vec<(String, serde_json::Value)>, k: &str) -> (r: Option<u16>)
    requires
        distinct_keys(es@),
    ensures
        r == field_status(entries_map(es@), k@),
{
    match find_entry(es, &key(k)) {
        Some(v) => match open_value(v) {
            Node::Int(i) => if 0 <= i && i <= 65535 {
                Some(i as u16)
            } else {
                None
            },
            _ => None,
        },
        None => Some(FunctionResponse::default_status_code()),
    }
}

fn read_i32(es: &Vec<(String, serde_json::Value)>, k: &str) -> (r: Option<i32>)
    requires
        distinct_keys(es@),
    ensures
        r == field_i32(entries_map(es@), k@),
{
    match find_entry(es, &key(k)) {
        Some(v) => match open_value(v) {
            Node::Int(i) => if -2147483648 <= i && i <= 2147483647 {
                Some(i as i32)
            } else {
                None
            },
            _ => None,
        },
        None => None,
    }
}

/// Writes a header list as an object of text values.
fn headers_to_value(h: &Vec<(String, String)>) -> (v: serde_json::Value)
    ensures
        value_tree(v) == text_object(headers_view(h@)),
{
    let mut es: Vec<(String, serde_json::Value)> = Vec::new();
    let mut i: usize = 0;
    while i < h.len()
        invariant
            0 <= i <= h.len(),
            entries_map(es@) == headers_view(h@.take(i as int)).map_values(|v: Seq<char>| Tree::Text(v)),
        decreases h.len() - i,
    {
        let ghost before = entries_map(es@);
        push_entry(&mut es, h[i].0.clone(), text_value(h[i].1.clone()));
        proof {
            assert(h@.take(i + 1).drop_last() =~= h@.take(i as int));
            assert(entries_map(es@) =~= headers_view(h@.take(i + 1)).map_values(|v: Seq<char>| Tree::Text(v)));
        }
        i = i + 1;
    }
    proof {
        assert(h@.take(h.len() as int) =~= h@);
        assert(entries_map(es@) =~= headers_view(h@).map_values(|v: Seq<char>| Tree::Text(v)));
    }
    object_value(es)
}

/// Reads an object of text values as a header list.
fn headers_from_value(v: serde_json::Value) -> (r: Option<Vec<(String, String)>>)
    ensures
        r is Some <==> headers_from_tree(value_tree(v)) is Some,
        r is Some ==> headers_view(r->0@) == headers_from_tree(value_tree(v))->0 && unique_names(r->0@),
{
    let ghost t = value_tree(v);
    match open_value(v) {
        Node::Object(es) => {
            let mut out: Vec<(String, String)> = Vec::new();
            let mut i: usize = 0;
            proof {
                lemma_entries_map(es@);
            }
            while i < es.len()
                invariant
                    0 <= i <= es.len(),
                    distinct_keys(es@),
                    t == Tree::Object(entries_map(es@)),
                    t == value_tree(v),
                    out@.len() == i,
                    forall|j: int| 0 <= j < i ==> (#[trigger] out@[j]).0@ == es@[j].0@,
                    forall|j: int| 0 <= j < i ==> value_tree((#[trigger] es@[j]).1) is Text,
                    headers_view(out@) == entries_map(es@.take(i as int)).map_values(|t: Tree| t->Text_0),
                decreases es.len() - i,
            {
                match open_value(copy_value(&es[i].1)) {
                    Node::Text(s) => {
                        let ghost before = out@;
                        out.push((es[i].0.clone(), s));
                        proof {
                            assert(out@.drop_last() =~= before);
                            assert(es@.take(i + 1).drop_last() =~= es@.take(i as int));
                            assert(headers_view(out@) =~= entries_map(es@.take(i + 1)).map_values(|t: Tree| t->Text_0));
                        }
                    },
                    _ => {
                        proof {
                            lemma_entries_map(es@);
                            let k = es@[i as int].0@;
                            assert(entries_map(es@).contains_key(k));
                            assert(entries_map(es@)[k] == value_tree(es@[i as int].1));
                            assert(!(entries_map(es@)[k] is Text));
                            assert(t->Object_0.contains_key(k) && !(t->Object_0[k] is Text));
                        }
                        return None;
                    },
                }
                i = i + 1;
            }
            proof {
                lemma_entries_map(es@);
                assert(es@.take(es.len() as int) =~= es@);
                let m = entries_map(es@);
                assert forall|k| #[trigger] m.contains_key(k) implies m[k] is Text by {
                    let j = choose|j: int| 0 <= j < es@.len() && es@[j].0@ == k;
                    assert(m[es@[j].0@] == value_tree(es@[j].1));
                }
                assert forall|a: int, b: int| 0 <= a < b < out@.len() implies #[trigger] out@[a].0@ != #[trigger] out@[b].0@ by {
                    assert(es@[a].0@ != es@[b].0@);
                }
            }
            proof {
                assert(t == Tree::Object(entries_map(es@)));
            }
            Some(out)
        },
        _ => None,
    }
}

impl FunctionRequest {
    /// The document that this request is written as.
    pub fn to_value(&self) -> (v: serde_json::Value)
        ensures
            value_tree(v) == request_tree(self@),
    {
        let mut es: Vec<(String, serde_json::Value)> = Vec::new();
        push_entry(&mut es, key("path"), text_value(self.path.clone()));
        push_entry(&mut es, key("method"), text_value(self.method.clone()));
        push_entry(&mut es, key("headers"), headers_to_value(&self.headers));
        push_entry(&mut es, key("query_string"), text_value(self.query_string.clone()));
        let body = match &self.body {
            Some(b) => text_value(b.clone()),
            None => null_value(),
        };
        push_entry(&mut es, key("body"), body);
        push_entry(&mut es, key("script"), text_value(self.script.clone()));
        object_value(es)
    }

    /// The request that a document describes, if it describes one.
    pub fn from_value(v: serde_json::Value) -> (r: Option<FunctionRequest>)
        ensures
            r is Some <==> request_from_tree(value_tree(v)) is Some,
            r is Some ==> r->0@ == request_from_tree(value_tree(v))->0 && r->0.wf(),
    {
        let es = match open_value(v) {
            Node::Object(es) => es,
            _ => return None,
        };
        let path = match read_text(&es, "path") {
            Some(s) => s,
            None => return None,
        };
        let method = match read_text(&es, "method") {
            Some(s) => s,
            None => return None,
        };
        let headers_value = match find_entry(&es, &key("headers")) {
            Some(h) => h,
            None => return None,
        };
        let headers = match headers_from_value(headers_value) {
            Some(h) => h,
            None => return None,
        };
        let query_string = match read_text(&es, "query_string") {
            Some(s) => s,
            None => return None,
        };
        let body = match read_optional_text(&es, "body") {
            Some(b) => b,
            None => return None,
        };
        let script = match read_text(&es, "script") {
            Some(s) => s,
            None => return None,
        };
        Some(FunctionRequest { path, method, headers, query_string, body, script })
    }
}

impl FunctionResponse {
    /// The document that this response is written as.
    pub fn to_value(&self) -> (v: serde_json::Value)
        ensures
            value_tree(v) == response_tree(self@),
    {
        let mut es: Vec<(String, serde_json::Value)> = Vec::new();
        push_entry(&mut es, key("body"), text_value(self.body.clone()));
        push_entry(&mut es, key("headers"), headers_to_value(&self.headers));
        push_entry(&mut es, key("status_code"), int_value(self.status_code as i64));
        object_value(es)
    }

    /// The response that a document describes, if it describes one.
    pub fn from_value(v: serde_json::Value) -> (r: Option<FunctionResponse>)
        ensures
            r is Some <==> response_from_tree(value_tree(v)) is Some,
            r is Some ==> r->0@ == response_from_tree(value_tree(v))->0 && r->0.wf(),
    {
        let es = match open_value(v) {
            Node::Object(es) => es,
            _ => return None,
        };
        let body = match read_text(&es, "body") {
            Some(s) => s,
            None => return None,
        };
        let headers_value = match find_entry(&es, &key("headers")) {
            Some(h) => h,
            None => return None,
        };
        let headers = match headers_from_value(headers_value) {
            Some(h) => h,
            None => return None,
        };
        let status_code = match read_status(&es, "status_code") {
            Some(s) => s,
            None => return None,
        };
        Some(FunctionResponse { body, headers, status_code })
    }
}

impl FunctionContext {
    /// The document that this context is written as.
    pub fn to_value(&self) -> (v: serde_json::Value)
        ensures
            value_tree(v) == context_tree(self@),
    {
        let mut es: Vec<(String, serde_json::Value)> = Vec::new();
        push_entry(&mut es, key("req"), self.req.to_value());
        push_entry(&mut es, key("res"), self.res.to_value());
        object_value(es)
    }

    /// The context that a document describes, if it describes one.
    pub fn from_value(v: serde_json::Value) -> (r: Option<FunctionContext>)
        ensures
            r is Some <==> context_from_tree(value_tree(v)) is Some,
            r is Some ==> r->0@ == context_from_tree(value_tree(v))->0 && r->0.wf(),
    {
        let es = match open_value(v) {
            Node::Object(es) => es,
            _ => return None,
        };
        let req = match find_entry(&es, &key("req")) {
            Some(r) => r,
            None => return None,
        };
        let res = match find_entry(&es, &key("res")) {
            Some(r) => r,
            None => return None,
        };
        let req = match FunctionRequest::from_value(req) {
            Some(r) => r,
            None => return None,
        };
        let res = match FunctionResponse::from_value(res) {
            Some(r) => r,
            None => return None,
        };
        Some(FunctionContext { req, res })
    }
}

impl WasmResponse {
    /// The document that this record is written as.
    pub fn to_value(&self) -> (v: serde_json::Value)
        ensures
            value_tree(v) == wasm_response_tree(*self),
    {
        let mut es: Vec<(String, serde_json::Value)> = Vec::new();
        push_entry(&mut es, key("ptr"), int_value(self.ptr as i64));
        push_entry(&mut es, key("len"), int_value(self.len as i64));
        object_value(es)
    }

    /// The record that a document describes, if it describes one.
    pub fn from_value(v: serde_json::Value) -> (r: Option<WasmResponse>)
        ensures
            r == wasm_response_from_tree(value_tree(v)),
    {
        let es = match open_value(v) {
            Node::Object(es) => es,
            _ => return None,
        };
        let ptr = match read_i32(&es, "ptr") {
            Some(p) => p,
            None => return None,
        };
        let len = match read_i32(&es, "len") {
            Some(l) => l,
            None => return None,
        };
        Some(WasmResponse { ptr, len })
    }
}

} // verus!
