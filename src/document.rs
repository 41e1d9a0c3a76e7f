//! Self-describing documents shared by the two envelope encodings.
//!
//! Both encodings go through `serde_json::Value`: the textual form is JSON
//! (serde_json) and the compact binary form is CBOR (serde_cbor). A value is
//! built and inspected one level at a time, and `Tree` is what it holds.
use vstd::prelude::*;

verus! {

#[verifier::external_type_specification]
#[verifier::external_body]
pub struct ExJsonValue(serde_json::Value);

#[verifier::external_type_specification]
#[verifier::external_body]
pub struct ExJsonError(serde_json::Error);

#[verifier::external_type_specification]
#[verifier::external_body]
pub struct ExCborError(serde_cbor::Error);

/// What a document holds, as far as the envelope codecs read it.
pub enum Tree {
    Null,
    Text(Seq<char>),
    /// A number that `Number::as_i64` reads: an integer within the range of `i64`.
    Int(int),
    Object(Map<Seq<char>, Tree>),
    /// Booleans, arrays, and the other numbers (floats, integers beyond `i64`).
    Other,
}

/// The contents of a `serde_json::Value`.
pub uninterp spec fn value_tree(v: serde_json::Value) -> Tree;

/// The text that `serde_json::to_string` gives for a document.
pub uninterp spec fn json_text_of(t: Tree) -> Seq<char>;

/// What `serde_json::from_str` reads from a text, if it reads a document.
pub uninterp spec fn json_parse_of(s: Seq<char>) -> Option<Tree>;

/// The bytes that `serde_cbor::to_vec` gives for a document.
pub uninterp spec fn cbor_bytes_of(t: Tree) -> Seq<u8>;

/// What `serde_cbor::from_slice` reads from bytes, if it reads a document.
pub uninterp spec fn cbor_parse_of(b: Seq<u8>) -> Option<Tree>;

pub open spec fn is_scalar(t: Tree) -> bool {
    t is Null || t is Text || t is Int
}

pub open spec fn is_flat_object(t: Tree) -> bool {
    is_scalar(t) || (t is Object && forall|k| #[trigger] t->Object_0.contains_key(k) ==> is_scalar(t->Object_0[k]))
}

pub open spec fn is_nested_object(t: Tree) -> bool {
    is_flat_object(t) || (t is Object && forall|k| #[trigger] t->Object_0.contains_key(k) ==> is_flat_object(t->Object_0[k]))
}

/// Documents made of null, text, `i64` integers and objects, at most three
/// objects deep: what the envelopes are written as. Their encoding depends on
/// that structure alone.
pub open spec fn is_plain(t: Tree) -> bool {
    is_nested_object(t) || (t is Object && forall|k| #[trigger] t->Object_0.contains_key(k) ==> is_nested_object(t->Object_0[k]))
}

/// The object that a list of entries makes, a later key replacing an earlier one.
pub open spec fn entries_map(s: Seq<(String, serde_json::Value)>) -> Map<Seq<char>, Tree>
    decreases s.len(),
{
    if s.len() == 0 {
        Map::empty()
    } else {
        entries_map(s.drop_last()).insert(s.last().0@, value_tree(s.last().1))
    }
}

pub open spec fn distinct_keys<V>(s: Seq<(String, V)>) -> bool {
    forall|i: int, j: int| 0 <= i < j < s.len() ==> #[trigger] s[i].0@ != #[trigger] s[j].0@
}

/// One level of a document, with the entries of an object in a list.
pub enum Node {
    Null,
    Text(String),
    Int(i64),
    Object(Vec<(String, serde_json::Value)>),
    Other,
}

pub open spec fn node_matches(n: Node, t: Tree) -> bool {
    match n {
        Node::Null => t is Null,
        Node::Text(s) => t == Tree::Text(s@),
        Node::Int(i) => t == Tree::Int(i as int),
        Node::Object(es) => distinct_keys(es@) && t == Tree::Object(entries_map(es@)),
        Node::Other => t is Other,
    }
}

/// Relies on `serde_json::Value::Null`.
#[verifier::external_body]
pub(crate) fn null_value() -> (r: serde_json::Value)
    ensures
        value_tree(r) == Tree::Null,
{
    serde_json::Value::Null
}

/// Relies on `serde_json::Value::String`: a string value holds its text.
#[verifier::external_body]
pub(crate) fn text_value(s: String) -> (r: serde_json::Value)
    ensures
        value_tree(r) == Tree::Text(s@),
{
    serde_json::Value::String(s)
}

/// Relies on `From<i64> for serde_json::Value`: a number that `as_i64` gives back.
#[verifier::external_body]
pub(crate) fn int_value(i: i64) -> (r: serde_json::Value)
    ensures
        value_tree(r) == Tree::Int(i as int),
{
    serde_json::Value::from(i)
}

/// Relies on `FromIterator<(String, Value)>` for `serde_json::Map`: each
/// entry is inserted in turn, so a later key replaces an earlier one.
#[verifier::external_body]
pub(crate) fn object_value(es: Vec<(String, serde_json::Value)>) -> (r: serde_json::Value)
    ensures
        value_tree(r) == Tree::Object(entries_map(es@)),
{
    serde_json::Value::Object(es.into_iter().collect())
}

/// Relies on `Clone for serde_json::Value`: the copy holds the same document.
#[verifier::external_body]
pub(crate) fn copy_value(v: &serde_json::Value) -> (r: serde_json::Value)
    ensures
        value_tree(r) == value_tree(*v),
{
    v.clone()
}

/// Relies on the variants of `serde_json::Value` and on `Number::as_i64`; the
/// entries of an object come from its map, so their keys are distinct.
#[verifier::external_body]
pub(crate) fn open_value(v: serde_json::Value) -> (r: Node)
    ensures
        node_matches(r, value_tree(v)),
{
    match v {
        serde_json::Value::Null => Node::Null,
        serde_json::Value::String(s) => Node::Text(s),
        serde_json::Value::Number(n) => n.as_i64().map_or(Node::Other, Node::Int),
        serde_json::Value::Object(m) => Node::Object(m.into_iter().collect()),
        _ => Node::Other,
    }
}

/// Relies on `serde_json::to_string`, which cannot fail on a `Value`: its
/// object keys are strings.
#[verifier::external_body]
pub(crate) fn print_json(v: &serde_json::Value) -> (r: Result<String, serde_json::Error>)
    requires
        is_plain(value_tree(*v)),
    ensures
        r is Ok,
        r->Ok_0@ == json_text_of(value_tree(*v)),
{
    serde_json::to_string(v)
}

/// Relies on `serde_json::from_str`, which reads a document or fails.
#[verifier::external_body]
pub(crate) fn parse_json(s: &str) -> (r: Result<serde_json::Value, serde_json::Error>)
    ensures
        r is Ok <==> json_parse_of(s@) is Some,
        r is Ok ==> value_tree(r->Ok_0) == json_parse_of(s@)->0,
{
    serde_json::from_str(s)
}

/// What `serde_json::from_slice` reads from bytes, if it reads a document.
pub uninterp spec fn json_bytes_parse_of(b: Seq<u8>) -> Option<Tree>;

/// Relies on `serde_json::from_slice`, which reads a document or fails.
#[verifier::external_body]
pub(crate) fn parse_json_bytes(b: &[u8]) -> (r: Result<serde_json::Value, serde_json::Error>)
    ensures
        r is Ok <==> json_bytes_parse_of(b@) is Some,
        r is Ok ==> value_tree(r->Ok_0) == json_bytes_parse_of(b@)->0,
{
    serde_json::from_slice(b)
}

/// The UTF-8 encoding of a text.
pub uninterp spec fn utf8_of(s: Seq<char>) -> Seq<u8>;

/// Relies on `String::into_bytes`: the UTF-8 encoding of the text.
#[verifier::external_body]
pub(crate) fn text_bytes(s: String) -> (r: Vec<u8>)
    ensures
        r@ == utf8_of(s@),
{
    s.into_bytes()
}

/// Relies on `serde_cbor::to_vec`, which writes into a `Vec` and so cannot
/// fail on a `Value`.
#[verifier::external_body]
pub(crate) fn print_cbor(v: &serde_json::Value) -> (r: Result<Vec<u8>, serde_cbor::Error>)
    requires
        is_plain(value_tree(*v)),
    ensures
        r is Ok,
        r->Ok_0@ == cbor_bytes_of(value_tree(*v)),
{
    serde_cbor::to_vec(v)
}

/// Relies on `serde_cbor::from_slice`, which reads a document or fails.
#[verifier::external_body]
pub(crate) fn parse_cbor(b: &[u8]) -> (r: Result<serde_json::Value, serde_cbor::Error>)
    ensures
        r is Ok <==> cbor_parse_of(b@) is Some,
        r is Ok ==> value_tree(r->Ok_0) == cbor_parse_of(b@)->0,
{
    serde_cbor::from_slice(b)
}

/// Relies on `Display for serde_json::Error`, for the message of a failure.
#[verifier::external_body]
pub(crate) fn json_error_text(e: &serde_json::Error) -> String {
    e.to_string()
}

/// Relies on `Display for serde_cbor::Error`, for the message of a failure.
#[verifier::external_body]
pub(crate) fn cbor_error_text(e: &serde_cbor::Error) -> String {
    e.to_string()
}

/// Membership in `entries_map`, and, with distinct keys, the value of each entry.
pub proof fn lemma_entries_map(s: Seq<(String, serde_json::Value)>)
    ensures
        forall|k: Seq<char>| #[trigger] entries_map(s).contains_key(k) <==> exists|i: int| 0 <= i < s.len() && s[i].0@ == k,
        distinct_keys(s) ==> forall|i: int| 0 <= i < s.len() ==> #[trigger] entries_map(s)[s[i].0@] == value_tree(s[i].1),
    decreases s.len(),
{
    if s.len() > 0 {
        let p = s.drop_last();
        lemma_entries_map(p);
        assert forall|k: Seq<char>| #[trigger] entries_map(s).contains_key(k) <==> exists|i: int| 0 <= i < s.len() && s[i].0@ == k by {
            if entries_map(s).contains_key(k) && k != s.last().0@ {
                let i = choose|i: int| 0 <= i < p.len() && p[i].0@ == k;
                assert(s[i] == p[i]);
            }
            if exists|i: int| 0 <= i < s.len() && s[i].0@ == k {
                let i = choose|i: int| 0 <= i < s.len() && s[i].0@ == k;
                if i < s.len() - 1 {
                    assert(p[i] == s[i]);
                }
            }
        }
        if distinct_keys(s) {
            assert(distinct_keys(p)) by {
                assert forall|i: int, j: int| 0 <= i < j < p.len() implies #[trigger] p[i].0@ != #[trigger] p[j].0@ by {
                    assert(p[i] == s[i] && p[j] == s[j]);
                }
            }
            assert forall|i: int| 0 <= i < s.len() implies #[trigger] entries_map(s)[s[i].0@] == value_tree(s[i].1) by {
                if i < s.len() - 1 {
                    assert(p[i] == s[i]);
                    assert(s[i].0@ != s[s.len() - 1].0@);
                }
            }
        }
    }
}

/// Adds an entry to an object under construction.
pub(crate) fn push_entry(es: &mut Vec<(String, serde_json::Value)>, k: String, v: serde_json::Value)
    ensures
        entries_map(final(es)@) == entries_map(old(es)@).insert(k@, value_tree(v)),
        final(es)@ == old(es)@.push((k, v)),
{
    let ghost before = es@;
    es.push((k, v));
    assert(es@.drop_last() =~= before);
}

/// The value stored under `key` in a list of entries with distinct keys.
pub(crate) fn find_entry(es: &Vec<(String, serde_json::Value)>, key: &String) -> (r: Option<serde_json::Value>)
    requires
        distinct_keys(es@),
    ensures
        r is Some <==> entries_map(es@).contains_key(key@),
        r is Some ==> value_tree(r->0) == entries_map(es@)[key@],
{
    proof {
        lemma_entries_map(es@);
    }
    let mut i: usize = 0;
    while i < es.len()
        invariant
            0 <= i <= es.len(),
            distinct_keys(es@),
            forall|j: int| 0 <= j < i ==> (#[trigger] es@[j]).0@ != key@,
        decreases es.len() - i,
    {
        if es[i].0 == *key {
            proof {
                lemma_entries_map(es@);
                assert(es@[i as int].0@ == key@);
                assert(entries_map(es@)[es@[i as int].0@] == value_tree(es@[i as int].1));
            }
            return Some(copy_value(&es[i].1));
        }
        i = i + 1;
    }
    None
}

} // verus!
