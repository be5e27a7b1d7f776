//! JSON documents and payloads. The text format belongs to `serde_json`; what
//! the library says about a document, it says about its [`Json`] tree.

use crate::text;
use serde_json::{Map as Object, Value};
use vstd::prelude::*;

verus! {

// ---------------------------------------------------------------------------
// Meaning
// ---------------------------------------------------------------------------

/// A JSON document as a tree. A number that is not an integer is kept by the bits
/// of its floating-point value.
#[verifier::ext_equal]
pub enum Json {
    Null,
    Bool(bool),
    Int(int),
    Real(u64),
    Text(Seq<char>),
    List(Seq<Json>),
    Object(Map<Seq<char>, Json>),
}

/// Whether a document nests at most `limit` lists and objects.
pub open spec fn nests_within(j: Json, limit: nat) -> bool
    decreases limit,
{
    match j {
        Json::List(items) => limit > 0 && forall|i: int|
            0 <= i < items.len() ==> nests_within(#[trigger] items[i], (limit - 1) as nat),
        Json::Object(fields) => limit > 0 && forall|k: Seq<char>| #[trigger]
            fields.contains_key(k) ==> nests_within(fields[k], (limit - 1) as nat),
        _ => true,
    }
}

/// How deep a text may nest and still be read as a document.
pub open spec fn depth_limit() -> nat {
    127
}

/// Whether a document nests at most `limit` lists and objects and holds no real
/// number, which may lose its last bits where a text is read.
pub open spec fn exact(j: Json, limit: nat) -> bool
    decreases limit,
{
    match j {
        Json::Real(_) => false,
        Json::List(items) => limit > 0 && forall|i: int|
            0 <= i < items.len() ==> exact(#[trigger] items[i], (limit - 1) as nat),
        Json::Object(fields) => limit > 0 && forall|k: Seq<char>| #[trigger]
            fields.contains_key(k) ==> exact(fields[k], (limit - 1) as nat),
        _ => true,
    }
}

/// Whether a value is a scalar other than a real number.
pub open spec fn scalar(j: Json) -> bool {
    j is Null || j is Bool || j is Int || j is Text
}

/// Whether a value is a scalar or a list of scalars.
pub open spec fn flat(j: Json) -> bool {
    match j {
        Json::List(items) => forall|i: int| 0 <= i < items.len() ==> scalar(#[trigger] items[i]),
        _ => scalar(j),
    }
}

/// Whether every field of an object is flat.
pub open spec fn flat_fields(fields: Map<Seq<char>, Json>) -> bool {
    forall|k: Seq<char>| #[trigger] fields.contains_key(k) ==> flat(fields[k])
}

/// Whether a value is flat, or a list of objects with flat fields.
pub open spec fn shallow(j: Json) -> bool {
    flat(j) || (j matches Json::List(items) && forall|i: int|
        0 <= i < items.len() ==> (#[trigger] items[i] matches Json::Object(f) && flat_fields(f)))
}

/// Whether every field of an object is shallow.
pub open spec fn shallow_fields(fields: Map<Seq<char>, Json>) -> bool {
    forall|k: Seq<char>| #[trigger] fields.contains_key(k) ==> shallow(fields[k])
}

/// An object without fields.
pub open spec fn no_fields() -> Map<Seq<char>, Json> {
    Map::empty()
}

/// Whether two documents, nested at most `limit` deep, are the same but for the
/// values of their real numbers.
pub open spec fn alike(a: Json, b: Json, limit: nat) -> bool
    decreases limit,
{
    match (a, b) {
        (Json::Real(_), Json::Real(_)) => true,
        (Json::List(x), Json::List(y)) => {
            &&& limit > 0
            &&& x.len() == y.len()
            &&& forall|i: int| 0 <= i < x.len() ==> alike(#[trigger] x[i], y[i], (limit - 1) as nat)
        },
        (Json::Object(f), Json::Object(g)) => {
            &&& limit > 0
            &&& forall|k: Seq<char>| #[trigger] f.contains_key(k) <==> g.contains_key(k)
            &&& forall|k: Seq<char>| #[trigger]
                f.contains_key(k) ==> alike(f[k], g[k], (limit - 1) as nat)
        },
        _ => a == b,
    }
}

/// Whether a text is read as the document `j`.
pub open spec fn reads_as(text: Seq<char>, j: Json) -> bool {
    parsed(text) matches Ok(d) && d == j
}

/// Whether a text is read as the document `j`, but for the values of its real
/// numbers.
pub open spec fn reads_like(text: Seq<char>, j: Json) -> bool {
    parsed(text) matches Ok(d) && alike(d, j, depth_limit())
}

/// Whether a text gives a document back: exactly where it holds no real number, and
/// but for their values otherwise. Nothing is said of a document that nests deeper
/// than a text may.
pub open spec fn gives_back(text: Seq<char>, j: Json) -> bool {
    &&& exact(j, depth_limit()) ==> reads_as(text, j)
    &&& nests_within(j, depth_limit()) ==> reads_like(text, j)
}

/// The trees of a list of values.
pub open spec fn documents(items: Seq<Value>) -> Seq<Json> {
    items.map_values(|v: Value| document(v))
}

/// A list of texts as a JSON list.
pub open spec fn text_list(items: Seq<Seq<char>>) -> Json {
    Json::List(items.map_values(|t: Seq<char>| Json::Text(t)))
}

/// An optional text: itself, or null.
pub open spec fn text_or_null(t: Option<Seq<char>>) -> Json {
    match t {
        Some(t) => Json::Text(t),
        None => Json::Null,
    }
}

// ---------------------------------------------------------------------------
// Outside types and functions
// ---------------------------------------------------------------------------

/// `serde_json::Value`, a parsed document.
#[verifier::external_type_specification]
#[verifier::external_body]
pub struct ExValue(Value);

/// `serde_json::Map`, the fields of an object.
#[verifier::external_type_specification]
#[verifier::external_body]
#[verifier::reject_recursive_types(K)]
#[verifier::reject_recursive_types(V)]
pub struct ExObject<K, V>(Object<K, V>);

/// The tree that a `serde_json::Value` holds.
pub uninterp spec fn document(v: Value) -> Json;

/// The fields that a `serde_json::Map` holds.
pub uninterp spec fn fields(m: Object<String, Value>) -> Map<Seq<char>, Json>;

/// The name for what `serde_json::from_str` reads in a text: a tree, or the
/// words of its error.
pub uninterp spec fn parsed(text: Seq<char>) -> Result<Json, Seq<char>>;

/// The name for the compact text that `serde_json` writes for a document.
pub uninterp spec fn written(j: Json) -> Seq<char>;

/// The name for the text that `serde_json` writes for a document, laid out over
/// several lines.
pub uninterp spec fn laid_out(j: Json) -> Seq<char>;

/// The compact text of an object.
pub open spec fn compact_text(fields: Map<Seq<char>, Json>) -> Seq<char> {
    written(Json::Object(fields))
}

/// Whether keys are listed in their order, each once.
pub open spec fn ascending(keys: Seq<Seq<char>>) -> bool {
    forall|i: int, j: int|
        0 <= i < j < keys.len() ==> text::sorts_before(#[trigger] keys[i], #[trigger] keys[j])
}

/// `serde_json::Map::new`: an object without fields.
#[verifier::external_body]
pub(crate) fn object() -> (r: Object<String, Value>)
    ensures
        fields(r) == no_fields(),
{
    Object::new()
}

/// `serde_json::Map::insert`: sets one field, whatever it held before.
#[verifier::external_body]
pub(crate) fn put(m: &mut Object<String, Value>, key: &str, v: Value)
    ensures
        fields(*final(m)) == fields(*old(m)).insert(key@, document(v)),
{
    m.insert(key.to_string(), v);
}

/// `serde_json::Map::remove`: takes one field out and hands back its value, if
/// there was one.
#[verifier::external_body]
pub(crate) fn take(m: &mut Object<String, Value>, key: &str) -> (r: Option<Value>)
    ensures
        fields(*final(m)) == fields(*old(m)).remove(key@),
        match r {
            Some(v) => fields(*old(m)).contains_key(key@) && fields(*old(m))[key@] == document(v),
            None => !fields(*old(m)).contains_key(key@),
        },
{
    m.remove(key)
}

/// The fields of a value that is an object (`serde_json::Value::Object`).
#[verifier::external_body]
pub(crate) fn into_object(v: Value) -> (r: Option<Object<String, Value>>)
    ensures
        match r {
            Some(m) => document(v) == Json::Object(fields(m)),
            None => !(document(v) is Object),
        },
{
    match v {
        Value::Object(m) => Some(m),
        _ => None,
    }
}

/// An object as a value (`serde_json::Value::Object`).
#[verifier::external_body]
pub(crate) fn of_object(m: Object<String, Value>) -> (r: Value)
    ensures
        document(r) == Json::Object(fields(m)),
{
    Value::Object(m)
}

/// The items of a value that is a list (`serde_json::Value::Array`).
#[verifier::external_body]
pub(crate) fn into_list(v: Value) -> (r: Option<Vec<Value>>)
    ensures
        match r {
            Some(items) => document(v) == Json::List(documents(items@)),
            None => !(document(v) is List),
        },
{
    match v {
        Value::Array(items) => Some(items),
        _ => None,
    }
}

/// A list of values as a value (`serde_json::Value::Array`).
#[verifier::external_body]
pub(crate) fn of_list(items: Vec<Value>) -> (r: Value)
    ensures
        document(r) == Json::List(documents(items@)),
{
    Value::Array(items)
}

/// A text as a value (`From<&str>` of `serde_json::Value`).
#[verifier::external_body]
pub(crate) fn of_text(s: &str) -> (r: Value)
    ensures
        document(r) == Json::Text(s@),
{
    Value::from(s)
}

/// A signed number as a value (`From<i64>` of `serde_json::Value`).
#[verifier::external_body]
pub(crate) fn of_int(i: i64) -> (r: Value)
    ensures
        document(r) == Json::Int(i as int),
{
    Value::from(i)
}

/// An unsigned number as a value (`From<u64>` of `serde_json::Value`).
#[verifier::external_body]
pub(crate) fn of_count(n: u64) -> (r: Value)
    ensures
        document(r) == Json::Int(n as int),
{
    Value::from(n)
}

/// The null value (`serde_json::Value::Null`).
#[verifier::external_body]
pub(crate) fn null() -> (r: Value)
    ensures
        document(r) == Json::Null,
{
    Value::Null
}

/// `serde_json::Value::as_str`: the text of a value that is a text.
#[verifier::external_body]
pub(crate) fn as_text(v: &Value) -> (r: Option<&str>)
    ensures
        match r {
            Some(s) => document(*v) == Json::Text(s@),
            None => !(document(*v) is Text),
        },
{
    v.as_str()
}

/// `PartialEq` of `serde_json::Value`: against an object whose fields are all
/// texts, two values are equal exactly where their trees are.
#[verifier::external_body]
pub(crate) fn equal(a: &Value, b: &Value) -> (r: bool)
    requires
        document(*b) matches Json::Object(f) && forall|k: Seq<char>| #[trigger]
            f.contains_key(k) ==> f[k] is Text,
    ensures
        r == (document(*a) == document(*b)),
{
    a == b
}

/// `serde_json::from_str`: reads a document, which nests at most
/// [`depth_limit`] deep, or says what is wrong with the text.
#[verifier::external_body]
pub(crate) fn parse(text: &str) -> (r: Result<Value, String>)
    ensures
        match r {
            Ok(v) => reads_as(text@, document(v)) && nests_within(
                document(v),
                depth_limit(),
            ),
            Err(e) => (parsed(text@) matches Err(words) && words == e@),
        },
{
    serde_json::from_str(text).map_err(|e| e.to_string())
}

/// `serde_json::to_string_pretty` on a value, which cannot fail. The text depends
/// on the document alone. With a line break behind it, it is not blank, and is read
/// back as the same document where that nests no deeper than a text may; a real
/// number is read back as one, but its last bits may differ.
#[verifier::external_body]
pub(crate) fn pretty(v: &Value) -> (r: Result<String, String>)
    ensures
        r is Ok,
        !text::blank(r->Ok_0@.push('\n')),
        gives_back(r->Ok_0@.push('\n'), document(*v)),
        r->Ok_0@ == laid_out(document(*v)),
{
    serde_json::to_string_pretty(v).map_err(|e| e.to_string())
}

/// `Display` of `serde_json::Value`: its compact text, which depends on the
/// document alone. It is read back as the same document where that nests no deeper
/// than a text may; a real number is read back as one, but its last bits may
/// differ.
#[verifier::external_body]
pub(crate) fn show(v: &Value) -> (r: String)
    ensures
        gives_back(r@, document(*v)),
        r@ == written(document(*v)),
{
    v.to_string()
}

/// `serde_json::Value::as_object`: the fields of a value that is an object.
#[verifier::external_body]
pub(crate) fn as_object(v: &Value) -> (r: Option<&Object<String, Value>>)
    ensures
        match r {
            Some(m) => document(*v) == Json::Object(fields(*m)),
            None => !(document(*v) is Object),
        },
{
    v.as_object()
}

/// `serde_json::Map::get`: the value of one field, if there is one.
#[verifier::external_body]
pub(crate) fn get<'a>(m: &'a Object<String, Value>, key: &str) -> (r: Option<&'a Value>)
    ensures
        match r {
            Some(v) => fields(*m).contains_key(key@) && fields(*m)[key@] == document(*v),
            None => !fields(*m).contains_key(key@),
        },
{
    m.get(key)
}

/// `serde_json::Map::keys`: the names of the fields, each once, in the order of
/// the `BTreeMap` that holds them.
#[verifier::external_body]
pub(crate) fn keys(m: &Object<String, Value>) -> (r: Vec<String>)
    ensures
        ascending(r.deep_view()),
        forall|k: Seq<char>| #[trigger]
            r.deep_view().contains(k) <==> fields(*m).contains_key(k),
{
    m.keys().cloned().collect()
}

// ---------------------------------------------------------------------------
// Operations
// ---------------------------------------------------------------------------

/// Sets a field to a text.
pub(crate) fn put_text(m: &mut Object<String, Value>, key: &str, s: &str)
    ensures
        fields(*final(m)) == fields(*old(m)).insert(key@, Json::Text(s@)),
{
    let v = of_text(s);
    put(m, key, v);
}

/// Sets a field to a text, or to null where there is none.
pub(crate) fn put_text_or_null(m: &mut Object<String, Value>, key: &str, s: &Option<String>)
    ensures
        fields(*final(m)) == fields(*old(m)).insert(key@, text_or_null(s.deep_view())),
{
    let v = match s {
        Some(s) => of_text(s),
        None => null(),
    };
    put(m, key, v);
}

/// Sets a field to a signed number.
pub(crate) fn put_int(m: &mut Object<String, Value>, key: &str, i: i64)
    ensures
        fields(*final(m)) == fields(*old(m)).insert(key@, Json::Int(i as int)),
{
    let v = of_int(i);
    put(m, key, v);
}

/// Sets a field to a count.
pub(crate) fn put_count(m: &mut Object<String, Value>, key: &str, n: usize)
    ensures
        fields(*final(m)) == fields(*old(m)).insert(key@, Json::Int(n as int)),
{
    let v = of_count(n as u64);
    put(m, key, v);
}

/// Sets a field to a list of texts.
pub(crate) fn put_texts(m: &mut Object<String, Value>, key: &str, items: &Vec<String>)
    ensures
        fields(*final(m)) == fields(*old(m)).insert(key@, text_list(items.deep_view())),
{
    let mut out: Vec<Value> = Vec::new();
    let mut i: usize = 0;
    while i < items.len()
        invariant
            i <= items@.len(),
            out@.len() == i,
            forall|j: int| 0 <= j < i ==> document(#[trigger] out@[j]) == Json::Text(items@[j]@),
        decreases items@.len() - i,
    {
        let v = of_text(&items[i]);
        out.push(v);
        i = i + 1;
    }
    proof {
        let want = items.deep_view().map_values(|t: Seq<char>| Json::Text(t));
        assert(documents(out@) =~= want);
    }
    let v = of_list(out);
    put(m, key, v);
}

proof fn lemma_object_exact(f: Map<Seq<char>, Json>, limit: nat)
    requires
        limit > 0,
        forall|k: Seq<char>| #[trigger] f.contains_key(k) ==> exact(f[k], (limit - 1) as nat),
    ensures
        exact(Json::Object(f), limit),
{
    let j = Json::Object(f);
    assert(j->Object_0 == f);
    assert(exact(j, limit));
}

proof fn lemma_list_exact(items: Seq<Json>, limit: nat)
    requires
        limit > 0,
        forall|i: int| 0 <= i < items.len() ==> exact(#[trigger] items[i], (limit - 1) as nat),
    ensures
        exact(Json::List(items), limit),
{
    let j = Json::List(items);
    assert(j->List_0 == items);
    assert(exact(j, limit));
}

proof fn lemma_flat_exact(j: Json, limit: nat)
    requires
        flat(j),
        limit > 0,
    ensures
        exact(j, limit),
{
    match j {
        Json::List(items) => {
            assert forall|i: int| 0 <= i < items.len() implies exact(
                #[trigger] items[i],
                (limit - 1) as nat,
            ) by {
                assert(scalar(items[i]));
            }
            lemma_list_exact(items, limit);
        },
        _ => {},
    }
}

proof fn lemma_flat_fields_exact(f: Map<Seq<char>, Json>, limit: nat)
    requires
        flat_fields(f),
        limit > 1,
    ensures
        exact(Json::Object(f), limit),
{
    assert forall|k: Seq<char>| #[trigger] f.contains_key(k) implies exact(
        f[k],
        (limit - 1) as nat,
    ) by {
        lemma_flat_exact(f[k], (limit - 1) as nat);
    }
    lemma_object_exact(f, limit);
}

proof fn lemma_shallow_exact(f: Map<Seq<char>, Json>, limit: nat)
    requires
        shallow_fields(f),
        limit > 3,
    ensures
        exact(Json::Object(f), limit),
{
    let under = (limit - 1) as nat;
    assert forall|k: Seq<char>| #[trigger] f.contains_key(k) implies exact(f[k], under) by {
        if flat(f[k]) {
            lemma_flat_exact(f[k], under);
        } else {
            let items = f[k]->List_0;
            assert forall|i: int| 0 <= i < items.len() implies exact(
                #[trigger] items[i],
                (under - 1) as nat,
            ) by {
                lemma_flat_fields_exact(items[i]->Object_0, (under - 1) as nat);
            }
            lemma_list_exact(items, under);
        }
    }
    lemma_object_exact(f, limit);
}

/// The compact text of an object with shallow fields, which is read back as the
/// same object.
pub(crate) fn compact(m: Object<String, Value>) -> (r: String)
    requires
        shallow_fields(fields(m)),
    ensures
        r@ == compact_text(fields(m)),
        reads_as(r@, Json::Object(fields(m))),
{
    proof {
        lemma_shallow_exact(fields(m), depth_limit());
    }
    show(&of_object(m))
}

/// The compact text of an object with one text field.
pub(crate) fn object1(k1: &str, v1: &str) -> (r: String)
    ensures
        r@ == compact_text(map![k1@ => Json::Text(v1@)]),
{
    let mut m = object();
    put_text(&mut m, k1, v1);
    assert(fields(m) =~= map![k1@ => Json::Text(v1@)]);
    compact(m)
}

/// An object nests within a limit where each of its fields nests within one
/// less.
pub(crate) proof fn lemma_object_nests(f: Map<Seq<char>, Json>, limit: nat)
    ensures
        nests_within(Json::Object(f), limit) <==> limit > 0 && forall|k: Seq<char>| #[trigger]
            f.contains_key(k) ==> nests_within(f[k], (limit - 1) as nat),
{
    let j = Json::Object(f);
    assert(j->Object_0 == f);
    if nests_within(j, limit) {
        assert forall|k: Seq<char>| #[trigger] f.contains_key(k) implies nests_within(
            f[k],
            (limit - 1) as nat,
        ) by {
            assert(j->Object_0.contains_key(k));
        }
    }
    if limit > 0 && forall|k: Seq<char>| #[trigger]
        f.contains_key(k) ==> nests_within(f[k], (limit - 1) as nat) {
        assert(nests_within(j, limit));
    }
}

/// A list nests within a limit where each of its items nests within one less.
pub(crate) proof fn lemma_list_nests(items: Seq<Json>, limit: nat)
    ensures
        nests_within(Json::List(items), limit) <==> limit > 0 && forall|i: int|
            0 <= i < items.len() ==> nests_within(#[trigger] items[i], (limit - 1) as nat),
{
    let j = Json::List(items);
    assert(j->List_0 == items);
    if nests_within(j, limit) {
        assert forall|i: int| 0 <= i < items.len() implies nests_within(
            #[trigger] items[i],
            (limit - 1) as nat,
        ) by {
            assert(j->List_0[i] == items[i]);
        }
    }
    if limit > 0 && forall|i: int|
        0 <= i < items.len() ==> nests_within(#[trigger] items[i], (limit - 1) as nat) {
        assert(nests_within(j, limit));
    }
}

/// The fields of a document that is like an object are like its fields.
pub(crate) proof fn lemma_alike_object(d: Json, f: Map<Seq<char>, Json>, limit: nat)
    requires
        alike(d, Json::Object(f), limit),
    ensures
        limit > 0,
        d is Object,
        forall|k: Seq<char>| #[trigger] d->Object_0.contains_key(k) <==> f.contains_key(k),
        forall|k: Seq<char>| #[trigger]
            f.contains_key(k) ==> alike(d->Object_0[k], f[k], (limit - 1) as nat),
{
    let j = Json::Object(f);
    assert(j->Object_0 == f);
    assert forall|k: Seq<char>| #[trigger] f.contains_key(k) implies alike(
        d->Object_0[k],
        f[k],
        (limit - 1) as nat,
    ) by {
        assert(d->Object_0.contains_key(k));
    }
}

/// The items of a document that is like a list are like its items.
pub(crate) proof fn lemma_alike_list(d: Json, items: Seq<Json>, limit: nat)
    requires
        alike(d, Json::List(items), limit),
    ensures
        limit > 0,
        d is List,
        d->List_0.len() == items.len(),
        forall|i: int|
            0 <= i < items.len() ==> alike(d->List_0[i], #[trigger] items[i], (limit - 1) as nat),
{
    let j = Json::List(items);
    assert(j->List_0 == items);
    assert forall|i: int| 0 <= i < items.len() implies alike(
        d->List_0[i],
        #[trigger] items[i],
        (limit - 1) as nat,
    ) by {
        assert(alike(d->List_0[i], j->List_0[i], (limit - 1) as nat));
    }
}

// ---------------------------------------------------------------------------
// Laws
// ---------------------------------------------------------------------------

/// Keys have one order: two ascending lists of the same keys are the same list.
pub proof fn law_keys_have_one_order(a: Seq<Seq<char>>, b: Seq<Seq<char>>)
    requires
        ascending(a),
        ascending(b),
        forall|k: Seq<char>| a.contains(k) <==> b.contains(k),
    ensures
        a == b,
    decreases a.len(),
{
    if a.len() == 0 {
        if b.len() > 0 {
            assert(b.contains(b[0]));
        }
        assert(a =~= b);
    } else {
        assert(a.contains(a[0]));
        assert(b.contains(a[0]));
        let j = choose|j: int| 0 <= j < b.len() && b[j] == a[0];
        assert(b.contains(b[0]));
        assert(a.contains(b[0]));
        let i = choose|i: int| 0 <= i < a.len() && a[i] == b[0];
        text::lemma_sorting_is_an_order(a[0], b[0]);
        assert(a[0] == b[0]);
        let ta = a.skip(1);
        let tb = b.skip(1);
        assert forall|k: Seq<char>| ta.contains(k) <==> tb.contains(k) by {
            if ta.contains(k) {
                let n = choose|n: int| 0 <= n < ta.len() && ta[n] == k;
                assert(a[n + 1] == k);
                assert(text::sorts_before(a[0], a[n + 1]));
                text::lemma_sorting_is_an_order(a[0], k);
                assert(a.contains(k));
                let m = choose|m: int| 0 <= m < b.len() && b[m] == k;
                assert(m > 0);
                assert(tb[m - 1] == k);
            }
            if tb.contains(k) {
                let n = choose|n: int| 0 <= n < tb.len() && tb[n] == k;
                assert(b[n + 1] == k);
                assert(text::sorts_before(b[0], b[n + 1]));
                text::lemma_sorting_is_an_order(b[0], k);
                assert(b.contains(k));
                let m = choose|m: int| 0 <= m < a.len() && a[m] == k;
                assert(m > 0);
                assert(ta[m - 1] == k);
            }
        }
        assert forall|x: int, y: int| 0 <= x < y < ta.len() implies text::sorts_before(
            #[trigger] ta[x],
            #[trigger] ta[y],
        ) by {
            assert(text::sorts_before(a[x + 1], a[y + 1]));
        }
        assert forall|x: int, y: int| 0 <= x < y < tb.len() implies text::sorts_before(
            #[trigger] tb[x],
            #[trigger] tb[y],
        ) by {
            assert(text::sorts_before(b[x + 1], b[y + 1]));
        }
        law_keys_have_one_order(ta, tb);
        assert(a =~= seq![a[0]] + ta);
        assert(b =~= seq![b[0]] + tb);
    }
}

/// A list of texts holds each text, in its order; a text that may be missing is
/// itself or null.
pub proof fn law_texts_become_documents(items: Seq<Seq<char>>, t: Seq<char>)
    ensures
        text_list(items) matches Json::List(l) && l.len() == items.len() && forall|i: int|
            0 <= i < items.len() ==> #[trigger] l[i] == Json::Text(items[i]),
        text_or_null(Some(t)) == Json::Text(t),
        text_or_null(None) is Null,
{
}

/// A document without a floating-point number is like no other but itself: what
/// reads back like it, reads back as it. Every document is like itself as deep as
/// it nests, and one without such a number nests within the depth it is exact to.
pub proof fn law_alike_is_equal_without_reals(a: Json, b: Json, limit: nat)
    ensures
        exact(b, limit) && alike(a, b, limit) ==> a == b,
        exact(b, limit) ==> nests_within(b, limit),
        nests_within(b, limit) ==> alike(b, b, limit),
    decreases limit,
{
    match b {
        Json::List(y) => {
            if exact(b, limit) {
                lemma_list_exact_inside(y, limit);
                assert forall|i: int| 0 <= i < y.len() implies nests_within(
                    #[trigger] y[i],
                    (limit - 1) as nat,
                ) by {
                    law_alike_is_equal_without_reals(y[i], y[i], (limit - 1) as nat);
                }
                lemma_list_nests(y, limit);
                if alike(a, b, limit) {
                    lemma_alike_list(a, y, limit);
                    let x = a->List_0;
                    assert forall|i: int| 0 <= i < y.len() implies x[i] == #[trigger] y[i] by {
                        law_alike_is_equal_without_reals(x[i], y[i], (limit - 1) as nat);
                    }
                    assert(x =~= y);
                }
            }
            if nests_within(b, limit) {
                lemma_list_nests(y, limit);
                assert forall|i: int| 0 <= i < y.len() implies alike(
                    #[trigger] y[i],
                    y[i],
                    (limit - 1) as nat,
                ) by {
                    law_alike_is_equal_without_reals(y[i], y[i], (limit - 1) as nat);
                }
                assert(b->List_0 == y);
                assert(alike(b, b, limit));
            }
        },
        Json::Object(g) => {
            if exact(b, limit) {
                lemma_object_exact_inside(g, limit);
                assert forall|k: Seq<char>| #[trigger] g.contains_key(k) implies nests_within(
                    g[k],
                    (limit - 1) as nat,
                ) by {
                    law_alike_is_equal_without_reals(g[k], g[k], (limit - 1) as nat);
                }
                lemma_object_nests(g, limit);
                if alike(a, b, limit) {
                    lemma_alike_object(a, g, limit);
                    let f = a->Object_0;
                    assert forall|k: Seq<char>| #[trigger] g.contains_key(k) implies f[k] == g[k] by {
                        law_alike_is_equal_without_reals(f[k], g[k], (limit - 1) as nat);
                    }
                    assert(f =~= g);
                }
            }
            if nests_within(b, limit) {
                lemma_object_nests(g, limit);
                assert forall|k: Seq<char>| #[trigger] g.contains_key(k) implies alike(
                    g[k],
                    g[k],
                    (limit - 1) as nat,
                ) by {
                    law_alike_is_equal_without_reals(g[k], g[k], (limit - 1) as nat);
                }
                assert(b->Object_0 == g);
                assert(alike(b, b, limit));
            }
        },
        _ => {},
    }
}

proof fn lemma_list_exact_inside(items: Seq<Json>, limit: nat)
    requires
        exact(Json::List(items), limit),
    ensures
        limit > 0,
        forall|i: int| 0 <= i < items.len() ==> exact(#[trigger] items[i], (limit - 1) as nat),
{
    let j = Json::List(items);
    assert(j->List_0 == items);
    assert forall|i: int| 0 <= i < items.len() implies exact(
        #[trigger] items[i],
        (limit - 1) as nat,
    ) by {
        assert(j->List_0[i] == items[i]);
    }
}

proof fn lemma_object_exact_inside(f: Map<Seq<char>, Json>, limit: nat)
    requires
        exact(Json::Object(f), limit),
    ensures
        limit > 0,
        forall|k: Seq<char>| #[trigger] f.contains_key(k) ==> exact(f[k], (limit - 1) as nat),
{
    let j = Json::Object(f);
    assert(j->Object_0 == f);
    assert forall|k: Seq<char>| #[trigger] f.contains_key(k) implies exact(
        f[k],
        (limit - 1) as nat,
    ) by {
        assert(j->Object_0.contains_key(k));
    }
}

/// A text that gives a document back reads as that document wherever it holds no
/// floating-point number, and like it wherever it nests no deeper than can be read.
pub proof fn law_texts_that_give_back_are_read_back(said: Seq<char>, j: Json)
    requires
        gives_back(said, j),
    ensures
        exact(j, 127) ==> parsed(said) == Ok::<Json, Seq<char>>(j),
        nests_within(j, 127) ==> (parsed(said) matches Ok(d) && alike(d, j, 127)),
        reads_like(said, j) <==> (parsed(said) matches Ok(d) && alike(d, j, 127)),
        reads_as(said, j) <==> parsed(said) == Ok::<Json, Seq<char>>(j),
{
}

} // verus!
