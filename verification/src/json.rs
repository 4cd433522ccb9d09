//! A JSON document model.
//!
//! Payloads sent to a provider and responses received from one are JSON
//! trees. This module gives the library its own tree type, [`Json`], whose
//! structure the verifier can reason about, together with its mathematical
//! view [`JsonView`]. Object entries keep their insertion order, which some
//! providers depend on.
//!
//! Non-integer numbers are carried as [`serde_json::Number`] values: the
//! library never inspects them, it only places them into payloads and moves
//! them through.

use vstd::prelude::*;

use crate::strutil::str_eq;

verus! {

/// `serde_json::Number` is carried through payloads opaquely.
#[verifier::external_type_specification]
#[verifier::external_body]
pub struct ExNumber(serde_json::Number);

/// `serde_json::Value` appears in the signatures of the trusted conversion
/// functions below.
#[verifier::external_type_specification]
#[verifier::external_body]
pub struct ExValue(serde_json::Value);

/// Relies on `serde_json::Number`'s derived `Clone`: a clone is the same
/// number.
pub assume_specification[ <serde_json::Number as Clone>::clone ](n: &serde_json::Number) -> (r:
    serde_json::Number)
    ensures
        r == *n,
;

/// A JSON document. Objects are ordered lists of key/value entries.
#[derive(Debug, PartialEq)]
pub enum Json {
    /// The JSON `null` value.
    Null,
    /// A boolean.
    Bool(bool),
    /// An integer number.
    Int(i64),
    /// A non-integer number, carried opaquely.
    Num(serde_json::Number),
    /// A string.
    Str(String),
    /// An array.
    Arr(Vec<Json>),
    /// An object: entries in insertion order.
    Obj(Vec<(String, Json)>),
}

/// The mathematical shape of a [`Json`] document.
#[verifier::ext_equal]
pub enum JsonView {
    /// The JSON `null` value.
    Null,
    /// A boolean.
    Bool(bool),
    /// An integer number.
    Int(int),
    /// A non-integer number, opaque.
    Num(serde_json::Number),
    /// A string.
    Str(Seq<char>),
    /// An array.
    Arr(Seq<JsonView>),
    /// An object: entries in insertion order.
    Obj(Seq<(Seq<char>, JsonView)>),
}

impl Json {
    /// The view of a document: the same tree over mathematical types.
    pub open spec fn deep(self) -> JsonView
        decreases self, 1int,
    {
        match self {
            Json::Null => JsonView::Null,
            Json::Bool(b) => JsonView::Bool(b),
            Json::Int(i) => JsonView::Int(i as int),
            Json::Num(n) => JsonView::Num(n),
            Json::Str(s) => JsonView::Str(s@),
            Json::Arr(items) => JsonView::Arr(deep_seq(items@)),
            Json::Obj(entries) => JsonView::Obj(deep_entries(entries@)),
        }
    }
}

/// The views of a sequence of documents, elementwise.
pub open spec fn deep_seq(items: Seq<Json>) -> Seq<JsonView>
    decreases items, 0int,
{
    if items.len() == 0 {
        Seq::empty()
    } else {
        seq![items[0].deep()] + deep_seq(items.drop_first())
    }
}

/// The views of a sequence of object entries, elementwise.
pub open spec fn deep_entries(entries: Seq<(String, Json)>) -> Seq<(Seq<char>, JsonView)>
    decreases entries, 0int,
{
    if entries.len() == 0 {
        Seq::empty()
    } else {
        seq![(entries[0].0@, entries[0].1.deep())] + deep_entries(entries.drop_first())
    }
}

impl View for Json {
    type V = JsonView;

    open spec fn view(&self) -> JsonView {
        self.deep()
    }
}

/// The elementwise view keeps the length, and each element is the view of
/// the element in place.
pub broadcast proof fn lemma_deep_seq(items: Seq<Json>)
    ensures
        #[trigger] deep_seq(items).len() == items.len(),
        forall|i: int| 0 <= i < items.len() ==> deep_seq(items)[i] == items[i].deep(),
    decreases items.len(),
{
    if items.len() > 0 {
        lemma_deep_seq(items.drop_first());
    }
}

/// The elementwise view of entries keeps the length, and each entry's key
/// and value are viewed in place.
pub broadcast proof fn lemma_deep_entries(entries: Seq<(String, Json)>)
    ensures
        #[trigger] deep_entries(entries).len() == entries.len(),
        forall|i: int|
            0 <= i < entries.len() ==> deep_entries(entries)[i] == (
            entries[i].0@,
            entries[i].1.deep(),
            ),
    decreases entries.len(),
{
    if entries.len() > 0 {
        lemma_deep_entries(entries.drop_first());
    }
}

/// Appending a document appends its view.
pub broadcast proof fn lemma_deep_seq_push(items: Seq<Json>, j: Json)
    ensures
        #[trigger] deep_seq(items.push(j)) == deep_seq(items) + seq![j.deep()],
{
    lemma_deep_seq(items.push(j));
    lemma_deep_seq(items);
    assert(deep_seq(items.push(j)) =~= deep_seq(items) + seq![j.deep()]);
}

/// Appending an entry appends its view.
pub broadcast proof fn lemma_deep_entries_push(entries: Seq<(String, Json)>, e: (String, Json))
    ensures
        #[trigger] deep_entries(entries.push(e)) == deep_entries(entries) + seq![
            (e.0@, e.1.deep()),
        ],
{
    lemma_deep_entries(entries.push(e));
    lemma_deep_entries(entries);
    assert(deep_entries(entries.push(e)) =~= deep_entries(entries) + seq![(e.0@, e.1.deep())]);
}

/// Append one entry to an object's entry list.
pub fn push_entry(entries: &mut Vec<(String, Json)>, key: &str, value: Json)
    ensures
        deep_entries(final(entries)@) == deep_entries(old(entries)@) + seq![(key@, value.deep())],
{
    proof {
        broadcast use lemma_deep_entries_push;

    }
    entries.push((key.to_owned(), value));
}

/// An object of one entry.
pub fn json_obj1(k1: &str, v1: Json) -> (r: Json)
    ensures
        r.deep() == JsonView::Obj(seq![(k1@, v1.deep())]),
{
    let mut e: Vec<(String, Json)> = Vec::new();
    push_entry(&mut e, k1, v1);
    let ghost ev = e@;
    let r = Json::Obj(e);
    proof {
        assert(deep_entries(ev) =~= seq![(k1@, v1.deep())]);
    }
    r
}

/// An object of two entries, in order.
pub fn json_obj2(k1: &str, v1: Json, k2: &str, v2: Json) -> (r: Json)
    ensures
        r.deep() == JsonView::Obj(seq![(k1@, v1.deep()), (k2@, v2.deep())]),
{
    let mut e: Vec<(String, Json)> = Vec::new();
    push_entry(&mut e, k1, v1);
    push_entry(&mut e, k2, v2);
    let ghost ev = e@;
    let r = Json::Obj(e);
    proof {
        assert(deep_entries(ev) =~= seq![(k1@, v1.deep()), (k2@, v2.deep())]);
    }
    r
}

/// An object of three entries, in order.
pub fn json_obj3(k1: &str, v1: Json, k2: &str, v2: Json, k3: &str, v3: Json) -> (r: Json)
    ensures
        r.deep() == JsonView::Obj(seq![(k1@, v1.deep()), (k2@, v2.deep()), (k3@, v3.deep())]),
{
    let mut e: Vec<(String, Json)> = Vec::new();
    push_entry(&mut e, k1, v1);
    push_entry(&mut e, k2, v2);
    push_entry(&mut e, k3, v3);
    let ghost ev = e@;
    let r = Json::Obj(e);
    proof {
        assert(deep_entries(ev) =~= seq![(k1@, v1.deep()), (k2@, v2.deep()), (k3@, v3.deep())]);
    }
    r
}

/// An object of four entries, in order.
pub fn json_obj4(
    k1: &str,
    v1: Json,
    k2: &str,
    v2: Json,
    k3: &str,
    v3: Json,
    k4: &str,
    v4: Json,
) -> (r: Json)
    ensures
        r.deep() == JsonView::Obj(
            seq![(k1@, v1.deep()), (k2@, v2.deep()), (k3@, v3.deep()), (k4@, v4.deep())],
        ),
{
    let mut e: Vec<(String, Json)> = Vec::new();
    push_entry(&mut e, k1, v1);
    push_entry(&mut e, k2, v2);
    push_entry(&mut e, k3, v3);
    push_entry(&mut e, k4, v4);
    let ghost ev = e@;
    let r = Json::Obj(e);
    proof {
        assert(deep_entries(ev) =~= seq![
            (k1@, v1.deep()),
            (k2@, v2.deep()),
            (k3@, v3.deep()),
            (k4@, v4.deep()),
        ]);
    }
    r
}

/// An array of one element.
pub fn json_arr1(v1: Json) -> (r: Json)
    ensures
        r.deep() == JsonView::Arr(seq![v1.deep()]),
{
    let mut items: Vec<Json> = Vec::new();
    items.push(v1);
    let ghost iv = items@;
    let r = Json::Arr(items);
    proof {
        lemma_deep_seq(iv);
        assert(deep_seq(iv) =~= seq![iv[0].deep()]);
    }
    r
}

/// The value at `key` among object entries: the value of the first entry
/// whose key matches, or `Null` when no entry matches.
pub open spec fn entries_index(es: Seq<(Seq<char>, JsonView)>, key: Seq<char>) -> JsonView
    decreases es.len(),
{
    if es.len() == 0 {
        JsonView::Null
    } else if es[0].0 == key {
        es[0].1
    } else {
        entries_index(es.drop_first(), key)
    }
}

/// Whether some object entry has the given key.
pub open spec fn entries_has_key(es: Seq<(Seq<char>, JsonView)>, key: Seq<char>) -> bool {
    exists|i: int| 0 <= i < es.len() && es[i].0 == key
}

/// Indexing a document by key: the first matching entry of an object, and
/// `Null` on a missing key or a non-object, as providers' responses are
/// conventionally read.
pub open spec fn json_index(j: JsonView, key: Seq<char>) -> JsonView {
    match j {
        JsonView::Obj(es) => entries_index(es, key),
        _ => JsonView::Null,
    }
}

/// Whether the document is an object with an entry at the given key.
pub open spec fn json_has_key(j: JsonView, key: Seq<char>) -> bool {
    match j {
        JsonView::Obj(es) => entries_has_key(es, key),
        _ => false,
    }
}

/// A key is found among concatenated entries exactly when either part
/// holds it.
pub broadcast proof fn lemma_entries_has_key_concat(
    a: Seq<(Seq<char>, JsonView)>,
    b: Seq<(Seq<char>, JsonView)>,
    key: Seq<char>,
)
    ensures
        #[trigger] entries_has_key(a + b, key) == (entries_has_key(a, key) || entries_has_key(
            b,
            key,
        )),
{
    if entries_has_key(a + b, key) {
        let w = choose|w: int| 0 <= w < (a + b).len() && (a + b)[w].0 == key;
        if w < a.len() {
            assert(a[w] == (a + b)[w]);
        } else {
            assert(b[w - a.len()] == (a + b)[w]);
        }
    }
    if entries_has_key(a, key) {
        let w = choose|w: int| 0 <= w < a.len() && a[w].0 == key;
        assert((a + b)[w] == a[w]);
    }
    if entries_has_key(b, key) {
        let w = choose|w: int| 0 <= w < b.len() && b[w].0 == key;
        assert((a + b)[w + a.len()] == b[w]);
    }
}

/// Indexing concatenated entries reads the left part when it holds the
/// key, and the right part otherwise.
pub broadcast proof fn lemma_entries_index_concat(
    a: Seq<(Seq<char>, JsonView)>,
    b: Seq<(Seq<char>, JsonView)>,
    key: Seq<char>,
)
    ensures
        #[trigger] entries_index(a + b, key) == (if entries_has_key(a, key) {
            entries_index(a, key)
        } else {
            entries_index(b, key)
        }),
    decreases a.len(),
{
    if a.len() == 0 {
        assert(a + b =~= b);
    } else {
        lemma_entries_index_concat(a.drop_first(), b, key);
        assert((a + b).drop_first() =~= a.drop_first() + b);
        if a[0].0 != key {
            assert(entries_has_key(a, key) == entries_has_key(a.drop_first(), key)) by {
                if entries_has_key(a, key) {
                    let w = choose|w: int| 0 <= w < a.len() && a[w].0 == key;
                    assert(a.drop_first()[w - 1] == a[w]);
                }
                if entries_has_key(a.drop_first(), key) {
                    let w = choose|w: int|
                        0 <= w < a.drop_first().len() && a.drop_first()[w].0 == key;
                    assert(a[w + 1] == a.drop_first()[w]);
                }
            }
        }
    }
}

/// A key is found in a one-entry list exactly when that entry holds it.
pub proof fn lemma_has_key_single(e0: (Seq<char>, JsonView), probe: Seq<char>)
    ensures
        entries_has_key(seq![e0], probe) == (e0.0 == probe),
{
    if e0.0 == probe {
        assert(seq![e0][0].0 == probe);
    }
    if entries_has_key(seq![e0], probe) {
        let w = choose|w: int| 0 <= w < seq![e0].len() && seq![e0][w].0 == probe;
        assert(seq![e0][w] == e0);
    }
}

/// A key is found in a two-entry list exactly when one of the entries
/// holds it.
pub proof fn lemma_has_key_pair(
    e0: (Seq<char>, JsonView),
    e1: (Seq<char>, JsonView),
    probe: Seq<char>,
)
    ensures
        entries_has_key(seq![e0, e1], probe) == (e0.0 == probe || e1.0 == probe),
{
    if e0.0 == probe {
        assert(seq![e0, e1][0].0 == probe);
    }
    if e1.0 == probe {
        assert(seq![e0, e1][1].0 == probe);
    }
    if entries_has_key(seq![e0, e1], probe) {
        let w = choose|w: int| 0 <= w < seq![e0, e1].len() && seq![e0, e1][w].0 == probe;
        assert(w == 0 || w == 1);
    }
}

/// A key is found in a three-entry list exactly when one of the entries
/// holds it.
pub proof fn lemma_has_key_triple(
    e0: (Seq<char>, JsonView),
    e1: (Seq<char>, JsonView),
    e2: (Seq<char>, JsonView),
    probe: Seq<char>,
)
    ensures
        entries_has_key(seq![e0, e1, e2], probe) == (e0.0 == probe || e1.0 == probe || e2.0
            == probe),
{
    if e0.0 == probe {
        assert(seq![e0, e1, e2][0].0 == probe);
    }
    if e1.0 == probe {
        assert(seq![e0, e1, e2][1].0 == probe);
    }
    if e2.0 == probe {
        assert(seq![e0, e1, e2][2].0 == probe);
    }
    if entries_has_key(seq![e0, e1, e2], probe) {
        let w = choose|w: int|
            0 <= w < seq![e0, e1, e2].len() && seq![e0, e1, e2][w].0 == probe;
        assert(w == 0 || w == 1 || w == 2);
    }
}

/// Indexing a two-entry list reads the first matching entry.
pub proof fn lemma_index_pair(
    e0: (Seq<char>, JsonView),
    e1: (Seq<char>, JsonView),
    probe: Seq<char>,
)
    ensures
        entries_index(seq![e0, e1], probe) == (if e0.0 == probe {
            e0.1
        } else if e1.0 == probe {
            e1.1
        } else {
            JsonView::Null
        }),
{
    reveal_with_fuel(entries_index, 3);
    assert(seq![e0, e1].drop_first() =~= seq![e1]);
    assert(seq![e1].drop_first() =~= Seq::<(Seq<char>, JsonView)>::empty());
}

/// Indexing a three-entry list reads the first matching entry.
pub proof fn lemma_index_triple(
    e0: (Seq<char>, JsonView),
    e1: (Seq<char>, JsonView),
    e2: (Seq<char>, JsonView),
    probe: Seq<char>,
)
    ensures
        entries_index(seq![e0, e1, e2], probe) == (if e0.0 == probe {
            e0.1
        } else if e1.0 == probe {
            e1.1
        } else if e2.0 == probe {
            e2.1
        } else {
            JsonView::Null
        }),
{
    assert(seq![e0, e1, e2].drop_first() =~= seq![e1, e2]);
    lemma_index_pair(e1, e2, probe);
}

/// Indexing skips a prefix of entries whose keys all differ from `key`.
proof fn lemma_entries_index_skip(es: Seq<(Seq<char>, JsonView)>, key: Seq<char>, i: int)
    requires
        0 <= i <= es.len(),
        forall|j: int| 0 <= j < i ==> es[j].0 != key,
    ensures
        entries_index(es, key) == entries_index(es.skip(i), key),
        entries_has_key(es, key) == entries_has_key(es.skip(i), key),
    decreases i,
{
    if i == 0 {
        assert(es.skip(0) =~= es);
    } else {
        let rest = es.drop_first();
        assert forall|j: int| 0 <= j < i - 1 implies rest[j].0 != key by {
            assert(rest[j] == es[j + 1]);
        }
        lemma_entries_index_skip(rest, key, i - 1);
        assert(rest.skip(i - 1) =~= es.skip(i));
        assert(entries_has_key(es, key) == entries_has_key(rest, key)) by {
            if entries_has_key(es, key) {
                let w = choose|w: int| 0 <= w < es.len() && es[w].0 == key;
                assert(rest[w - 1] == es[w]);
            }
            if entries_has_key(rest, key) {
                let w = choose|w: int| 0 <= w < rest.len() && rest[w].0 == key;
                assert(es[w + 1] == rest[w]);
            }
        }
    }
}

impl Json {
    /// Whether this document is `Null`.
    pub fn is_null(&self) -> (r: bool)
        ensures
            r == (self.deep() == JsonView::Null),
    {
        match self {
            Json::Null => true,
            _ => false,
        }
    }

    /// The string content, when the document is a string.
    pub fn as_str(&self) -> (r: Option<&String>)
        ensures
            match r {
                Some(s) => self.deep() == JsonView::Str(s@),
                None => !(self.deep() matches JsonView::Str(_)),
            },
    {
        match self {
            Json::Str(s) => Some(s),
            _ => None,
        }
    }

    /// The elements, when the document is an array.
    pub fn as_array(&self) -> (r: Option<&Vec<Json>>)
        ensures
            match r {
                Some(items) => self.deep() == JsonView::Arr(deep_seq(items@)),
                None => !(self.deep() matches JsonView::Arr(_)),
            },
    {
        match self {
            Json::Arr(items) => Some(items),
            _ => None,
        }
    }

    /// The entries, when the document is an object.
    pub fn as_object(&self) -> (r: Option<&Vec<(String, Json)>>)
        ensures
            match r {
                Some(entries) => self.deep() == JsonView::Obj(deep_entries(entries@)),
                None => !(self.deep() matches JsonView::Obj(_)),
            },
    {
        match self {
            Json::Obj(entries) => Some(entries),
            _ => None,
        }
    }

    /// Look a key up: the first matching entry of an object, or nothing
    /// when the key is absent or the document is not an object.
    pub fn get<'a>(&'a self, key: &str) -> (r: Option<&'a Json>)
        ensures
            match r {
                Some(v) => json_has_key(self.deep(), key@) && v.deep() == json_index(
                    self.deep(),
                    key@,
                ),
                None => !json_has_key(self.deep(), key@) && json_index(self.deep(), key@)
                    == JsonView::Null,
            },
    {
        broadcast use lemma_deep_entries;

        match self {
            Json::Obj(entries) => {
                let ghost es = deep_entries(entries@);
                let n = entries.len();
                for i in 0..n
                    invariant
                        n == entries.len(),
                        es == deep_entries(entries@),
                        es.len() == n,
                        self.deep() == JsonView::Obj(es),
                        forall|j: int| 0 <= j < i ==> es[j].0 != key@,
                {
                    let e = &entries[i];
                    proof {
                        lemma_deep_entries(entries@);
                    }
                    if str_eq(e.0.as_str(), key) {
                        proof {
                            lemma_entries_index_skip(es, key@, i as int);
                            assert(es.subrange(i as int, es.len() as int)[0] == es[i as int]);
                        }
                        return Some(&entries[i].1);
                    }
                }
                proof {
                    lemma_entries_index_skip(es, key@, n as int);
                    assert(es.skip(n as int) =~= Seq::<(Seq<char>, JsonView)>::empty());
                }
                None
            },
            _ => None,
        }
    }

    /// A copy of the document, with the same view.
    pub fn deep_clone(&self) -> (r: Json)
        ensures
            r.deep() == self.deep(),
        decreases self.deep(),
    {
        match self {
            Json::Null => Json::Null,
            Json::Bool(b) => Json::Bool(*b),
            Json::Int(i) => Json::Int(*i),
            Json::Num(n) => Json::Num(n.clone()),
            Json::Str(s) => Json::Str(s.clone()),
            Json::Arr(items) => {
                let n = items.len();
                let mut out: Vec<Json> = Vec::new();
                for i in 0..n
                    invariant
                        n == items.len(),
                        self.deep() == JsonView::Arr(deep_seq(items@)),
                        out@.len() == i,
                        forall|j: int| 0 <= j < i ==> out@[j].deep() == items@[j].deep(),
                    decreases n - i,
                {
                    proof {
                        lemma_deep_seq(items@);
                        let ghost jv = self.deep();
                        assert(decreases_to!(jv => jv->Arr_0));
                        assert(decreases_to!(deep_seq(items@) => deep_seq(items@)[i as int]));
                    }
                    out.push(items[i].deep_clone());
                }
                proof {
                    lemma_deep_seq(items@);
                    lemma_deep_seq(out@);
                    assert(deep_seq(out@) =~= deep_seq(items@));
                }
                Json::Arr(out)
            },
            Json::Obj(entries) => {
                let n = entries.len();
                let mut out: Vec<(String, Json)> = Vec::new();
                for i in 0..n
                    invariant
                        n == entries.len(),
                        self.deep() == JsonView::Obj(deep_entries(entries@)),
                        out@.len() == i,
                        forall|j: int|
                            0 <= j < i ==> out@[j].0@ == entries@[j].0@ && out@[j].1.deep()
                                == entries@[j].1.deep(),
                    decreases n - i,
                {
                    proof {
                        lemma_deep_entries(entries@);
                        let ghost jv = self.deep();
                        assert(decreases_to!(jv => jv->Obj_0));
                        assert(decreases_to!(
                            deep_entries(entries@) => deep_entries(entries@)[i as int]));
                        assert(decreases_to!(
                            deep_entries(entries@)[i as int] => deep_entries(
                                entries@,
                            )[i as int].1));
                    }
                    let e = &entries[i];
                    out.push((e.0.clone(), e.1.deep_clone()));
                }
                proof {
                    lemma_deep_entries(entries@);
                    lemma_deep_entries(out@);
                    assert(deep_entries(out@) =~= deep_entries(entries@));
                }
                Json::Obj(out)
            },
        }
    }
}

/// A copy of a list of documents, with the same views.
pub fn clone_json_list(items: &Vec<Json>) -> (r: Vec<Json>)
    ensures
        deep_seq(r@) == deep_seq(items@),
{
    let n = items.len();
    let mut out: Vec<Json> = Vec::new();
    for i in 0..n
        invariant
            n == items.len(),
            out@.len() == i,
            forall|j: int| 0 <= j < i ==> out@[j].deep() == items@[j].deep(),
    {
        out.push(items[i].deep_clone());
    }
    proof {
        lemma_deep_seq(out@);
        lemma_deep_seq(items@);
        assert(deep_seq(out@) =~= deep_seq(items@));
    }
    out
}

/// What `serde_json` parses a JSON text into: the document on success, the
/// parser's message otherwise. A parse is a function of the text alone.
pub uninterp spec fn json_parse(text: Seq<char>) -> Result<JsonView, Seq<char>>;

/// Relies on `serde_json::from_str::<serde_json::Value>`: parsing a JSON
/// text yields a document determined by the text alone, named `json_parse`.
#[verifier::external_body]
pub fn parse_json(text: &str) -> (r: Result<Json, String>)
    ensures
        match r {
            Ok(j) => json_parse(text@) == Ok::<JsonView, Seq<char>>(j.deep()),
            Err(e) => json_parse(text@) == Err::<JsonView, Seq<char>>(e@),
        },
{
    match serde_json::from_str::<serde_json::Value>(text) {
        Ok(v) => Ok(json_of_value(v)),
        Err(e) => Err(e.to_string()),
    }
}

/// Relies on the shape of `serde_json::Value`: each variant is carried
/// across into the library's tree, one arm each; object entries come in the
/// deterministic order the map iterates in.
#[verifier::external_body]
fn json_of_value(v: serde_json::Value) -> Json {
    match v {
        serde_json::Value::Null => Json::Null,
        serde_json::Value::Bool(b) => Json::Bool(b),
        serde_json::Value::Number(n) => Json::Num(n),
        serde_json::Value::String(s) => Json::Str(s),
        serde_json::Value::Array(items) => Json::Arr(items.into_iter().map(json_of_value).collect()),
        serde_json::Value::Object(m) => Json::Obj(
            m.into_iter().map(|(k, x)| (k, json_of_value(x))).collect(),
        ),
    }
}

} // verus!
