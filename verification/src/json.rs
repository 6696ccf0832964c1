//! A plain JSON value model used throughout the library, with its mathematical view.

use crate::registry::{
    assoc_get, assoc_set, lemma_assoc_get_push, lemma_assoc_set_absent, lemma_assoc_set_at,
};
use crate::text::string_of;
use serde_json::Value;
use vstd::prelude::*;

verus! {

/// A JSON number as carried on the wire.
#[derive(Debug)]
pub enum JsonNumber {
    /// A non-negative integer.
    PosInt(u64),
    /// A negative integer.
    NegInt(i64),
    /// Any other number, kept in its decimal text form.
    Float(String),
}

/// A JSON value.
#[derive(Debug)]
pub enum Json {
    Null,
    Bool(bool),
    Number(JsonNumber),
    Str(String),
    Array(Vec<Json>),
    Object(Vec<(String, Json)>),
}

/// The mathematical view of a [`JsonNumber`].
pub enum NumberView {
    PosInt(u64),
    NegInt(i64),
    Float(Seq<char>),
}

/// The mathematical view of a [`Json`] value.
pub enum JsonView {
    Null,
    Bool(bool),
    Number(NumberView),
    Str(Seq<char>),
    Array(Seq<JsonView>),
    Object(Seq<(Seq<char>, JsonView)>),
}

impl View for JsonNumber {
    type V = NumberView;

    open spec fn view(&self) -> NumberView {
        match self {
            JsonNumber::PosInt(n) => NumberView::PosInt(*n),
            JsonNumber::NegInt(n) => NumberView::NegInt(*n),
            JsonNumber::Float(s) => NumberView::Float(s@),
        }
    }
}

pub open spec fn view_array(s: Seq<Json>) -> Seq<JsonView>
    decreases s,
{
    if s.len() == 0 {
        Seq::empty()
    } else {
        view_array(s.drop_last()).push(json_view(s.last()))
    }
}

pub open spec fn view_entries(s: Seq<(String, Json)>) -> Seq<(Seq<char>, JsonView)>
    decreases s,
{
    if s.len() == 0 {
        Seq::empty()
    } else {
        view_entries(s.drop_last()).push((s.last().0@, json_view(s.last().1)))
    }
}

pub open spec fn json_view(j: Json) -> JsonView
    decreases j,
{
    match j {
        Json::Null => JsonView::Null,
        Json::Bool(b) => JsonView::Bool(b),
        Json::Number(n) => JsonView::Number(n@),
        Json::Str(s) => JsonView::Str(s@),
        Json::Array(v) => JsonView::Array(view_array(v@)),
        Json::Object(e) => JsonView::Object(view_entries(e@)),
    }
}

impl View for Json {
    type V = JsonView;

    open spec fn view(&self) -> JsonView {
        json_view(*self)
    }
}


/// The view of an array keeps its length and views each element in place.
pub proof fn lemma_view_array(s: Seq<Json>)
    ensures
        view_array(s).len() == s.len(),
        forall|i: int| 0 <= i < s.len() ==> #[trigger] view_array(s)[i] == json_view(s[i]),
    decreases s.len(),
{
    if s.len() > 0 {
        lemma_view_array(s.drop_last());
    }
}

/// The view of an object's entries keeps its length and views each entry in place.
pub proof fn lemma_view_entries(s: Seq<(String, Json)>)
    ensures
        view_entries(s).len() == s.len(),
        forall|i: int|
            0 <= i < s.len() ==> #[trigger] view_entries(s)[i] == (s[i].0@, json_view(s[i].1)),
    decreases s.len(),
{
    if s.len() > 0 {
        lemma_view_entries(s.drop_last());
    }
}

impl JsonView {
    /// Member lookup; `None` unless this is an object holding the key.
    pub open spec fn get(self, key: Seq<char>) -> Option<JsonView> {
        match self {
            JsonView::Object(es) => assoc_get(es, key),
            _ => None,
        }
    }

    pub open spec fn as_str(self) -> Option<Seq<char>> {
        match self {
            JsonView::Str(s) => Some(s),
            _ => None,
        }
    }

    pub open spec fn as_bool(self) -> Option<bool> {
        match self {
            JsonView::Bool(b) => Some(b),
            _ => None,
        }
    }

    pub open spec fn as_u64(self) -> Option<u64> {
        match self {
            JsonView::Number(NumberView::PosInt(n)) => Some(n),
            _ => None,
        }
    }

    pub open spec fn as_i64(self) -> Option<i64> {
        match self {
            JsonView::Number(NumberView::PosInt(n)) => if n <= i64::MAX {
                Some(n as i64)
            } else {
                None
            },
            JsonView::Number(NumberView::NegInt(n)) => Some(n),
            _ => None,
        }
    }

    /// A string member, if the value is an object holding a string under `key`.
    pub open spec fn get_str(self, key: Seq<char>) -> Option<Seq<char>> {
        match self.get(key) {
            Some(v) => v.as_str(),
            None => None,
        }
    }

    pub open spec fn get_bool(self, key: Seq<char>) -> Option<bool> {
        match self.get(key) {
            Some(v) => v.as_bool(),
            None => None,
        }
    }

    pub open spec fn get_u64(self, key: Seq<char>) -> Option<u64> {
        match self.get(key) {
            Some(v) => v.as_u64(),
            None => None,
        }
    }

    pub open spec fn get_i64(self, key: Seq<char>) -> Option<i64> {
        match self.get(key) {
            Some(v) => v.as_i64(),
            None => None,
        }
    }
}

/// String equality; `str`'s `==`.
#[verifier::external_body]
pub(crate) fn str_eq(a: &str, b: &str) -> (r: bool)
    ensures
        r == (a@ == b@),
{
    a == b
}

impl Json {
    /// Member lookup (`serde_json::Value::get` with a string key).
    pub fn get(&self, key: &str) -> (r: Option<&Json>)
        ensures
            match r {
                Some(v) => self@.get(key@) == Some(v@),
                None => self@.get(key@) is None,
            },
    {
        match self {
            Json::Object(es) => {
                proof {
                    lemma_view_entries(es@);
                }
                let ghost ves = view_entries(es@);
                let mut i: usize = 0;
                assert(ves.skip(0) =~= ves);
                while i < es.len()
                    invariant
                        0 <= i <= es.len(),
                        ves == view_entries(es@),
                        self@ == JsonView::Object(ves),
                        ves.len() == es@.len(),
                        forall|j: int|
                            0 <= j < es@.len() ==> #[trigger] ves[j] == (es@[j].0@, json_view(
                                es@[j].1,
                            )),
                        assoc_get(ves, key@) == assoc_get(ves.skip(i as int), key@),
                    decreases es.len() - i,
                {
                    assert(ves.skip(i as int).drop_first() =~= ves.skip(i + 1));
                    assert(ves.skip(i as int)[0] == ves[i as int]);
                    if str_eq(es[i].0.as_str(), key) {
                        assert(ves.skip(i as int).len() > 0);
                        assert(assoc_get(ves.skip(i as int), key@) == Some(ves[i as int].1));
                        return Some(&es[i].1);
                    }
                    i = i + 1;
                }
                None
            },
            _ => None,
        }
    }

    pub fn as_str(&self) -> (r: Option<&str>)
        ensures
            match r {
                Some(s) => self@.as_str() == Some(s@),
                None => self@.as_str() is None,
            },
    {
        match self {
            Json::Str(s) => Some(s.as_str()),
            _ => None,
        }
    }

    pub fn as_bool(&self) -> (r: Option<bool>)
        ensures
            r == self@.as_bool(),
    {
        match self {
            Json::Bool(b) => Some(*b),
            _ => None,
        }
    }

    pub fn as_u64(&self) -> (r: Option<u64>)
        ensures
            r == self@.as_u64(),
    {
        match self {
            Json::Number(JsonNumber::PosInt(n)) => Some(*n),
            _ => None,
        }
    }

    pub fn as_i64(&self) -> (r: Option<i64>)
        ensures
            r == self@.as_i64(),
    {
        match self {
            Json::Number(JsonNumber::PosInt(n)) => if *n <= 0x7fff_ffff_ffff_ffffu64 {
                Some(*n as i64)
            } else {
                None
            },
            Json::Number(JsonNumber::NegInt(n)) => Some(*n),
            _ => None,
        }
    }

    pub fn is_object(&self) -> (r: bool)
        ensures
            r == (self@ is Object),
    {
        match self {
            Json::Object(_) => true,
            _ => false,
        }
    }

    pub fn is_null(&self) -> (r: bool)
        ensures
            r == (self@ is Null),
    {
        match self {
            Json::Null => true,
            _ => false,
        }
    }

    /// A string member (`value.get(key).and_then(|v| v.as_str())`).
    pub fn get_str(&self, key: &str) -> (r: Option<&str>)
        ensures
            match r {
                Some(s) => self@.get_str(key@) == Some(s@),
                None => self@.get_str(key@) is None,
            },
    {
        match self.get(key) {
            Some(v) => v.as_str(),
            None => None,
        }
    }

    pub fn get_bool(&self, key: &str) -> (r: Option<bool>)
        ensures
            r == self@.get_bool(key@),
    {
        match self.get(key) {
            Some(v) => v.as_bool(),
            None => None,
        }
    }

    pub fn get_u64(&self, key: &str) -> (r: Option<u64>)
        ensures
            r == self@.get_u64(key@),
    {
        match self.get(key) {
            Some(v) => v.as_u64(),
            None => None,
        }
    }

    pub fn get_i64(&self, key: &str) -> (r: Option<i64>)
        ensures
            r == self@.get_i64(key@),
    {
        match self.get(key) {
            Some(v) => v.as_i64(),
            None => None,
        }
    }
}


impl Clone for Json {
    fn clone(&self) -> (r: Json)
        ensures
            r@ == self@,
    {
        self.deep_clone()
    }
}

impl JsonNumber {
    pub fn deep_clone(&self) -> (r: JsonNumber)
        ensures
            r@ == self@,
    {
        match self {
            JsonNumber::PosInt(n) => JsonNumber::PosInt(*n),
            JsonNumber::NegInt(n) => JsonNumber::NegInt(*n),
            JsonNumber::Float(s) => JsonNumber::Float(s.clone()),
        }
    }
}

impl Json {
    /// A JSON string holding `s`.
    pub fn string(s: &str) -> (r: Json)
        ensures
            r@ == JsonView::Str(s@),
    {
        Json::Str(string_of(s))
    }

    /// An empty JSON object.
    pub fn empty_object() -> (r: Json)
        ensures
            r@ == JsonView::Object(Seq::empty()),
    {
        let r = Json::Object(Vec::new());
        assert(view_entries(Seq::<(String, Json)>::empty()) =~= Seq::empty());
        r
    }

    /// A copy of this value.
    pub fn deep_clone(&self) -> (r: Json)
        ensures
            r@ == self@,
        decreases self,
    {
        match self {
            Json::Null => Json::Null,
            Json::Bool(b) => Json::Bool(*b),
            Json::Number(n) => Json::Number(n.deep_clone()),
            Json::Str(s) => Json::Str(s.clone()),
            Json::Array(v) => {
                let mut out: Vec<Json> = Vec::new();
                let mut i: usize = 0;
                proof {
                    lemma_view_array(v@);
                }
                while i < v.len()
                    invariant
                        0 <= i <= v.len(),
                        *self == Json::Array(*v),
                        out@.len() == i,
                        view_array(v@).len() == v@.len(),
                        forall|j: int|
                            0 <= j < v@.len() ==> #[trigger] view_array(v@)[j] == json_view(
                                v@[j],
                            ),
                        forall|j: int| 0 <= j < i ==> #[trigger] json_view(out@[j]) == json_view(v@[j]),
                    decreases v.len() - i,
                {
                    proof {
                        vstd::std_specs::vec::axiom_vec_index_decreases(*v, i as int);
                        assert(decreases_to!(*self => (*self)->Array_0));
                    }
                    let c = v[i].deep_clone();
                    out.push(c);
                    i = i + 1;
                }
                proof {
                    lemma_view_array(out@);
                    assert(view_array(out@) =~= view_array(v@));
                }
                Json::Array(out)
            },
            Json::Object(es) => {
                let mut out: Vec<(String, Json)> = Vec::new();
                let mut i: usize = 0;
                proof {
                    lemma_view_entries(es@);
                }
                while i < es.len()
                    invariant
                        0 <= i <= es.len(),
                        *self == Json::Object(*es),
                        out@.len() == i,
                        view_entries(es@).len() == es@.len(),
                        forall|j: int|
                            0 <= j < es@.len() ==> #[trigger] view_entries(es@)[j] == (
                                es@[j].0@,
                                json_view(es@[j].1),
                            ),
                        forall|j: int|
                            0 <= j < i ==> #[trigger] out@[j].0@ == es@[j].0@ && json_view(
                                out@[j].1,
                            ) == json_view(es@[j].1),
                    decreases es.len() - i,
                {
                    let k = es[i].0.clone();
                    proof {
                        vstd::std_specs::vec::axiom_vec_index_decreases(*es, i as int);
                        assert(decreases_to!(*self => (*self)->Object_0));
                        assert(decreases_to!(es[i as int] => es[i as int].1));
                    }
                    let c = es[i].1.deep_clone();
                    out.push((k, c));
                    i = i + 1;
                }
                proof {
                    lemma_view_entries(out@);
                    assert(view_entries(out@) =~= view_entries(es@));
                }
                Json::Object(out)
            },
        }
    }

    /// Sets member `key` of an object to `value` (`value[key] = v` on a `serde_json::Value`):
    /// `null` first becomes an empty object.
    pub fn set(&mut self, key: &str, value: Json)
        requires
            old(self)@ is Object || old(self)@ is Null,
        ensures
            final(self)@ == JsonView::Object(
                assoc_set(
                    if old(self)@ is Object {
                        old(self)@->Object_0
                    } else {
                        Seq::empty()
                    },
                    key@,
                    value@,
                ),
            ),
    {
        if let Json::Null = self {
            let mut es: Vec<(String, Json)> = Vec::new();
            assert(view_entries(es@) =~= Seq::empty());
            entries_set(&mut es, key, value);
            *self = Json::Object(es);
            return;
        }
        match self {
            Json::Object(es) => entries_set(es, key, value),
            _ => {},
        }
    }
}

/// Sets `key` to `value` in the entries of an object.
fn entries_set(es: &mut Vec<(String, Json)>, key: &str, value: Json)
    ensures
        view_entries(final(es)@) == assoc_set(view_entries(old(es)@), key@, value@),
{
    let ghost v = value@;
    proof {
        lemma_view_entries(es@);
    }
    let ghost ves = view_entries(es@);
    let n = es.len();
    let mut i: usize = 0;
    while i < n
        invariant
            0 <= i <= n,
            n == es@.len(),
            *es == *old(es),
            ves == view_entries(es@),
            ves.len() == n,
            forall|j: int| 0 <= j < n ==> #[trigger] ves[j] == (es@[j].0@, json_view(es@[j].1)),
            forall|j: int| 0 <= j < i ==> ves[j].0 != key@,
            v == value@,
        decreases n - i,
    {
        if str_eq(es[i].0.as_str(), key) {
            let ghost pre = es@;
            let k = string_of(key);
            es.set(i, (k, value));
            proof {
                lemma_assoc_set_at(ves, key@, v, i as int);
                lemma_view_entries(es@);
                assert forall|j: int| 0 <= j < n implies view_entries(es@)[j] == ves.update(
                    i as int,
                    (key@, v),
                )[j] by {
                    if j != i {
                        assert(es@[j] == pre[j]);
                        assert(ves[j] == (pre[j].0@, json_view(pre[j].1)));
                    }
                }
                assert(view_entries(es@) =~= ves.update(i as int, (key@, v)));
            }
            return;
        }
        i = i + 1;
    }
    es.push((string_of(key), value));
    proof {
        lemma_assoc_set_absent(ves, key@, v);
        lemma_view_entries(es@);
        assert(view_entries(es@) =~= ves.push((key@, v)));
    }
}


#[verifier::external_type_specification]
#[verifier::external_body]
pub struct ExSerdeValue(serde_json::Value);

#[verifier::external_type_specification]
#[verifier::external_body]
pub struct ExSerdeNumber(serde_json::Number);

/// Rebuilds a `serde_json::Value` as a [`Json`], variant for variant.
#[verifier::external_body]
fn from_serde(v: Value) -> Json {
    match v {
        Value::Null => Json::Null,
        Value::Bool(b) => Json::Bool(b),
        Value::Number(n) => Json::Number(number_from_serde(n)),
        Value::String(s) => Json::Str(s),
        Value::Array(a) => Json::Array(a.into_iter().map(from_serde).collect()),
        Value::Object(m) => Json::Object(m.into_iter().map(|(k, x)| (k, from_serde(x))).collect()),
    }
}

/// Rebuilds a `serde_json::Number` as a [`JsonNumber`], telling its three representations
/// apart (`as_u64` holds exactly for the non-negative integers, `as_i64` then for the
/// negative ones).
#[verifier::external_body]
fn number_from_serde(n: serde_json::Number) -> JsonNumber {
    match (n.as_u64(), n.as_i64()) {
        (Some(u), _) => JsonNumber::PosInt(u),
        (None, Some(i)) => JsonNumber::NegInt(i),
        (None, None) => JsonNumber::Float(n.to_string()),
    }
}

/// Rebuilds a [`Json`] as a `serde_json::Value`, variant for variant.
#[verifier::external_body]
fn to_serde(j: &Json) -> Value {
    match j {
        Json::Null => Value::Null,
        Json::Bool(b) => Value::Bool(*b),
        Json::Number(n) => number_to_serde(n),
        Json::Str(s) => Value::String(s.clone()),
        Json::Array(a) => Value::Array(a.iter().map(to_serde).collect()),
        Json::Object(es) => Value::Object(es.iter().map(|(k, x)| (k.clone(), to_serde(x))).collect()),
    }
}

/// Rebuilds a [`JsonNumber`] as a `serde_json::Value` number; decimal text that is not a
/// JSON number becomes null.
#[verifier::external_body]
fn number_to_serde(n: &JsonNumber) -> Value {
    match n {
        JsonNumber::PosInt(u) => Value::from(*u),
        JsonNumber::NegInt(i) => Value::from(*i),
        JsonNumber::Float(t) => t.parse::<serde_json::Number>().map(Value::Number).unwrap_or(Value::Null),
    }
}

/// What `serde_json::from_str::<serde_json::Value>` yields for a text, `None` standing for its
/// error.
pub uninterp spec fn json_parse(text: Seq<char>) -> Option<JsonView>;

/// The compact text that `serde_json::to_string` writes for a value.
pub uninterp spec fn json_serialize(v: JsonView) -> Seq<char>;

/// Parses JSON text with `serde_json::from_str`; the contract names the result and says
/// nothing more of it.
#[verifier::external_body]
pub fn parse_json_text(text: &str) -> (r: Option<Json>)
    ensures
        match r {
            Some(j) => json_parse(text@) == Some(j@),
            None => json_parse(text@) is None,
        },
{
    serde_json::from_str::<serde_json::Value>(text).ok().map(from_serde)
}

/// The compact JSON text of a value, written by `serde_json::to_string`; the contract names
/// the result and says nothing more of it.
#[verifier::external_body]
pub fn json_text(v: &Json) -> (r: String)
    ensures
        r@ == json_serialize(v@),
{
    serde_json::to_string(&to_serde(v)).unwrap_or_default()
}


/// Appends a member to the entries of an object under construction.
pub fn push_field(es: &mut Vec<(String, Json)>, key: &str, v: Json)
    ensures
        view_entries(final(es)@) == view_entries(old(es)@).push((key@, v@)),
{
    let ghost pre = es@;
    es.push((string_of(key), v));
    assert(es@.drop_last() =~= pre);
}

/// Appends a member only when a value is given (`skip_serializing_if = "Option::is_none"`).
pub fn push_opt_field(es: &mut Vec<(String, Json)>, key: &str, v: Option<Json>)
    ensures
        view_entries(final(es)@) == push_opt(view_entries(old(es)@), key@, opt_view(v)),
{
    match v {
        Some(j) => push_field(es, key, j),
        None => {},
    }
}

/// The view of an optional value.
pub open spec fn opt_view(v: Option<Json>) -> Option<JsonView> {
    match v {
        Some(j) => Some(j@),
        None => None,
    }
}

/// Entries with `(key, v)` appended when `v` is given.
pub open spec fn push_opt(
    es: Seq<(Seq<char>, JsonView)>,
    key: Seq<char>,
    v: Option<JsonView>,
) -> Seq<(Seq<char>, JsonView)> {
    match v {
        Some(j) => es.push((key, j)),
        None => es,
    }
}

/// Looking a key up after an optional append.
pub proof fn lemma_assoc_get_push_opt(
    es: Seq<(Seq<char>, JsonView)>,
    k: Seq<char>,
    o: Option<JsonView>,
)
    ensures
        forall|key: Seq<char>|
            #[trigger] assoc_get(push_opt(es, k, o), key) == (match assoc_get(es, key) {
                Some(x) => Some(x),
                None => if k == key {
                    o
                } else {
                    None
                },
            }),
{
    match o {
        Some(j) => lemma_assoc_get_push(es, k, j),
        None => {},
    }
}

/// An optional string as an optional JSON string.
pub open spec fn opt_str_view(s: Option<Seq<char>>) -> Option<JsonView> {
    match s {
        Some(t) => Some(JsonView::Str(t)),
        None => None,
    }
}

/// An optional string member, copied.
pub fn opt_string_json(s: &Option<String>) -> (r: Option<Json>)
    ensures
        opt_view(r) == opt_str_view(opt_string_view(*s)),
{
    match s {
        Some(t) => Some(Json::Str(t.clone())),
        None => None,
    }
}

/// The view of an optional string.
pub open spec fn opt_string_view(s: Option<String>) -> Option<Seq<char>> {
    match s {
        Some(t) => Some(t@),
        None => None,
    }
}

/// What a `String` field decodes to: the string, or `None` for a decoding error.
pub open spec fn decode_required_str(f: Option<JsonView>) -> Option<Seq<char>> {
    match f {
        Some(JsonView::Str(s)) => Some(s),
        _ => None,
    }
}

/// What an `Option<String>` field decodes to: `Some(None)` when absent or null,
/// `Some(Some(s))` for a string, and `None` for a decoding error.
pub open spec fn decode_optional_str(f: Option<JsonView>) -> Option<Option<Seq<char>>> {
    match f {
        None => Some(None),
        Some(JsonView::Null) => Some(None),
        Some(JsonView::Str(s)) => Some(Some(s)),
        _ => None,
    }
}

impl Json {
    /// Decodes member `key` as a required string field.
    pub fn required_str_field(&self, key: &str) -> (r: Option<String>)
        ensures
            opt_string_view(r) == decode_required_str(self@.get(key@)),
    {
        match self.get(key) {
            Some(Json::Str(s)) => Some(s.clone()),
            _ => None,
        }
    }

    /// Decodes member `key` as an optional string field; the outer `None` is a decoding error.
    pub fn optional_str_field(&self, key: &str) -> (r: Option<Option<String>>)
        ensures
            match r {
                Some(o) => decode_optional_str(self@.get(key@)) == Some(opt_string_view(o)),
                None => decode_optional_str(self@.get(key@)) is None,
            },
    {
        match self.get(key) {
            None => Some(None),
            Some(Json::Null) => Some(None),
            Some(Json::Str(s)) => Some(Some(s.clone())),
            _ => None,
        }
    }
}


/// The JSON view of a list of strings.
pub open spec fn strings_view(v: Seq<String>) -> JsonView {
    JsonView::Array(Seq::new(v.len(), |i: int| JsonView::Str(v[i]@)))
}

/// A list of strings as a JSON array.
pub fn strings_json(v: &Vec<String>) -> (r: Json)
    ensures
        r@ == strings_view(v@),
{
    let mut out: Vec<Json> = Vec::new();
    let mut i: usize = 0;
    while i < v.len()
        invariant
            0 <= i <= v.len(),
            out@.len() == i,
            forall|j: int| 0 <= j < i ==> #[trigger] json_view(out@[j]) == JsonView::Str(v@[j]@),
        decreases v.len() - i,
    {
        out.push(Json::Str(v[i].clone()));
        i = i + 1;
    }
    proof {
        lemma_view_array(out@);
        assert(view_array(out@) =~= Seq::new(v@.len(), |i: int| JsonView::Str(v@[i]@)));
    }
    Json::Array(out)
}

/// The JSON view of a list of values.
pub open spec fn values_view(v: Seq<Json>) -> JsonView {
    JsonView::Array(view_array(v))
}

/// A copy of a list of values as a JSON array.
pub fn values_json(v: &Vec<Json>) -> (r: Json)
    ensures
        r@ == values_view(v@),
{
    let mut out: Vec<Json> = Vec::new();
    let mut i: usize = 0;
    proof {
        lemma_view_array(v@);
    }
    while i < v.len()
        invariant
            0 <= i <= v.len(),
            out@.len() == i,
            forall|j: int| 0 <= j < i ==> #[trigger] json_view(out@[j]) == json_view(v@[j]),
        decreases v.len() - i,
    {
        out.push(v[i].deep_clone());
        i = i + 1;
    }
    proof {
        lemma_view_array(out@);
        assert(view_array(out@) =~= view_array(v@));
    }
    Json::Array(out)
}

/// The JSON view of an object's members.
pub open spec fn members_view(es: Seq<(String, Json)>) -> JsonView {
    JsonView::Object(view_entries(es))
}

/// A copy of a list of members as a JSON object.
pub fn members_json(es: &Vec<(String, Json)>) -> (r: Json)
    ensures
        r@ == members_view(es@),
{
    let mut out: Vec<(String, Json)> = Vec::new();
    let mut i: usize = 0;
    proof {
        lemma_view_entries(es@);
    }
    while i < es.len()
        invariant
            0 <= i <= es.len(),
            out@.len() == i,
            forall|k: int|
                0 <= k < i ==> #[trigger] out@[k].0@ == es@[k].0@ && json_view(out@[k].1)
                    == json_view(es@[k].1),
        decreases es.len() - i,
    {
        out.push((es[i].0.clone(), es[i].1.deep_clone()));
        i = i + 1;
    }
    proof {
        lemma_view_entries(out@);
        assert(view_entries(out@) =~= view_entries(es@));
    }
    Json::Object(out)
}

} // verus!
