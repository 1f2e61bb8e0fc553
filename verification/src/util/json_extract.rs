use vstd::prelude::*;
use crate::util::text::str_eq;

verus! {

/// A JSON number, as the logic of this crate reads it.
#[derive(Debug, PartialEq, Eq)]
pub enum JsonNumber {
    /// A non-negative integer that fits in `u64`.
    PosInt(u64),
    /// A negative integer that fits in `i64`.
    NegInt(i64),
    /// Any other number, held as the text that denotes it.
    Float(String),
}

/// A JSON document.
///
/// An object is held as its entries in order; objects built or read by this
/// crate hold each key at most once.
#[derive(Debug, PartialEq, Eq)]
pub enum JsonValue {
    Null,
    Bool(bool),
    Number(JsonNumber),
    Text(String),
    Array(Vec<JsonValue>),
    Object(Vec<(String, JsonValue)>),
}

/// The mathematical content of a [`JsonNumber`].
pub enum NumberModel {
    PosInt(u64),
    NegInt(i64),
    Float(Seq<char>),
}

/// The mathematical content of a [`JsonValue`]: what the contracts speak of.
pub enum JsonModel {
    Null,
    Bool(bool),
    Number(NumberModel),
    Text(Seq<char>),
    Array(Seq<JsonModel>),
    Object(Seq<(Seq<char>, JsonModel)>),
}

pub open spec fn number_model(n: JsonNumber) -> NumberModel {
    match n {
        JsonNumber::PosInt(k) => NumberModel::PosInt(k),
        JsonNumber::NegInt(k) => NumberModel::NegInt(k),
        JsonNumber::Float(t) => NumberModel::Float(t@),
    }
}

/// The model of a document.
pub open spec fn json_model(v: JsonValue) -> JsonModel
    decreases v,
{
    match v {
        JsonValue::Null => JsonModel::Null,
        JsonValue::Bool(b) => JsonModel::Bool(b),
        JsonValue::Number(n) => JsonModel::Number(number_model(n)),
        JsonValue::Text(t) => JsonModel::Text(t@),
        JsonValue::Array(items) => {
            proof {
                assert(decreases_to!(items => items@));
            }
            JsonModel::Array(items_model(items@))
        },
        JsonValue::Object(entries) => {
            proof {
                assert(decreases_to!(entries => entries@));
            }
            JsonModel::Object(entries_model(entries@))
        },
    }
}

/// The models of a sequence of documents, one for one.
pub open spec fn items_model(s: Seq<JsonValue>) -> Seq<JsonModel>
    decreases s,
{
    if s.len() == 0 {
        Seq::empty()
    } else {
        proof {
            assert(decreases_to!(s => s.subrange(0, s.len() - 1)));
            assert(decreases_to!(s => s[s.len() - 1]));
        }
        items_model(s.subrange(0, s.len() - 1)).push(json_model(s[s.len() - 1]))
    }
}

/// The models of the entries of an object, one for one.
pub open spec fn entries_model(s: Seq<(String, JsonValue)>) -> Seq<(Seq<char>, JsonModel)>
    decreases s,
{
    if s.len() == 0 {
        Seq::empty()
    } else {
        proof {
            assert(decreases_to!(s => s.subrange(0, s.len() - 1)));
            assert(decreases_to!(s => s[s.len() - 1]));
            assert(decreases_to!(s[s.len() - 1] => s[s.len() - 1].1));
        }
        entries_model(s.subrange(0, s.len() - 1)).push(
            (s[s.len() - 1].0@, json_model(s[s.len() - 1].1)),
        )
    }
}

impl View for JsonValue {
    type V = JsonModel;

    open spec fn view(&self) -> JsonModel {
        json_model(*self)
    }
}

impl View for JsonNumber {
    type V = NumberModel;

    open spec fn view(&self) -> NumberModel {
        number_model(*self)
    }
}

/// `items_model` maps each document to its model.
pub proof fn lemma_items_model(s: Seq<JsonValue>)
    ensures
        items_model(s).len() == s.len(),
        forall|i: int| 0 <= i < s.len() ==> #[trigger] items_model(s)[i] == json_model(s[i]),
    decreases s.len(),
{
    if s.len() > 0 {
        lemma_items_model(s.subrange(0, s.len() - 1));
    }
}

/// `entries_model` maps each entry to its key's text and its value's model.
pub proof fn lemma_entries_model(s: Seq<(String, JsonValue)>)
    ensures
        entries_model(s).len() == s.len(),
        forall|i: int|
            0 <= i < s.len() ==> #[trigger] entries_model(s)[i] == (s[i].0@, json_model(s[i].1)),
    decreases s.len(),
{
    if s.len() > 0 {
        lemma_entries_model(s.subrange(0, s.len() - 1));
    }
}

/// The value that the first entry named `key` holds, if any.
pub open spec fn object_lookup(entries: Seq<(Seq<char>, JsonModel)>, key: Seq<char>) -> Option<JsonModel>
    decreases entries.len(),
{
    if entries.len() == 0 {
        None
    } else if entries[0].0 == key {
        Some(entries[0].1)
    } else {
        object_lookup(entries.drop_first(), key)
    }
}

impl JsonModel {
    /// What `get(key)` finds: the member named `key` of an object; nothing for
    /// any other value.
    pub open spec fn member(self, key: Seq<char>) -> Option<JsonModel> {
        match self {
            JsonModel::Object(entries) => object_lookup(entries, key),
            _ => None,
        }
    }
}

impl JsonNumber {
    /// A copy of this number.
    pub fn duplicate(&self) -> (r: JsonNumber)
        ensures
            r@ == self@,
    {
        match self {
            JsonNumber::PosInt(n) => JsonNumber::PosInt(*n),
            JsonNumber::NegInt(n) => JsonNumber::NegInt(*n),
            JsonNumber::Float(t) => JsonNumber::Float(t.clone()),
        }
    }
}

impl JsonValue {
    /// A copy of this document.
    pub fn duplicate(&self) -> (r: JsonValue)
        ensures
            r@ == self@,
        decreases self,
    {
        match self {
            JsonValue::Null => JsonValue::Null,
            JsonValue::Bool(b) => JsonValue::Bool(*b),
            JsonValue::Number(n) => JsonValue::Number(n.duplicate()),
            JsonValue::Text(t) => JsonValue::Text(t.clone()),
            JsonValue::Array(items) => {
                let mut out: Vec<JsonValue> = Vec::new();
                let n = items.len();
                let mut i: usize = 0;
                while i < n
                    invariant
                        n == items@.len(),
                        *self == JsonValue::Array(*items),
                        i <= n,
                        out@.len() == i,
                        forall|j: int| 0 <= j < i ==> json_model(#[trigger] out@[j]) == json_model(items@[j]),
                    decreases n - i,
                {
                    proof {
                        assert(decreases_to!(*self => self->Array_0));
                        assert(decreases_to!(*items => items@));
                        assert(decreases_to!(items@ => items@[i as int]));
                    }
                    out.push(items[i].duplicate());
                    i = i + 1;
                }
                proof {
                    lemma_items_model(out@);
                    lemma_items_model(items@);
                    assert(items_model(out@) =~= items_model(items@));
                }
                JsonValue::Array(out)
            },
            JsonValue::Object(entries) => {
                let mut out: Vec<(String, JsonValue)> = Vec::new();
                let n = entries.len();
                let mut i: usize = 0;
                while i < n
                    invariant
                        n == entries@.len(),
                        *self == JsonValue::Object(*entries),
                        i <= n,
                        out@.len() == i,
                        forall|j: int| 0 <= j < i ==> (#[trigger] out@[j]).0@ == entries@[j].0@
                            && json_model(out@[j].1) == json_model(entries@[j].1),
                    decreases n - i,
                {
                    proof {
                        assert(decreases_to!(*self => self->Object_0));
                        assert(decreases_to!(*entries => entries@));
                        assert(decreases_to!(entries@ => entries@[i as int]));
                        assert(decreases_to!(entries@[i as int] => entries@[i as int].1));
                    }
                    let k = entries[i].0.clone();
                    let v = entries[i].1.duplicate();
                    out.push((k, v));
                    i = i + 1;
                }
                proof {
                    lemma_entries_model(out@);
                    lemma_entries_model(entries@);
                    assert(entries_model(out@) =~= entries_model(entries@));
                }
                JsonValue::Object(out)
            },
        }
    }

    /// The member named `key` of an object.
    pub fn get(&self, key: &str) -> (r: Option<&JsonValue>)
        ensures
            r matches Some(v) ==> self@.member(key@) == Some(v@),
            r is None ==> self@.member(key@) is None,
    {
        match self {
            JsonValue::Object(entries) => {
                let n = entries.len();
                let mut i: usize = 0;
                proof {
                    lemma_entries_model(entries@);
                    assert(entries_model(entries@).skip(0) =~= entries_model(entries@));
                }
                while i < n
                    invariant
                        n == entries@.len(),
                        entries_model(entries@).len() == n,
                        forall|j: int| 0 <= j < n ==> #[trigger] entries_model(entries@)[j] == (entries@[j].0@, json_model(entries@[j].1)),
                        self@.member(key@) == object_lookup(entries_model(entries@), key@),
                        i <= n,
                        object_lookup(entries_model(entries@), key@) == object_lookup(
                            entries_model(entries@).skip(i as int),
                            key@,
                        ),
                    decreases n - i,
                {
                    let ghost m = entries_model(entries@);
                    assert(m.skip(i as int).drop_first() =~= m.skip(i + 1));
                    assert(m.skip(i as int)[0] == m[i as int]);
                    if str_eq(entries[i].0.as_str(), key) {
                        return Some(&entries[i].1);
                    }
                    i = i + 1;
                }
                None
            },
            _ => None,
        }
    }
}

} // verus!

verus! {

/// A type whose values can be read out of a JSON document.
pub trait ExtractableFromJson: Sized {
    /// Whether `r` is what `extract` gives for a document with model `value`.
    spec fn extracts_to(value: JsonModel, r: Option<Self>) -> bool;

    /// Reads a value of this type out of `value`, if it holds one.
    fn extract(value: &JsonValue) -> (r: Option<Self>)
        ensures
            Self::extracts_to(value@, r),
    ;
}

impl ExtractableFromJson for String {
    /// A string document gives its text; any other document gives nothing.
    open spec fn extracts_to(value: JsonModel, r: Option<String>) -> bool {
        match value {
            JsonModel::Text(t) => r matches Some(s) && s@ == t,
            _ => r is None,
        }
    }

    fn extract(value: &JsonValue) -> (r: Option<String>) {
        match value {
            JsonValue::Text(t) => Some(t.clone()),
            _ => None,
        }
    }
}

impl ExtractableFromJson for bool {
    /// A boolean document gives its value; any other document gives nothing.
    open spec fn extracts_to(value: JsonModel, r: Option<bool>) -> bool {
        r == match value {
            JsonModel::Bool(b) => Some(b),
            _ => None,
        }
    }

    fn extract(value: &JsonValue) -> (r: Option<bool>) {
        match value {
            JsonValue::Bool(b) => Some(*b),
            _ => None,
        }
    }
}

impl ExtractableFromJson for u64 {
    /// Only a non-negative integer that fits in `u64` gives a value.
    open spec fn extracts_to(value: JsonModel, r: Option<u64>) -> bool {
        r == match value {
            JsonModel::Number(NumberModel::PosInt(n)) => Some(n),
            _ => None,
        }
    }

    fn extract(value: &JsonValue) -> (r: Option<u64>) {
        match value {
            JsonValue::Number(JsonNumber::PosInt(n)) => Some(*n),
            _ => None,
        }
    }
}

impl ExtractableFromJson for i64 {
    /// Only an integer that fits in `i64` gives a value.
    open spec fn extracts_to(value: JsonModel, r: Option<i64>) -> bool {
        r == match value {
            JsonModel::Number(NumberModel::PosInt(n)) => if n <= i64::MAX {
                Some(n as i64)
            } else {
                None
            },
            JsonModel::Number(NumberModel::NegInt(n)) => Some(n),
            _ => None,
        }
    }

    fn extract(value: &JsonValue) -> (r: Option<i64>) {
        match value {
            JsonValue::Number(JsonNumber::PosInt(n)) => {
                if *n <= 9223372036854775807u64 {
                    Some(*n as i64)
                } else {
                    None
                }
            },
            JsonValue::Number(JsonNumber::NegInt(n)) => Some(*n),
            _ => None,
        }
    }
}

/// Reads the member `key` of `input` as a value of type `T`.
pub fn fetch_from_serde_json<T: ExtractableFromJson>(input: &JsonValue, key: &str) -> (r: Option<T>)
    ensures
        match input@.member(key@) {
            Some(v) => T::extracts_to(v, r),
            None => r is None,
        },
{
    match input.get(key) {
        Some(v) => T::extract(v),
        None => None,
    }
}

/// Reading a boolean gives the boolean the document holds; a document of any
/// other kind gives nothing.
pub proof fn law_bool_reads_its_value(value: JsonModel, r: Option<bool>)
    requires
        <bool as ExtractableFromJson>::extracts_to(value, r),
    ensures
        forall|b: bool| value == JsonModel::Bool(b) ==> r == Some(b),
        !(value is Bool) ==> r is None,
{
}

/// Reading a string gives the text the document holds; a document of any
/// other kind gives nothing.
pub proof fn law_string_reads_its_text(value: JsonModel, r: Option<String>)
    requires
        <String as ExtractableFromJson>::extracts_to(value, r),
    ensures
        forall|t: Seq<char>| value == JsonModel::Text(t) ==> (r matches Some(s) && s@ == t),
        !(value is Text) ==> r is None,
{
}

/// Reading a `u64` gives the non-negative integer the document holds;
/// anything else gives nothing.
pub proof fn law_u64_reads_its_number(value: JsonModel, r: Option<u64>)
    requires
        <u64 as ExtractableFromJson>::extracts_to(value, r),
    ensures
        forall|n: u64| value == JsonModel::Number(NumberModel::PosInt(n)) ==> r == Some(n),
        r matches Some(n) ==> value == JsonModel::Number(NumberModel::PosInt(n)),
{
}

/// Reading an `i64` gives the integer the document holds when it fits in
/// `i64`, the same number; anything else gives nothing.
pub proof fn law_i64_reads_its_number(value: JsonModel, r: Option<i64>)
    requires
        <i64 as ExtractableFromJson>::extracts_to(value, r),
    ensures
        forall|n: i64| value == JsonModel::Number(NumberModel::NegInt(n)) ==> r == Some(n),
        forall|n: u64| value == JsonModel::Number(NumberModel::PosInt(n)) ==> (r is Some <==> n <= i64::MAX),
        r matches Some(x) ==> (value == JsonModel::Number(NumberModel::NegInt(x)) || (x >= 0
            && value == JsonModel::Number(NumberModel::PosInt(x as u64)))),
{
}

} // verus!
