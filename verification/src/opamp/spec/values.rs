//! Attribute values: scalars, byte strings, and lists and keyed lists of
//! further values.
use vstd::prelude::*;

verus! {

/// The alternatives of an attribute value.
#[derive(Debug, PartialEq)]
pub enum Value {
    StringValue(String),
    BoolValue(bool),
    IntValue(i64),
    /// A double, by its bits.
    DoubleValue(u64),
    ArrayValue(ArrayValue),
    KvlistValue(KeyValueList),
    BytesValue(Vec<u8>),
}

/// An attribute value, possibly unset.
#[derive(Debug, PartialEq)]
pub struct AnyValue {
    pub value: Option<Value>,
}

/// A list of values.
#[derive(Debug, PartialEq)]
pub struct ArrayValue {
    pub values: Vec<AnyValue>,
}

/// A list of keyed values.
#[derive(Debug, PartialEq)]
pub struct KeyValueList {
    pub values: Vec<KeyValue>,
}

/// A key and its value.
#[derive(Debug, PartialEq)]
pub struct KeyValue {
    pub key: String,
    pub value: Option<AnyValue>,
}

pub enum ValueView {
    StringValue(Seq<char>),
    BoolValue(bool),
    IntValue(i64),
    DoubleValue(u64),
    ArrayValue(Seq<AnyValueView>),
    KvlistValue(Seq<KeyValueView>),
    BytesValue(Seq<u8>),
}

pub struct AnyValueView {
    pub value: Option<ValueView>,
}

pub struct KeyValueView {
    pub key: Seq<char>,
    pub value: Option<AnyValueView>,
}

/// The mathematical value of a [`Value`].
pub open spec fn value_view(v: Value) -> ValueView
    decreases v,
{
    match v {
        Value::StringValue(s) => ValueView::StringValue(s@),
        Value::BoolValue(b) => ValueView::BoolValue(b),
        Value::IntValue(i) => ValueView::IntValue(i),
        Value::DoubleValue(d) => ValueView::DoubleValue(d),
        Value::ArrayValue(a) => ValueView::ArrayValue(any_values_view(a.values@)),
        Value::KvlistValue(l) => ValueView::KvlistValue(key_values_view(l.values@)),
        Value::BytesValue(b) => ValueView::BytesValue(b@),
    }
}

/// The mathematical value of an [`AnyValue`].
pub open spec fn any_value_view(v: AnyValue) -> AnyValueView
    decreases v,
{
    AnyValueView {
        value: match v.value {
            Some(inner) => Some(value_view(inner)),
            None => None,
        },
    }
}

/// The mathematical values of a list of values, item by item.
pub open spec fn any_values_view(s: Seq<AnyValue>) -> Seq<AnyValueView>
    decreases s,
{
    Seq::new(
        s.len(),
        |i: int|
            if 0 <= i < s.len() {
                any_value_view(s[i])
            } else {
                arbitrary()
            },
    )
}

/// The mathematical value of a [`KeyValue`].
pub open spec fn key_value_view(kv: KeyValue) -> KeyValueView
    decreases kv,
{
    KeyValueView {
        key: kv.key@,
        value: match kv.value {
            Some(inner) => Some(any_value_view(inner)),
            None => None,
        },
    }
}

/// The mathematical values of a list of keyed values, item by item.
pub open spec fn key_values_view(s: Seq<KeyValue>) -> Seq<KeyValueView>
    decreases s,
{
    Seq::new(
        s.len(),
        |i: int|
            if 0 <= i < s.len() {
                key_value_view(s[i])
            } else {
                arbitrary()
            },
    )
}

impl View for Value {
    type V = ValueView;

    open spec fn view(&self) -> ValueView {
        value_view(*self)
    }
}

impl View for AnyValue {
    type V = AnyValueView;

    open spec fn view(&self) -> AnyValueView {
        any_value_view(*self)
    }
}

impl View for KeyValue {
    type V = KeyValueView;

    open spec fn view(&self) -> KeyValueView {
        key_value_view(*self)
    }
}

/// A copy of a byte string.
pub fn copy_bytes(b: &Vec<u8>) -> (r: Vec<u8>)
    ensures
        r@ == b@,
{
    let mut r: Vec<u8> = Vec::new();
    let mut i: usize = 0;
    while i < b.len()
        invariant
            i <= b.len(),
            r@ == b@.subrange(0, i as int),
        decreases b.len() - i,
    {
        r.push(b[i]);
        i = i + 1;
        assert(r@ =~= b@.subrange(0, i as int));
    }
    assert(b@.subrange(0, b.len() as int) =~= b@);
    r
}

fn copy_value(v: &Value) -> (r: Value)
    ensures
        r@ == v@,
    decreases v,
{
    match v {
        Value::StringValue(s) => Value::StringValue(s.clone()),
        Value::BoolValue(b) => Value::BoolValue(*b),
        Value::IntValue(i) => Value::IntValue(*i),
        Value::DoubleValue(d) => Value::DoubleValue(*d),
        Value::ArrayValue(a) => Value::ArrayValue(ArrayValue { values: copy_any_values(&a.values) }),
        Value::KvlistValue(l) => Value::KvlistValue(
            KeyValueList { values: copy_key_values(&l.values) },
        ),
        Value::BytesValue(b) => Value::BytesValue(copy_bytes(b)),
    }
}

fn copy_any_value(v: &AnyValue) -> (r: AnyValue)
    ensures
        r@ == v@,
    decreases v,
{
    AnyValue {
        value: match &v.value {
            Some(inner) => Some(copy_value(inner)),
            None => None,
        },
    }
}

fn copy_key_value(kv: &KeyValue) -> (r: KeyValue)
    ensures
        r@ == kv@,
    decreases kv,
{
    KeyValue {
        key: kv.key.clone(),
        value: match &kv.value {
            Some(inner) => Some(copy_any_value(inner)),
            None => None,
        },
    }
}

impl Clone for Value {
    /// A copy with the same mathematical value.
    fn clone(&self) -> (r: Value)
        ensures
            r@ == self@,
    {
        copy_value(self)
    }
}

impl Clone for AnyValue {
    /// A copy with the same mathematical value.
    fn clone(&self) -> (r: AnyValue)
        ensures
            r@ == self@,
    {
        copy_any_value(self)
    }
}

impl Clone for KeyValue {
    /// A copy with the same mathematical value.
    fn clone(&self) -> (r: KeyValue)
        ensures
            r@ == self@,
    {
        copy_key_value(self)
    }
}

impl Clone for ArrayValue {
    /// A copy with the same mathematical values.
    fn clone(&self) -> (r: ArrayValue)
        ensures
            any_values_view(r.values@) == any_values_view(self.values@),
    {
        ArrayValue { values: copy_any_values(&self.values) }
    }
}

impl Clone for KeyValueList {
    /// A copy with the same mathematical values.
    fn clone(&self) -> (r: KeyValueList)
        ensures
            key_values_view(r.values@) == key_values_view(self.values@),
    {
        KeyValueList { values: copy_key_values(&self.values) }
    }
}

impl AnyValue {
    /// The attribute value that holds `text`.
    pub fn string(text: String) -> (r: AnyValue)
        ensures
            r@ == (AnyValueView { value: Some(ValueView::StringValue(text@)) }),
    {
        AnyValue { value: Some(Value::StringValue(text)) }
    }
}

/// A copy of a list of values.
pub fn copy_any_values(v: &Vec<AnyValue>) -> (r: Vec<AnyValue>)
    ensures
        any_values_view(r@) == any_values_view(v@),
    decreases v,
{
    let mut r: Vec<AnyValue> = Vec::new();
    let mut i: usize = 0;
    while i < v.len()
        invariant
            i <= v.len(),
            r@.len() == i,
            forall|j: int| 0 <= j < i ==> any_value_view(r@[j]) == any_value_view(v@[j]),
        decreases v.len() - i,
    {
        let item = copy_any_value(&v[i]);
        r.push(item);
        i = i + 1;
    }
    assert(any_values_view(r@) =~= any_values_view(v@));
    r
}

/// A copy of a list of keyed values.
pub fn copy_key_values(v: &Vec<KeyValue>) -> (r: Vec<KeyValue>)
    ensures
        key_values_view(r@) == key_values_view(v@),
    decreases v,
{
    let mut r: Vec<KeyValue> = Vec::new();
    let mut i: usize = 0;
    while i < v.len()
        invariant
            i <= v.len(),
            r@.len() == i,
            forall|j: int| 0 <= j < i ==> key_value_view(r@[j]) == key_value_view(v@[j]),
        decreases v.len() - i,
    {
        let item = copy_key_value(&v[i]);
        r.push(item);
        i = i + 1;
    }
    assert(key_values_view(r@) =~= key_values_view(v@));
    r
}

} // verus!
