//! The alternatives of an attribute value.

use vstd::prelude::*;
use super::{AnyValueView, ArrayValue, KeyValueList, KeyValueView};

verus! {

/// What an attribute value holds. A value may also be left unset, in which
/// case the enclosing `AnyValue` is empty.
#[derive(Debug, PartialEq)]
pub enum Value {
    StringValue(String),
    BoolValue(bool),
    IntValue(i64),
    /// A double-precision number, kept as its IEEE 754 bit pattern.
    DoubleValue(u64),
    ArrayValue(ArrayValue),
    KvlistValue(KeyValueList),
    BytesValue(Vec<u8>),
}

/// The mathematical content of a `Value`.
pub ghost enum ValueView {
    StringValue(Seq<char>),
    BoolValue(bool),
    IntValue(int),
    /// The bit pattern of the number.
    DoubleValue(nat),
    ArrayValue(Seq<AnyValueView>),
    KvlistValue(Seq<KeyValueView>),
    BytesValue(Seq<u8>),
}

impl View for Value {
    type V = ValueView;

    open spec fn view(&self) -> ValueView
        decreases self,
    {
        match self {
            Value::StringValue(s) => ValueView::StringValue(s@),
            Value::BoolValue(b) => ValueView::BoolValue(*b),
            Value::IntValue(i) => ValueView::IntValue(*i as int),
            Value::DoubleValue(bits) => ValueView::DoubleValue(*bits as nat),
            Value::ArrayValue(a) => ValueView::ArrayValue(a@),
            Value::KvlistValue(l) => ValueView::KvlistValue(l@),
            Value::BytesValue(b) => ValueView::BytesValue(b@),
        }
    }
}

} // verus!
