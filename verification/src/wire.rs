//! The shape of what goes on the output stream: records of named fields.
//! Turning a shape into text is left to the caller.

use vstd::prelude::*;

verus! {

/// A value on the wire.
#[derive(Debug, PartialEq, Eq)]
pub enum WireValue {
    /// The value of a field that is absent.
    Null,
    /// A whole number.
    Integer(u64),
    /// A single-precision number, held by its bit pattern.
    Single(u32),
    /// A text.
    Text(String),
    /// Named fields, in their order.
    Record(Vec<WireField>),
}

/// A named field of a record.
#[derive(Debug, PartialEq, Eq)]
pub struct WireField {
    pub name: &'static str,
    pub value: WireValue,
}

/// A value on the wire as plain values.
pub ghost enum Wire {
    Null,
    Integer(u64),
    Single(u32),
    Text(Seq<char>),
    Record(Seq<(Seq<char>, Wire)>),
}

impl View for WireValue {
    type V = Wire;

    open spec fn view(&self) -> Wire
        decreases self,
    {
        match self {
            WireValue::Null => Wire::Null,
            WireValue::Integer(n) => Wire::Integer(*n),
            WireValue::Single(bits) => Wire::Single(*bits),
            WireValue::Text(text) => Wire::Text(text@),
            WireValue::Record(fields) => Wire::Record(
                Seq::new(
                    fields@.len(),
                    |i: int|
                        if 0 <= i < fields@.len() {
                            (fields@[i].name@, fields@[i].value@)
                        } else {
                            (Seq::empty(), Wire::Null)
                        },
                ),
            ),
        }
    }
}

impl Wire {
    /// The names of the fields of a record, in their order.
    pub open spec fn names(self) -> Seq<Seq<char>> {
        match self {
            Wire::Record(fields) => fields.map_values(|f: (Seq<char>, Wire)| f.0),
            _ => Seq::empty(),
        }
    }
}

/// The fields of a record as plain values.
pub open spec fn field_views(fields: Seq<WireField>) -> Seq<(Seq<char>, Wire)> {
    Seq::new(fields.len(), |i: int| (fields[i].name@, fields[i].value@))
}

impl WireValue {
    /// The record of `fields`.
    pub fn record(fields: Vec<WireField>) -> (value: WireValue)
        ensures
            value@ == Wire::Record(field_views(fields@)),
    {
        let value = WireValue::Record(fields);
        proof {
            reveal_with_fuel(<WireValue as View>::view, 2);
            assert(value@->Record_0 =~= field_views(fields@));
        }
        value
    }

    /// The text `text`.
    pub fn text(text: &str) -> (value: WireValue)
        ensures
            value@ == Wire::Text(text@),
    {
        WireValue::Text(text.to_owned())
    }

    /// The text `text`, or the value of an absent field.
    pub fn optional_text(text: &Option<String>) -> (value: WireValue)
        ensures
            value@ == match text {
                Some(t) => Wire::Text(t@),
                None => Wire::Null,
            },
    {
        match text {
            Some(t) => WireValue::Text(t.clone()),
            None => WireValue::Null,
        }
    }

    /// The number `number`, or the value of an absent field.
    pub fn optional_integer(number: Option<u64>) -> (value: WireValue)
        ensures
            value@ == match number {
                Some(n) => Wire::Integer(n),
                None => Wire::Null,
            },
    {
        match number {
            Some(n) => WireValue::Integer(n),
            None => WireValue::Null,
        }
    }
}

} // verus!
