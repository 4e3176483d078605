//! Raw attribute values as the index hands them out, and their runtime tags.

use vstd::prelude::*;

verus! {

/// The runtime classification of a raw value.
#[derive(Clone, Copy, Debug, PartialEq, Eq, Structural)]
pub enum Tag {
    Text,
    Number,
    Boolean,
    Sequence,
    Unknown,
}

/// A numeric value, in the two readings that the index offers of it.
#[derive(Clone, Copy, Debug, PartialEq, Eq, Structural)]
pub struct Number {
    /// The value read as a 64-bit integer.
    pub integer: i64,
    /// The bit pattern of the value read as a 64-bit float.
    pub real: u64,
}

/// A value copied out of the index, before it is converted to a static type.
#[derive(Debug, PartialEq, Eq)]
pub enum RawValue {
    Text(String),
    Number(Number),
    Boolean(bool),
    Sequence(Vec<RawValue>),
    Unknown,
}

/// The mathematical content of a [`RawValue`].
pub enum Value {
    Text(Seq<char>),
    Number(Number),
    Boolean(bool),
    Sequence(Seq<Value>),
    Unknown,
}

impl Value {
    /// The tag under which the index reports this value.
    pub open spec fn tag(self) -> Tag {
        match self {
            Value::Text(_) => Tag::Text,
            Value::Number(_) => Tag::Number,
            Value::Boolean(_) => Tag::Boolean,
            Value::Sequence(_) => Tag::Sequence,
            Value::Unknown => Tag::Unknown,
        }
    }
}

impl View for RawValue {
    type V = Value;

    /// The content of the value; a sequence holds the contents of its
    /// elements in their order (see [`lemma_sequence_view`]).
    open spec fn view(&self) -> Value
        decreases self,
    {
        match self {
            RawValue::Text(s) => Value::Text(s@),
            RawValue::Number(n) => Value::Number(*n),
            RawValue::Boolean(b) => Value::Boolean(*b),
            RawValue::Sequence(items) => Value::Sequence(
                Seq::new(
                    items@.len(),
                    |i: int|
                        if 0 <= i < items@.len() {
                            items@[i].view()
                        } else {
                            Value::Unknown
                        },
                ),
            ),
            RawValue::Unknown => Value::Unknown,
        }
    }
}

/// A sequence value holds the contents of its elements, in their order.
pub proof fn lemma_sequence_view(items: Vec<RawValue>)
    ensures
        RawValue::Sequence(items)@ is Sequence,
        RawValue::Sequence(items)@->Sequence_0.len() == items@.len(),
        forall|i: int|
            0 <= i < items@.len() ==> (#[trigger] RawValue::Sequence(items)@->Sequence_0[i])
                == items@[i]@,
{
    reveal_with_fuel(<RawValue as View>::view, 2);
}

impl Tag {
    /// The name by which an error reports this tag.
    pub open spec fn label(self) -> Seq<char> {
        match self {
            Tag::Text => "string"@,
            Tag::Number => "number"@,
            Tag::Boolean => "boolean"@,
            Tag::Sequence => "sequence"@,
            Tag::Unknown => "unknown"@,
        }
    }

    /// The name by which an error reports this tag.
    pub fn name(&self) -> (name: &'static str)
        ensures
            name@ == self.label(),
    {
        match self {
            Tag::Text => "string",
            Tag::Number => "number",
            Tag::Boolean => "boolean",
            Tag::Sequence => "sequence",
            Tag::Unknown => "unknown",
        }
    }
}

impl RawValue {
    /// The type-identity query: which of the five tags this value carries.
    pub fn tag(&self) -> (t: Tag)
        ensures
            t == self@.tag(),
    {
        match self {
            RawValue::Text(_) => Tag::Text,
            RawValue::Number(_) => Tag::Number,
            RawValue::Boolean(_) => Tag::Boolean,
            RawValue::Sequence(_) => Tag::Sequence,
            RawValue::Unknown => Tag::Unknown,
        }
    }
}

impl Clone for RawValue {
    /// Copies the value with all that it holds.
    fn clone(&self) -> (copy: RawValue)
        ensures
            copy@ == self@,
        decreases self,
    {
        match self {
            RawValue::Text(text) => RawValue::Text(text.clone()),
            RawValue::Number(number) => RawValue::Number(*number),
            RawValue::Boolean(flag) => RawValue::Boolean(*flag),
            RawValue::Sequence(items) => {
                let mut copies: Vec<RawValue> = Vec::new();
                let mut i: usize = 0;
                while i < items.len()
                    invariant
                        i <= items.len(),
                        copies.len() == i,
                        *self == RawValue::Sequence(*items),
                        forall|j: int| 0 <= j < i ==> (#[trigger] copies@[j])@ == items@[j]@,
                    decreases items.len() - i,
                {
                    proof {
                        assert(decreases_to!(*self => self->Sequence_0));
                        assert(decreases_to!(self->Sequence_0 => self->Sequence_0[i as int]));
                    }
                    let copy = items[i].clone();
                    copies.push(copy);
                    i = i + 1;
                }
                proof {
                    lemma_sequence_view(*items);
                    lemma_sequence_view(copies);
                    assert(RawValue::Sequence(copies)@->Sequence_0 =~= RawValue::Sequence(
                        *items,
                    )@->Sequence_0);
                }
                RawValue::Sequence(copies)
            },
            RawValue::Unknown => RawValue::Unknown,
        }
    }
}

} // verus!
