//! Conversion of raw values into statically typed results. A raw value is
//! converted only after its tag has been checked against the type asked for.

use crate::value::{lemma_sequence_view, Number, RawValue, Tag, Value};
use vstd::prelude::*;

verus! {

/// A type that a raw value can be converted into.
pub trait FromObjC: Sized + DeepView {
    /// The tag that a raw value must carry to convert into this type.
    spec fn wanted() -> Tag;

    /// What a raw value converts into, or `None` where it does not convert.
    spec fn converted(obj: Value) -> Option<<Self as DeepView>::V>;

    /// A value converts only if it carries the wanted tag.
    proof fn lemma_converts_only_wanted_tag(obj: Value)
        ensures
            Self::converted(obj) is Some ==> obj.tag() == Self::wanted(),
    ;

    /// Converts a raw value, or returns `None` where its tag does not fit.
    fn from_objc(obj: &RawValue) -> (out: Option<Self>)
        ensures
            out.deep_view() == Self::converted(obj@),
    ;
}

impl FromObjC for String {
    open spec fn wanted() -> Tag {
        Tag::Text
    }

    open spec fn converted(obj: Value) -> Option<Seq<char>> {
        match obj {
            Value::Text(text) => Some(text),
            _ => None,
        }
    }

    proof fn lemma_converts_only_wanted_tag(obj: Value) {
    }

    fn from_objc(obj: &RawValue) -> (out: Option<String>) {
        match obj {
            RawValue::Text(text) => Some(text.clone()),
            _ => None,
        }
    }
}

impl DeepView for Number {
    type V = Number;

    open spec fn deep_view(&self) -> Number {
        *self
    }
}

impl FromObjC for Number {
    open spec fn wanted() -> Tag {
        Tag::Number
    }

    open spec fn converted(obj: Value) -> Option<Number> {
        match obj {
            Value::Number(number) => Some(number),
            _ => None,
        }
    }

    proof fn lemma_converts_only_wanted_tag(obj: Value) {
    }

    fn from_objc(obj: &RawValue) -> (out: Option<Number>) {
        match obj {
            RawValue::Number(number) => Some(*number),
            _ => None,
        }
    }
}

impl FromObjC for i64 {
    open spec fn wanted() -> Tag {
        Tag::Number
    }

    open spec fn converted(obj: Value) -> Option<i64> {
        match obj {
            Value::Number(number) => Some(number.integer),
            _ => None,
        }
    }

    proof fn lemma_converts_only_wanted_tag(obj: Value) {
    }

    fn from_objc(obj: &RawValue) -> (out: Option<i64>) {
        match obj {
            RawValue::Number(number) => Some(number.integer),
            _ => None,
        }
    }
}

impl FromObjC for i32 {
    open spec fn wanted() -> Tag {
        Tag::Number
    }

    /// A number narrows to the low 32 bits of its integer reading.
    open spec fn converted(obj: Value) -> Option<i32> {
        match obj {
            Value::Number(number) => Some(number.integer as i32),
            _ => None,
        }
    }

    proof fn lemma_converts_only_wanted_tag(obj: Value) {
    }

    fn from_objc(obj: &RawValue) -> (out: Option<i32>) {
        match obj {
            RawValue::Number(number) => Some(#[verifier::truncate] (number.integer as i32)),
            _ => None,
        }
    }
}

impl FromObjC for bool {
    open spec fn wanted() -> Tag {
        Tag::Boolean
    }

    open spec fn converted(obj: Value) -> Option<bool> {
        match obj {
            Value::Boolean(b) => Some(b),
            _ => None,
        }
    }

    proof fn lemma_converts_only_wanted_tag(obj: Value) {
    }

    fn from_objc(obj: &RawValue) -> (out: Option<bool>) {
        match obj {
            RawValue::Boolean(b) => Some(*b),
            _ => None,
        }
    }
}

impl<T: FromObjC> FromObjC for Vec<T> {
    open spec fn wanted() -> Tag {
        Tag::Sequence
    }

    /// A sequence converts if every element does, and then element by
    /// element; one element that does not convert fails the whole.
    open spec fn converted(obj: Value) -> Option<Seq<T::V>> {
        match obj {
            Value::Sequence(items) => if forall|i: int|
                0 <= i < items.len() ==> (#[trigger] T::converted(items[i])) is Some {
                Some(Seq::new(items.len(), |i: int| T::converted(items[i])->0))
            } else {
                None
            },
            _ => None,
        }
    }

    proof fn lemma_converts_only_wanted_tag(obj: Value) {
    }

    fn from_objc(obj: &RawValue) -> (out: Option<Vec<T>>) {
        match obj {
            RawValue::Sequence(items) => {
                let ghost elems = obj@->Sequence_0;
                proof {
                    lemma_sequence_view(*items);
                }
                let mut out: Vec<T> = Vec::new();
                let mut i: usize = 0;
                while i < items.len()
                    invariant
                        i <= items.len(),
                        out.len() == i,
                        obj@ == Value::Sequence(elems),
                        elems.len() == items@.len(),
                        forall|j: int| 0 <= j < elems.len() ==> #[trigger] elems[j] == items@[j]@,
                        forall|j: int|
                            0 <= j < i ==> (#[trigger] T::converted(elems[j])) == Some(
                                out@[j].deep_view(),
                            ),
                    decreases items.len() - i,
                {
                    match T::from_objc(&items[i]) {
                        Some(value) => {
                            out.push(value);
                        },
                        None => {
                            assert(T::converted(elems[i as int]) is None);
                            return None;
                        },
                    }
                    i = i + 1;
                }
                proof {
                    let got = Some(out).deep_view();
                    assert(got->0 =~= Self::converted(obj@)->0);
                }
                Some(out)
            },
            _ => None,
        }
    }
}

/// A sequence converts as a whole or not at all: it converts exactly if
/// each of its elements does, and then holds the converted elements in
/// their order. One element that does not convert leaves no partial result.
pub proof fn lemma_sequence_all_or_nothing<T: FromObjC>(items: Seq<Value>)
    ensures
        <Vec<T> as FromObjC>::converted(Value::Sequence(items)) is Some <==> (forall|i: int|
            0 <= i < items.len() ==> (#[trigger] T::converted(items[i])) is Some),
        <Vec<T> as FromObjC>::converted(Value::Sequence(items)) matches Some(out) ==> out.len()
            == items.len() && (forall|i: int|
            0 <= i < items.len() ==> Some(#[trigger] out[i]) == T::converted(items[i])),
{
}

/// One element that does not convert fails the whole sequence.
pub proof fn lemma_failing_element_fails_sequence<T: FromObjC>(items: Seq<Value>, at: int)
    requires
        0 <= at < items.len(),
        T::converted(items[at]) is None,
    ensures
        <Vec<T> as FromObjC>::converted(Value::Sequence(items)) is None,
{
}

} // verus!
