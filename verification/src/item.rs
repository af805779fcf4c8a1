//! Items and atomic values.

use vstd::prelude::*;
use crate::repr::Repr;

verus! {

/// What a `Value` stands for.
pub enum ValueView {
    Boolean(bool),
    Integer(int),
    /// A decimal number, in millionths.
    Decimal(int),
    String(Seq<char>),
}

/// An atomic value.
#[derive(Debug, PartialEq)]
pub enum Value {
    Boolean(bool),
    Integer(i64),
    /// A decimal number with six fractional digits, held in millionths.
    Decimal(i64),
    String(String),
}

impl Repr for Value {
    type V = ValueView;

    open spec fn repr(&self) -> ValueView {
        match self {
            Value::Boolean(b) => ValueView::Boolean(*b),
            Value::Integer(i) => ValueView::Integer(*i as int),
            Value::Decimal(d) => ValueView::Decimal(*d as int),
            Value::String(s) => ValueView::String(s@),
        }
    }
}

impl Clone for Value {
    fn clone(&self) -> (v: Value)
        ensures
            v.repr() == self.repr(),
    {
        self.duplicate()
    }
}

impl Value {
    /// A copy that stands for the same value.
    pub fn duplicate(&self) -> (v: Value)
        ensures
            v.repr() == self.repr(),
    {
        match self {
            Value::Boolean(b) => Value::Boolean(*b),
            Value::Integer(i) => Value::Integer(*i),
            Value::Decimal(d) => Value::Decimal(*d),
            Value::String(s) => Value::String(s.clone()),
        }
    }

    /// The value as a truth value: a boolean is itself, a number is true
    /// unless it is zero, a string is true unless it is empty.
    pub fn to_bool(&self) -> (b: bool)
        ensures
            b == truth(self.repr()),
    {
        match self {
            Value::Boolean(b) => *b,
            Value::Integer(i) => *i != 0,
            Value::Decimal(d) => *d != 0,
            Value::String(s) => s.as_str().unicode_len() != 0,
        }
    }
}

/// The truth value of an atomic value.
pub open spec fn truth(v: ValueView) -> bool {
    match v {
        ValueView::Boolean(b) => b,
        ValueView::Integer(i) => i != 0,
        ValueView::Decimal(d) => d != 0,
        ValueView::String(s) => s.len() != 0,
    }
}

/// What an `Item` stands for.
pub enum ItemView {
    Value(ValueView),
}

/// An item of a sequence.
#[derive(Debug, PartialEq)]
pub enum Item {
    Value(Value),
}

impl Repr for Item {
    type V = ItemView;

    open spec fn repr(&self) -> ItemView {
        match self {
            Item::Value(v) => ItemView::Value(v.repr()),
        }
    }
}

impl Clone for Item {
    fn clone(&self) -> (i: Item)
        ensures
            i.repr() == self.repr(),
    {
        self.duplicate()
    }
}

impl Item {
    /// A copy that stands for the same item.
    pub fn duplicate(&self) -> (i: Item)
        ensures
            i.repr() == self.repr(),
    {
        match self {
            Item::Value(v) => Item::Value(v.duplicate()),
        }
    }
}

} // verus!
