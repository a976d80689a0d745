//! The concrete values a container can store, together with their
//! mathematical model and the type-identity oracle.
//!
//! The container erases the concrete type of its value.  Here the universe of
//! concrete types is a closed enum: each variant stands for one concrete type,
//! and the type-identity facility assigns each variant a unique identifier.

use vstd::prelude::*;

verus! {

/// Type identifier of `Value::Record`.
pub const TYPE_ID_RECORD: u32 = 1;

/// Type identifier of `Value::Text`.
pub const TYPE_ID_TEXT: u32 = 2;

/// A concrete value that can be stored, type-erased, in a container.
#[derive(Debug)]
pub enum Value {
    /// A record with a numeric field and a textual field.
    Record { a: u32, text: String },
    /// A plain piece of text.
    Text(String),
}

/// The mathematical model of a `Value`: the same shape over `Seq<char>`.
pub enum ValueView {
    Record { a: u32, text: Seq<char> },
    Text(Seq<char>),
}

impl View for Value {
    type V = ValueView;

    open spec fn view(&self) -> ValueView {
        match self {
            Value::Record { a, text } => ValueView::Record { a: *a, text: text@ },
            Value::Text(s) => ValueView::Text(s@),
        }
    }
}

/// The type identifier of a modeled value.
pub open spec fn view_type_id(v: ValueView) -> u32 {
    match v {
        ValueView::Record { .. } => TYPE_ID_RECORD,
        ValueView::Text(..) => TYPE_ID_TEXT,
    }
}

/// The type identifier of a concrete value: the host's type-identity oracle.
pub open spec fn value_type_id(v: Value) -> u32 {
    view_type_id(v@)
}

impl Value {
    /// Returns the unique identifier of this value's concrete type.
    pub fn type_id(&self) -> (t: u32)
        ensures
            t == value_type_id(*self),
    {
        match self {
            Value::Record { .. } => TYPE_ID_RECORD,
            Value::Text(..) => TYPE_ID_TEXT,
        }
    }
}

impl PartialEq for Value {
    /// Value equality: same concrete type and equal fields.
    fn eq(&self, other: &Value) -> (r: bool)
        ensures
            r == (self@ == other@),
    {
        match (self, other) {
            (Value::Record { a: a1, text: t1 }, Value::Record { a: a2, text: t2 }) => {
                let r = *a1 == *a2 && t1.eq(t2);
                proof {
                    if r {
                        assert(self@ == other@);
                    }
                }
                r
            },
            (Value::Text(s1), Value::Text(s2)) => {
                let r = s1.eq(s2);
                proof {
                    if r {
                        assert(self@ == other@);
                    }
                }
                r
            },
            _ => false,
        }
    }
}

impl vstd::std_specs::cmp::PartialEqSpecImpl for Value {
    open spec fn obeys_eq_spec() -> bool {
        true
    }

    open spec fn eq_spec(&self, other: &Value) -> bool {
        self@ == other@
    }
}

} // verus!
