use crate::runtime::numeric::Numeric;
use vstd::prelude::*;

verus! {

/// A value at run time. A number is an IEEE 754 double, held as its 64
/// bits.
#[derive(Debug, PartialEq)]
pub enum LoxObject {
    Boolean(bool),
    Nil,
    Number(u64),
    String(String),
}

/// A value at run time, as a plain value.
pub enum Value {
    Boolean(bool),
    Nil,
    Number(u64),
    String(Seq<char>),
}

impl View for LoxObject {
    type V = Value;

    open spec fn view(&self) -> Value {
        match self {
            LoxObject::Boolean(v) => Value::Boolean(*v),
            LoxObject::Nil => Value::Nil,
            LoxObject::Number(v) => Value::Number(*v),
            LoxObject::String(v) => Value::String(v@),
        }
    }
}

impl Clone for LoxObject {
    fn clone(&self) -> (copy: Self)
        ensures
            copy == *self,
    {
        match self {
            LoxObject::Boolean(v) => LoxObject::Boolean(*v),
            LoxObject::Nil => LoxObject::Nil,
            LoxObject::Number(v) => LoxObject::Number(*v),
            LoxObject::String(v) => LoxObject::String(v.clone()),
        }
    }
}

/// `text` is how `value` is displayed: a boolean as `true` or `false`, nil
/// as `nil`, a string as its contents, and a number as the host formats it.
pub open spec fn displays<H: Numeric>(host: &H, value: Value, text: Seq<char>) -> bool {
    match value {
        Value::Boolean(v) => text == if v {
            "true"@
        } else {
            "false"@
        },
        Value::Nil => text == "nil"@,
        Value::Number(v) => exists|formatted: String|
            call_ensures(H::format, (host, v), formatted) && formatted@ == text,
        Value::String(v) => text == v,
    }
}

impl LoxObject {
    /// The text that `print` writes for this value.
    pub fn to_string<H: Numeric>(&self, host: &H) -> (text: String)
        ensures
            displays(host, self@, text@),
    {
        match self {
            LoxObject::Boolean(v) => if *v {
                "true".to_owned()
            } else {
                "false".to_owned()
            },
            LoxObject::Nil => "nil".to_owned(),
            LoxObject::Number(v) => host.format(*v),
            LoxObject::String(v) => v.clone(),
        }
    }
}

} // verus!
