use crate::runtime::lox_object::{LoxObject, Value};
use vstd::hash_map::StringHashMap;
use vstd::prelude::*;

verus! {

/// The variables of a program: one flat table from names to values.
pub struct Environment {
    values: StringHashMap<LoxObject>,
}

impl View for Environment {
    type V = Map<Seq<char>, Value>;

    closed spec fn view(&self) -> Map<Seq<char>, Value> {
        self.values@.map_values(|value: LoxObject| value@)
    }
}

impl Environment {
    pub fn new() -> (environment: Environment)
        ensures
            environment@ == Map::<Seq<char>, Value>::empty(),
    {
        Environment { values: StringHashMap::new() }
    }

    /// The value bound to `name`, if there is one.
    pub fn get(&self, name: &str) -> (value: Option<&LoxObject>)
        ensures
            match value {
                Some(found) => self@.contains_key(name@) && found@ == self@[name@],
                None => !self@.contains_key(name@),
            },
    {
        self.values.get(name)
    }

    /// Binds `name` to `value`, whether or not it was bound before.
    pub fn define(&mut self, name: String, value: LoxObject)
        ensures
            final(self)@ == old(self)@.insert(name@, value@),
    {
        self.values.insert(name, value);
    }
}

/// A name that is defined is found again with the value it was given, and
/// no other name is touched.
pub proof fn defined_is_found(
    variables: Map<Seq<char>, Value>,
    name: Seq<char>,
    value: Value,
    other: Seq<char>,
)
    requires
        other != name,
    ensures
        variables.insert(name, value).contains_key(name),
        variables.insert(name, value)[name] == value,
        variables.insert(name, value).contains_key(other) == variables.contains_key(other),
        variables.contains_key(other) ==> variables.insert(name, value)[other] == variables[other],
{
}

} // verus!
