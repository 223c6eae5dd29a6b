//! Structured data as the backend returns it.

use vstd::prelude::*;

verus! {

/// A JSON value. A number is kept as the text that stands for it.
#[derive(Debug, PartialEq, Eq)]
pub enum Json {
    Null,
    Bool(bool),
    Number(String),
    String(String),
    Array(Vec<Json>),
    Object(Vec<Member>),
}

/// One property of a JSON object.
#[derive(Debug, PartialEq, Eq)]
pub struct Member {
    pub name: String,
    pub value: Json,
}

impl Json {
    /// The value is an object with exactly one property.
    pub open spec fn is_single_property(&self) -> bool {
        self matches Json::Object(members) && members@.len() == 1
    }

    /// The value of the only property of such an object.
    pub open spec fn single_property(&self) -> Json
        recommends
            self.is_single_property(),
    {
        self->Object_0@[0].value
    }
}

} // verus!
