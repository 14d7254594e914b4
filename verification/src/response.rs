//! The structured outcome a successful operation returns.
//!
//! Every handler reports its effect as a list of string key/value attributes;
//! no handler of this module dispatches follow-up messages, so `messages`
//! stays empty throughout.

use vstd::prelude::*;

verus! {

/// One key/value pair describing the effect of an operation.
#[derive(Debug, PartialEq, Eq)]
pub struct Attribute {
    pub key: String,
    pub value: String,
}

/// The outcome of a successful operation: follow-up message payloads (always
/// empty here) and descriptive attributes.
#[derive(Debug, PartialEq, Eq)]
pub struct Response {
    pub messages: Vec<Vec<u8>>,
    pub attributes: Vec<Attribute>,
}

impl Response {
    /// An outcome with no messages and no attributes.
    pub fn new() -> (r: Response)
        ensures
            r.messages@.len() == 0,
            r.attributes@.len() == 0,
    {
        Response { messages: Vec::new(), attributes: Vec::new() }
    }

    /// The outcome extended by one attribute.
    pub fn add_attribute(self, key: &str, value: String) -> (r: Response)
        ensures
            r.messages@ == self.messages@,
            r.attributes@.len() == self.attributes@.len() + 1,
            forall|i: int| 0 <= i < self.attributes@.len() ==> r.attributes@[i]
                == self.attributes@[i],
            r.attributes@.last().key@ == key@,
            r.attributes@.last().value == value,
    {
        let mut attributes = self.attributes;
        attributes.push(Attribute { key: String::from_str(key), value });
        Response { messages: self.messages, attributes }
    }
}

} // verus!
