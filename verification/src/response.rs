use vstd::prelude::*;

verus! {

/// One key/value attribute of a response envelope.
#[derive(Clone, Debug, PartialEq, Eq)]
pub struct Attribute {
    pub key: String,
    pub value: String,
}

/// The envelope a successful operation returns: a list of attributes carrying
/// at minimum the operation's action tag.
#[derive(Clone, Debug, PartialEq, Eq)]
pub struct Response {
    pub attributes: Vec<Attribute>,
}

impl Response {
    /// An empty envelope, with no attributes yet.
    pub fn new() -> (r: Response)
        ensures
            r.attributes@.len() == 0,
    {
        Response { attributes: Vec::new() }
    }

    /// Appends one attribute; every attribute already present keeps its place.
    pub fn add_attribute(self, key: &str, value: &str) -> (r: Response)
        ensures
            r.attributes@.len() == self.attributes@.len() + 1,
            forall|i: int|
                0 <= i < self.attributes@.len() ==> r.attributes@[i] == self.attributes@[i],
            r.attributes@.last().key@ == key@,
            r.attributes@.last().value@ == value@,
    {
        let mut attributes = self.attributes;
        attributes.push(Attribute { key: key.to_owned(), value: value.to_owned() });
        Response { attributes }
    }
}

} // verus!
