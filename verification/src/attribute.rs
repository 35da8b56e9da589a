use vstd::prelude::*;

verus! {

/// A key-value pair attached to a resource or to a measurement.
#[derive(Debug)]
pub struct Attribute {
    pub key: String,
    pub value: String,
}

impl View for Attribute {
    type V = (Seq<char>, Seq<char>);

    open spec fn view(&self) -> (Seq<char>, Seq<char>) {
        (self.key@, self.value@)
    }
}

/// The pairs a list of attributes holds, in order.
pub open spec fn attribute_pairs(v: Seq<Attribute>) -> Seq<(Seq<char>, Seq<char>)> {
    v.map_values(|a: Attribute| a@)
}

/// Builds the attribute `key = value`.
pub fn attribute(key: &str, value: &str) -> (a: Attribute)
    ensures
        a@ == (key@, value@),
{
    Attribute { key: String::from_str(key), value: String::from_str(value) }
}

} // verus!
