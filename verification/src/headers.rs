use vstd::prelude::*;

verus! {

/// An HTTP header: a key/value pair of UTF-8 strings. Duplicate keys are
/// allowed and insertion order is preserved by the types that hold headers.
pub struct Header {
    pub key: String,
    pub value: String,
}

impl View for Header {
    type V = (Seq<char>, Seq<char>);

    open spec fn view(&self) -> (Seq<char>, Seq<char>) {
        (self.key@, self.value@)
    }
}

impl DeepView for Header {
    type V = (Seq<char>, Seq<char>);

    open spec fn deep_view(&self) -> (Seq<char>, Seq<char>) {
        self@
    }
}

/// The first header of `hs` whose key is exactly `key`, if any.
pub open spec fn spec_get_header(hs: Seq<Header>, key: Seq<char>) -> Option<Header>
    decreases hs.len(),
{
    if hs.len() == 0 {
        None
    } else if hs[0].key@ == key {
        Some(hs[0])
    } else {
        spec_get_header(hs.drop_first(), key)
    }
}

impl Clone for Header {
    fn clone(&self) -> (r: Header)
        ensures
            r == *self,
    {
        Header { key: self.key.clone(), value: self.value.clone() }
    }
}

impl Header {
    pub fn new(key: String, value: String) -> (r: Header)
        ensures
            r.key == key,
            r.value == value,
    {
        Header { key, value }
    }

    pub fn key(&self) -> (r: &str)
        ensures
            r@ == self.key@,
    {
        self.key.as_str()
    }

    pub fn value(&self) -> (r: &str)
        ensures
            r@ == self.value@,
    {
        self.value.as_str()
    }
}

} // verus!
