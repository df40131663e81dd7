use vstd::prelude::*;

verus! {

/// An HTTP cookie: a key/value pair taken from one `key=value` piece of a
/// `Cookie:` request header, or set on a response.
pub struct Cookie {
    pub key: String,
    pub value: String,
}

impl View for Cookie {
    type V = (Seq<char>, Seq<char>);

    open spec fn view(&self) -> (Seq<char>, Seq<char>) {
        (self.key@, self.value@)
    }
}

impl DeepView for Cookie {
    type V = (Seq<char>, Seq<char>);

    open spec fn deep_view(&self) -> (Seq<char>, Seq<char>) {
        self@
    }
}

/// The first cookie of `cs` whose key is exactly `key`, if any.
pub open spec fn spec_get_cookie(cs: Seq<Cookie>, key: Seq<char>) -> Option<Cookie>
    decreases cs.len(),
{
    if cs.len() == 0 {
        None
    } else if cs[0].key@ == key {
        Some(cs[0])
    } else {
        spec_get_cookie(cs.drop_first(), key)
    }
}

impl Clone for Cookie {
    fn clone(&self) -> (r: Cookie)
        ensures
            r == *self,
    {
        Cookie { key: self.key.clone(), value: self.value.clone() }
    }
}

impl Cookie {
    pub fn new(key: String, value: String) -> (r: Cookie)
        ensures
            r.key == key,
            r.value == value,
    {
        Cookie { key, value }
    }

    pub fn key(&self) -> (r: &str)
        ensures
            r@ == self.key@,
    {
        self.key.as_str()
    }

    pub fn value(&self) -> (r: &str)
        ensures
            r@ == self.value@,
    {
        self.value.as_str()
    }
}

} // verus!
