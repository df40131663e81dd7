//! HTTP methods: the closed enumeration and its wire spellings.

use crate::text::{case_eq_upper, is_space_char, str_case_eq_upper, upper_code};
use vstd::prelude::*;
use vstd::string::*;

verus! {

/// The closed set of HTTP methods.
#[derive(Debug, PartialEq, Eq, Copy, Clone, Structural)]
pub enum HttpMethod {
    GET,
    POST,
    PUT,
    DELETE,
    PATCH,
    HEAD,
    OPTIONS,
    CONNECT,
    TRACE,
}

/// The canonical wire spelling of a method.
pub open spec fn spec_method_str(method: HttpMethod) -> Seq<char> {
    match method {
        HttpMethod::GET => "GET"@,
        HttpMethod::POST => "POST"@,
        HttpMethod::PUT => "PUT"@,
        HttpMethod::DELETE => "DELETE"@,
        HttpMethod::PATCH => "PATCH"@,
        HttpMethod::HEAD => "HEAD"@,
        HttpMethod::OPTIONS => "OPTIONS"@,
        HttpMethod::CONNECT => "CONNECT"@,
        HttpMethod::TRACE => "TRACE"@,
    }
}

/// The method a token denotes: the token is matched case-insensitively
/// against the nine canonical spellings, and anything unrecognized
/// defaults to GET.
pub open spec fn method_of(t: Seq<char>) -> HttpMethod {
    if case_eq_upper(t, "GET"@) {
        HttpMethod::GET
    } else if case_eq_upper(t, "POST"@) {
        HttpMethod::POST
    } else if case_eq_upper(t, "PUT"@) {
        HttpMethod::PUT
    } else if case_eq_upper(t, "DELETE"@) {
        HttpMethod::DELETE
    } else if case_eq_upper(t, "PATCH"@) {
        HttpMethod::PATCH
    } else if case_eq_upper(t, "HEAD"@) {
        HttpMethod::HEAD
    } else if case_eq_upper(t, "OPTIONS"@) {
        HttpMethod::OPTIONS
    } else if case_eq_upper(t, "CONNECT"@) {
        HttpMethod::CONNECT
    } else if case_eq_upper(t, "TRACE"@) {
        HttpMethod::TRACE
    } else {
        HttpMethod::GET
    }
}

impl HttpMethod {
    /// Returns the canonical spelling of a method, for example `GET`.
    pub fn get_method_str(method: HttpMethod) -> (r: String)
        ensures
            r@ == spec_method_str(method),
    {
        match method {
            HttpMethod::GET => String::from_str("GET"),
            HttpMethod::POST => String::from_str("POST"),
            HttpMethod::PUT => String::from_str("PUT"),
            HttpMethod::DELETE => String::from_str("DELETE"),
            HttpMethod::PATCH => String::from_str("PATCH"),
            HttpMethod::HEAD => String::from_str("HEAD"),
            HttpMethod::OPTIONS => String::from_str("OPTIONS"),
            HttpMethod::CONNECT => String::from_str("CONNECT"),
            HttpMethod::TRACE => String::from_str("TRACE"),
        }
    }

    /// Reads a method token, case-insensitively; anything unrecognized is
    /// taken as GET.
    pub fn get_method(method: &str) -> (r: HttpMethod)
        ensures
            r == method_of(method@),
    {
        if str_case_eq_upper(method, "GET") {
            HttpMethod::GET
        } else if str_case_eq_upper(method, "POST") {
            HttpMethod::POST
        } else if str_case_eq_upper(method, "PUT") {
            HttpMethod::PUT
        } else if str_case_eq_upper(method, "DELETE") {
            HttpMethod::DELETE
        } else if str_case_eq_upper(method, "PATCH") {
            HttpMethod::PATCH
        } else if str_case_eq_upper(method, "HEAD") {
            HttpMethod::HEAD
        } else if str_case_eq_upper(method, "OPTIONS") {
            HttpMethod::OPTIONS
        } else if str_case_eq_upper(method, "CONNECT") {
            HttpMethod::CONNECT
        } else if str_case_eq_upper(method, "TRACE") {
            HttpMethod::TRACE
        } else {
            HttpMethod::GET
        }
    }
}

/// Reading back a canonical method spelling yields the method it came
/// from: the two directions of the wire encoding agree.
pub proof fn lemma_method_of_canonical(m: HttpMethod)
    ensures
        method_of(spec_method_str(m)) == m,
{
    reveal_strlit("GET");
    reveal_strlit("POST");
    reveal_strlit("PUT");
    reveal_strlit("DELETE");
    reveal_strlit("PATCH");
    reveal_strlit("HEAD");
    reveal_strlit("OPTIONS");
    reveal_strlit("CONNECT");
    reveal_strlit("TRACE");
    match m {
        HttpMethod::PUT => {
            assert(upper_code("PUT"@[0]) != upper_code("GET"@[0]));
        },
        HttpMethod::HEAD => {
            assert(upper_code("HEAD"@[0]) != upper_code("POST"@[0]));
        },
        HttpMethod::CONNECT => {
            assert(upper_code("CONNECT"@[0]) != upper_code("OPTIONS"@[0]));
        },
        HttpMethod::TRACE => {
            assert(upper_code("TRACE"@[0]) != upper_code("PATCH"@[0]));
        },
        _ => {},
    }
}

/// The canonical spelling of a method contains no whitespace, so it
/// survives request-line tokenization intact.
pub proof fn lemma_method_str_no_space(m: HttpMethod)
    ensures
        spec_method_str(m).len() > 0,
        forall|i: int|
            0 <= i < spec_method_str(m).len() ==> !is_space_char(spec_method_str(m)[i]),
{
    reveal_strlit("GET");
    reveal_strlit("POST");
    reveal_strlit("PUT");
    reveal_strlit("DELETE");
    reveal_strlit("PATCH");
    reveal_strlit("HEAD");
    reveal_strlit("OPTIONS");
    reveal_strlit("CONNECT");
    reveal_strlit("TRACE");
}

} // verus!
