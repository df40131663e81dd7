//! The HTTP response type and its serializer.
//!
//! `Response::prepare` turns a response into wire text: the status line,
//! the content-type line, the headers — the caller's first, then four fixed
//! CORS headers — the cookies, and the body, each section newline-joined.

use crate::codes::{get_status_line, spec_status_line, StatusCode};
use crate::content_types::{get_type, spec_content_type, ContentType};
use crate::cookies::{spec_get_cookie, Cookie};
use crate::headers::{spec_get_header, Header};
use crate::text::str_eq;
use vstd::prelude::*;
use vstd::string::*;

verus! {

/// The abstract value of a `Response`.
#[verifier::ext_equal]
pub struct ResponseView {
    pub status: StatusCode,
    pub content_type: ContentType,
    pub headers: Seq<(Seq<char>, Seq<char>)>,
    pub cookies: Seq<(Seq<char>, Seq<char>)>,
    pub data: Seq<char>,
}

/// The four CORS headers that serialization appends after the caller's
/// headers, every time.
pub open spec fn cors_headers() -> Seq<(Seq<char>, Seq<char>)> {
    seq![
        ("Access-Control-Allow-Origin"@, "*"@),
        ("Access-Control-Allow-Credentials"@, "true"@),
        (
            "Access-Control-Allow-Methods"@,
            "GET, POST, PUT, DELETE, PATCH, HEAD, OPTIONS, CONNECT, TRACE"@,
        ),
        ("Access-Control-Allow-Headers"@, "Content-Type, Authorization"@),
    ]
}

/// Key/value pairs rendered `key: value` and newline-joined.
pub open spec fn join_headers(hs: Seq<(Seq<char>, Seq<char>)>) -> Seq<char>
    decreases hs.len(),
{
    if hs.len() == 0 {
        Seq::empty()
    } else if hs.len() == 1 {
        hs[0].0 + ": "@ + hs[0].1
    } else {
        join_headers(hs.drop_last()) + "\n"@ + hs.last().0 + ": "@ + hs.last().1
    }
}

/// Key/value pairs rendered `key=value` and newline-joined.
pub open spec fn join_cookies(cs: Seq<(Seq<char>, Seq<char>)>) -> Seq<char>
    decreases cs.len(),
{
    if cs.len() == 0 {
        Seq::empty()
    } else if cs.len() == 1 {
        cs[0].0 + "="@ + cs[0].1
    } else {
        join_cookies(cs.drop_last()) + "\n"@ + cs.last().0 + "="@ + cs.last().1
    }
}

/// The wire text of a response.
pub open spec fn spec_prepare(v: ResponseView) -> Seq<char> {
    spec_status_line(v.status) + "\n"@ + spec_content_type(v.content_type) + "\n"@ + join_headers(
        v.headers + cors_headers(),
    ) + "\n"@ + join_cookies(v.cookies) + "\n"@ + v.data
}

/// An HTTP response: status, content type, headers, cookies and body.
pub struct Response {
    pub status: StatusCode,
    pub content_type: ContentType,
    pub headers: Vec<Header>,
    pub cookies: Vec<Cookie>,
    pub data: String,
}

impl View for Response {
    type V = ResponseView;

    open spec fn view(&self) -> ResponseView {
        ResponseView {
            status: self.status,
            content_type: self.content_type,
            headers: self.headers.deep_view(),
            cookies: self.cookies.deep_view(),
            data: self.data@,
        }
    }
}

impl Response {
    pub fn new(
        status: StatusCode,
        resp_type: ContentType,
        headers: Vec<Header>,
        cookies: Vec<Cookie>,
        data: String,
    ) -> (r: Response)
        ensures
            r == (Response { status, content_type: resp_type, headers, cookies, data }),
    {
        Response { status, content_type: resp_type, headers, cookies, data }
    }

    pub fn new_from_tuple(tuple: (StatusCode, ContentType, Vec<Header>, Vec<Cookie>, String)) -> (r:
        Response)
        ensures
            r == (Response {
                status: tuple.0,
                content_type: tuple.1,
                headers: tuple.2,
                cookies: tuple.3,
                data: tuple.4,
            }),
    {
        Response {
            content_type: tuple.1,
            status: tuple.0,
            headers: tuple.2,
            cookies: tuple.3,
            data: tuple.4,
        }
    }

    /// An empty OK plain-text response.
    pub fn get_empty() -> (r: Response)
        ensures
            r.status == StatusCode::OK,
            r.content_type == ContentType::TextPlainCharsetUtf8,
            r.headers@ == Seq::<Header>::empty(),
            r.cookies@ == Seq::<Cookie>::empty(),
            r.data@ == Seq::<char>::empty(),
    {
        Response::new(
            StatusCode::OK,
            ContentType::TextPlainCharsetUtf8,
            Vec::new(),
            Vec::new(),
            String::new(),
        )
    }

    pub fn set_content_type(&mut self, content_type: ContentType) -> (r: &mut Self)
        ensures
            *r == (Response { content_type, ..*old(self) }),
            *final(self) == *final(r),
    {
        self.content_type = content_type;
        self
    }

    pub fn get_content_type(&self) -> (r: ContentType)
        ensures
            r == self.content_type,
    {
        self.content_type
    }

    pub fn set_status(&mut self, status: StatusCode) -> (r: &mut Self)
        ensures
            *r == (Response { status, ..*old(self) }),
            *final(self) == *final(r),
    {
        self.status = status;
        self
    }

    pub fn set_headers(&mut self, headers: Vec<Header>) -> (r: &mut Self)
        ensures
            *r == (Response { headers, ..*old(self) }),
            *final(self) == *final(r),
    {
        self.headers = headers;
        self
    }

    pub fn add_header(&mut self, header: Header) -> (r: &mut Self)
        ensures
            r.headers@ == old(self).headers@.push(header),
            r.status == old(self).status,
            r.content_type == old(self).content_type,
            r.cookies == old(self).cookies,
            r.data == old(self).data,
            *final(self) == *final(r),
    {
        self.headers.push(header);
        self
    }

    pub fn set_cookies(&mut self, cookies: Vec<Cookie>) -> (r: &mut Self)
        ensures
            *r == (Response { cookies, ..*old(self) }),
            *final(self) == *final(r),
    {
        self.cookies = cookies;
        self
    }

    pub fn add_cookie(&mut self, cookie: Cookie) -> (r: &mut Self)
        ensures
            r.cookies@ == old(self).cookies@.push(cookie),
            r.status == old(self).status,
            r.content_type == old(self).content_type,
            r.headers == old(self).headers,
            r.data == old(self).data,
            *final(self) == *final(r),
    {
        self.cookies.push(cookie);
        self
    }

    pub fn set_data(&mut self, data: String) -> (r: &mut Self)
        ensures
            *r == (Response { data, ..*old(self) }),
            *final(self) == *final(r),
    {
        self.data = data;
        self
    }

    /// The first header with the given key, if any.
    pub fn get_header(&self, key: &str) -> (r: Option<Header>)
        ensures
            r == spec_get_header(self.headers@, key@),
    {
        let n = self.headers.len();
        let mut i: usize = 0;
        proof {
            assert(self.headers@.skip(0) =~= self.headers@);
        }
        while i < n
            invariant
                0 <= i <= n,
                n == self.headers@.len(),
                spec_get_header(self.headers@, key@) == spec_get_header(
                    self.headers@.skip(i as int),
                    key@,
                ),
            decreases n - i,
        {
            proof {
                assert(self.headers@.skip(i as int).drop_first() =~= self.headers@.skip(
                    i as int + 1,
                ));
            }
            if str_eq(self.headers[i].key.as_str(), key) {
                return Some(self.headers[i].clone());
            }
            i = i + 1;
        }
        None
    }

    /// The first cookie with the given key, if any.
    pub fn get_cookie(&self, key: &str) -> (r: Option<Cookie>)
        ensures
            r == spec_get_cookie(self.cookies@, key@),
    {
        let n = self.cookies.len();
        let mut i: usize = 0;
        proof {
            assert(self.cookies@.skip(0) =~= self.cookies@);
        }
        while i < n
            invariant
                0 <= i <= n,
                n == self.cookies@.len(),
                spec_get_cookie(self.cookies@, key@) == spec_get_cookie(
                    self.cookies@.skip(i as int),
                    key@,
                ),
            decreases n - i,
        {
            proof {
                assert(self.cookies@.skip(i as int).drop_first() =~= self.cookies@.skip(
                    i as int + 1,
                ));
            }
            if str_eq(self.cookies[i].key.as_str(), key) {
                return Some(self.cookies[i].clone());
            }
            i = i + 1;
        }
        None
    }

    /// Serializes the response to the text written to the wire.
    pub fn prepare(&self) -> (r: String)
        ensures
            r@ == spec_prepare(self@),
    {
        let ghost hs = self.headers.deep_view() + cors_headers();
        let mut all: Vec<Header> = Vec::new();
        let n = self.headers.len();
        let mut i: usize = 0;
        proof {
            assert(all.deep_view() =~= hs.take(0));
        }
        while i < n
            invariant
                0 <= i <= n,
                n == self.headers@.len(),
                hs == self.headers.deep_view() + cors_headers(),
                all.deep_view() == hs.take(i as int),
            decreases n - i,
        {
            let ghost prev = all.deep_view();
            all.push(self.headers[i].clone());
            proof {
                assert(all.deep_view() =~= prev.push(self.headers.deep_view()[i as int]));
                assert(prev.push(hs[i as int]) =~= hs.take(i + 1));
            }
            i = i + 1;
        }
        let ghost a0 = all.deep_view();
        all.push(
            Header::new(
                String::from_str("Access-Control-Allow-Origin"),
                String::from_str("*"),
            ),
        );
        proof {
            assert(all.deep_view() =~= a0.push(("Access-Control-Allow-Origin"@, "*"@)));
        }
        let ghost a1 = all.deep_view();
        all.push(
            Header::new(
                String::from_str("Access-Control-Allow-Credentials"),
                String::from_str("true"),
            ),
        );
        proof {
            assert(all.deep_view() =~= a1.push(("Access-Control-Allow-Credentials"@, "true"@)));
        }
        let ghost a2 = all.deep_view();
        all.push(
            Header::new(
                String::from_str("Access-Control-Allow-Methods"),
                String::from_str("GET, POST, PUT, DELETE, PATCH, HEAD, OPTIONS, CONNECT, TRACE"),
            ),
        );
        proof {
            assert(all.deep_view() =~= a2.push(
                (
                    "Access-Control-Allow-Methods"@,
                    "GET, POST, PUT, DELETE, PATCH, HEAD, OPTIONS, CONNECT, TRACE"@,
                ),
            ));
        }
        let ghost a3 = all.deep_view();
        all.push(
            Header::new(
                String::from_str("Access-Control-Allow-Headers"),
                String::from_str("Content-Type, Authorization"),
            ),
        );
        proof {
            assert(all.deep_view() =~= a3.push(
                ("Access-Control-Allow-Headers"@, "Content-Type, Authorization"@),
            ));
            assert(cors_headers().len() == 4);
            assert(cors_headers()[0] == ("Access-Control-Allow-Origin"@, "*"@));
            assert(cors_headers()[1] == ("Access-Control-Allow-Credentials"@, "true"@));
            assert(cors_headers()[2] == (
                "Access-Control-Allow-Methods"@,
                "GET, POST, PUT, DELETE, PATCH, HEAD, OPTIONS, CONNECT, TRACE"@,
            ));
            assert(cors_headers()[3] == (
                "Access-Control-Allow-Headers"@,
                "Content-Type, Authorization"@,
            ));
            assert(all.deep_view() =~= hs);
        }
        let m = all.len();
        let mut hline = String::new();
        let mut k: usize = 0;
        proof {
            assert(hline@ =~= join_headers(hs.take(0)));
        }
        while k < m
            invariant
                0 <= k <= m,
                m == all@.len(),
                all.deep_view() == hs,
                hline@ == join_headers(hs.take(k as int)),
            decreases m - k,
        {
            if k > 0 {
                hline.append("\n");
            }
            hline.append(all[k].key.as_str());
            hline.append(": ");
            hline.append(all[k].value.as_str());
            proof {
                assert(hs[k as int] == (all@[k as int].key@, all@[k as int].value@));
                assert(hs.take(k + 1).drop_last() =~= hs.take(k as int));
                assert(hs.take(k + 1).last() == hs[k as int]);
            }
            k = k + 1;
        }
        proof {
            assert(hs.take(m as int) =~= hs);
        }
        let ghost cs = self.cookies.deep_view();
        let p = self.cookies.len();
        let mut cline = String::new();
        let mut k2: usize = 0;
        proof {
            assert(cline@ =~= join_cookies(cs.take(0)));
        }
        while k2 < p
            invariant
                0 <= k2 <= p,
                p == self.cookies@.len(),
                cs == self.cookies.deep_view(),
                cline@ == join_cookies(cs.take(k2 as int)),
            decreases p - k2,
        {
            if k2 > 0 {
                cline.append("\n");
            }
            cline.append(self.cookies[k2].key.as_str());
            cline.append("=");
            cline.append(self.cookies[k2].value.as_str());
            proof {
                assert(cs[k2 as int] == (
                    self.cookies@[k2 as int].key@,
                    self.cookies@[k2 as int].value@,
                ));
                assert(cs.take(k2 + 1).drop_last() =~= cs.take(k2 as int));
                assert(cs.take(k2 + 1).last() == cs[k2 as int]);
            }
            k2 = k2 + 1;
        }
        proof {
            assert(cs.take(p as int) =~= cs);
        }
        let mut out = get_status_line(self.status);
        out.append("\n");
        let t = get_type(self.content_type);
        out.append(t.as_str());
        out.append("\n");
        out.append(hline.as_str());
        out.append("\n");
        out.append(cline.as_str());
        out.append("\n");
        out.append(self.data.as_str());
        proof {
            assert(out@ =~= spec_prepare(self@));
        }
        out
    }
}

impl Default for Response {
    /// An empty OK plain-text response.
    fn default() -> (r: Response)
        ensures
            r.status == StatusCode::OK,
            r.content_type == ContentType::TextPlainCharsetUtf8,
            r.headers@ == Seq::<Header>::empty(),
            r.cookies@ == Seq::<Cookie>::empty(),
            r.data@ == Seq::<char>::empty(),
    {
        Response {
            status: StatusCode::OK,
            content_type: ContentType::TextPlainCharsetUtf8,
            headers: Vec::new(),
            cookies: Vec::new(),
            data: String::new(),
        }
    }
}

} // verus!
