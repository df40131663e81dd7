//! The HTTP request type and its parser.
//!
//! `Request::parse` turns the raw request text into a structured value. Its
//! whole behaviour is given by `spec_parse`: the first line splits into a
//! method token and a path token, the lines before the first empty line are
//! headers (a `Cookie:` header contributing cookie pairs instead), and the
//! non-empty lines after the first empty line form the body.

use crate::cookies::{spec_get_cookie, Cookie};
use crate::headers::{spec_get_header, Header};
use crate::methods::{
    lemma_method_of_canonical, lemma_method_str_no_space, method_of, spec_method_str, HttpMethod,
};
use crate::text::{
    case_eq_upper, is_space_char, lemma_scan_char_is, lemma_scan_non_space_is, lemma_scan_other,
    lemma_scan_space_is, lemma_scan_sub, lemma_scan_sub_shift, lemma_strip_colons_is, scan_char,
    scan_char_str, scan_non_space_str, scan_other_str, scan_space_str,
    scan_sub, scan_sub_str, split_lines, split_lines_from, str_case_eq_upper, str_eq,
    strip_colons, strip_cr, token0, token1, trim_end_spaces, trim_end_to_string, trim_spaces,
    trim_to_string,
};
use vstd::prelude::*;
use vstd::string::*;

verus! {

/// The abstract value of a `Request`.
#[verifier::ext_equal]
pub struct RequestView {
    pub method: HttpMethod,
    pub path: Seq<char>,
    pub path_variables: Seq<Seq<char>>,
    pub headers: Seq<(Seq<char>, Seq<char>)>,
    pub cookies: Seq<(Seq<char>, Seq<char>)>,
    pub data: Seq<char>,
}

/// The `/`-separated segments of a path, at and after position `from`.
pub open spec fn segments_from(p: Seq<char>, from: int) -> Seq<Seq<char>>
    decreases p.len() - from,
{
    if !(0 <= from && from <= p.len()) {
        Seq::empty()
    } else {
        let e = scan_char(p, from, '/');
        if from <= e && e < p.len() {
            seq![p.subrange(from, e)] + segments_from(p, e + 1)
        } else {
            seq![p.subrange(from, p.len() as int)]
        }
    }
}

/// The path variables among some path segments: every segment that starts
/// with `:`, with its leading colons removed.
pub open spec fn vars_of_segments(segs: Seq<Seq<char>>) -> Seq<Seq<char>>
    decreases segs.len(),
{
    if segs.len() == 0 {
        Seq::empty()
    } else {
        let rest = vars_of_segments(segs.drop_first());
        if segs[0].len() > 0 && segs[0][0] == ':' {
            seq![strip_colons(segs[0])] + rest
        } else {
            rest
        }
    }
}

/// The path variables of a path.
pub open spec fn path_vars(p: Seq<char>) -> Seq<Seq<char>> {
    vars_of_segments(segments_from(p, 0))
}

/// The at most one cookie pair of one `key=value` piece: pieces without a
/// `=` contribute nothing.
pub open spec fn pair_of(p: Seq<char>) -> Seq<(Seq<char>, Seq<char>)> {
    let j = scan_char(p, 0, '=');
    if j < p.len() {
        seq![(p.take(j), p.skip(j + 1))]
    } else {
        Seq::empty()
    }
}

/// The cookie pairs of a `Cookie:` header value: `;`-space-separated
/// `key=value` pieces, in order.
pub open spec fn cookie_pairs(v: Seq<char>) -> Seq<(Seq<char>, Seq<char>)>
    decreases v.len(),
{
    let j = scan_sub(v, 0, "; "@);
    if 0 <= j && j + 2 <= v.len() {
        pair_of(v.take(j)) + cookie_pairs(v.skip(j + 2))
    } else {
        pair_of(v)
    }
}

/// What the lines after the request line contribute to a request.
#[verifier::ext_equal]
pub struct TailView {
    pub headers: Seq<(Seq<char>, Seq<char>)>,
    pub cookies: Seq<(Seq<char>, Seq<char>)>,
    pub data: Seq<char>,
}

pub open spec fn empty_tail() -> TailView {
    TailView { headers: Seq::empty(), cookies: Seq::empty(), data: Seq::empty() }
}

/// Folds the lines after the request line. While `in_headers` holds, each
/// line that contains `: ` is a header (a cookie header contributing its
/// pairs instead), and other lines are skipped; the first empty line ends
/// the header section; every later non-empty line joins the body, newline
/// terminated. An empty line is never part of the body.
pub open spec fn parse_tail(lines: Seq<Seq<char>>, in_headers: bool) -> TailView
    decreases lines.len(),
{
    if lines.len() == 0 {
        empty_tail()
    } else {
        let l = lines[0];
        if l.len() == 0 {
            parse_tail(lines.drop_first(), false)
        } else if in_headers {
            let rest = parse_tail(lines.drop_first(), true);
            let j = scan_sub(l, 0, ": "@);
            if j < l.len() {
                let k = trim_spaces(l.take(j));
                let v = trim_spaces(l.skip(j + 2));
                if case_eq_upper(k, "COOKIE"@) {
                    TailView { cookies: cookie_pairs(v) + rest.cookies, ..rest }
                } else {
                    TailView { headers: seq![(k, v)] + rest.headers, ..rest }
                }
            } else {
                rest
            }
        } else {
            let rest = parse_tail(lines.drop_first(), false);
            TailView { data: l + "\n"@ + rest.data, ..rest }
        }
    }
}

/// The request a piece of raw request text denotes.
pub open spec fn spec_parse(payload: Seq<char>) -> RequestView {
    let lines = split_lines(payload);
    let line0 = if lines.len() > 0 {
        lines[0]
    } else {
        Seq::empty()
    };
    let rest = if lines.len() == 0 {
        lines
    } else {
        lines.drop_first()
    };
    let tail = parse_tail(rest, true);
    RequestView {
        method: method_of(token0(line0)),
        path: token1(line0),
        path_variables: path_vars(token1(line0)),
        headers: tail.headers,
        cookies: tail.cookies,
        data: trim_end_spaces(tail.data),
    }
}

/// The wire round-trips the request line: parsing a well-formed
/// `METHOD PATH\r\nHeader: value\r\n\r\n` request recovers the method and
/// the path exactly, whatever the header line holds, so a response built
/// from the parsed request's echoed fields re-serializes them unchanged.
pub proof fn lemma_parse_round_trip(m: HttpMethod, path: Seq<char>, header_line: Seq<char>)
    requires
        path.len() > 0,
        forall|i: int| 0 <= i < path.len() ==> !is_space_char(path[i]),
    ensures
        ({
            let text = spec_method_str(m) + " "@ + path + "\r\n"@ + header_line + "\r\n\r\n"@;
            &&& spec_parse(text).method == m
            &&& spec_parse(text).path == path
            &&& spec_method_str(spec_parse(text).method) == spec_method_str(m)
        }),
{
    reveal_strlit(" ");
    reveal_strlit("\r\n");
    reveal_strlit("\r\n\r\n");
    let ms = spec_method_str(m);
    lemma_method_str_no_space(m);
    lemma_method_of_canonical(m);
    let a = ms + " "@;
    let line0 = a + path;
    let c = line0 + "\r\n"@;
    let d = c + header_line;
    let text = d + "\r\n\r\n"@;
    let p1 = line0.len() + 1;
    assert(text[p1 as int] == '\n');
    assert forall|k: int| 0 <= k < p1 implies text[k] != '\n' by {
        if k < ms.len() {
            assert(text[k] == ms[k]);
            assert(!is_space_char(ms[k]));
        } else if k == ms.len() {
            assert(text[k] == ' ');
        } else if k < line0.len() {
            assert(text[k] == path[k - ms.len() - 1]);
            assert(!is_space_char(path[k - ms.len() - 1]));
        } else {
            assert(text[k] == '\r');
        }
    };
    lemma_scan_char_is(text, 0, '\n', p1 as int);
    let lines = split_lines(text);
    assert(text.subrange(0, p1 as int) =~= line0 + seq!['\r']);
    assert((line0 + seq!['\r']).drop_last() =~= line0);
    assert(strip_cr(text.subrange(0, p1 as int)) == line0);
    assert(lines.len() > 0);
    assert(lines[0] == line0);
    // the method token is exactly the canonical method spelling
    assert(line0[0] == ms[0]);
    lemma_scan_non_space_is(line0, 0, 0);
    assert forall|k: int| 0 <= k < ms.len() implies !is_space_char(line0[k]) by {
        assert(line0[k] == ms[k]);
    };
    assert(is_space_char(line0[ms.len() as int]));
    lemma_scan_space_is(line0, 0, ms.len() as int);
    assert(line0.subrange(0, ms.len() as int) =~= ms);
    assert(token0(line0) == ms);
    // the path token is exactly the path
    lemma_scan_non_space_is(line0, ms.len() as int, ms.len() + 1 as int);
    assert forall|k: int| ms.len() + 1 <= k < line0.len() implies !is_space_char(line0[k]) by {
        assert(line0[k] == path[k - ms.len() - 1]);
    };
    lemma_scan_space_is(line0, ms.len() + 1 as int, line0.len() as int);
    assert(line0.subrange(ms.len() + 1 as int, line0.len() as int) =~= path);
    assert(token1(line0) == path);
}

/// An HTTP request: the parsed method, path and path variables of the
/// request line, the headers and cookies, and the raw body.
pub struct Request {
    pub method: HttpMethod,
    pub path: String,
    pub path_variables: Vec<String>,
    pub headers: Vec<Header>,
    pub cookies: Vec<Cookie>,
    pub data: String,
}

impl View for Request {
    type V = RequestView;

    open spec fn view(&self) -> RequestView {
        RequestView {
            method: self.method,
            path: self.path@,
            path_variables: self.path_variables.deep_view(),
            headers: self.headers.deep_view(),
            cookies: self.cookies.deep_view(),
            data: self.data@,
        }
    }
}

impl Request {
    pub fn new(
        method: HttpMethod,
        path: String,
        path_variables: Vec<String>,
        headers: Vec<Header>,
        cookies: Vec<Cookie>,
        data: String,
    ) -> (r: Request)
        ensures
            r == (Request { method, path, path_variables, headers, cookies, data }),
    {
        Request { method, path, path_variables, headers, cookies, data }
    }

    /// An empty GET request.
    pub fn get_empty() -> (r: Request)
        ensures
            r.method == HttpMethod::GET,
            r.path@ == Seq::<char>::empty(),
            r.path_variables@ == Seq::<String>::empty(),
            r.headers@ == Seq::<Header>::empty(),
            r.cookies@ == Seq::<Cookie>::empty(),
            r.data@ == Seq::<char>::empty(),
    {
        Request::new(
            HttpMethod::GET,
            String::new(),
            Vec::new(),
            Vec::new(),
            Vec::new(),
            String::new(),
        )
    }

    pub fn set_path_variables(&mut self, path_variables: Vec<String>) -> (r: &mut Self)
        ensures
            *r == (Request { path_variables, ..*old(self) }),
            *final(self) == *final(r),
    {
        self.path_variables = path_variables;
        self
    }

    pub fn get_path_variables(&self) -> (r: Vec<String>)
        ensures
            r@ == self.path_variables@,
    {
        let r = self.path_variables.clone();
        proof {
            assert(r@ =~= self.path_variables@);
        }
        r
    }

    /// The first header with the given key, if any.
    pub fn get_header(&self, key: &str) -> (r: Option<Header>)
        ensures
            r == spec_get_header(self.headers@, key@),
    {
        let n = self.headers.len();
        let mut i: usize = 0;
        proof {
            assert(self.headers@.skip(0) =~= self.headers@);
        }
        while i < n
            invariant
                0 <= i <= n,
                n == self.headers@.len(),
                spec_get_header(self.headers@, key@) == spec_get_header(
                    self.headers@.skip(i as int),
                    key@,
                ),
        decreases n - i,
        {
            proof {
                assert(self.headers@.skip(i as int).drop_first() =~= self.headers@.skip(
                    i as int + 1,
                ));
            }
            if str_eq(self.headers[i].key.as_str(), key) {
                return Some(self.headers[i].clone());
            }
            i = i + 1;
        }
        None
    }

    /// The first cookie with the given key, if any.
    pub fn get_cookie(&self, key: &str) -> (r: Option<Cookie>)
        ensures
            r == spec_get_cookie(self.cookies@, key@),
    {
        let n = self.cookies.len();
        let mut i: usize = 0;
        proof {
            assert(self.cookies@.skip(0) =~= self.cookies@);
        }
        while i < n
            invariant
                0 <= i <= n,
                n == self.cookies@.len(),
                spec_get_cookie(self.cookies@, key@) == spec_get_cookie(
                    self.cookies@.skip(i as int),
                    key@,
                ),
        decreases n - i,
        {
            proof {
                assert(self.cookies@.skip(i as int).drop_first() =~= self.cookies@.skip(
                    i as int + 1,
                ));
            }
            if str_eq(self.cookies[i].key.as_str(), key) {
                return Some(self.cookies[i].clone());
            }
            i = i + 1;
        }
        None
    }

    pub fn set_method(&mut self, method: HttpMethod) -> (r: &mut Self)
        ensures
            *r == (Request { method, ..*old(self) }),
            *final(self) == *final(r),
    {
        self.method = method;
        self
    }

    pub fn set_path(&mut self, path: String) -> (r: &mut Self)
        ensures
            *r == (Request { path, ..*old(self) }),
            *final(self) == *final(r),
    {
        self.path = path;
        self
    }

    pub fn set_headers(&mut self, headers: Vec<Header>) -> (r: &mut Self)
        ensures
            *r == (Request { headers, ..*old(self) }),
            *final(self) == *final(r),
    {
        self.headers = headers;
        self
    }

    pub fn add_header(&mut self, header: Header) -> (r: &mut Self)
        ensures
            r.headers@ == old(self).headers@.push(header),
            r.method == old(self).method,
            r.path == old(self).path,
            r.path_variables == old(self).path_variables,
            r.cookies == old(self).cookies,
            r.data == old(self).data,
            *final(self) == *final(r),
    {
        self.headers.push(header);
        self
    }

    pub fn set_cookies(&mut self, cookies: Vec<Cookie>) -> (r: &mut Self)
        ensures
            *r == (Request { cookies, ..*old(self) }),
            *final(self) == *final(r),
    {
        self.cookies = cookies;
        self
    }

    pub fn add_cookie(&mut self, cookie: Cookie) -> (r: &mut Self)
        ensures
            r.cookies@ == old(self).cookies@.push(cookie),
            r.method == old(self).method,
            r.path == old(self).path,
            r.path_variables == old(self).path_variables,
            r.headers == old(self).headers,
            r.data == old(self).data,
            *final(self) == *final(r),
    {
        self.cookies.push(cookie);
        self
    }

    /// Parses raw request text, as read off the wire, into a request.
    pub fn parse(payload: String) -> (r: Request)
        ensures
            r@ == spec_parse(payload@),
    {
        let s = payload.as_str();
        let lines = split_lines_str(s);
        let ghost linesv = lines.deep_view();
        let ghost line0v = if linesv.len() > 0 {
            linesv[0]
        } else {
            Seq::<char>::empty()
        };
        let mut method = HttpMethod::GET;
        let mut path = String::new();
        if lines.len() > 0 {
            let line0 = lines[0].as_str();
            proof {
                assert(line0@ == linesv[0]);
            }
            let a0 = scan_non_space_str(line0, 0);
            let b0 = scan_space_str(line0, a0);
            method = HttpMethod::get_method(line0.substring_char(a0, b0));
            let a1 = scan_non_space_str(line0, b0);
            let b1 = scan_space_str(line0, a1);
            path = String::from_str(line0.substring_char(a1, b1));
        } else {
            proof {
                reveal_strlit("");
                assert(""@ =~= Seq::<char>::empty());
            }
            method = HttpMethod::get_method("");
        }
        proof {
            assert(method == method_of(token0(line0v)));
            assert(path@ == token1(line0v));
        }
        let path_variables = path_vars_str(path.as_str());
        let ghost rest = if linesv.len() == 0 {
            linesv
        } else {
            linesv.drop_first()
        };
        let mut headers: Vec<Header> = Vec::new();
        let mut cookies: Vec<Cookie> = Vec::new();
        let mut data = String::new();
        let mut in_headers = true;
        let mut i: usize = 1;
        proof {
            assert(rest.skip(0) =~= rest);
            assert(headers.deep_view() =~= Seq::<(Seq<char>, Seq<char>)>::empty());
            assert(cookies.deep_view() =~= Seq::<(Seq<char>, Seq<char>)>::empty());
            assert(Seq::<(Seq<char>, Seq<char>)>::empty() + parse_tail(rest, true).headers
                =~= parse_tail(rest, true).headers);
            assert(Seq::<(Seq<char>, Seq<char>)>::empty() + parse_tail(rest, true).cookies
                =~= parse_tail(rest, true).cookies);
            assert(Seq::<char>::empty() + parse_tail(rest, true).data =~= parse_tail(
                rest,
                true,
            ).data);
        }
        while i < lines.len()
            invariant
                1 <= i,
                i <= lines@.len() || i == 1,
                linesv == lines.deep_view(),
                rest == (if linesv.len() == 0 {
                    linesv
                } else {
                    linesv.drop_first()
                }),
                i - 1 <= rest.len(),
                parse_tail(rest, true).headers == headers.deep_view() + parse_tail(
                    rest.skip(i - 1),
                    in_headers,
                ).headers,
                parse_tail(rest, true).cookies == cookies.deep_view() + parse_tail(
                    rest.skip(i - 1),
                    in_headers,
                ).cookies,
                parse_tail(rest, true).data == data@ + parse_tail(
                    rest.skip(i - 1),
                    in_headers,
                ).data,
            decreases lines@.len() - i,
        {
            let l = lines[i].as_str();
            let ghost rem = rest.skip(i - 1);
            proof {
                assert(l@ == linesv[i as int]);
                assert(rem[0] == rest[i - 1]);
                assert(rest[i - 1] == linesv[i as int]);
                assert(rem.drop_first() =~= rest.skip(i as int));
            }
            if l.unicode_len() == 0 {
                in_headers = false;
            } else if in_headers {
                let ghost prev_h = headers.deep_view();
                let ghost prev_c = cookies.deep_view();
                parse_header_line(&mut headers, &mut cookies, l);
                proof {
                    reveal_strlit(": ");
                    let j = scan_sub(l@, 0, ": "@);
                    if j < l@.len() {
                        let k = trim_spaces(l@.take(j));
                        let v = trim_spaces(l@.skip(j + 2));
                        if case_eq_upper(k, "COOKIE"@) {
                            assert((prev_c + cookie_pairs(v)) + parse_tail(
                                rest.skip(i as int),
                                true,
                            ).cookies =~= prev_c + (cookie_pairs(v) + parse_tail(
                                rest.skip(i as int),
                                true,
                            ).cookies));
                        } else {
                            assert(prev_h.push((k, v)) =~= prev_h + seq![(k, v)]);
                            assert((prev_h + seq![(k, v)]) + parse_tail(
                                rest.skip(i as int),
                                true,
                            ).headers =~= prev_h + (seq![(k, v)] + parse_tail(
                                rest.skip(i as int),
                                true,
                            ).headers));
                        }
                    }
                }
            } else {
                let ghost prev_d = data@;
                data.append(l);
                data.append("\n");
                proof {
                    assert((prev_d + l@ + "\n"@) + parse_tail(rest.skip(i as int), false).data
                        =~= prev_d + (l@ + "\n"@ + parse_tail(rest.skip(i as int), false).data));
                }
            }
            i = i + 1;
        }
        proof {
            assert(rest.skip(rest.len() as int) =~= Seq::<Seq<char>>::empty());
            if linesv.len() == 0 {
                assert(rest.skip(i - 1) =~= rest);
            } else {
                assert(i - 1 == rest.len());
            }
            assert(parse_tail(rest, true).headers =~= headers.deep_view());
            assert(parse_tail(rest, true).cookies =~= cookies.deep_view());
            assert(parse_tail(rest, true).data =~= data@);
        }
        let data_trimmed = trim_end_to_string(data.as_str());
        let r = Request { method, path, path_variables, headers, cookies, data: data_trimmed };
        proof {
            assert(r@ =~= spec_parse(payload@));
        }
        r
    }

    pub fn set_data(&mut self, data: String) -> (r: &mut Self)
        ensures
            *r == (Request { data, ..*old(self) }),
            *final(self) == *final(r),
    {
        self.data = data;
        self
    }
}

fn split_lines_str(s: &str) -> (v: Vec<String>)
    ensures
        v.deep_view() == split_lines(s@),
{
    let n = s.unicode_len();
    let mut v: Vec<String> = Vec::new();
    let mut cur: usize = 0;
    proof {
        assert(v.deep_view() =~= Seq::<Seq<char>>::empty());
        assert(Seq::<Seq<char>>::empty() + split_lines_from(s@, 0) =~= split_lines_from(s@, 0));
    }
    while cur < n
        invariant
            0 <= cur <= n,
            n == s@.len(),
            split_lines(s@) == v.deep_view() + split_lines_from(s@, cur as int),
        decreases n - cur,
    {
        let ghost prev = v.deep_view();
        let e = scan_char_str(s, cur, '\n');
        if e < n {
            let line = if e > cur && s.get_char(e - 1) == '\r' {
                s.substring_char(cur, e - 1)
            } else {
                s.substring_char(cur, e)
            };
            proof {
                let piece = s@.subrange(cur as int, e as int);
                assert(piece.len() > 0 ==> piece.last() == s@[e - 1]);
                if piece.len() > 0 && piece.last() == '\r' {
                    assert(piece.drop_last() =~= s@.subrange(cur as int, e - 1));
                }
                assert(line@ == strip_cr(piece));
            }
            v.push(String::from_str(line));
            proof {
                let piece = s@.subrange(cur as int, e as int);
                assert(v.deep_view() =~= prev.push(strip_cr(piece)));
                assert(prev.push(strip_cr(piece)) =~= prev + seq![strip_cr(piece)]);
                assert((prev + seq![strip_cr(piece)]) + split_lines_from(s@, e + 1) =~= prev + (
                seq![strip_cr(piece)] + split_lines_from(s@, e + 1)));
            }
            cur = e + 1;
        } else {
            let line = s.substring_char(cur, n);
            v.push(String::from_str(line));
            proof {
                assert(v.deep_view() =~= prev.push(s@.subrange(cur as int, n as int)));
                assert(prev.push(s@.subrange(cur as int, n as int)) =~= prev + seq![
                    s@.subrange(cur as int, n as int),
                ]);
                assert((prev + seq![s@.subrange(cur as int, n as int)]) + split_lines_from(
                    s@,
                    n as int,
                ) =~= prev + seq![s@.subrange(cur as int, n as int)]);
            }
            cur = n;
        }
    }
    proof {
        assert(v.deep_view() + split_lines_from(s@, cur as int) =~= v.deep_view());
    }
    v
}

fn path_vars_str(p: &str) -> (v: Vec<String>)
    ensures
        v.deep_view() == path_vars(p@),
{
    let n = p.unicode_len();
    let mut v: Vec<String> = Vec::new();
    let mut cur: usize = 0;
    let mut done = false;
    proof {
        assert(v.deep_view() =~= Seq::<Seq<char>>::empty());
        assert(Seq::<Seq<char>>::empty() + vars_of_segments(segments_from(p@, 0))
            =~= vars_of_segments(segments_from(p@, 0)));
    }
    while !done
        invariant
            0 <= cur <= n,
            n == p@.len(),
            path_vars(p@) == v.deep_view() + if done {
                Seq::<Seq<char>>::empty()
            } else {
                vars_of_segments(segments_from(p@, cur as int))
            },
        decreases n - cur + if done {
            0int
        } else {
            1int
        },
    {
        let ghost prev = v.deep_view();
        let ghost segs = segments_from(p@, cur as int);
        let e = scan_char_str(p, cur, '/');
        let seg = p.substring_char(cur, e);
        proof {
            if e < n {
                assert(segs == seq![p@.subrange(cur as int, e as int)] + segments_from(
                    p@,
                    e + 1,
                ));
            } else {
                assert(segs == seq![p@.subrange(cur as int, n as int)]);
                assert(segs.drop_first() =~= Seq::<Seq<char>>::empty());
            }
            assert(segs[0] == seg@);
            assert(segs.len() > 0);
            if e < n {
                assert(segs.drop_first() =~= segments_from(p@, e + 1));
            }
        }
        if seg.unicode_len() > 0 && seg.get_char(0) == ':' {
            let j = scan_other_str(seg, 0, ':');
            let m = seg.unicode_len();
            proof {
                lemma_scan_other(seg@, 0, ':');
                lemma_strip_colons_is(seg@, j as int);
                assert(seg@.skip(j as int) =~= seg@.subrange(j as int, m as int));
            }
            v.push(String::from_str(seg.substring_char(j, m)));
            proof {
                assert(v.deep_view() =~= prev.push(strip_colons(segs[0])));
                assert(prev.push(strip_colons(segs[0])) =~= prev + seq![strip_colons(segs[0])]);
                assert((prev + seq![strip_colons(segs[0])]) + vars_of_segments(segs.drop_first())
                    =~= prev + (seq![strip_colons(segs[0])] + vars_of_segments(
                    segs.drop_first(),
                )));
            }
        }
        proof {
            if segs[0].len() > 0 && segs[0][0] == ':' {
                assert(vars_of_segments(segs) == seq![strip_colons(segs[0])] + vars_of_segments(
                    segs.drop_first(),
                ));
            } else {
                assert(vars_of_segments(segs) == vars_of_segments(segs.drop_first()));
            }
            assert(v.deep_view() + Seq::<Seq<char>>::empty() =~= v.deep_view());
        }
        if e < n {
            cur = e + 1;
        } else {
            done = true;
        }
    }
    v
}

fn push_cookie_pair(cookies: &mut Vec<Cookie>, piece: &str)
    ensures
        final(cookies).deep_view() == old(cookies).deep_view() + pair_of(piece@),
{
    let ghost prev = cookies.deep_view();
    let m = piece.unicode_len();
    let e = scan_char_str(piece, 0, '=');
    if e < m {
        let k = String::from_str(piece.substring_char(0, e));
        let val = String::from_str(piece.substring_char(e + 1, m));
        proof {
            assert(piece@.subrange(0, e as int) =~= piece@.take(e as int));
            assert(piece@.subrange(e + 1, m as int) =~= piece@.skip(e + 1));
        }
        cookies.push(Cookie::new(k, val));
        proof {
            assert(cookies.deep_view() =~= prev.push((piece@.take(e as int), piece@.skip(e + 1))));
            assert(prev.push((piece@.take(e as int), piece@.skip(e + 1))) =~= prev + pair_of(
                piece@,
            ));
        }
    } else {
        proof {
            assert(prev + pair_of(piece@) =~= prev);
        }
    }
}

fn parse_cookie_value(cookies: &mut Vec<Cookie>, v: &str)
    ensures
        final(cookies).deep_view() == old(cookies).deep_view() + cookie_pairs(v@),
{
    let ghost orig = cookies.deep_view();
    proof {
        reveal_strlit("; ");
        assert(v@.skip(0) =~= v@);
        assert(orig + Seq::<(Seq<char>, Seq<char>)>::empty() =~= orig);
    }
    let n = v.unicode_len();
    let mut cur: usize = 0;
    let mut done = false;
    while !done
        invariant
            0 <= cur <= n,
            n == v@.len(),
            "; "@.len() == 2,
            orig + cookie_pairs(v@) == cookies.deep_view() + if done {
                Seq::<(Seq<char>, Seq<char>)>::empty()
            } else {
                cookie_pairs(v@.skip(cur as int))
            },
        decreases n - cur + if done {
            0int
        } else {
            1int
        },
    {
        let ghost prev = cookies.deep_view();
        let ghost suffix = v@.skip(cur as int);
        let j = scan_sub_str(v, cur, "; ");
        proof {
            lemma_scan_sub_shift(v@, cur as int, "; "@);
            lemma_scan_sub(v@, cur as int, "; "@);
        }
        if j < n {
            let piece = v.substring_char(cur, j);
            proof {
                assert(suffix.take(j - cur) =~= v@.subrange(cur as int, j as int));
                assert(suffix.skip(j - cur + 2) =~= v@.skip(j + 2));
                assert(cookie_pairs(suffix) == pair_of(suffix.take(j - cur)) + cookie_pairs(
                    suffix.skip(j - cur + 2),
                ));
            }
            push_cookie_pair(cookies, piece);
            proof {
                assert((prev + pair_of(piece@)) + cookie_pairs(v@.skip(j + 2)) =~= prev + (pair_of(
                    piece@,
                ) + cookie_pairs(v@.skip(j + 2))));
            }
            cur = j + 2;
        } else {
            let piece = v.substring_char(cur, n);
            proof {
                assert(suffix =~= v@.subrange(cur as int, n as int));
                assert(cookie_pairs(suffix) == pair_of(suffix));
            }
            push_cookie_pair(cookies, piece);
            proof {
                assert((prev + pair_of(suffix)) + Seq::<(Seq<char>, Seq<char>)>::empty() =~= prev
                    + pair_of(suffix));
            }
            done = true;
        }
    }
}

fn parse_header_line(headers: &mut Vec<Header>, cookies: &mut Vec<Cookie>, l: &str)
    ensures
        ({
            let j = scan_sub(l@, 0, ": "@);
            if j < l@.len() {
                let k = trim_spaces(l@.take(j));
                let v = trim_spaces(l@.skip(j + 2));
                if case_eq_upper(k, "COOKIE"@) {
                    &&& final(headers).deep_view() == old(headers).deep_view()
                    &&& final(cookies).deep_view() == old(cookies).deep_view() + cookie_pairs(v)
                } else {
                    &&& final(headers).deep_view() == old(headers).deep_view().push((k, v))
                    &&& final(cookies).deep_view() == old(cookies).deep_view()
                }
            } else {
                &&& final(headers).deep_view() == old(headers).deep_view()
                &&& final(cookies).deep_view() == old(cookies).deep_view()
            }
        }),
{
    let ghost prev = headers.deep_view();
    proof {
        reveal_strlit(": ");
    }
    let n = l.unicode_len();
    let j = scan_sub_str(l, 0, ": ");
    proof {
        lemma_scan_sub(l@, 0, ": "@);
    }
    if j < n {
        let key = trim_to_string(l.substring_char(0, j));
        let val = trim_to_string(l.substring_char(j + 2, n));
        proof {
            assert(l@.subrange(0, j as int) =~= l@.take(j as int));
            assert(l@.subrange(j + 2, n as int) =~= l@.skip(j + 2));
        }
        if str_case_eq_upper(key.as_str(), "COOKIE") {
            parse_cookie_value(cookies, val.as_str());
        } else {
            headers.push(Header::new(key, val));
            proof {
                assert(headers.deep_view() =~= prev.push(
                    (trim_spaces(l@.take(j as int)), trim_spaces(l@.skip(j + 2))),
                ));
            }
        }
    }
}

} // verus!
