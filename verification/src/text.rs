//! Character-sequence specifications and verified string helpers.
//!
//! The parser and serializer are specified over `Seq<char>`. This module
//! defines the scanning, splitting and trimming functions those
//! specifications use, proves their characteristic properties, and offers
//! executable counterparts whose contracts tie them to the specifications.

use vstd::prelude::*;
use vstd::string::*;

verus! {

/// ASCII whitespace as the parser understands it: the characters that
/// separate tokens of a request line and that trimming removes.
pub open spec fn is_space_char(c: char) -> bool {
    c == ' ' || c == '\t' || c == '\n' || c == '\r' || c == '\u{b}' || c == '\u{c}'
}

/// Code point of `c`, with ASCII lower-case letters mapped to upper case.
pub open spec fn upper_code(c: char) -> int {
    if 97 <= c as u32 && c as u32 <= 122 {
        c as u32 - 32
    } else {
        c as u32 as int
    }
}

/// `s` and `t` are equal up to ASCII case.
pub open spec fn case_eq_upper(s: Seq<char>, t: Seq<char>) -> bool {
    s.len() == t.len() && forall|i: int|
        0 <= i < s.len() ==> #[trigger] upper_code(s[i]) == upper_code(t[i])
}

/// `s` ends with `suffix`.
pub open spec fn ends_with(s: Seq<char>, suffix: Seq<char>) -> bool {
    s.len() >= suffix.len() && s.skip(s.len() - suffix.len()) == suffix
}

/// First position at or after `from` holding exactly `c`; `s.len()` if none.
pub open spec fn scan_char(s: Seq<char>, from: int, c: char) -> int
    decreases s.len() - from,
{
    if 0 <= from && from < s.len() {
        if s[from] == c {
            from
        } else {
            scan_char(s, from + 1, c)
        }
    } else {
        s.len() as int
    }
}

/// First position at or after `from` holding something other than `c`;
/// `s.len()` if none.
pub open spec fn scan_other(s: Seq<char>, from: int, c: char) -> int
    decreases s.len() - from,
{
    if 0 <= from && from < s.len() {
        if s[from] != c {
            from
        } else {
            scan_other(s, from + 1, c)
        }
    } else {
        s.len() as int
    }
}

/// First whitespace position at or after `from`; `s.len()` if none.
pub open spec fn scan_space(s: Seq<char>, from: int) -> int
    decreases s.len() - from,
{
    if 0 <= from && from < s.len() {
        if is_space_char(s[from]) {
            from
        } else {
            scan_space(s, from + 1)
        }
    } else {
        s.len() as int
    }
}

/// First non-whitespace position at or after `from`; `s.len()` if none.
pub open spec fn scan_non_space(s: Seq<char>, from: int) -> int
    decreases s.len() - from,
{
    if 0 <= from && from < s.len() {
        if !is_space_char(s[from]) {
            from
        } else {
            scan_non_space(s, from + 1)
        }
    } else {
        s.len() as int
    }
}

/// First position `j` at or after `from` where `pat` occurs as a
/// subsequence of `s` starting at `j`; `s.len()` if none.
pub open spec fn scan_sub(s: Seq<char>, from: int, pat: Seq<char>) -> int
    decreases s.len() - from,
{
    if 0 <= from && pat.len() > 0 && from + pat.len() <= s.len() {
        if s.subrange(from, from + pat.len() as int) == pat {
            from
        } else {
            scan_sub(s, from + 1, pat)
        }
    } else {
        s.len() as int
    }
}

pub proof fn lemma_scan_char_is(s: Seq<char>, from: int, c: char, j: int)
    requires
        0 <= from <= j <= s.len(),
        forall|k: int| from <= k < j ==> s[k] != c,
        j < s.len() ==> s[j] == c,
    ensures
        scan_char(s, from, c) == j,
    decreases j - from,
{
    if from < j {
        lemma_scan_char_is(s, from + 1, c, j);
    }
}

pub proof fn lemma_scan_other(s: Seq<char>, from: int, c: char)
    requires
        0 <= from <= s.len(),
    ensures
        ({
            let r = scan_other(s, from, c);
            &&& from <= r <= s.len()
            &&& forall|k: int| from <= k < r ==> s[k] == c
            &&& r < s.len() ==> s[r] != c
        }),
    decreases s.len() - from,
{
    if from < s.len() && s[from] == c {
        lemma_scan_other(s, from + 1, c);
    }
}

pub proof fn lemma_scan_other_is(s: Seq<char>, from: int, c: char, j: int)
    requires
        0 <= from <= j <= s.len(),
        forall|k: int| from <= k < j ==> s[k] == c,
        j < s.len() ==> s[j] != c,
    ensures
        scan_other(s, from, c) == j,
    decreases j - from,
{
    if from < j {
        lemma_scan_other_is(s, from + 1, c, j);
    }
}

pub proof fn lemma_scan_space_is(s: Seq<char>, from: int, j: int)
    requires
        0 <= from <= j <= s.len(),
        forall|k: int| from <= k < j ==> !is_space_char(s[k]),
        j < s.len() ==> is_space_char(s[j]),
    ensures
        scan_space(s, from) == j,
    decreases j - from,
{
    if from < j {
        lemma_scan_space_is(s, from + 1, j);
    }
}

pub proof fn lemma_scan_non_space(s: Seq<char>, from: int)
    requires
        0 <= from <= s.len(),
    ensures
        ({
            let r = scan_non_space(s, from);
            &&& from <= r <= s.len()
            &&& forall|k: int| from <= k < r ==> is_space_char(s[k])
            &&& r < s.len() ==> !is_space_char(s[r])
        }),
    decreases s.len() - from,
{
    if from < s.len() && is_space_char(s[from]) {
        lemma_scan_non_space(s, from + 1);
    }
}

pub proof fn lemma_scan_non_space_is(s: Seq<char>, from: int, j: int)
    requires
        0 <= from <= j <= s.len(),
        forall|k: int| from <= k < j ==> is_space_char(s[k]),
        j < s.len() ==> !is_space_char(s[j]),
    ensures
        scan_non_space(s, from) == j,
    decreases j - from,
{
    if from < j {
        lemma_scan_non_space_is(s, from + 1, j);
    }
}

pub proof fn lemma_scan_sub(s: Seq<char>, from: int, pat: Seq<char>)
    requires
        0 <= from <= s.len(),
        pat.len() > 0,
    ensures
        ({
            let r = scan_sub(s, from, pat);
            &&& from <= r <= s.len()
            &&& forall|j: int|
                from <= j < r && j + pat.len() <= s.len() ==> #[trigger] s.subrange(
                    j,
                    j + pat.len() as int,
                ) != pat
            &&& r < s.len() ==> r + pat.len() <= s.len() && s.subrange(r, r + pat.len() as int)
                == pat
        }),
    decreases s.len() - from,
{
    if from + pat.len() <= s.len() && s.subrange(from, from + pat.len() as int) != pat {
        lemma_scan_sub(s, from + 1, pat);
    }
}

pub proof fn lemma_scan_sub_is(s: Seq<char>, from: int, pat: Seq<char>, j: int)
    requires
        0 <= from <= j <= s.len(),
        pat.len() > 0,
        forall|k: int|
            from <= k < j && k + pat.len() <= s.len() ==> #[trigger] s.subrange(
                k,
                k + pat.len() as int,
            ) != pat,
        j < s.len() ==> j + pat.len() <= s.len() && s.subrange(j, j + pat.len() as int) == pat,
    ensures
        scan_sub(s, from, pat) == j,
    decreases j - from,
{
    if from < j {
        lemma_scan_sub_is(s, from + 1, pat, j);
    }
}

/// Scanning for `pat` in a suffix of `s` is scanning in `s` from where the
/// suffix starts.
pub proof fn lemma_scan_sub_shift(s: Seq<char>, from: int, pat: Seq<char>)
    requires
        0 <= from <= s.len(),
        pat.len() > 0,
    ensures
        scan_sub(s.skip(from), 0, pat) == scan_sub(s, from, pat) - from,
{
    let t = s.skip(from);
    let r = scan_sub(s, from, pat);
    lemma_scan_sub(s, from, pat);
    assert forall|k: int|
        0 <= k < r - from && k + pat.len() <= t.len() implies #[trigger] t.subrange(
        k,
        k + pat.len() as int,
    ) != pat by {
        assert(t.subrange(k, k + pat.len() as int) =~= s.subrange(
            k + from,
            k + from + pat.len() as int,
        ));
    };
    if r < s.len() {
        assert(t.subrange(r - from, r - from + pat.len() as int) =~= s.subrange(
            r,
            r + pat.len() as int,
        ));
    }
    lemma_scan_sub_is(t, 0, pat, r - from);
}

/// Drop one trailing carriage return, as line splitting does for lines that
/// were terminated by a newline.
pub open spec fn strip_cr(l: Seq<char>) -> Seq<char> {
    if l.len() > 0 && l.last() == '\r' {
        l.drop_last()
    } else {
        l
    }
}

/// The lines of `s` starting at `from`: pieces separated by `'\n'`, each
/// piece that a newline terminated losing one trailing `'\r'`, and with no
/// empty piece after a final newline.
pub open spec fn split_lines_from(s: Seq<char>, from: int) -> Seq<Seq<char>>
    decreases s.len() - from,
{
    if !(0 <= from && from < s.len()) {
        Seq::empty()
    } else {
        let e = scan_char(s, from, '\n');
        if from <= e && e < s.len() {
            seq![strip_cr(s.subrange(from, e))] + split_lines_from(s, e + 1)
        } else {
            seq![s.subrange(from, s.len() as int)]
        }
    }
}

/// The lines of `s`, as `str::lines` yields them.
pub open spec fn split_lines(s: Seq<char>) -> Seq<Seq<char>> {
    split_lines_from(s, 0)
}

/// The whitespace-separated token of `s` that starts at the first
/// non-whitespace position at or after `from`; empty if there is none.
pub open spec fn token_from(s: Seq<char>, from: int) -> Seq<char> {
    let a = scan_non_space(s, from);
    s.subrange(a, scan_space(s, a))
}

/// The first whitespace-separated token of `line`; empty if there is none.
pub open spec fn token0(line: Seq<char>) -> Seq<char> {
    token_from(line, 0)
}

/// The second whitespace-separated token of `line`; empty if there is none.
pub open spec fn token1(line: Seq<char>) -> Seq<char> {
    let a0 = scan_non_space(line, 0);
    let b0 = scan_space(line, a0);
    token_from(line, b0)
}

/// `s` without leading whitespace.
pub open spec fn skip_spaces(s: Seq<char>) -> Seq<char>
    decreases s.len(),
{
    if s.len() > 0 && is_space_char(s[0]) {
        skip_spaces(s.drop_first())
    } else {
        s
    }
}

/// `s` without trailing whitespace.
pub open spec fn trim_end_spaces(s: Seq<char>) -> Seq<char>
    decreases s.len(),
{
    if s.len() > 0 && is_space_char(s.last()) {
        trim_end_spaces(s.drop_last())
    } else {
        s
    }
}

/// `s` without leading or trailing whitespace.
pub open spec fn trim_spaces(s: Seq<char>) -> Seq<char> {
    trim_end_spaces(skip_spaces(s))
}

/// `s` without its leading colons.
pub open spec fn strip_colons(s: Seq<char>) -> Seq<char>
    decreases s.len(),
{
    if s.len() > 0 && s[0] == ':' {
        strip_colons(s.drop_first())
    } else {
        s
    }
}

pub proof fn lemma_skip_spaces_is(s: Seq<char>, j: int)
    requires
        0 <= j <= s.len(),
        forall|k: int| 0 <= k < j ==> is_space_char(s[k]),
        j < s.len() ==> !is_space_char(s[j]),
    ensures
        skip_spaces(s) == s.skip(j),
    decreases j,
{
    if j == 0 {
        assert(s.skip(0) =~= s);
    } else {
        let t = s.drop_first();
        assert(forall|k: int| 0 <= k < j - 1 ==> is_space_char(#[trigger] t[k]));
        lemma_skip_spaces_is(t, j - 1);
        assert(t.skip(j - 1) =~= s.skip(j));
    }
}

pub proof fn lemma_trim_end_is(s: Seq<char>, j: int)
    requires
        0 <= j <= s.len(),
        forall|k: int| j <= k < s.len() ==> is_space_char(s[k]),
        j > 0 ==> !is_space_char(s[j - 1]),
    ensures
        trim_end_spaces(s) == s.take(j),
    decreases s.len(),
{
    if j == s.len() {
        if s.len() > 0 && is_space_char(s.last()) {
            assert(false);
        }
        assert(s.take(j) =~= s);
    } else {
        let t = s.drop_last();
        assert(is_space_char(s.last()));
        assert(forall|k: int| j <= k < t.len() ==> is_space_char(#[trigger] t[k]));
        lemma_trim_end_is(t, j);
        assert(t.take(j) =~= s.take(j));
    }
}

pub(crate) fn is_space(c: char) -> (r: bool)
    ensures
        r == is_space_char(c),
{
    c == ' ' || c == '\t' || c == '\n' || c == '\r' || c == '\u{b}' || c == '\u{c}'
}

pub(crate) fn scan_char_str(s: &str, from: usize, c: char) -> (r: usize)
    requires
        from <= s@.len(),
    ensures
        r == scan_char(s@, from as int, c),
        from <= r <= s@.len(),
{
    let n = s.unicode_len();
    let mut i = from;
    while i < n
        invariant
            from <= i <= n,
            n == s@.len(),
            forall|k: int| from <= k < i ==> s@[k] != c,
        decreases n - i,
    {
        if s.get_char(i) == c {
            proof {
                lemma_scan_char_is(s@, from as int, c, i as int);
            }
            return i;
        }
        i = i + 1;
    }
    proof {
        lemma_scan_char_is(s@, from as int, c, n as int);
    }
    n
}

pub(crate) fn scan_other_str(s: &str, from: usize, c: char) -> (r: usize)
    requires
        from <= s@.len(),
    ensures
        r == scan_other(s@, from as int, c),
        from <= r <= s@.len(),
{
    let n = s.unicode_len();
    let mut i = from;
    while i < n
        invariant
            from <= i <= n,
            n == s@.len(),
            forall|k: int| from <= k < i ==> s@[k] == c,
        decreases n - i,
    {
        if s.get_char(i) != c {
            proof {
                lemma_scan_other_is(s@, from as int, c, i as int);
            }
            return i;
        }
        i = i + 1;
    }
    proof {
        lemma_scan_other_is(s@, from as int, c, n as int);
    }
    n
}

pub(crate) fn scan_space_str(s: &str, from: usize) -> (r: usize)
    requires
        from <= s@.len(),
    ensures
        r == scan_space(s@, from as int),
        from <= r <= s@.len(),
{
    let n = s.unicode_len();
    let mut i = from;
    while i < n
        invariant
            from <= i <= n,
            n == s@.len(),
            forall|k: int| from <= k < i ==> !is_space_char(s@[k]),
        decreases n - i,
    {
        if is_space(s.get_char(i)) {
            proof {
                lemma_scan_space_is(s@, from as int, i as int);
            }
            return i;
        }
        i = i + 1;
    }
    proof {
        lemma_scan_space_is(s@, from as int, n as int);
    }
    n
}

pub(crate) fn scan_non_space_str(s: &str, from: usize) -> (r: usize)
    requires
        from <= s@.len(),
    ensures
        r == scan_non_space(s@, from as int),
        from <= r <= s@.len(),
{
    let n = s.unicode_len();
    let mut i = from;
    while i < n
        invariant
            from <= i <= n,
            n == s@.len(),
            forall|k: int| from <= k < i ==> is_space_char(s@[k]),
        decreases n - i,
    {
        if !is_space(s.get_char(i)) {
            proof {
                lemma_scan_non_space_is(s@, from as int, i as int);
            }
            return i;
        }
        i = i + 1;
    }
    proof {
        lemma_scan_non_space_is(s@, from as int, n as int);
    }
    n
}

pub(crate) fn window_eq(s: &str, at: usize, pat: &str) -> (r: bool)
    requires
        at + pat@.len() <= s@.len(),
    ensures
        r == (s@.subrange(at as int, at + pat@.len() as int) == pat@),
{
    let n = s.unicode_len();
    let m = pat.unicode_len();
    let mut k: usize = 0;
    while k < m
        invariant
            0 <= k <= m,
            n == s@.len(),
            m == pat@.len(),
            at + m <= s@.len(),
            forall|t: int| 0 <= t < k ==> s@[at + t] == pat@[t],
        decreases m - k,
    {
        if s.get_char(at + k) != pat.get_char(k) {
            proof {
                assert(s@.subrange(at as int, at + pat@.len() as int)[k as int] == s@[at + k]);
            }
            return false;
        }
        k = k + 1;
    }
    proof {
        assert(s@.subrange(at as int, at + pat@.len() as int) =~= pat@);
    }
    true
}

pub(crate) fn scan_sub_str(s: &str, from: usize, pat: &str) -> (r: usize)
    requires
        from <= s@.len(),
        pat@.len() > 0,
    ensures
        r == scan_sub(s@, from as int, pat@),
        from <= r <= s@.len(),
{
    let n = s.unicode_len();
    let m = pat.unicode_len();
    let mut i = from;
    while i < n
        invariant
            from <= i <= n,
            n == s@.len(),
            m == pat@.len(),
            m > 0,
            forall|j: int|
                from <= j < i && j + pat@.len() <= s@.len() ==> #[trigger] s@.subrange(
                    j,
                    j + pat@.len() as int,
                ) != pat@,
        decreases n - i,
    {
        if m > n - i {
            proof {
                lemma_scan_sub_is(s@, from as int, pat@, n as int);
            }
            return n;
        }
        if window_eq(s, i, pat) {
            proof {
                lemma_scan_sub_is(s@, from as int, pat@, i as int);
            }
            return i;
        }
        i = i + 1;
    }
    proof {
        lemma_scan_sub_is(s@, from as int, pat@, n as int);
    }
    n
}

pub(crate) fn trim_to_string(s: &str) -> (r: String)
    ensures
        r@ == trim_spaces(s@),
{
    let n = s.unicode_len();
    let a = scan_non_space_str(s, 0);
    let mut e = n;
    while e > a && is_space(s.get_char(e - 1))
        invariant
            a <= e <= n,
            n == s@.len(),
            a == scan_non_space(s@, 0),
            forall|k: int| e <= k < n ==> is_space_char(s@[k]),
        decreases e,
    {
        e = e - 1;
    }
    proof {
        lemma_scan_non_space(s@, 0);
        lemma_skip_spaces_is(s@, a as int);
        let t = s@.skip(a as int);
        assert(forall|k: int|
            e - a <= k < t.len() ==> is_space_char(#[trigger] t[k]) == is_space_char(
                s@[k + a],
            ) && is_space_char(s@[k + a]));
        lemma_trim_end_is(t, e - a);
        assert(t.take(e - a) =~= s@.subrange(a as int, e as int));
    }
    String::from_str(s.substring_char(a, e))
}

pub(crate) fn trim_end_to_string(s: &str) -> (r: String)
    ensures
        r@ == trim_end_spaces(s@),
{
    let n = s.unicode_len();
    let mut e = n;
    while e > 0 && is_space(s.get_char(e - 1))
        invariant
            0 <= e <= n,
            n == s@.len(),
            forall|k: int| e <= k < n ==> is_space_char(s@[k]),
        decreases e,
    {
        e = e - 1;
    }
    proof {
        lemma_trim_end_is(s@, e as int);
        assert(s@.take(e as int) =~= s@.subrange(0, e as int));
    }
    String::from_str(s.substring_char(0, e))
}

/// Compare two string slices for character-for-character equality.
pub(crate) fn str_eq(a: &str, b: &str) -> (r: bool)
    ensures
        r == (a@ == b@),
{
    let sa = a.to_owned();
    let sb = b.to_owned();
    sa == sb
}

pub(crate) fn str_ends_with(s: &str, suffix: &str) -> (r: bool)
    ensures
        r == ends_with(s@, suffix@),
{
    let n = s.unicode_len();
    let m = suffix.unicode_len();
    if m > n {
        return false;
    }
    let r = window_eq(s, n - m, suffix);
    proof {
        assert(s@.subrange(n - m, n - m + suffix@.len() as int) =~= s@.skip(
            s@.len() - suffix@.len(),
        ));
    }
    r
}

pub(crate) fn upper_val(c: char) -> (r: u32)
    ensures
        r as int == upper_code(c),
{
    let u = c as u32;
    if 97 <= u && u <= 122 {
        u - 32
    } else {
        u
    }
}

pub(crate) fn str_case_eq_upper(s: &str, t: &str) -> (r: bool)
    ensures
        r == case_eq_upper(s@, t@),
{
    let n = s.unicode_len();
    let m = t.unicode_len();
    if n != m {
        return false;
    }
    let mut k: usize = 0;
    while k < n
        invariant
            0 <= k <= n,
            n == s@.len(),
            n == t@.len(),
            forall|i: int| 0 <= i < k ==> #[trigger] upper_code(s@[i]) == upper_code(t@[i]),
        decreases n - k,
    {
        if upper_val(s.get_char(k)) != upper_val(t.get_char(k)) {
            return false;
        }
        k = k + 1;
    }
    true
}

pub proof fn lemma_strip_colons_is(s: Seq<char>, j: int)
    requires
        0 <= j <= s.len(),
        forall|k: int| 0 <= k < j ==> s[k] == ':',
        j < s.len() ==> s[j] != ':',
    ensures
        strip_colons(s) == s.skip(j),
    decreases j,
{
    if j == 0 {
        assert(s.skip(0) =~= s);
    } else {
        let t = s.drop_first();
        assert(forall|k: int| 0 <= k < j - 1 ==> #[trigger] t[k] == ':');
        lemma_strip_colons_is(t, j - 1);
        assert(t.skip(j - 1) =~= s.skip(j));
    }
}

} // verus!
