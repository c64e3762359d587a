//! Character-level string utilities: searching, splitting, trimming and
//! equality, each proved against a specification over `Seq<char>`.

use vstd::prelude::*;

verus! {

/// Position of the first occurrence of `c` in `s`; `s.len()` when absent.
pub open spec fn first_index_of(s: Seq<char>, c: char) -> int
    decreases s.len(),
{
    if s.len() == 0 {
        0
    } else if s[0] == c {
        0
    } else {
        1 + first_index_of(s.drop_first(), c)
    }
}

/// `first_index_of` points at the first occurrence: everything before it
/// differs from `c`, and it lands on `c` unless `c` is absent.
pub proof fn lemma_first_index_of(s: Seq<char>, c: char)
    ensures
        0 <= first_index_of(s, c) <= s.len(),
        first_index_of(s, c) < s.len() ==> s[first_index_of(s, c)] == c,
        forall|k: int| 0 <= k < first_index_of(s, c) ==> s[k] != c,
    decreases s.len(),
{
    if s.len() == 0 {
    } else if s[0] == c {
    } else {
        lemma_first_index_of(s.drop_first(), c);
        assert forall|k: int| 0 <= k < first_index_of(s, c) implies s[k] != c by {
            if k > 0 {
                assert(s.drop_first()[k - 1] == s[k]);
            }
        }
    }
}

/// Find the first occurrence of `c` in `s`.
pub fn find_char(s: &str, c: char) -> (r: Option<usize>)
    ensures
        match r {
            Some(i) => i == first_index_of(s@, c) && i < s@.len(),
            None => first_index_of(s@, c) == s@.len(),
        },
{
    proof {
        lemma_first_index_of(s@, c);
    }
    let n = s.unicode_len();
    let mut i: usize = 0;
    while i < n
        invariant
            n == s@.len(),
            0 <= i <= n,
            forall|k: int| 0 <= k < i ==> s@[k] != c,
            0 <= first_index_of(s@, c) <= s@.len(),
            first_index_of(s@, c) < s@.len() ==> s@[first_index_of(s@, c)] == c,
            forall|k: int| 0 <= k < first_index_of(s@, c) ==> s@[k] != c,
        decreases n - i,
    {
        if s.get_char(i) == c {
            proof {
                let f = first_index_of(s@, c);
                if f < i {
                    assert(s@[f] != c);
                } else if f > i {
                    assert(s@[i as int] != c);
                }
            }
            return Some(i);
        }
        i = i + 1;
    }
    proof {
        let f = first_index_of(s@, c);
        if f < s@.len() {
            assert(s@[f] != c);
        }
    }
    None
}

/// Character-by-character equality of two string slices.
pub fn str_eq(a: &str, b: &str) -> (r: bool)
    ensures
        r == (a@ == b@),
{
    let na = a.unicode_len();
    let nb = b.unicode_len();
    if na != nb {
        proof {
            assert(a@ != b@) by {
                if a@ == b@ {
                    assert(a@.len() == b@.len());
                }
            }
        }
        return false;
    }
    let mut i: usize = 0;
    while i < na
        invariant
            na == a@.len(),
            na == b@.len(),
            0 <= i <= na,
            forall|k: int| 0 <= k < i ==> a@[k] == b@[k],
        decreases na - i,
    {
        if a.get_char(i) != b.get_char(i) {
            return false;
        }
        i = i + 1;
    }
    proof {
        assert(a@ =~= b@);
    }
    true
}

/// Whether `needle` occurs in `hay` as a contiguous run of characters.
pub open spec fn has_substring(hay: Seq<char>, needle: Seq<char>) -> bool {
    exists|i: int|
        0 <= i && i + needle.len() <= hay.len() && #[trigger] hay.subrange(i, i + needle.len())
            == needle
}

/// Substring search.
pub fn contains_str(hay: &str, needle: &str) -> (r: bool)
    ensures
        r == has_substring(hay@, needle@),
{
    let n = hay.unicode_len();
    let m = needle.unicode_len();
    if m == 0 {
        proof {
            let ghost z: int = 0;
            assert(z + needle@.len() <= hay@.len() && hay@.subrange(z, z + needle@.len())
                =~= needle@);
        }
        return true;
    }
    if m > n {
        proof {
            assert(!has_substring(hay@, needle@)) by {
                if has_substring(hay@, needle@) {
                    let i = choose|i: int|
                        0 <= i && i + needle@.len() <= hay@.len() && #[trigger] hay@.subrange(
                            i,
                            i + needle@.len(),
                        ) == needle@;
                }
            }
        }
        return false;
    }
    let mut i: usize = 0;
    while i <= n - m
        invariant
            n == hay@.len(),
            m == needle@.len(),
            1 <= m <= n,
            0 <= i <= n - m + 1,
            forall|k: int| 0 <= k < i ==> #[trigger] hay@.subrange(k, k + needle@.len()) != needle@,
        decreases n - i,
    {
        let part = hay.substring_char(i, i + m);
        if str_eq(part, needle) {
            assert(hay@.subrange(i as int, i + needle@.len()) == needle@);
            return true;
        }
        i = i + 1;
    }
    proof {
        assert(!has_substring(hay@, needle@)) by {
            if has_substring(hay@, needle@) {
                let j = choose|j: int|
                    0 <= j && j + needle@.len() <= hay@.len() && #[trigger] hay@.subrange(
                        j,
                        j + needle@.len(),
                    ) == needle@;
                assert(j < i);
            }
        }
    }
    false
}

/// Whether `p` is a prefix of `s`.
pub open spec fn starts_with(s: Seq<char>, p: Seq<char>) -> bool {
    p.len() <= s.len() && s.subrange(0, p.len() as int) == p
}

/// Prefix test.
pub fn starts_with_str(s: &str, p: &str) -> (r: bool)
    ensures
        r == starts_with(s@, p@),
{
    let n = s.unicode_len();
    let m = p.unicode_len();
    if m > n {
        return false;
    }
    let head = s.substring_char(0, m);
    str_eq(head, p)
}

/// The whitespace characters this library trims.
pub open spec fn is_space_char(c: char) -> bool {
    c == ' ' || c == '\t' || c == '\n' || c == '\r' || c == '\u{b}' || c == '\u{c}'
}

/// Length of the run of whitespace at the start of `s`.
pub open spec fn leading_spaces(s: Seq<char>) -> int
    decreases s.len(),
{
    if s.len() == 0 || !is_space_char(s[0]) {
        0
    } else {
        1 + leading_spaces(s.drop_first())
    }
}

/// Length of the run of whitespace at the end of `s`.
pub open spec fn trailing_spaces(s: Seq<char>) -> int
    decreases s.len(),
{
    if s.len() == 0 || !is_space_char(s[s.len() - 1]) {
        0
    } else {
        1 + trailing_spaces(s.drop_last())
    }
}

/// `s` with leading and trailing whitespace removed.
pub open spec fn trim_spec(s: Seq<char>) -> Seq<char> {
    if leading_spaces(s) == s.len() {
        Seq::empty()
    } else {
        s.subrange(leading_spaces(s), s.len() - trailing_spaces(s))
    }
}

pub proof fn lemma_leading_spaces(s: Seq<char>)
    ensures
        0 <= leading_spaces(s) <= s.len(),
        forall|k: int| 0 <= k < leading_spaces(s) ==> is_space_char(s[k]),
        leading_spaces(s) < s.len() ==> !is_space_char(s[leading_spaces(s)]),
    decreases s.len(),
{
    if s.len() == 0 || !is_space_char(s[0]) {
    } else {
        lemma_leading_spaces(s.drop_first());
        assert forall|k: int| 0 <= k < leading_spaces(s) implies is_space_char(s[k]) by {
            if k > 0 {
                assert(s.drop_first()[k - 1] == s[k]);
            }
        }
    }
}

pub proof fn lemma_trailing_spaces(s: Seq<char>)
    ensures
        0 <= trailing_spaces(s) <= s.len(),
        forall|k: int| s.len() - trailing_spaces(s) <= k < s.len() ==> is_space_char(s[k]),
        trailing_spaces(s) < s.len() ==> !is_space_char(s[s.len() - trailing_spaces(s) - 1]),
    decreases s.len(),
{
    if s.len() == 0 || !is_space_char(s[s.len() - 1]) {
    } else {
        lemma_trailing_spaces(s.drop_last());
        assert forall|k: int| s.len() - trailing_spaces(s) <= k < s.len() implies is_space_char(
            s[k],
        ) by {
            if k < s.len() - 1 {
                assert(s.drop_last()[k] == s[k]);
            }
        }
    }
}

/// Whether `c` belongs to the whitespace set that trimming removes.
pub fn is_space(c: char) -> (r: bool)
    ensures
        r == is_space_char(c),
{
    c == ' ' || c == '\t' || c == '\n' || c == '\r' || c == '\u{b}' || c == '\u{c}'
}

/// Remove leading and trailing whitespace.
pub fn trim_str(s: &str) -> (r: &str)
    ensures
        r@ == trim_spec(s@),
{
    proof {
        lemma_leading_spaces(s@);
        lemma_trailing_spaces(s@);
    }
    let n = s.unicode_len();
    let mut a: usize = 0;
    while a < n && is_space(s.get_char(a))
        invariant
            n == s@.len(),
            0 <= a <= n,
            forall|k: int| 0 <= k < a ==> is_space_char(s@[k]),
        decreases n - a,
    {
        a = a + 1;
    }
    proof {
        let l = leading_spaces(s@);
        if l < a {
            assert(is_space_char(s@[l]));
        } else if a < l {
            assert(is_space_char(s@[a as int]));
        }
    }
    if a == n {
        let r = s.substring_char(n, n);
        proof {
            assert(r@ =~= trim_spec(s@));
        }
        return r;
    }
    let mut b: usize = n - 1;
    while b > a && is_space(s.get_char(b))
        invariant
            n == s@.len(),
            0 <= a <= b < n,
            forall|k: int| b < k < n ==> is_space_char(s@[k]),
            !is_space_char(s@[a as int]),
        decreases b,
    {
        b = b - 1;
    }
    proof {
        let l = leading_spaces(s@);
        let t = trailing_spaces(s@);
        assert(a == l);
        assert(!is_space_char(s@[b as int]));
        assert(b == n - t - 1) by {
            if b < n - t - 1 {
                assert(is_space_char(s@[b as int])) by {
                    assert(s@.len() - trailing_spaces(s@) <= b < s@.len());
                }
            } else if b > n - t - 1 {
                assert(t < s@.len());
                assert(is_space_char(s@[s@.len() - trailing_spaces(s@) - 1])) by {
                    assert(s@.len() - trailing_spaces(s@) <= s@.len() - t - 1 < s@.len());
                }
            }
        }
    }
    let r = s.substring_char(a, b + 1);
    proof {
        assert(r@ =~= trim_spec(s@));
    }
    r
}

/// `s` split at every occurrence of `c`; an absent separator yields one piece.
pub open spec fn split_on(s: Seq<char>, c: char) -> Seq<Seq<char>>
    decreases s.len(),
    via split_on_via
{
    let i = first_index_of(s, c);
    if i == s.len() {
        seq![s]
    } else {
        seq![s.take(i)] + split_on(s.skip(i + 1), c)
    }
}

#[via_fn]
proof fn split_on_via(s: Seq<char>, c: char) {
    lemma_first_index_of(s, c);
}

/// Split `s` at every occurrence of `c`.
pub fn split_on_char(s: &str, c: char) -> (r: Vec<String>)
    ensures
        r@.map_values(|t: String| t@) == split_on(s@, c),
    decreases s@.len(),
{
    match find_char(s, c) {
        None => {
            let mut out: Vec<String> = Vec::new();
            out.push(s.to_owned());
            proof {
                assert(out@.map_values(|t: String| t@) =~= split_on(s@, c));
            }
            out
        },
        Some(i) => {
            let n = s.unicode_len();
            let head = s.substring_char(0, i).to_owned();
            let rest = s.substring_char(i + 1, n);
            let tail = split_on_char(rest, c);
            let mut out: Vec<String> = Vec::new();
            out.push(head);
            let mut k: usize = 0;
            while k < tail.len()
                invariant
                    0 <= k <= tail@.len(),
                    out@.len() == k + 1,
                    out@[0]@ == s@.take(first_index_of(s@, c)),
                    forall|j: int| 0 <= j < k ==> out@[j + 1] == tail@[j],
                decreases tail@.len() - k,
            {
                let item = tail[k].clone();
                out.push(item);
                k = k + 1;
            }
            proof {
                assert(out@.map_values(|t: String| t@) =~= split_on(s@, c));
            }
            out
        },
    }
}

/// Each line of `s`: split at newlines, a carriage return before the newline
/// removed, the final line ending optional.
pub open spec fn strip_cr(s: Seq<char>) -> Seq<char> {
    if s.len() > 0 && s[s.len() - 1] == '\r' {
        s.drop_last()
    } else {
        s
    }
}

/// The lines of `s`.
pub open spec fn split_lines(s: Seq<char>) -> Seq<Seq<char>>
    decreases s.len(),
    via split_lines_via
{
    if s.len() == 0 {
        Seq::empty()
    } else {
        let i = first_index_of(s, '\n');
        if i == s.len() {
            seq![s]
        } else {
            seq![strip_cr(s.take(i))] + split_lines(s.skip(i + 1))
        }
    }
}

#[via_fn]
proof fn split_lines_via(s: Seq<char>) {
    lemma_first_index_of(s, '\n');
}

/// Split `s` into lines.
pub fn split_lines_str(s: &str) -> (r: Vec<String>)
    ensures
        r@.map_values(|t: String| t@) == split_lines(s@),
    decreases s@.len(),
{
    let n = s.unicode_len();
    if n == 0 {
        let out: Vec<String> = Vec::new();
        proof {
            assert(out@.map_values(|t: String| t@) =~= split_lines(s@));
        }
        return out;
    }
    match find_char(s, '\n') {
        None => {
            let mut out: Vec<String> = Vec::new();
            out.push(s.to_owned());
            proof {
                assert(out@.map_values(|t: String| t@) =~= split_lines(s@));
            }
            out
        },
        Some(i) => {
            let head_raw = s.substring_char(0, i);
            let head = if i > 0 && head_raw.get_char(i - 1) == '\r' {
                head_raw.substring_char(0, i - 1).to_owned()
            } else {
                head_raw.to_owned()
            };
            proof {
                assert(head@ =~= strip_cr(s@.take(first_index_of(s@, '\n'))));
            }
            let rest = s.substring_char(i + 1, n);
            let tail = split_lines_str(rest);
            let mut out: Vec<String> = Vec::new();
            out.push(head);
            let mut k: usize = 0;
            while k < tail.len()
                invariant
                    0 <= k <= tail@.len(),
                    out@.len() == k + 1,
                    out@[0]@ == strip_cr(s@.take(first_index_of(s@, '\n'))),
                    forall|j: int| 0 <= j < k ==> out@[j + 1] == tail@[j],
                decreases tail@.len() - k,
            {
                let item = tail[k].clone();
                out.push(item);
                k = k + 1;
            }
            proof {
                assert(out@.map_values(|t: String| t@) =~= split_lines(s@));
            }
            out
        },
    }
}

/// The value of the first `key=value` pair of the segment, when its key part
/// (everything before the first `=`) equals `key`.
pub open spec fn segment_value(seg: Seq<char>, key: Seq<char>) -> Option<Seq<char>> {
    let i = first_index_of(seg, '=');
    if i == seg.len() {
        None
    } else if seg.take(i) == key {
        Some(seg.skip(i + 1))
    } else {
        None
    }
}

/// The value bound to `key` in the `&`-separated query string `q`: the first
/// segment of the form `key=value` wins.
pub open spec fn query_param(q: Seq<char>, key: Seq<char>) -> Option<Seq<char>>
    decreases q.len(),
    via query_param_via
{
    let i = first_index_of(q, '&');
    if i == q.len() {
        segment_value(q, key)
    } else {
        match segment_value(q.take(i), key) {
            Some(v) => Some(v),
            None => query_param(q.skip(i + 1), key),
        }
    }
}

#[via_fn]
proof fn query_param_via(q: Seq<char>, key: Seq<char>) {
    lemma_first_index_of(q, '&');
}

/// Look at one `key=value` segment.
fn segment_value_str(seg: &str, key: &str) -> (r: Option<String>)
    ensures
        match r {
            Some(v) => segment_value(seg@, key@) == Some(v@),
            None => segment_value(seg@, key@) is None,
        },
{
    match find_char(seg, '=') {
        None => None,
        Some(i) => {
            let n = seg.unicode_len();
            let k = seg.substring_char(0, i);
            if str_eq(k, key) {
                let v = seg.substring_char(i + 1, n).to_owned();
                proof {
                    assert(seg@.take(first_index_of(seg@, '=')) =~= k@);
                    assert(v@ =~= seg@.skip(first_index_of(seg@, '=') + 1));
                }
                Some(v)
            } else {
                proof {
                    assert(seg@.take(first_index_of(seg@, '=')) =~= k@);
                }
                None
            }
        },
    }
}

/// Look `key` up in the query string `q`.
pub fn query_param_str(q: &str, key: &str) -> (r: Option<String>)
    ensures
        match r {
            Some(v) => query_param(q@, key@) == Some(v@),
            None => query_param(q@, key@) is None,
        },
    decreases q@.len(),
{
    match find_char(q, '&') {
        None => segment_value_str(q, key),
        Some(i) => {
            let seg = q.substring_char(0, i);
            proof {
                assert(seg@ =~= q@.take(first_index_of(q@, '&')));
            }
            match segment_value_str(seg, key) {
                Some(v) => Some(v),
                None => {
                    let n = q.unicode_len();
                    let rest = q.substring_char(i + 1, n);
                    query_param_str(rest, key)
                },
            }
        },
    }
}

/// Position of the last occurrence of `c` in `s`; `-1` when absent.
pub open spec fn last_index_of(s: Seq<char>, c: char) -> int
    decreases s.len(),
{
    if s.len() == 0 {
        -1
    } else if s.last() == c {
        s.len() - 1
    } else {
        last_index_of(s.drop_last(), c)
    }
}

/// `last_index_of` points at the last occurrence: everything after it
/// differs from `c`, and it lands on `c` unless `c` is absent.
pub proof fn lemma_last_index_of(s: Seq<char>, c: char)
    ensures
        -1 <= last_index_of(s, c) < s.len(),
        last_index_of(s, c) >= 0 ==> s[last_index_of(s, c)] == c,
        forall|k: int| last_index_of(s, c) < k < s.len() ==> s[k] != c,
    decreases s.len(),
{
    if s.len() == 0 {
    } else if s.last() == c {
    } else {
        lemma_last_index_of(s.drop_last(), c);
        assert forall|k: int| last_index_of(s, c) < k < s.len() implies s[k] != c by {
            if k < s.len() - 1 {
                assert(s.drop_last()[k] == s[k]);
            }
        }
    }
}

/// Find the last occurrence of `c` in `s`.
pub fn rfind_char(s: &str, c: char) -> (r: Option<usize>)
    ensures
        match r {
            Some(i) => i == last_index_of(s@, c) && i < s@.len(),
            None => last_index_of(s@, c) == -1,
        },
{
    proof {
        lemma_last_index_of(s@, c);
    }
    let n = s.unicode_len();
    let mut j: usize = n;
    while j > 0
        invariant
            n == s@.len(),
            0 <= j <= n,
            forall|k: int| j <= k < n ==> s@[k] != c,
            -1 <= last_index_of(s@, c) < s@.len(),
            last_index_of(s@, c) >= 0 ==> s@[last_index_of(s@, c)] == c,
            forall|k: int| last_index_of(s@, c) < k < s@.len() ==> s@[k] != c,
        decreases j,
    {
        let i = j - 1;
        if s.get_char(i) == c {
            proof {
                let l = last_index_of(s@, c);
                if l < i {
                    assert(s@[i as int] != c);
                } else if l > i {
                    assert(s@[l] != c);
                }
            }
            return Some(i);
        }
        j = i;
    }
    proof {
        let l = last_index_of(s@, c);
        if l >= 0 {
            assert(s@[l] != c);
        }
    }
    None
}

/// What lowercasing a string yields: a function of the characters alone.
pub uninterp spec fn lower_of(s: Seq<char>) -> Seq<char>;

/// Relies on `str::to_lowercase`: the result depends on the characters alone.
#[verifier::external_body]
pub fn to_lowercase_str(s: &str) -> (r: String)
    ensures
        r@ == lower_of(s@),
{
    s.to_lowercase()
}

/// The decimal digit characters of `n`, most significant first; empty for 0.
pub open spec fn dec_digits(n: int) -> Seq<char>
    decreases n,
{
    if n <= 0 {
        Seq::empty()
    } else {
        dec_digits(n / 10).push(digit_char(n % 10))
    }
}

/// The character of one decimal digit.
pub open spec fn digit_char(d: int) -> char {
    if d == 0 {
        '0'
    } else if d == 1 {
        '1'
    } else if d == 2 {
        '2'
    } else if d == 3 {
        '3'
    } else if d == 4 {
        '4'
    } else if d == 5 {
        '5'
    } else if d == 6 {
        '6'
    } else if d == 7 {
        '7'
    } else if d == 8 {
        '8'
    } else {
        '9'
    }
}

/// `n` written in decimal.
pub open spec fn dec_str(n: int) -> Seq<char> {
    if n == 0 {
        seq!['0']
    } else {
        dec_digits(n)
    }
}

/// Write a number in decimal.
pub fn usize_to_string(n: usize) -> (r: String)
    ensures
        r@ == dec_str(n as int),
{
    if n == 0 {
        let r = String::from_str("0");
        proof {
            reveal_strlit("0");
            assert(r@ =~= dec_str(0));
        }
        return r;
    }
    let mut out = String::new();
    let mut m: usize = n;
    while m > 0
        invariant
            dec_digits(n as int) =~= dec_digits(m as int) + out@,
        decreases m,
    {
        let d = m % 10;
        let ds: &str = if d == 0 {
            "0"
        } else if d == 1 {
            "1"
        } else if d == 2 {
            "2"
        } else if d == 3 {
            "3"
        } else if d == 4 {
            "4"
        } else if d == 5 {
            "5"
        } else if d == 6 {
            "6"
        } else if d == 7 {
            "7"
        } else if d == 8 {
            "8"
        } else {
            "9"
        };
        proof {
            reveal_strlit("0");
            reveal_strlit("1");
            reveal_strlit("2");
            reveal_strlit("3");
            reveal_strlit("4");
            reveal_strlit("5");
            reveal_strlit("6");
            reveal_strlit("7");
            reveal_strlit("8");
            reveal_strlit("9");
            assert(ds@ =~= seq![digit_char(m as int % 10)]);
        }
        let prefixed = String::from_str(ds).concat(out.as_str());
        proof {
            assert(dec_digits(m as int) =~= dec_digits(m as int / 10) + seq![
                digit_char(m as int % 10),
            ]);
            assert(dec_digits(m as int / 10) + (seq![digit_char(m as int % 10)] + out@)
                =~= (dec_digits(m as int / 10) + seq![digit_char(m as int % 10)]) + out@);
        }
        out = prefixed;
        m = m / 10;
    }
    proof {
        assert(dec_digits(0) + out@ =~= out@);
        assert(out@ =~= dec_str(n as int));
    }
    out
}

/// `s` with every copy of the prefix `p` removed from its start.
pub open spec fn strip_prefix_all(s: Seq<char>, p: Seq<char>) -> Seq<char>
    decreases s.len(),
{
    if p.len() > 0 && starts_with(s, p) {
        strip_prefix_all(s.skip(p.len() as int), p)
    } else {
        s
    }
}

/// Remove every leading copy of `p` from `s`.
pub fn strip_prefix_all_str(s: &str, p: &str) -> (r: String)
    ensures
        r@ == strip_prefix_all(s@, p@),
    decreases s@.len(),
{
    let m = p.unicode_len();
    if m > 0 && starts_with_str(s, p) {
        let rest = s.substring_char(m, s.unicode_len());
        proof {
            assert(rest@ =~= s@.skip(p@.len() as int));
        }
        strip_prefix_all_str(rest, p)
    } else {
        s.to_owned()
    }
}

} // verus!
