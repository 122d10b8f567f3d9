//! Character-level helpers for the progress-line parsers: searching,
//! trimming and marker removal, each stated over the `Seq<char>` view of
//! the strings involved.

use vstd::prelude::*;

verus! {

/// The ASCII whitespace characters that trimming and token splitting treat
/// as separators.
pub open spec fn is_space(c: char) -> bool {
    c == ' ' || c == '\t' || c == '\n' || c == '\r'
}

/// The characters of `needle` occur in `hay` starting at position `i`.
pub open spec fn match_at(hay: Seq<char>, needle: Seq<char>, i: int) -> bool {
    &&& 0 <= i
    &&& i + needle.len() <= hay.len()
    &&& hay.subrange(i, i + needle.len() as int) == needle
}

/// `needle` occurs somewhere in `hay`.
pub open spec fn has_substring(hay: Seq<char>, needle: Seq<char>) -> bool {
    exists|i: int| match_at(hay, needle, i)
}

/// Position of the first occurrence of `c` in `s`, or -1 when `c` is absent.
pub open spec fn find_char(s: Seq<char>, c: char) -> int
    decreases s.len(),
{
    if s.len() == 0 {
        -1
    } else if s[0] == c {
        0
    } else {
        let r = find_char(s.skip(1), c);
        if r < 0 {
            -1
        } else {
            r + 1
        }
    }
}

/// Position of the first whitespace character in `s`, or -1 when there is none.
pub open spec fn find_space(s: Seq<char>) -> int
    decreases s.len(),
{
    if s.len() == 0 {
        -1
    } else if is_space(s[0]) {
        0
    } else {
        let r = find_space(s.skip(1));
        if r < 0 {
            -1
        } else {
            r + 1
        }
    }
}

/// Position of the first occurrence of `needle` in `hay`, or -1 when absent.
pub open spec fn find_sub(hay: Seq<char>, needle: Seq<char>) -> int
    decreases hay.len(),
{
    if needle.len() > hay.len() {
        -1
    } else if hay.subrange(0, needle.len() as int) == needle {
        0
    } else if hay.len() == 0 {
        -1
    } else {
        let r = find_sub(hay.skip(1), needle);
        if r < 0 {
            -1
        } else {
            r + 1
        }
    }
}

/// `s` with its leading whitespace removed.
pub open spec fn trim_front(s: Seq<char>) -> Seq<char>
    decreases s.len(),
{
    if s.len() > 0 && is_space(s[0]) {
        trim_front(s.skip(1))
    } else {
        s
    }
}

/// `s` with its trailing whitespace removed.
pub open spec fn trim_back(s: Seq<char>) -> Seq<char>
    decreases s.len(),
{
    if s.len() > 0 && is_space(s.last()) {
        trim_back(s.drop_last())
    } else {
        s
    }
}

/// `s` with both leading and trailing whitespace removed.
pub open spec fn trim_spec(s: Seq<char>) -> Seq<char> {
    trim_back(trim_front(s))
}

/// `s` with every trailing occurrence of `c` removed.
pub open spec fn strip_trailing(s: Seq<char>, c: char) -> Seq<char>
    decreases s.len(),
{
    if s.len() > 0 && s.last() == c {
        strip_trailing(s.drop_last(), c)
    } else {
        s
    }
}

/// `s` with every occurrence of `pat` removed, scanning left to right over
/// non-overlapping matches.
pub open spec fn remove_all(s: Seq<char>, pat: Seq<char>) -> Seq<char>
    decreases s.len(),
{
    if pat.len() == 0 || s.len() < pat.len() {
        s
    } else if s.subrange(0, pat.len() as int) == pat {
        remove_all(s.skip(pat.len() as int), pat)
    } else {
        seq![s[0]] + remove_all(s.skip(1), pat)
    }
}

pub proof fn lemma_find_char_first(s: Seq<char>, c: char, i: int)
    requires
        0 <= i < s.len(),
        s[i] == c,
        forall|j: int| 0 <= j < i ==> s[j] != c,
    ensures
        find_char(s, c) == i,
    decreases i,
{
    if i > 0 {
        assert(s[0] != c);
        assert(s.skip(1)[i - 1] == c);
        assert forall|j: int| 0 <= j < i - 1 implies s.skip(1)[j] != c by {
            assert(s.skip(1)[j] == s[j + 1]);
        }
        lemma_find_char_first(s.skip(1), c, i - 1);
    }
}

pub proof fn lemma_find_char_absent(s: Seq<char>, c: char)
    requires
        forall|j: int| 0 <= j < s.len() ==> s[j] != c,
    ensures
        find_char(s, c) == -1,
    decreases s.len(),
{
    if s.len() > 0 {
        assert forall|j: int| 0 <= j < s.skip(1).len() implies s.skip(1)[j] != c by {
            assert(s.skip(1)[j] == s[j + 1]);
        }
        lemma_find_char_absent(s.skip(1), c);
    }
}

/// What the result of `find_char` means: a non-negative result is the
/// position of the first occurrence of `c`, and -1 means `c` is absent.
pub proof fn lemma_find_char_props(s: Seq<char>, c: char)
    ensures
        find_char(s, c) >= 0 ==> find_char(s, c) < s.len() && s[find_char(s, c)] == c && forall|
            j: int,
        | 0 <= j < find_char(s, c) ==> s[j] != c,
        find_char(s, c) < 0 ==> find_char(s, c) == -1 && forall|j: int|
            0 <= j < s.len() ==> s[j] != c,
    decreases s.len(),
{
    if s.len() == 0 {
    } else if s[0] == c {
    } else {
        lemma_find_char_props(s.skip(1), c);
        let r = find_char(s.skip(1), c);
        if r >= 0 {
            assert(s[r + 1] == s.skip(1)[r]);
            assert forall|j: int| 0 <= j < r + 1 implies s[j] != c by {
                if j > 0 {
                    assert(s[j] == s.skip(1)[j - 1]);
                }
            }
        } else {
            assert forall|j: int| 0 <= j < s.len() implies s[j] != c by {
                if j > 0 {
                    assert(s[j] == s.skip(1)[j - 1]);
                }
            }
        }
    }
}

proof fn lemma_find_space_first(s: Seq<char>, i: int)
    requires
        0 <= i < s.len(),
        is_space(s[i]),
        forall|j: int| 0 <= j < i ==> !is_space(s[j]),
    ensures
        find_space(s) == i,
    decreases i,
{
    if i > 0 {
        assert(!is_space(s[0]));
        assert(is_space(s.skip(1)[i - 1]));
        assert forall|j: int| 0 <= j < i - 1 implies !is_space(s.skip(1)[j]) by {
            assert(s.skip(1)[j] == s[j + 1]);
        }
        lemma_find_space_first(s.skip(1), i - 1);
    }
}

proof fn lemma_find_space_absent(s: Seq<char>)
    requires
        forall|j: int| 0 <= j < s.len() ==> !is_space(s[j]),
    ensures
        find_space(s) == -1,
    decreases s.len(),
{
    if s.len() > 0 {
        assert forall|j: int| 0 <= j < s.skip(1).len() implies !is_space(s.skip(1)[j]) by {
            assert(s.skip(1)[j] == s[j + 1]);
        }
        lemma_find_space_absent(s.skip(1));
    }
}

/// The first whitespace-delimited token of `s`, or the empty sequence when
/// `s` is all whitespace.
pub open spec fn first_token(s: Seq<char>) -> Seq<char>
    decreases s.len(),
{
    if s.len() == 0 {
        Seq::<char>::empty()
    } else if is_space(s[0]) {
        first_token(s.skip(1))
    } else {
        let e = find_space(s);
        if e < 0 {
            s
        } else {
            s.subrange(0, e)
        }
    }
}

proof fn lemma_first_token_skip_spaces(s: Seq<char>, a: int)
    requires
        0 <= a <= s.len(),
        forall|j: int| 0 <= j < a ==> is_space(s[j]),
    ensures
        first_token(s) == first_token(s.skip(a)),
    decreases a,
{
    if a == 0 {
        assert(s.skip(0) =~= s);
    } else {
        assert(is_space(s[0]));
        assert forall|j: int| 0 <= j < a - 1 implies is_space(s.skip(1)[j]) by {
            assert(s.skip(1)[j] == s[j + 1]);
        }
        lemma_first_token_skip_spaces(s.skip(1), a - 1);
        assert(s.skip(1).skip(a - 1) =~= s.skip(a));
    }
}

proof fn lemma_match_at_shift(hay: Seq<char>, needle: Seq<char>, j: int)
    requires
        hay.len() >= 1,
        0 <= j,
    ensures
        match_at(hay.skip(1), needle, j) == match_at(hay, needle, j + 1),
{
    if j + needle.len() <= hay.skip(1).len() {
        assert(hay.skip(1).subrange(j, j + needle.len() as int) =~= hay.subrange(
            j + 1,
            j + 1 + needle.len() as int,
        ));
    }
}

proof fn lemma_find_sub_first(hay: Seq<char>, needle: Seq<char>, i: int)
    requires
        match_at(hay, needle, i),
        forall|j: int| 0 <= j < i ==> !match_at(hay, needle, j),
    ensures
        find_sub(hay, needle) == i,
    decreases i,
{
    if i == 0 {
        assert(hay.subrange(0, needle.len() as int) == needle);
    } else {
        assert(!match_at(hay, needle, 0));
        assert(hay.len() >= 1);
        lemma_match_at_shift(hay, needle, i - 1);
        assert forall|j: int| 0 <= j < i - 1 implies !match_at(hay.skip(1), needle, j) by {
            lemma_match_at_shift(hay, needle, j);
        }
        lemma_find_sub_first(hay.skip(1), needle, i - 1);
        assert(hay.subrange(0, needle.len() as int) != needle);
    }
}

proof fn lemma_find_sub_absent(hay: Seq<char>, needle: Seq<char>)
    requires
        forall|j: int| 0 <= j <= hay.len() ==> !match_at(hay, needle, j),
    ensures
        find_sub(hay, needle) == -1,
    decreases hay.len(),
{
    assert(!match_at(hay, needle, 0));
    if needle.len() <= hay.len() {
        assert(hay.subrange(0, needle.len() as int) != needle);
        if hay.len() > 0 {
            assert forall|j: int| 0 <= j <= hay.skip(1).len() implies !match_at(
                hay.skip(1),
                needle,
                j,
            ) by {
                lemma_match_at_shift(hay, needle, j);
            }
            lemma_find_sub_absent(hay.skip(1), needle);
        }
    }
}

proof fn lemma_trim_front_exact(s: Seq<char>, a: int)
    requires
        0 <= a <= s.len(),
        forall|j: int| 0 <= j < a ==> is_space(s[j]),
        a == s.len() || !is_space(s[a]),
    ensures
        trim_front(s) == s.skip(a),
    decreases a,
{
    if a == 0 {
        assert(s.skip(0) =~= s);
    } else {
        assert(is_space(s[0]));
        assert forall|j: int| 0 <= j < a - 1 implies is_space(s.skip(1)[j]) by {
            assert(s.skip(1)[j] == s[j + 1]);
        }
        lemma_trim_front_exact(s.skip(1), a - 1);
        assert(s.skip(1).skip(a - 1) =~= s.skip(a));
    }
}

proof fn lemma_trim_back_exact(s: Seq<char>, b: int)
    requires
        0 <= b <= s.len(),
        forall|j: int| b <= j < s.len() ==> is_space(s[j]),
        b == 0 || !is_space(s[b - 1]),
    ensures
        trim_back(s) == s.subrange(0, b),
    decreases s.len(),
{
    if b == s.len() {
        if s.len() > 0 {
            assert(!is_space(s.last()));
        }
        assert(s.subrange(0, b) =~= s);
    } else {
        assert(is_space(s.last()));
        assert forall|j: int| b <= j < s.drop_last().len() implies is_space(s.drop_last()[j]) by {
            assert(s.drop_last()[j] == s[j]);
        }
        lemma_trim_back_exact(s.drop_last(), b);
        assert(s.drop_last().subrange(0, b) =~= s.subrange(0, b));
    }
}

proof fn lemma_strip_trailing_exact(s: Seq<char>, c: char, b: int)
    requires
        0 <= b <= s.len(),
        forall|j: int| b <= j < s.len() ==> s[j] == c,
        b == 0 || s[b - 1] != c,
    ensures
        strip_trailing(s, c) == s.subrange(0, b),
    decreases s.len(),
{
    if b == s.len() {
        if s.len() > 0 {
            assert(s.last() != c);
        }
        assert(s.subrange(0, b) =~= s);
    } else {
        assert(s.last() == c);
        assert forall|j: int| b <= j < s.drop_last().len() implies s.drop_last()[j] == c by {
            assert(s.drop_last()[j] == s[j]);
        }
        lemma_strip_trailing_exact(s.drop_last(), c, b);
        assert(s.drop_last().subrange(0, b) =~= s.subrange(0, b));
    }
}

/// Equality of two string slices, decided character by character.
pub fn str_eq(a: &str, b: &str) -> (r: bool)
    ensures
        r == (a@ == b@),
{
    let an = a.unicode_len();
    let bn = b.unicode_len();
    if an != bn {
        return false;
    }
    let mut i: usize = 0;
    while i < an
        invariant
            i <= an,
            an == a@.len(),
            bn == b@.len(),
            an == bn,
            forall|j: int| 0 <= j < i ==> a@[j] == b@[j],
        decreases an - i,
    {
        if a.get_char(i) != b.get_char(i) {
            return false;
        }
        i += 1;
    }
    proof {
        assert(a@ =~= b@);
    }
    true
}

/// Whether `needle` occurs in `hay` starting exactly at position `i`.
pub fn match_at_exec(hay: &str, needle: &str, i: usize) -> (r: bool)
    ensures
        r == match_at(hay@, needle@, i as int),
{
    let hn = hay.unicode_len();
    let nn = needle.unicode_len();
    if i > hn || hn - i < nn {
        return false;
    }
    let mut j: usize = 0;
    while j < nn
        invariant
            j <= nn,
            i + nn <= hn,
            hn == hay@.len(),
            nn == needle@.len(),
            forall|k: int| 0 <= k < j ==> hay@[i + k] == needle@[k],
        decreases nn - j,
    {
        if hay.get_char(i + j) != needle.get_char(j) {
            proof {
                if match_at(hay@, needle@, i as int) {
                    assert(hay@.subrange(i as int, i + nn as int)[j as int] == needle@[j as int]);
                }
            }
            return false;
        }
        j += 1;
    }
    proof {
        assert(hay@.subrange(i as int, i + nn as int) =~= needle@);
    }
    true
}

/// Position of the first occurrence of `needle` in `hay`.
pub fn find_str(hay: &str, needle: &str) -> (r: Option<usize>)
    ensures
        match r {
            Some(i) => find_sub(hay@, needle@) == i as int && match_at(hay@, needle@, i as int),
            None => find_sub(hay@, needle@) == -1 && !has_substring(hay@, needle@),
        },
{
    let hn = hay.unicode_len();
    let nn = needle.unicode_len();
    if nn > hn {
        proof {
            assert forall|j: int| 0 <= j <= hay@.len() implies !match_at(hay@, needle@, j) by {}
            lemma_find_sub_absent(hay@, needle@);
        }
        return None;
    }
    if nn == 0 {
        proof {
            assert(hay@.subrange(0, 0) =~= needle@);
            lemma_find_sub_first(hay@, needle@, 0);
        }
        return Some(0);
    }
    let mut i: usize = 0;
    while i <= hn - nn
        invariant
            1 <= nn <= hn,
            i <= hn - nn + 1,
            hn == hay@.len(),
            nn == needle@.len(),
            forall|j: int| 0 <= j < i ==> !match_at(hay@, needle@, j),
        decreases hn - nn - i + 1,
    {
        if match_at_exec(hay, needle, i) {
            proof {
                lemma_find_sub_first(hay@, needle@, i as int);
            }
            return Some(i);
        }
        i += 1;
    }
    proof {
        assert forall|j: int| 0 <= j <= hay@.len() implies !match_at(hay@, needle@, j) by {
            if j > hay@.len() - needle@.len() {
            }
        }
        lemma_find_sub_absent(hay@, needle@);
    }
    None
}

/// Whether `needle` occurs anywhere in `hay`.
pub fn contains_str(hay: &str, needle: &str) -> (r: bool)
    ensures
        r == has_substring(hay@, needle@),
{
    match find_str(hay, needle) {
        Some(_) => true,
        None => false,
    }
}

/// Position of the first occurrence of the character `c` in `s`.
pub fn find_char_exec(s: &str, c: char) -> (r: Option<usize>)
    ensures
        match r {
            Some(i) => find_char(s@, c) == i as int && i < s@.len() && s@[i as int] == c,
            None => find_char(s@, c) == -1,
        },
{
    let n = s.unicode_len();
    let mut i: usize = 0;
    while i < n
        invariant
            i <= n,
            n == s@.len(),
            forall|j: int| 0 <= j < i ==> s@[j] != c,
        decreases n - i,
    {
        if s.get_char(i) == c {
            proof {
                lemma_find_char_first(s@, c, i as int);
            }
            return Some(i);
        }
        i += 1;
    }
    proof {
        lemma_find_char_absent(s@, c);
    }
    None
}

/// Position of the first whitespace character in `s`.
pub fn find_space_exec(s: &str) -> (r: Option<usize>)
    ensures
        match r {
            Some(i) => find_space(s@) == i as int && i < s@.len() && is_space(s@[i as int]),
            None => find_space(s@) == -1,
        },
{
    let n = s.unicode_len();
    let mut i: usize = 0;
    while i < n
        invariant
            i <= n,
            n == s@.len(),
            forall|j: int| 0 <= j < i ==> !is_space(s@[j]),
        decreases n - i,
    {
        let c = s.get_char(i);
        if c == ' ' || c == '\t' || c == '\n' || c == '\r' {
            proof {
                lemma_find_space_first(s@, i as int);
            }
            return Some(i);
        }
        i += 1;
    }
    proof {
        lemma_find_space_absent(s@);
    }
    None
}

/// `s` without leading and trailing whitespace, as a borrowed slice.
pub fn trim_str<'a>(s: &'a str) -> (r: &'a str)
    ensures
        r@ == trim_spec(s@),
{
    let n = s.unicode_len();
    let mut a: usize = 0;
    while a < n
        invariant
            a <= n,
            n == s@.len(),
            forall|j: int| 0 <= j < a ==> is_space(s@[j]),
        ensures
            a <= n,
            forall|j: int| 0 <= j < a ==> is_space(s@[j]),
            a == n || !is_space(s@[a as int]),
        decreases n - a,
    {
        let c = s.get_char(a);
        if !(c == ' ' || c == '\t' || c == '\n' || c == '\r') {
            break;
        }
        a += 1;
    }
    proof {
        lemma_trim_front_exact(s@, a as int);
    }
    let mut b: usize = n;
    while b > a
        invariant
            a <= b <= n,
            n == s@.len(),
            forall|j: int| b <= j < n ==> is_space(s@[j]),
        ensures
            a <= b <= n,
            forall|j: int| b <= j < n ==> is_space(s@[j]),
            b == a || !is_space(s@[b - 1]),
        decreases b,
    {
        let c = s.get_char(b - 1);
        if !(c == ' ' || c == '\t' || c == '\n' || c == '\r') {
            break;
        }
        b -= 1;
    }
    let r = s.substring_char(a, b);
    proof {
        let t = s@.skip(a as int);
        assert forall|j: int| b - a <= j < t.len() implies is_space(t[j]) by {
            assert(t[j] == s@[j + a]);
        }
        if b > a {
            assert(t[b - a - 1] == s@[b - 1]);
        }
        lemma_trim_back_exact(t, b - a);
        assert(t.subrange(0, b - a) =~= s@.subrange(a as int, b as int));
    }
    r
}

/// `s` without its trailing occurrences of `c`, as a borrowed slice.
pub fn strip_trailing_str<'a>(s: &'a str, c: char) -> (r: &'a str)
    ensures
        r@ == strip_trailing(s@, c),
{
    let n = s.unicode_len();
    let mut b: usize = n;
    while b > 0
        invariant
            b <= n,
            n == s@.len(),
            forall|j: int| b <= j < n ==> s@[j] == c,
        ensures
            b <= n,
            forall|j: int| b <= j < n ==> s@[j] == c,
            b == 0 || s@[b - 1] != c,
        decreases b,
    {
        if s.get_char(b - 1) != c {
            break;
        }
        b -= 1;
    }
    proof {
        lemma_strip_trailing_exact(s@, c, b as int);
    }
    s.substring_char(0, b)
}

/// The first whitespace-delimited token of `s`, as a borrowed slice.
pub fn first_token_str<'a>(s: &'a str) -> (r: &'a str)
    ensures
        r@ == first_token(s@),
{
    let n = s.unicode_len();
    let mut a: usize = 0;
    while a < n
        invariant
            a <= n,
            n == s@.len(),
            forall|j: int| 0 <= j < a ==> is_space(s@[j]),
        ensures
            a <= n,
            forall|j: int| 0 <= j < a ==> is_space(s@[j]),
            a == n || !is_space(s@[a as int]),
        decreases n - a,
    {
        let c = s.get_char(a);
        if !(c == ' ' || c == '\t' || c == '\n' || c == '\r') {
            break;
        }
        a += 1;
    }
    proof {
        lemma_first_token_skip_spaces(s@, a as int);
    }
    let rest = s.substring_char(a, n);
    proof {
        assert(rest@ =~= s@.skip(a as int));
    }
    if a == n {
        return rest;
    }
    match find_space_exec(rest) {
        Some(e) => rest.substring_char(0, e),
        None => rest,
    }
}

/// `s` with every occurrence of `pat` removed, scanning left to right.
pub fn remove_all_str(s: &str, pat: &str) -> (r: String)
    ensures
        r@ == remove_all(s@, pat@),
{
    let n = s.unicode_len();
    let m = pat.unicode_len();
    if m == 0 {
        return s.to_owned();
    }
    let mut out = String::new();
    let mut i: usize = 0;
    proof {
        assert(s@.skip(0) =~= s@);
        assert(Seq::<char>::empty() + remove_all(s@, pat@) =~= remove_all(s@, pat@));
    }
    while i < n
        invariant
            i <= n,
            n == s@.len(),
            m == pat@.len(),
            m >= 1,
            remove_all(s@, pat@) == out@ + remove_all(s@.skip(i as int), pat@),
        decreases n - i,
    {
        let ghost rest = s@.skip(i as int);
        if match_at_exec(s, pat, i) {
            proof {
                assert(rest.subrange(0, m as int) =~= s@.subrange(i as int, i + m as int));
                assert(remove_all(rest, pat@) == remove_all(rest.skip(m as int), pat@));
                assert(rest.skip(m as int) =~= s@.skip(i + m as int));
            }
            i += m;
        } else {
            let ghost out0 = out@;
            out.append(s.substring_char(i, i + 1));
            proof {
                if rest.len() >= m {
                    assert(rest.subrange(0, m as int) =~= s@.subrange(i as int, i + m as int));
                    assert(rest.subrange(0, m as int) != pat@);
                    assert(remove_all(rest, pat@) == seq![rest[0]] + remove_all(
                        rest.skip(1),
                        pat@,
                    ));
                } else {
                    assert(remove_all(rest, pat@) == rest);
                    assert(remove_all(rest.skip(1), pat@) == rest.skip(1));
                    assert(rest =~= seq![rest[0]] + rest.skip(1));
                }
                assert(rest[0] == s@[i as int]);
                assert(s@.subrange(i as int, i + 1 as int) =~= seq![s@[i as int]]);
                assert(rest.skip(1) =~= s@.skip(i + 1));
                assert(out@ =~= out0 + seq![s@[i as int]]);
                assert(out0 + (seq![s@[i as int]] + remove_all(s@.skip(i + 1), pat@)) =~= (out0
                    + seq![s@[i as int]]) + remove_all(s@.skip(i + 1), pat@));
            }
            i += 1;
        }
    }
    proof {
        assert(s@.skip(n as int) =~= Seq::<char>::empty());
        assert(out@ + Seq::<char>::empty() =~= out@);
    }
    out
}

} // verus!
