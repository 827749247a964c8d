//! Character-level text operations over `&str`, specified on `Seq<char>`.
use vstd::prelude::*;
use vstd::string::*;
use vstd::utf8::*;

verus! {

/// Whether `c` is whitespace as `char::is_whitespace` defines it.
pub uninterp spec fn unicode_whitespace(c: char) -> bool;

/// `char::is_whitespace`: whether `c` has the Unicode White_Space property.
#[verifier::external_body]
pub(crate) fn is_whitespace(c: char) -> (r: bool)
    ensures
        r == unicode_whitespace(c),
{
    c.is_whitespace()
}

/// Whether `s` holds only whitespace (what `str::trim` leaves empty).
pub open spec fn is_blank(s: Seq<char>) -> bool {
    forall|i: int| 0 <= i < s.len() ==> unicode_whitespace(#[trigger] s[i])
}

/// Whether `s` holds only whitespace.
pub fn is_blank_exec(s: &str) -> (r: bool)
    ensures
        r == is_blank(s@),
{
    let v = chars_of(s);
    let mut i: usize = 0;
    while i < v.len()
        invariant
            v@ == s@,
            i <= v@.len(),
            forall|j: int| 0 <= j < i ==> unicode_whitespace(#[trigger] s@[j]),
        decreases v@.len() - i,
    {
        if !is_whitespace(v[i]) {
            return false;
        }
        i = i + 1;
    }
    true
}

/// The text of an optional owned string.
pub open spec fn opt_view(o: Option<String>) -> Option<Seq<char>> {
    match o {
        Some(t) => Some(t@),
        None => None,
    }
}

/// The text of an optional borrowed string.
pub open spec fn opt_str_view(o: Option<&str>) -> Option<Seq<char>> {
    match o {
        Some(t) => Some(t@),
        None => None,
    }
}


/// `p` is a prefix of `s`.
pub open spec fn is_prefix_of(p: Seq<char>, s: Seq<char>) -> bool {
    p.len() <= s.len() && s.subrange(0, p.len() as int) == p
}

/// `p` is a suffix of `s`.
pub open spec fn is_suffix_of(p: Seq<char>, s: Seq<char>) -> bool {
    p.len() <= s.len() && s.subrange(s.len() - p.len(), s.len() as int) == p
}

/// `p` occurs in `s` starting at position `i`.
pub open spec fn occurs_at(s: Seq<char>, p: Seq<char>, i: int) -> bool {
    0 <= i && i + p.len() <= s.len() && s.subrange(i, i + p.len()) == p
}

/// `p` occurs somewhere in `s` (the empty sequence occurs in every sequence).
pub open spec fn contains_seq(s: Seq<char>, p: Seq<char>) -> bool {
    exists|i: int| #[trigger] occurs_at(s, p, i)
}

/// `c` occurs in `s`.
pub open spec fn has_char(s: Seq<char>, c: char) -> bool {
    exists|i: int| 0 <= i < s.len() && s[i] == c
}

/// The index of the last occurrence of `c` in `s`, or `-1`.
pub open spec fn last_index_of(s: Seq<char>, c: char) -> int
    decreases s.len(),
{
    if s.len() == 0 {
        -1
    } else if s.last() == c {
        s.len() - 1
    } else {
        last_index_of(s.drop_last(), c)
    }
}

/// What follows the last `:` of a user or alias id, if it has one.
pub open spec fn after_last_colon(s: Seq<char>) -> Option<Seq<char>> {
    let i = last_index_of(s, ':');
    if i < 0 {
        None
    } else {
        Some(s.subrange(i + 1, s.len() as int))
    }
}

/// What follows the first `:` up to the next `:` (the second field of a
/// `:`-separated id), if there is a first `:`.
pub open spec fn second_field(s: Seq<char>) -> Option<Seq<char>> {
    let i = first_index_of(s, ':');
    if i < 0 {
        None
    } else {
        let rest = s.subrange(i + 1, s.len() as int);
        let j = first_index_of(rest, ':');
        if j < 0 {
            Some(rest)
        } else {
            Some(rest.subrange(0, j))
        }
    }
}

/// The index of the first occurrence of `c` in `s`, or `-1`.
pub open spec fn first_index_of(s: Seq<char>, c: char) -> int
    decreases s.len(),
{
    if s.len() == 0 {
        -1
    } else if s[0] == c {
        0
    } else {
        let r = first_index_of(s.drop_first(), c);
        if r < 0 {
            -1
        } else {
            r + 1
        }
    }
}

pub proof fn lemma_last_index_of(s: Seq<char>, c: char)
    ensures
        -1 <= last_index_of(s, c) < s.len(),
        last_index_of(s, c) >= 0 ==> s[last_index_of(s, c)] == c,
        forall|j: int| last_index_of(s, c) < j < s.len() ==> s[j] != c,
    decreases s.len(),
{
    if s.len() > 0 && s.last() != c {
        lemma_last_index_of(s.drop_last(), c);
        assert forall|j: int| last_index_of(s, c) < j < s.len() - 1 implies s[j] != c by {
            assert(s[j] == s.drop_last()[j]);
        }
    }
}

pub proof fn lemma_first_index_of(s: Seq<char>, c: char)
    ensures
        -1 <= first_index_of(s, c) < s.len(),
        first_index_of(s, c) >= 0 ==> s[first_index_of(s, c)] == c,
        first_index_of(s, c) >= 0 ==> forall|j: int|
            0 <= j < first_index_of(s, c) ==> s[j] != c,
        first_index_of(s, c) < 0 ==> forall|j: int| 0 <= j < s.len() ==> s[j] != c,
    decreases s.len(),
{
    if s.len() > 0 && s[0] != c {
        lemma_first_index_of(s.drop_first(), c);
        let r = first_index_of(s.drop_first(), c);
        assert forall|j: int| 0 < j < s.len() implies s[j] == s.drop_first()[j - 1] by {}
    }
}

/// The characters of a string slice, copied into a vector.
pub fn chars_of(s: &str) -> (v: Vec<char>)
    ensures
        v@ == s@,
{
    let n = s.unicode_len();
    let mut v: Vec<char> = Vec::new();
    let mut i: usize = 0;
    while i < n
        invariant
            n == s@.len(),
            i <= n,
            v@ == s@.subrange(0, i as int),
        decreases n - i,
    {
        v.push(s.get_char(i));
        i = i + 1;
    }
    v
}

/// Equality of two string slices as character sequences.
pub fn str_eq(a: &str, b: &str) -> (r: bool)
    ensures
        r == (a@ == b@),
{
    let x = a.as_bytes();
    let y = b.as_bytes();
    proof {
        encode_utf8_decode_utf8(a@);
        encode_utf8_decode_utf8(b@);
    }
    if x.len() != y.len() {
        return false;
    }
    let mut i: usize = 0;
    while i < x.len()
        invariant
            x@ == a.spec_bytes(),
            y@ == b.spec_bytes(),
            x@.len() == y@.len(),
            i <= x@.len(),
            forall|j: int| 0 <= j < i ==> x@[j] == y@[j],
        decreases x@.len() - i,
    {
        if x[i] != y[i] {
            return false;
        }
        i = i + 1;
    }
    assert(x@ =~= y@);
    true
}

/// Whether the characters `p` occur in `s` at position `at`.
fn occurs_at_exec(s: &Vec<char>, p: &Vec<char>, at: usize) -> (r: bool)
    requires
        at + p@.len() <= s@.len(),
    ensures
        r == occurs_at(s@, p@, at as int),
{
    let mut k: usize = 0;
    while k < p.len()
        invariant
            at + p@.len() <= s@.len(),
            s@.len() == s.len(),
            k <= p@.len(),
            forall|j: int| 0 <= j < k ==> s@[at + j] == p@[j],
        decreases p@.len() - k,
    {
        if s[at + k] != p[k] {
            assert(s@.subrange(at as int, at + p@.len())[k as int] != p@[k as int]);
            return false;
        }
        k = k + 1;
    }
    assert(s@.subrange(at as int, at + p@.len()) =~= p@);
    true
}

/// `s` starts with `p`.
pub fn starts_with(s: &str, p: &str) -> (r: bool)
    ensures
        r == is_prefix_of(p@, s@),
{
    let sv = chars_of(s);
    let pv = chars_of(p);
    if pv.len() > sv.len() {
        return false;
    }
    occurs_at_exec(&sv, &pv, 0)
}

/// `s` ends with `p`.
pub fn ends_with(s: &str, p: &str) -> (r: bool)
    ensures
        r == is_suffix_of(p@, s@),
{
    let sv = chars_of(s);
    let pv = chars_of(p);
    if pv.len() > sv.len() {
        return false;
    }
    occurs_at_exec(&sv, &pv, sv.len() - pv.len())
}

/// `p` occurs somewhere in `s`.
pub fn contains(s: &str, p: &str) -> (r: bool)
    ensures
        r == contains_seq(s@, p@),
{
    let sv = chars_of(s);
    let pv = chars_of(p);
    if pv.len() > sv.len() {
        assert forall|i: int| !occurs_at(s@, p@, i) by {}
        return false;
    }
    let last = sv.len() - pv.len();
    let mut i: usize = 0;
    loop
        invariant
            sv@ == s@,
            pv@ == p@,
            last == s@.len() - p@.len(),
            i <= last,
            forall|j: int| 0 <= j < i ==> !occurs_at(s@, p@, j),
        ensures
            forall|j: int| 0 <= j <= last ==> !occurs_at(s@, p@, j),
        decreases last - i,
    {
        if occurs_at_exec(&sv, &pv, i) {
            assert(occurs_at(s@, p@, i as int));
            return true;
        }
        if i == last {
            break;
        }
        i = i + 1;
    }
    assert forall|j: int| !occurs_at(s@, p@, j) by {
        if 0 <= j && j + p@.len() <= s@.len() {
            assert(j <= last);
        }
    }
    false
}

/// `c` occurs in `s`.
pub fn has_char_exec(s: &str, c: char) -> (r: bool)
    ensures
        r == has_char(s@, c),
{
    let v = chars_of(s);
    let mut i: usize = 0;
    while i < v.len()
        invariant
            v@ == s@,
            i <= v@.len(),
            forall|j: int| 0 <= j < i ==> v@[j] != c,
        decreases v@.len() - i,
    {
        if v[i] == c {
            return true;
        }
        i = i + 1;
    }
    false
}

/// The text after the last `:` of `s` (`s.rfind(':')` then slicing), if any.
pub fn after_last_colon_exec(s: &str) -> (r: Option<String>)
    ensures
        match r {
            Some(t) => after_last_colon(s@) == Some(t@),
            None => after_last_colon(s@).is_none(),
        },
{
    let v = chars_of(s);
    let n = v.len();
    let mut i: usize = n;
    while i > 0
        invariant
            v@ == s@,
            n == s@.len(),
            i <= n,
            forall|j: int| i <= j < n ==> v@[j] != ':',
        decreases i,
    {
        if v[i - 1] == ':' {
            proof {
                lemma_last_index_of(s@, ':');
                lemma_last_index_is_last(s@, ':', i - 1);
            }
            let t = s.substring_char(i, n);
            return Some(t.to_owned());
        }
        i = i - 1;
    }
    proof {
        lemma_last_index_of(s@, ':');
    }
    None
}

proof fn lemma_last_index_is_last(s: Seq<char>, c: char, i: int)
    requires
        0 <= i < s.len(),
        s[i] == c,
        forall|j: int| i < j < s.len() ==> s[j] != c,
    ensures
        last_index_of(s, c) == i,
    decreases s.len(),
{
    if s.last() != c {
        lemma_last_index_is_last(s.drop_last(), c, i);
    }
}

proof fn lemma_first_index_is_first(s: Seq<char>, c: char, i: int)
    requires
        0 <= i < s.len(),
        s[i] == c,
        forall|j: int| 0 <= j < i ==> s[j] != c,
    ensures
        first_index_of(s, c) == i,
    decreases s.len(),
{
    if i > 0 {
        assert(s.drop_first()[i - 1] == c);
        lemma_first_index_is_first(s.drop_first(), c, i - 1);
    }
}

proof fn lemma_first_index_none(s: Seq<char>, c: char)
    requires
        forall|j: int| 0 <= j < s.len() ==> s[j] != c,
    ensures
        first_index_of(s, c) == -1,
    decreases s.len(),
{
    if s.len() > 0 {
        lemma_first_index_none(s.drop_first(), c);
    }
}

/// The second `:`-separated field of `s` (`s.split(':').nth(1)`), if any.
pub fn second_field_exec(s: &str) -> (r: Option<String>)
    ensures
        match r {
            Some(t) => second_field(s@) == Some(t@),
            None => second_field(s@).is_none(),
        },
{
    let v = chars_of(s);
    let n = v.len();
    let mut i: usize = 0;
    while i < n
        invariant
            v@ == s@,
            n == s@.len(),
            i <= n,
            forall|j: int| 0 <= j < i ==> v@[j] != ':',
        ensures
            i <= n,
            i < n ==> v@[i as int] == ':',
            forall|j: int| 0 <= j < i ==> v@[j] != ':',
        decreases n - i,
    {
        if v[i] == ':' {
            break;
        }
        i = i + 1;
    }
    if i == n {
        proof {
            lemma_first_index_none(s@, ':');
        }
        return None;
    }
    proof {
        lemma_first_index_is_first(s@, ':', i as int);
    }
    let ghost rest = s@.subrange(i + 1, n as int);
    let mut k: usize = i + 1;
    while k < n
        invariant
            v@ == s@,
            n == s@.len(),
            i < n,
            i + 1 <= k <= n,
            rest == s@.subrange(i + 1, n as int),
            forall|j: int| i + 1 <= j < k ==> v@[j] != ':',
        ensures
            i + 1 <= k <= n,
            k < n ==> v@[k as int] == ':',
            forall|j: int| i + 1 <= j < k ==> v@[j] != ':',
        decreases n - k,
    {
        if v[k] == ':' {
            break;
        }
        k = k + 1;
    }
    if k == n {
        proof {
            assert forall|j: int| 0 <= j < rest.len() implies rest[j] != ':' by {
                assert(rest[j] == s@[i + 1 + j]);
            }
            lemma_first_index_none(rest, ':');
        }
    } else {
        proof {
            assert(rest[k - i - 1] == ':');
            assert forall|j: int| 0 <= j < k - i - 1 implies rest[j] != ':' by {
                assert(rest[j] == s@[i + 1 + j]);
            }
            lemma_first_index_is_first(rest, ':', k - i - 1);
            assert(rest.subrange(0, k - i - 1) =~= s@.subrange(i + 1, k as int));
        }
    }
    let t = s.substring_char(i + 1, k);
    Some(t.to_owned())
}

} // verus!
