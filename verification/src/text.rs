//! Character-level text operations with exact specifications.
//!
//! Every string in this crate is viewed as a `Seq<char>`. The functions here
//! are the building blocks the other modules use to search, trim, split,
//! parse and format text.

use vstd::prelude::*;
use vstd::string::*;

verus! {

// ---------------------------------------------------------------------------
// Conversions between strings and character vectors
// ---------------------------------------------------------------------------

/// `String::push` appends exactly one character to the end of the string.
pub assume_specification[ std::string::String::push ](s: &mut std::string::String, c: char)
    ensures
        final(s)@ == old(s)@.push(c),
;

/// The characters of `s`, in order.
pub fn chars_of(s: &str) -> (v: Vec<char>)
    ensures
        v@ == s@,
{
    let mut v: Vec<char> = Vec::new();
    for c in it: s.chars()
        invariant
            v@ == it.seq().take(it.index() as int),
            it.seq() == s@,
    {
        v.push(c);
    }
    v
}

/// The string made of the characters of `v`, in order.
pub fn string_of(v: &Vec<char>) -> (s: String)
    ensures
        s@ == v@,
{
    let mut s = String::new();
    let mut i: usize = 0;
    while i < v.len()
        invariant
            i <= v.len(),
            s@ == v@.take(i as int),
        decreases v.len() - i,
    {
        s.push(v[i]);
        i += 1;
    }
    s
}

/// A copy of the characters `v[from..to]`.
pub fn slice_chars(v: &Vec<char>, from: usize, to: usize) -> (r: Vec<char>)
    requires
        from <= to <= v.len(),
    ensures
        r@ == v@.subrange(from as int, to as int),
{
    let mut r: Vec<char> = Vec::new();
    let mut i: usize = from;
    while i < to
        invariant
            from <= i <= to <= v.len(),
            r@ == v@.subrange(from as int, i as int),
        decreases to - i,
    {
        r.push(v[i]);
        i += 1;
    }
    r
}

/// Appends the characters of `tail` to `out`.
pub fn push_chars(out: &mut Vec<char>, tail: &Vec<char>)
    ensures
        final(out)@ == old(out)@ + tail@,
{
    let mut i: usize = 0;
    while i < tail.len()
        invariant
            i <= tail.len(),
            out@ == old(out)@ + tail@.take(i as int),
        decreases tail.len() - i,
    {
        out.push(tail[i]);
        i += 1;
    }
    assert(tail@.take(tail.len() as int) == tail@);
}

/// Appends the characters of the string `tail` to `out`.
pub fn push_str_chars(out: &mut Vec<char>, tail: &str)
    ensures
        final(out)@ == old(out)@ + tail@,
{
    let t = chars_of(tail);
    push_chars(out, &t);
}

/// Whether two character vectors hold the same text.
pub fn same_chars(a: &Vec<char>, b: &Vec<char>) -> (r: bool)
    ensures
        r == (a@ == b@),
{
    if a.len() != b.len() {
        return false;
    }
    let mut i: usize = 0;
    while i < a.len()
        invariant
            i <= a.len(),
            a.len() == b.len(),
            a@.take(i as int) == b@.take(i as int),
        decreases a.len() - i,
    {
        if a[i] != b[i] {
            return false;
        }
        assert(a@.take(i + 1) == a@.take(i as int).push(a@[i as int]));
        assert(b@.take(i + 1) == b@.take(i as int).push(b@[i as int]));
        i += 1;
    }
    assert(a@.take(a.len() as int) == a@);
    assert(b@.take(b.len() as int) == b@);
    true
}

// ---------------------------------------------------------------------------
// Searching
// ---------------------------------------------------------------------------

/// `needle` occurs in `hay` starting at index `i`.
pub open spec fn occurs_at(hay: Seq<char>, needle: Seq<char>, i: int) -> bool {
    &&& 0 <= i
    &&& i + needle.len() <= hay.len()
    &&& hay.subrange(i, i + needle.len()) == needle
}

/// `needle` occurs somewhere in `hay`.
pub open spec fn contains(hay: Seq<char>, needle: Seq<char>) -> bool {
    exists|i: int| occurs_at(hay, needle, i)
}

/// `i` is the index of the first occurrence of `needle` in `hay`.
pub open spec fn first_occurrence(hay: Seq<char>, needle: Seq<char>, i: int) -> bool {
    &&& occurs_at(hay, needle, i)
    &&& forall|j: int| 0 <= j < i ==> !occurs_at(hay, needle, j)
}

/// `hay` begins with `prefix`.
pub open spec fn has_prefix(hay: Seq<char>, prefix: Seq<char>) -> bool {
    occurs_at(hay, prefix, 0)
}

/// Whether `needle` occurs in `hay` at index `i`.
pub fn matches_at(hay: &Vec<char>, needle: &Vec<char>, i: usize) -> (r: bool)
    ensures
        r == occurs_at(hay@, needle@, i as int),
{
    if needle.len() > hay.len() || i > hay.len() - needle.len() {
        return false;
    }
    let mut k: usize = 0;
    while k < needle.len()
        invariant
            k <= needle.len(),
            i + needle.len() <= hay.len(),
            hay@.subrange(i as int, i + k) == needle@.take(k as int),
        decreases needle.len() - k,
    {
        if hay[i + k] != needle[k] {
            assert(hay@.subrange(i as int, i + needle.len())[k as int] != needle@[k as int]);
            return false;
        }
        assert(hay@.subrange(i as int, i + k + 1) == hay@.subrange(i as int, i + k).push(
            hay@[i + k],
        ));
        assert(needle@.take(k + 1) == needle@.take(k as int).push(needle@[k as int]));
        k += 1;
    }
    assert(needle@.take(needle.len() as int) == needle@);
    true
}

/// The index of the first occurrence of `needle` in `hay` at or after `from`.
pub fn find_from(hay: &Vec<char>, needle: &Vec<char>, from: usize) -> (r: Option<usize>)
    ensures
        match r {
            Some(i) => from <= i && occurs_at(hay@, needle@, i as int) && forall|j: int|
                from <= j < i ==> !occurs_at(hay@, needle@, j),
            None => forall|j: int| from <= j ==> !occurs_at(hay@, needle@, j),
        },
{
    if from > hay.len() {
        return None;
    }
    let mut i: usize = from;
    while i <= hay.len()
        invariant
            from <= i <= hay.len() + 1,
            forall|j: int| from <= j < i ==> !occurs_at(hay@, needle@, j),
        decreases hay.len() + 1 - i,
    {
        if matches_at(hay, needle, i) {
            return Some(i);
        }
        if i == hay.len() {
            return None;
        }
        i += 1;
    }
    None
}

/// The index of the first occurrence of `needle` in `hay`.
pub fn find(hay: &Vec<char>, needle: &Vec<char>) -> (r: Option<usize>)
    ensures
        match r {
            Some(i) => first_occurrence(hay@, needle@, i as int),
            None => !contains(hay@, needle@),
        },
{
    find_from(hay, needle, 0)
}

/// Whether the text `needle` occurs in `hay`.
pub fn contains_str(hay: &Vec<char>, needle: &str) -> (r: bool)
    ensures
        r == contains(hay@, needle@),
{
    let n = chars_of(needle);
    find(hay, &n).is_some()
}

/// Whether `hay` begins with the text `prefix`.
pub fn starts_with_str(hay: &Vec<char>, prefix: &str) -> (r: bool)
    ensures
        r == has_prefix(hay@, prefix@),
{
    let p = chars_of(prefix);
    matches_at(hay, &p, 0)
}

/// `i` is the index of the first `c` in `s` at or after `from`; `s.len()` if there is none.
pub open spec fn next_char_index(s: Seq<char>, c: char, from: int, i: int) -> bool {
    &&& from <= i <= s.len()
    &&& i < s.len() ==> s[i] == c
    &&& forall|j: int| from <= j < i ==> s[j] != c
}

/// The index of the first `c` in `s` at or after `from`, or `s.len()`.
pub fn find_char_from(s: &Vec<char>, c: char, from: usize) -> (i: usize)
    requires
        from <= s.len(),
    ensures
        next_char_index(s@, c, from as int, i as int),
{
    let mut i: usize = from;
    while i < s.len()
        invariant
            from <= i <= s.len(),
            forall|j: int| from <= j < i ==> s@[j] != c,
        decreases s.len() - i,
    {
        if s[i] == c {
            return i;
        }
        i += 1;
    }
    i
}

/// The index of the first occurrence of `needle` in `hay` at or after `from`; `-1` if
/// there is none.
pub open spec fn search_from(hay: Seq<char>, needle: Seq<char>, from: int) -> int
    decreases hay.len() - from,
{
    if from < 0 || from + needle.len() > hay.len() {
        -1
    } else if occurs_at(hay, needle, from) {
        from
    } else if from >= hay.len() {
        -1
    } else {
        search_from(hay, needle, from + 1)
    }
}

/// The index of the first occurrence of `needle` in `hay`; `-1` if there is none.
pub open spec fn search(hay: Seq<char>, needle: Seq<char>) -> int {
    search_from(hay, needle, 0)
}

pub proof fn lemma_search_from(hay: Seq<char>, needle: Seq<char>, from: int, at: int)
    requires
        0 <= from,
        at == -1 || from <= at,
        at >= 0 ==> occurs_at(hay, needle, at),
        forall|j: int| from <= j && (at == -1 || j < at) ==> !occurs_at(hay, needle, j),
    ensures
        search_from(hay, needle, from) == at,
    decreases hay.len() - from,
{
    if from + needle.len() <= hay.len() && from != at {
        if from >= hay.len() {
            assert(hay.subrange(from, from + needle.len()) =~= needle);
        } else {
            lemma_search_from(hay, needle, from + 1, at);
        }
    }
}

/// The index of the first occurrence of the text `needle` in `hay`.
pub fn find_str(hay: &Vec<char>, needle: &str) -> (r: Option<usize>)
    ensures
        match r {
            Some(i) => i == search(hay@, needle@) && i + needle@.len() <= hay@.len(),
            None => search(hay@, needle@) == -1,
        },
{
    let n = chars_of(needle);
    let r = find_from(hay, &n, 0);
    proof {
        match r {
            Some(i) => lemma_search_from(hay@, needle@, 0, i as int),
            None => lemma_search_from(hay@, needle@, 0, -1),
        }
    }
    r
}

// ---------------------------------------------------------------------------
// Whitespace and trimming
// ---------------------------------------------------------------------------

/// The characters with the Unicode `White_Space` property.
pub open spec fn is_space(c: char) -> bool {
    let u = c as u32;
    ||| 0x09 <= u <= 0x0d
    ||| u == 0x20
    ||| u == 0x85
    ||| u == 0xa0
    ||| u == 0x1680
    ||| 0x2000 <= u <= 0x200a
    ||| u == 0x2028
    ||| u == 0x2029
    ||| u == 0x202f
    ||| u == 0x205f
    ||| u == 0x3000
}

/// Whether `c` has the Unicode `White_Space` property.
pub fn is_space_char(c: char) -> (r: bool)
    ensures
        r == is_space(c),
{
    let u: u32 = c as u32;
    (0x09 <= u && u <= 0x0d) || u == 0x20 || u == 0x85 || u == 0xa0 || u == 0x1680 || (0x2000 <= u
        && u <= 0x200a) || u == 0x2028 || u == 0x2029 || u == 0x202f || u == 0x205f || u == 0x3000
}

/// The number of whitespace characters at the start of `s`.
pub open spec fn leading_spaces(s: Seq<char>) -> nat
    decreases s.len(),
{
    if s.len() > 0 && is_space(s[0]) {
        1 + leading_spaces(s.skip(1))
    } else {
        0
    }
}

/// The number of whitespace characters at the end of `s`.
pub open spec fn trailing_spaces(s: Seq<char>) -> nat
    decreases s.len(),
{
    if s.len() > 0 && is_space(s.last()) {
        1 + trailing_spaces(s.drop_last())
    } else {
        0
    }
}

/// `s` without its leading whitespace.
pub open spec fn trim_start(s: Seq<char>) -> Seq<char> {
    s.skip(leading_spaces(s) as int)
}

/// `s` without its trailing whitespace.
pub open spec fn trim_end(s: Seq<char>) -> Seq<char> {
    s.take(s.len() - trailing_spaces(s))
}

/// `s` without its leading and trailing whitespace.
pub open spec fn trim(s: Seq<char>) -> Seq<char> {
    trim_end(trim_start(s))
}

pub proof fn lemma_leading_spaces(s: Seq<char>, k: int)
    requires
        0 <= k <= s.len(),
        forall|j: int| 0 <= j < k ==> is_space(s[j]),
        k < s.len() ==> !is_space(s[k]),
    ensures
        leading_spaces(s) == k,
    decreases k,
{
    if k > 0 {
        let t = s.skip(1);
        assert forall|j: int| 0 <= j < k - 1 implies is_space(t[j]) by {
            assert(t[j] == s[j + 1]);
        }
        lemma_leading_spaces(t, k - 1);
    }
}

pub proof fn lemma_trailing_spaces(s: Seq<char>, k: int)
    requires
        0 <= k <= s.len(),
        forall|j: int| s.len() - k <= j < s.len() ==> is_space(s[j]),
        k < s.len() ==> !is_space(s[s.len() - k - 1]),
    ensures
        trailing_spaces(s) == k,
    decreases k,
{
    if k > 0 {
        let t = s.drop_last();
        assert forall|j: int| t.len() - (k - 1) <= j < t.len() implies is_space(t[j]) by {
            assert(t[j] == s[j]);
        }
        lemma_trailing_spaces(t, k - 1);
    }
}

/// Trimming removes characters and adds none.
pub proof fn lemma_trim_is_shorter(s: Seq<char>)
    ensures
        trim(s).len() <= s.len(),
        leading_spaces(s) + trailing_spaces(trim_start(s)) <= s.len(),
{
    lemma_leading_spaces_bound(s);
    lemma_trailing_spaces_bound(trim_start(s));
}

pub proof fn lemma_trailing_spaces_bound(s: Seq<char>)
    ensures
        trailing_spaces(s) <= s.len(),
    decreases s.len(),
{
    if s.len() > 0 && is_space(s.last()) {
        lemma_trailing_spaces_bound(s.drop_last());
    }
}

/// The bounds `(from, to)` of `s[lo..hi]` once its surrounding whitespace is removed.
pub fn trim_range(s: &Vec<char>, lo: usize, hi: usize) -> (r: (usize, usize))
    requires
        lo <= hi <= s.len(),
    ensures
        lo <= r.0 <= r.1 <= hi,
        s@.subrange(r.0 as int, r.1 as int) == trim(s@.subrange(lo as int, hi as int)),
{
    let ghost w = s@.subrange(lo as int, hi as int);
    let mut a: usize = lo;
    while a < hi && is_space_char(s[a])
        invariant
            lo <= a <= hi <= s.len(),
            forall|j: int| lo <= j < a ==> is_space(s@[j]),
        decreases hi - a,
    {
        a += 1;
    }
    proof {
        assert forall|j: int| 0 <= j < a - lo implies is_space(w[j]) by {
            assert(w[j] == s@[lo + j]);
        }
        lemma_leading_spaces(w, a - lo);
    }
    let ghost m = trim_start(w);
    assert(m == s@.subrange(a as int, hi as int));
    let mut b: usize = hi;
    while b > a && is_space_char(s[b - 1])
        invariant
            a <= b <= hi <= s.len(),
            forall|j: int| b <= j < hi ==> is_space(s@[j]),
        decreases b - a,
    {
        b -= 1;
    }
    proof {
        assert forall|j: int| m.len() - (hi - b) <= j < m.len() implies is_space(m[j]) by {
            assert(m[j] == s@[a + j]);
        }
        lemma_trailing_spaces(m, hi - b);
        assert(trim_end(m) == s@.subrange(a as int, b as int));
    }
    (a, b)
}

/// `s` without its leading and trailing whitespace.
pub fn trimmed(s: &Vec<char>) -> (r: Vec<char>)
    ensures
        r@ == trim(s@),
{
    let (a, b) = trim_range(s, 0, s.len());
    assert(s@.subrange(0, s.len() as int) == s@);
    slice_chars(s, a, b)
}

// ---------------------------------------------------------------------------
// Lists of texts
// ---------------------------------------------------------------------------

/// The texts held by a list of strings.
pub open spec fn texts(v: Seq<String>) -> Seq<Seq<char>> {
    Seq::new(v.len(), |i: int| v[i]@)
}

/// The texts held by a list of character vectors.
pub open spec fn rows(v: Seq<Vec<char>>) -> Seq<Seq<char>> {
    Seq::new(v.len(), |i: int| v[i]@)
}

/// The index of the first item at or after `from` that equals `target`; `items.len()` if
/// there is none.
pub open spec fn position_from(items: Seq<Seq<char>>, target: Seq<char>, from: int) -> int
    decreases items.len() - from,
{
    if from >= items.len() {
        items.len() as int
    } else if items[from] == target {
        from
    } else {
        position_from(items, target, from + 1)
    }
}

/// The index of the first item of `items` that equals `target`; `items.len()` if there is
/// none.
pub open spec fn position(items: Seq<Seq<char>>, target: Seq<char>) -> int {
    position_from(items, target, 0)
}

/// The index of the first string of `items` that holds the text `target`.
pub fn position_of(items: &Vec<String>, target: &str) -> (r: Option<usize>)
    ensures
        match r {
            Some(i) => i < items.len() && i == position(texts(items@), target@),
            None => position(texts(items@), target@) == items.len(),
        },
{
    let t = chars_of(target);
    let ghost all = texts(items@);
    let mut i: usize = 0;
    while i < items.len()
        invariant
            i <= items.len(),
            all == texts(items@),
            t@ == target@,
            position(all, target@) == position_from(all, target@, i as int),
        decreases items.len() - i,
    {
        let c = chars_of(items[i].as_str());
        assert(all[i as int] == items@[i as int]@);
        if same_chars(&c, &t) {
            return Some(i);
        }
        i += 1;
    }
    None
}

// ---------------------------------------------------------------------------
// Replacing and splitting
// ---------------------------------------------------------------------------

/// `s` with every occurrence of the character `c` replaced by the text `with`.
pub open spec fn replace_char(s: Seq<char>, c: char, with: Seq<char>) -> Seq<char>
    decreases s.len(),
{
    if s.len() == 0 {
        s
    } else if s.last() == c {
        replace_char(s.drop_last(), c, with) + with
    } else {
        replace_char(s.drop_last(), c, with).push(s.last())
    }
}

/// `s` with every occurrence of the character `c` replaced by the text `with`.
pub fn replaced(s: &Vec<char>, c: char, with: &Vec<char>) -> (r: Vec<char>)
    ensures
        r@ == replace_char(s@, c, with@),
{
    let mut r: Vec<char> = Vec::new();
    let mut i: usize = 0;
    assert(s@.take(0) == Seq::<char>::empty());
    while i < s.len()
        invariant
            i <= s.len(),
            r@ == replace_char(s@.take(i as int), c, with@),
        decreases s.len() - i,
    {
        proof {
            let p = s@.take(i + 1);
            assert(p.drop_last() == s@.take(i as int));
            assert(p.last() == s@[i as int]);
        }
        if s[i] == c {
            push_chars(&mut r, with);
        } else {
            r.push(s[i]);
        }
        i += 1;
    }
    assert(s@.take(s.len() as int) == s@);
    r
}

/// The number of characters of `s` before its first `c`; `s.len()` if it has none.
pub open spec fn index_of_char(s: Seq<char>, c: char) -> nat
    decreases s.len(),
{
    if s.len() == 0 || s[0] == c {
        0
    } else {
        1 + index_of_char(s.skip(1), c)
    }
}

/// The pieces of `s` between occurrences of the separator `c`. There is always at least
/// one piece; pieces may be empty.
pub open spec fn split_on(s: Seq<char>, c: char) -> Seq<Seq<char>>
    decreases s.len(),
{
    let k = index_of_char(s, c);
    if k >= s.len() {
        seq![s]
    } else {
        seq![s.take(k as int)] + split_on(s.skip(k as int + 1), c)
    }
}

pub proof fn lemma_index_of_char(s: Seq<char>, c: char, k: int)
    requires
        0 <= k <= s.len(),
        forall|j: int| 0 <= j < k ==> s[j] != c,
        k < s.len() ==> s[k] == c,
    ensures
        index_of_char(s, c) == k,
    decreases k,
{
    if k > 0 {
        let t = s.skip(1);
        assert forall|j: int| 0 <= j < k - 1 implies t[j] != c by {
            assert(t[j] == s[j + 1]);
        }
        lemma_index_of_char(t, c, k - 1);
    }
}

/// The pieces of `s` between occurrences of the separator `c`.
pub fn split_chars(s: &Vec<char>, c: char) -> (r: Vec<Vec<char>>)
    ensures
        rows(r@) == split_on(s@, c),
{
    let mut r: Vec<Vec<char>> = Vec::new();
    let mut start: usize = 0;
    assert(s@.skip(0) == s@);
    assert(rows(r@) == Seq::<Seq<char>>::empty());
    loop
        invariant_except_break
            start <= s.len(),
            split_on(s@, c) == rows(r@) + split_on(s@.skip(start as int), c),
        ensures
            rows(r@) == split_on(s@, c),
        decreases s.len() - start,
    {
        let end = find_char_from(s, c, start);
        let ghost rest = s@.skip(start as int);
        proof {
            assert forall|j: int| 0 <= j < end - start implies rest[j] != c by {
                assert(rest[j] == s@[start + j]);
            }
            lemma_index_of_char(rest, c, end - start);
        }
        let piece = slice_chars(s, start, end);
        let ghost before = rows(r@);
        r.push(piece);
        assert(rows(r@) == before.push(piece@));
        if end == s.len() {
            assert(piece@ == rest);
            break;
        }
        assert(piece@ == rest.take(end - start));
        assert(rest.skip(end - start + 1) == s@.skip(end + 1));
        assert(before + (seq![piece@] + split_on(s@.skip(end + 1), c)) == before.push(piece@)
            + split_on(s@.skip(end + 1), c));
        start = end + 1;
    }
    r
}

/// The number of non-whitespace characters at the start of `s`.
pub open spec fn leading_nonspaces(s: Seq<char>) -> nat
    decreases s.len(),
{
    if s.len() > 0 && !is_space(s[0]) {
        1 + leading_nonspaces(s.skip(1))
    } else {
        0
    }
}

pub proof fn lemma_leading_spaces_bound(s: Seq<char>)
    ensures
        leading_spaces(s) <= s.len(),
    decreases s.len(),
{
    if s.len() > 0 && is_space(s[0]) {
        lemma_leading_spaces_bound(s.skip(1));
    }
}

pub proof fn lemma_leading_nonspaces_bound(s: Seq<char>)
    ensures
        leading_nonspaces(s) <= s.len(),
        s.len() > 0 && !is_space(s[0]) ==> leading_nonspaces(s) >= 1,
    decreases s.len(),
{
    if s.len() > 0 && !is_space(s[0]) {
        lemma_leading_nonspaces_bound(s.skip(1));
    }
}

pub proof fn lemma_leading_nonspaces(s: Seq<char>, k: int)
    requires
        0 <= k <= s.len(),
        forall|j: int| 0 <= j < k ==> !is_space(s[j]),
        k < s.len() ==> is_space(s[k]),
    ensures
        leading_nonspaces(s) == k,
    decreases k,
{
    if k > 0 {
        let t = s.skip(1);
        assert forall|j: int| 0 <= j < k - 1 implies !is_space(t[j]) by {
            assert(t[j] == s[j + 1]);
        }
        lemma_leading_nonspaces(t, k - 1);
    }
}

/// The words of `s`: its maximal runs of non-whitespace characters, in order.
pub open spec fn words(s: Seq<char>) -> Seq<Seq<char>>
    decreases s.len(),
{
    if s.len() == 0 {
        Seq::empty()
    } else if is_space(s[0]) {
        words(s.skip(1))
    } else {
        let k = leading_nonspaces(s);
        proof {
            lemma_leading_nonspaces_bound(s);
        }
        seq![s.take(k as int)] + words(s.skip(k as int))
    }
}

pub proof fn lemma_words_skip_spaces(s: Seq<char>, k: int)
    requires
        0 <= k <= s.len(),
        forall|j: int| 0 <= j < k ==> is_space(s[j]),
    ensures
        words(s) == words(s.skip(k)),
    decreases k,
{
    if k > 0 {
        let t = s.skip(1);
        assert forall|j: int| 0 <= j < k - 1 implies is_space(t[j]) by {
            assert(t[j] == s[j + 1]);
        }
        lemma_words_skip_spaces(t, k - 1);
        assert(t.skip(k - 1) == s.skip(k));
    } else {
        assert(s.skip(0) == s);
    }
}

/// The words of `s`: its maximal runs of non-whitespace characters, in order.
pub fn split_words(s: &Vec<char>) -> (r: Vec<Vec<char>>)
    ensures
        rows(r@) == words(s@),
{
    let mut r: Vec<Vec<char>> = Vec::new();
    let mut i: usize = 0;
    assert(s@.skip(0) == s@);
    assert(rows(r@) == Seq::<Seq<char>>::empty());
    while i < s.len()
        invariant
            i <= s.len(),
            words(s@) == rows(r@) + words(s@.skip(i as int)),
        decreases s.len() - i,
    {
        let ghost rest = s@.skip(i as int);
        let mut a: usize = i;
        while a < s.len() && is_space_char(s[a])
            invariant
                i <= a <= s.len(),
                forall|j: int| i <= j < a ==> is_space(s@[j]),
            decreases s.len() - a,
        {
            a += 1;
        }
        proof {
            assert forall|j: int| 0 <= j < a - i implies is_space(rest[j]) by {
                assert(rest[j] == s@[i + j]);
            }
            lemma_words_skip_spaces(rest, a - i);
            assert(rest.skip(a - i) == s@.skip(a as int));
        }
        if a == s.len() {
            i = a;
        } else {
            let mut b: usize = a;
            while b < s.len() && !is_space_char(s[b])
                invariant
                    a <= b <= s.len(),
                    forall|j: int| a <= j < b ==> !is_space(s@[j]),
                decreases s.len() - b,
            {
                b += 1;
            }
            let ghost tail = s@.skip(a as int);
            proof {
                assert forall|j: int| 0 <= j < b - a implies !is_space(tail[j]) by {
                    assert(tail[j] == s@[a + j]);
                }
                assert(b < s.len() ==> tail[b - a] == s@[b as int]);
                lemma_leading_nonspaces(tail, b - a);
                assert(tail[0] == s@[a as int]);
                assert(tail.skip(b - a) == s@.skip(b as int));
                assert(tail.take(b - a) == s@.subrange(a as int, b as int));
            }
            let piece = slice_chars(s, a, b);
            let ghost before = rows(r@);
            r.push(piece);
            assert(rows(r@) == before.push(piece@));
            assert(before + (seq![piece@] + words(s@.skip(b as int))) == before.push(piece@)
                + words(s@.skip(b as int)));
            i = b;
        }
    }
    assert(s@.skip(s.len() as int).len() == 0);
    r
}

// ---------------------------------------------------------------------------
// Letter case
// ---------------------------------------------------------------------------

/// The text that `str::to_lowercase` returns for the text `s`.
pub uninterp spec fn lowercase_of(s: Seq<char>) -> Seq<char>;

/// The text that `str::to_uppercase` returns for the text `s`.
pub uninterp spec fn uppercase_of(s: Seq<char>) -> Seq<char>;

/// Calls `str::to_lowercase`, which maps the text to its lowercase equivalent by the
/// Unicode case mapping; the result depends on the text alone.
#[verifier::external_body]
pub(crate) fn to_lowercase(s: &str) -> (r: String)
    ensures
        r@ == lowercase_of(s@),
{
    s.to_lowercase()
}

/// Calls `str::to_uppercase`, which maps the text to its uppercase equivalent by the
/// Unicode case mapping; the result depends on the text alone.
#[verifier::external_body]
pub(crate) fn to_uppercase(s: &str) -> (r: String)
    ensures
        r@ == uppercase_of(s@),
{
    s.to_uppercase()
}

} // verus!
