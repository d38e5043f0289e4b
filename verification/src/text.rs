//! Text as sequences of characters: trimming, searching, replacing, joining.

use vstd::prelude::*;

verus! {

/// `String::push`: the character is added behind the others.
pub assume_specification[ String::push ](s: &mut String, c: char)
    ensures
        final(s)@ == old(s)@.push(c),
;

// ---------------------------------------------------------------------------
// Characters
// ---------------------------------------------------------------------------

/// The characters of Unicode's `White_Space` property.
pub open spec fn is_white(c: char) -> bool {
    let n = c as u32;
    ||| 0x09 <= n <= 0x0d
    ||| n == 0x20
    ||| n == 0x85
    ||| n == 0xa0
    ||| n == 0x1680
    ||| 0x2000 <= n <= 0x200a
    ||| n == 0x2028
    ||| n == 0x2029
    ||| n == 0x202f
    ||| n == 0x205f
    ||| n == 0x3000
}

/// Whether `c` is white space.
pub fn white(c: char) -> (r: bool)
    ensures
        r == is_white(c),
{
    let n: u32 = c as u32;
    (0x09 <= n && n <= 0x0d) || n == 0x20 || n == 0x85 || n == 0xa0 || n == 0x1680 || (0x2000 <= n
        && n <= 0x200a) || n == 0x2028 || n == 0x2029 || n == 0x202f || n == 0x205f || n == 0x3000
}

/// `c` with an ASCII capital turned into the small letter.
pub open spec fn ascii_lower(c: char) -> char {
    if 'A' <= c <= 'Z' {
        (c as u32 + 32) as char
    } else {
        c
    }
}

/// `c` with a small ASCII letter turned into the capital.
pub open spec fn ascii_upper(c: char) -> char {
    if 'a' <= c <= 'z' {
        (c as u32 - 32) as char
    } else {
        c
    }
}

/// Every character lies in the ASCII range.
pub open spec fn all_ascii(s: Seq<char>) -> bool {
    forall|i: int| 0 <= i < s.len() ==> (#[trigger] s[i] as u32) < 128
}

// ---------------------------------------------------------------------------
// Conversions
// ---------------------------------------------------------------------------

/// The characters of `s`.
pub fn chars_of(s: &str) -> (r: Vec<char>)
    ensures
        r@ == s@,
{
    let mut r: Vec<char> = Vec::new();
    for c in it: s.chars()
        invariant
            it.seq() == s@,
            r@ == s@.take(it.index() as int),
    {
        r.push(c);
        assert(s@.take(it.index() + 1) == s@.take(it.index() as int).push(c));
    }
    assert(s@.take(s@.len() as int) == s@);
    r
}

/// The characters of `v` from `from` up to, not including, `to`.
pub fn string_of(v: &Vec<char>, from: usize, to: usize) -> (r: String)
    requires
        from <= to <= v@.len(),
    ensures
        r@ == v@.subrange(from as int, to as int),
{
    let mut r = String::new();
    let mut i: usize = from;
    while i < to
        invariant
            from <= i <= to <= v@.len(),
            r@ == v@.subrange(from as int, i as int),
        decreases to - i,
    {
        r.push(v[i]);
        assert(v@.subrange(from as int, i + 1) == v@.subrange(from as int, i as int).push(
            v@[i as int],
        ));
        i = i + 1;
    }
    r
}

/// Whether the two texts are the same.
pub fn same(a: &str, b: &str) -> (r: bool)
    ensures
        r == (a@ == b@),
{
    a.to_owned() == b.to_owned()
}

// ---------------------------------------------------------------------------
// Trimming
// ---------------------------------------------------------------------------

/// `s` without the white space at its start.
pub open spec fn trim_start(s: Seq<char>) -> Seq<char>
    decreases s.len(),
{
    if s.len() > 0 && is_white(s[0]) {
        trim_start(s.drop_first())
    } else {
        s
    }
}

/// `s` without the white space at its end.
pub open spec fn trim_end(s: Seq<char>) -> Seq<char>
    decreases s.len(),
{
    if s.len() > 0 && is_white(s.last()) {
        trim_end(s.drop_last())
    } else {
        s
    }
}

/// `s` without the white space at both ends.
pub open spec fn trimmed(s: Seq<char>) -> Seq<char> {
    trim_end(trim_start(s))
}

/// `s` without the white space at both ends.
pub fn trim(s: &str) -> (r: String)
    ensures
        r@ == trimmed(s@),
{
    let v = chars_of(s);
    let n: usize = v.len();
    let mut from: usize = 0;
    assert(s@.subrange(0, n as int) == s@);
    while from < n && white(v[from])
        invariant
            from <= n == v@.len(),
            v@ == s@,
            trim_start(s@) == trim_start(s@.subrange(from as int, n as int)),
        decreases n - from,
    {
        assert(s@.subrange(from as int, n as int).drop_first() == s@.subrange(from + 1, n as int));
        from = from + 1;
    }
    let ghost t = s@.subrange(from as int, n as int);
    assert(trim_start(s@) == t);
    let mut to: usize = n;
    while from < to && white(v[to - 1])
        invariant
            from <= to <= n == v@.len(),
            v@ == s@,
            trim_end(t) == trim_end(s@.subrange(from as int, to as int)),
        decreases to - from,
    {
        assert(s@.subrange(from as int, to as int).drop_last() == s@.subrange(
            from as int,
            to - 1,
        ));
        to = to - 1;
    }
    string_of(&v, from, to)
}

/// Text whose first and last characters are not white is already trimmed.
pub proof fn lemma_trimmed_solid(s: Seq<char>)
    requires
        s.len() > 0,
        !is_white(s[0]),
        !is_white(s.last()),
    ensures
        trimmed(s) == s,
{
}

/// White space behind solid text is trimmed away.
pub proof fn lemma_trim_white_suffix(s: Seq<char>, w: Seq<char>)
    requires
        s.len() > 0,
        !is_white(s[0]),
        forall|i: int| 0 <= i < w.len() ==> is_white(#[trigger] w[i]),
    ensures
        trimmed(s + w) == trim_end(s),
    decreases w.len(),
{
    if w.len() == 0 {
        assert(s + w == s);
    } else {
        assert((s + w).drop_last() == s + w.drop_last());
        assert((s + w).last() == w.last());
        lemma_trim_white_suffix(s, w.drop_last());
    }
}

/// Trimming the end leaves solid text, or nothing.
pub proof fn lemma_trim_end_solid(s: Seq<char>)
    ensures
        trim_end(s).len() <= s.len(),
        trim_end(s) == s.take(trim_end(s).len() as int),
        trim_end(s).len() > 0 ==> !is_white(trim_end(s).last()),
        forall|i: int|
            trim_end(s).len() <= i < s.len() ==> is_white(#[trigger] s[i]),
    decreases s.len(),
{
    if s.len() > 0 && is_white(s.last()) {
        lemma_trim_end_solid(s.drop_last());
        let k = trim_end(s).len() as int;
        assert(s.drop_last().take(k) == s.take(k));
        assert forall|i: int| k <= i < s.len() implies is_white(#[trigger] s[i]) by {
            if i < s.len() - 1 {
                assert(s.drop_last()[i] == s[i]);
            }
        }
    } else {
        assert(s.take(s.len() as int) == s);
    }
}

/// Trimming the start leaves solid text, or nothing.
pub proof fn lemma_trim_start_solid(s: Seq<char>)
    ensures
        trim_start(s).len() <= s.len(),
        trim_start(s) == s.skip(s.len() - trim_start(s).len()),
        trim_start(s).len() > 0 ==> !is_white(trim_start(s)[0]),
    decreases s.len(),
{
    if s.len() > 0 && is_white(s[0]) {
        lemma_trim_start_solid(s.drop_first());
        let k = trim_start(s).len() as int;
        assert(s.drop_first().skip(s.len() - 1 - k) == s.skip(s.len() - k));
    } else {
        assert(s.skip(0) == s);
    }
}

/// Trimmed text is empty or starts and ends with a solid character.
pub proof fn lemma_trimmed_ends(s: Seq<char>)
    ensures
        trimmed(s).len() > 0 ==> !is_white(trimmed(s)[0]) && !is_white(trimmed(s).last()),
{
    lemma_trim_start_solid(s);
    lemma_trim_end_solid(trim_start(s));
}

/// Trimming twice is trimming once.
pub proof fn lemma_trimmed_twice(s: Seq<char>)
    ensures
        trimmed(trimmed(s)) == trimmed(s),
{
    lemma_trimmed_ends(s);
    if trimmed(s).len() > 0 {
        lemma_trimmed_solid(trimmed(s));
    }
}

/// A white character at the end does not count.
pub proof fn lemma_trimmed_drop_last(s: Seq<char>)
    requires
        s.len() > 0,
        is_white(s.last()),
    ensures
        trimmed(s) == trimmed(s.drop_last()),
    decreases s.len(),
{
    if is_white(s[0]) && s.len() > 1 {
        lemma_trimmed_drop_last(s.drop_first());
        assert(s.drop_first().drop_last() == s.drop_last().drop_first());
    } else if is_white(s[0]) {
        assert(s.drop_first() == s.drop_last());
    }
}

/// White space at the end does not count.
pub proof fn lemma_trimmed_of_trim_end(s: Seq<char>)
    ensures
        trimmed(trim_end(s)) == trimmed(s),
    decreases s.len(),
{
    if s.len() > 0 && is_white(s.last()) {
        lemma_trimmed_drop_last(s);
        lemma_trimmed_of_trim_end(s.drop_last());
    }
}

/// The end of a joined text is the end of its second part, unless that is all
/// white.
pub proof fn lemma_trim_end_join(a: Seq<char>, b: Seq<char>)
    requires
        trim_end(b).len() > 0,
    ensures
        trim_end(a + b) == a + trim_end(b),
    decreases b.len(),
{
    assert((a + b).last() == b.last());
    if is_white(b.last()) {
        assert((a + b).drop_last() == a + b.drop_last());
        lemma_trim_end_join(a, b.drop_last());
    }
}

/// Text that is empty once its end is trimmed is empty once trimmed.
pub proof fn lemma_trimmed_not_empty(s: Seq<char>)
    requires
        trimmed(s).len() > 0,
    ensures
        trim_end(s).len() > 0,
{
    lemma_trimmed_of_trim_end(s);
}

// ---------------------------------------------------------------------------
// Searching
// ---------------------------------------------------------------------------

/// `p` stands in `s` at position `i`.
pub open spec fn occurs_at(s: Seq<char>, p: Seq<char>, i: int) -> bool {
    0 <= i && i + p.len() <= s.len() && s.subrange(i, i + p.len()) == p
}

/// `s` begins with `p`.
pub open spec fn has_prefix(s: Seq<char>, p: Seq<char>) -> bool {
    occurs_at(s, p, 0)
}

/// `p` stands somewhere in `s`.
pub open spec fn has_part(s: Seq<char>, p: Seq<char>) -> bool {
    exists|i: int| occurs_at(s, p, i)
}

/// The first position, from `i` on, at which `p` stands in `s`.
pub open spec fn position_from(s: Seq<char>, p: Seq<char>, i: int) -> Option<int>
    decreases s.len() + 1 - i,
{
    if i < 0 || i + p.len() > s.len() {
        None
    } else if occurs_at(s, p, i) {
        Some(i)
    } else {
        position_from(s, p, i + 1)
    }
}

/// The first position at which `p` stands in `s`.
pub open spec fn position(s: Seq<char>, p: Seq<char>) -> Option<int> {
    position_from(s, p, 0)
}

/// `position_from` gives the first occurrence, and none where there is none.
pub proof fn lemma_position_from(s: Seq<char>, p: Seq<char>, i: int)
    requires
        0 <= i,
    ensures
        match position_from(s, p, i) {
            Some(k) => i <= k && occurs_at(s, p, k) && forall|j: int|
                i <= j < k ==> !#[trigger] occurs_at(s, p, j),
            None => forall|j: int| i <= j ==> !#[trigger] occurs_at(s, p, j),
        },
    decreases s.len() + 1 - i,
{
    if i + p.len() > s.len() {
    } else if occurs_at(s, p, i) {
    } else {
        lemma_position_from(s, p, i + 1);
    }
}

fn occurs(v: &Vec<char>, p: &Vec<char>, i: usize) -> (r: bool)
    requires
        i + p@.len() <= v@.len(),
    ensures
        r == occurs_at(v@, p@, i as int),
{
    let n: usize = v.len();
    let mut k: usize = 0;
    while k < p.len()
        invariant
            n == v@.len(),
            i + p@.len() <= v@.len(),
            k <= p@.len(),
            forall|j: int| 0 <= j < k ==> v@[i + j] == #[trigger] p@[j],
        decreases p@.len() - k,
    {
        if v[i + k] != p[k] {
            assert(v@.subrange(i as int, i + p@.len())[k as int] != p@[k as int]);
            return false;
        }
        k = k + 1;
    }
    assert(v@.subrange(i as int, i + p@.len()) == p@);
    true
}

fn first_from(v: &Vec<char>, p: &Vec<char>, from: usize) -> (r: Option<usize>)
    requires
        from <= v@.len(),
    ensures
        match r {
            Some(k) => position_from(v@, p@, from as int) == Some(k as int) && k + p@.len()
                <= v@.len() && from <= k,
            None => position_from(v@, p@, from as int) is None,
        },
{
    let n: usize = v.len();
    let m: usize = p.len();
    let mut i: usize = from;
    while i <= n && m <= n - i
        invariant
            from <= i <= n + 1,
            n == v@.len(),
            m == p@.len(),
            position_from(v@, p@, from as int) == position_from(v@, p@, i as int),
        decreases n + 1 - i,
    {
        if occurs(v, p, i) {
            return Some(i);
        }
        assert(position_from(v@, p@, i as int) == position_from(v@, p@, i + 1));
        if i == n {
            assert(position_from(v@, p@, n + 1) is None);
            return None;
        }
        i = i + 1;
    }
    None
}

/// Whether `s` begins with `p`.
pub fn starts_with(s: &str, p: &str) -> (r: bool)
    ensures
        r == has_prefix(s@, p@),
{
    let v = chars_of(s);
    let q = chars_of(p);
    q.len() <= v.len() && occurs(&v, &q, 0)
}

/// Whether `p` stands somewhere in `s`.
pub fn contains(s: &str, p: &str) -> (r: bool)
    ensures
        r == has_part(s@, p@),
{
    proof {
        lemma_position_from(s@, p@, 0);
    }
    let v = chars_of(s);
    let q = chars_of(p);
    first_from(&v, &q, 0).is_some()
}

/// What stands in `s` behind the first occurrence of `p`.
pub open spec fn after_first(s: Seq<char>, p: Seq<char>) -> Option<Seq<char>> {
    match position(s, p) {
        Some(k) => Some(s.skip(k + p.len())),
        None => None,
    }
}

/// What stands in `s` behind the first occurrence of `p`.
pub fn text_after(s: &str, p: &str) -> (r: Option<String>)
    ensures
        match r {
            Some(t) => after_first(s@, p@) == Some(t@),
            None => after_first(s@, p@) is None,
        },
{
    let v = chars_of(s);
    let q = chars_of(p);
    let n: usize = v.len();
    match first_from(&v, &q, 0) {
        Some(k) => {
            let t = string_of(&v, k + q.len(), n);
            assert(t@ == s@.skip(k + q@.len()));
            Some(t)
        },
        None => None,
    }
}

/// What stands in `s` before and behind the first occurrence of `p`.
pub fn split_first(s: &str, p: &str) -> (r: Option<(String, String)>)
    ensures
        match r {
            Some((a, b)) => position(s@, p@) matches Some(k) && a@ == s@.take(k) && b@ == s@.skip(
                k + p@.len(),
            ),
            None => position(s@, p@) is None,
        },
{
    let v = chars_of(s);
    let q = chars_of(p);
    let n: usize = v.len();
    match first_from(&v, &q, 0) {
        Some(k) => {
            let a = string_of(&v, 0, k);
            let b = string_of(&v, k + q.len(), n);
            assert(a@ == s@.take(k as int));
            assert(b@ == s@.skip(k + q@.len()));
            Some((a, b))
        },
        None => None,
    }
}

/// What stands in `s` behind the prefix `p`.
pub fn strip_prefix(s: &str, p: &str) -> (r: Option<String>)
    ensures
        match r {
            Some(t) => has_prefix(s@, p@) && t@ == s@.skip(p@.len() as int),
            None => !has_prefix(s@, p@),
        },
{
    let v = chars_of(s);
    let q = chars_of(p);
    if q.len() <= v.len() && occurs(&v, &q, 0) {
        let t = string_of(&v, q.len(), v.len());
        assert(t@ == s@.skip(q@.len() as int));
        Some(t)
    } else {
        None
    }
}

// ---------------------------------------------------------------------------
// Replacing
// ---------------------------------------------------------------------------

/// `s` with every occurrence of `p`, taken from left to right without
/// overlap, replaced by `q`.
pub open spec fn replaced(s: Seq<char>, p: Seq<char>, q: Seq<char>) -> Seq<char>
    decreases s.len(),
    when p.len() > 0
    via replaced_shrinks
{
    match position(s, p) {
        Some(k) => s.take(k) + q + replaced(s.skip(k + p.len()), p, q),
        None => s,
    }
}

#[via_fn]
proof fn replaced_shrinks(s: Seq<char>, p: Seq<char>, q: Seq<char>) {
    lemma_position_from(s, p, 0);
}

/// `s` with every occurrence of `p`, taken from left to right without
/// overlap, replaced by `q`.
pub fn replace(s: &str, p: &str, q: &str) -> (r: String)
    requires
        p@.len() > 0,
    ensures
        r@ == replaced(s@, p@, q@),
{
    let v = chars_of(s);
    let w = chars_of(p);
    let mut r = String::new();
    let mut i: usize = 0;
    assert(s@.skip(0) == s@);
    while i < v.len()
        invariant
            v@ == s@,
            w@ == p@,
            p@.len() > 0,
            i <= v@.len(),
            replaced(s@, p@, q@) == r@ + replaced(s@.skip(i as int), p@, q@),
        decreases v@.len() - i,
    {
        let ghost rest = s@.skip(i as int);
        proof {
            lemma_position_shift(s@, p@, i as int, i as int);
        }
        match first_from(&v, &w, i) {
            Some(k) => {
                let head = string_of(&v, i, k);
                assert(head@ == rest.take(k - i));
                assert(rest.skip(k - i + p@.len()) == s@.skip(k + p@.len()));
                r.append(head.as_str());
                r.append(q);
                i = k + w.len();
            },
            None => {
                let tail = string_of(&v, i, v.len());
                assert(tail@ == rest);
                r.append(tail.as_str());
                return r;
            },
        }
    }
    proof {
        lemma_position_from(s@.skip(i as int), p@, 0);
        assert(replaced(s@.skip(i as int), p@, q@) == Seq::<char>::empty());
    }
    r
}

/// Searching a suffix of `s` is searching `s` from further on.
proof fn lemma_position_shift(s: Seq<char>, p: Seq<char>, from: int, i: int)
    requires
        0 <= from <= i,
        from <= s.len(),
    ensures
        position_from(s.skip(from), p, i - from) == match position_from(s, p, i) {
            Some(k) => Some(k - from),
            None => None,
        },
    decreases s.len() + 1 - i,
{
    let t = s.skip(from);
    if i + p.len() <= s.len() {
        assert(t.subrange(i - from, i - from + p.len()) == s.subrange(i, i + p.len()));
        assert(occurs_at(t, p, i - from) == occurs_at(s, p, i));
        if !occurs_at(s, p, i) {
            lemma_position_shift(s, p, from, i + 1);
        }
    }
}

/// `w` does not begin inside `q`, and `q` does not begin inside `w`.
pub open spec fn apart(w: Seq<char>, q: Seq<char>) -> bool {
    &&& w.len() > 0
    &&& q.len() > 0
    &&& !q.contains(w[0])
    &&& !w.contains(q[0])
}

/// A text without the first character of `w` does not hold `w`.
pub proof fn lemma_no_part(s: Seq<char>, w: Seq<char>)
    requires
        w.len() > 0,
        !s.contains(w[0]),
    ensures
        !has_part(s, w),
{
    if has_part(s, w) {
        let i = choose|i: int| occurs_at(s, w, i);
        assert(s.subrange(i, i + w.len())[0] == s[i]);
    }
}

/// Around a text that `w` keeps apart from, `w` stands wholly before it or
/// wholly behind it.
pub proof fn lemma_occurs_around(
    a: Seq<char>,
    q: Seq<char>,
    b: Seq<char>,
    w: Seq<char>,
    i: int,
)
    requires
        apart(w, q),
        occurs_at(a + q + b, w, i),
    ensures
        occurs_at(a, w, i) || (a.len() + q.len() <= i && occurs_at(b, w, i - a.len() - q.len())),
{
    let t = a + q + b;
    let o = t.subrange(i, i + w.len());
    assert(o[0] == t[i]);
    if a.len() <= i && i < a.len() + q.len() {
        assert(q[i - a.len()] == w[0]);
    } else if i < a.len() {
        if i + w.len() > a.len() {
            assert(t[a.len() as int] == q[0]);
            assert(o[a.len() - i] == q[0]);
            assert(w[a.len() - i] == q[0]);
        }
        assert(a.subrange(i, i + w.len()) == o);
    } else {
        let j = i - a.len() - q.len();
        assert(b.subrange(j, j + w.len()) == o);
    }
}

/// Without `p` in it, there is nothing to replace.
pub proof fn lemma_replaced_none(s: Seq<char>, p: Seq<char>, q: Seq<char>)
    requires
        p.len() > 0,
        !has_part(s, p),
    ensures
        replaced(s, p, q) == s,
{
    lemma_position_from(s, p, 0);
}

/// Replacing by a text that `p` keeps apart from leaves no `p`.
pub proof fn lemma_replaced_gone(s: Seq<char>, p: Seq<char>, q: Seq<char>)
    requires
        apart(p, q),
    ensures
        !has_part(replaced(s, p, q), p),
    decreases s.len(),
{
    lemma_position_from(s, p, 0);
    if let Some(k) = position(s, p) {
        let a = s.take(k);
        let b = replaced(s.skip(k + p.len()), p, q);
        lemma_replaced_gone(s.skip(k + p.len()), p, q);
        assert forall|i: int| !occurs_at(a + q + b, p, i) by {
            if occurs_at(a + q + b, p, i) {
                lemma_occurs_around(a, q, b, p, i);
                assert(a.subrange(i, i + p.len()) == s.subrange(i, i + p.len()));
                assert(!occurs_at(s, p, i));
            }
        }
    }
}

/// Replacing by a text that `w` keeps apart from brings no new `w` about.
pub proof fn lemma_replaced_part(s: Seq<char>, p: Seq<char>, q: Seq<char>, w: Seq<char>)
    requires
        p.len() > 0,
        apart(w, q),
    ensures
        has_part(replaced(s, p, q), w) ==> has_part(s, w),
        has_prefix(replaced(s, p, q), w) ==> has_prefix(s, w),
    decreases s.len(),
{
    lemma_position_from(s, p, 0);
    if let Some(k) = position(s, p) {
        let a = s.take(k);
        let rest = s.skip(k + p.len());
        let b = replaced(rest, p, q);
        lemma_replaced_part(rest, p, q, w);
        assert forall|i: int| occurs_at(a + q + b, w, i) implies has_part(s, w) && (i == 0
            ==> has_prefix(s, w)) by {
            lemma_occurs_around(a, q, b, w, i);
            if occurs_at(a, w, i) {
                assert(a.subrange(i, i + w.len()) == s.subrange(i, i + w.len()));
                assert(occurs_at(s, w, i));
            } else {
                assert(has_part(b, w));
                let j = choose|j: int| occurs_at(rest, w, j);
                let n = k + p.len() + j;
                assert(rest.subrange(j, j + w.len()) == s.subrange(n, n + w.len()));
                assert(occurs_at(s, w, n));
            }
        }
    }
}

// ---------------------------------------------------------------------------
// ASCII case
// ---------------------------------------------------------------------------

/// The texts differ at most in the case of ASCII letters.
pub open spec fn same_ignoring_case(a: Seq<char>, b: Seq<char>) -> bool {
    a.len() == b.len() && forall|i: int|
        0 <= i < a.len() ==> ascii_lower(#[trigger] a[i]) == ascii_lower(b[i])
}

fn lower(c: char) -> (r: u32)
    ensures
        r == ascii_lower(c) as u32,
{
    let n: u32 = c as u32;
    if 0x41 <= n && n <= 0x5a {
        n + 32
    } else {
        n
    }
}

/// Whether the texts differ at most in the case of ASCII letters.
pub fn eq_ignore_ascii_case(a: &str, b: &str) -> (r: bool)
    ensures
        r == same_ignoring_case(a@, b@),
{
    let v = chars_of(a);
    let w = chars_of(b);
    if v.len() != w.len() {
        return false;
    }
    let mut i: usize = 0;
    while i < v.len()
        invariant
            v@ == a@,
            w@ == b@,
            v@.len() == w@.len(),
            i <= v@.len(),
            forall|j: int| 0 <= j < i ==> ascii_lower(#[trigger] a@[j]) == ascii_lower(b@[j]),
        decreases v@.len() - i,
    {
        if lower(v[i]) != lower(w[i]) {
            assert(ascii_lower(a@[i as int]) != ascii_lower(b@[i as int]));
            return false;
        }
        i = i + 1;
    }
    true
}

/// The text, where there is one.
pub open spec fn text_of(s: Option<String>) -> Option<Seq<char>> {
    match s {
        Some(t) => Some(t@),
        None => None,
    }
}

// ---------------------------------------------------------------------------
// Joining
// ---------------------------------------------------------------------------

/// The two texts one behind the other.
pub fn join2(a: &str, b: &str) -> (r: String)
    ensures
        r@ == a@ + b@,
{
    let mut r = a.to_owned();
    r.append(b);
    r
}

/// The three texts one behind the other.
pub fn join3(a: &str, b: &str, c: &str) -> (r: String)
    ensures
        r@ == a@ + b@ + c@,
{
    let mut r = join2(a, b);
    r.append(c);
    r
}

/// `s` without its last character.
pub fn without_last(s: &str) -> (r: String)
    ensures
        r@ == (if s@.len() > 0 {
            s@.drop_last()
        } else {
            s@
        }),
{
    let v = chars_of(s);
    if v.len() == 0 {
        return String::new();
    }
    string_of(&v, 0, v.len() - 1)
}

// ---------------------------------------------------------------------------
// Laws
// ---------------------------------------------------------------------------

/// Trimming takes white space from both ends of a text and nothing else, until
/// there is none at either end.
pub proof fn law_trimmed_is_the_middle(s: Seq<char>)
    ensures
        exists|a: int, b: int|
            {
                &&& 0 <= a <= b <= s.len()
                &&& trimmed(s) == #[trigger] s.subrange(a, b)
                &&& forall|i: int| 0 <= i < a || b <= i < s.len() ==> is_white(#[trigger] s[i])
                &&& a < b ==> !is_white(s[a]) && !is_white(s[b - 1])
            },
        trimmed(s).len() == 0 <==> forall|i: int| 0 <= i < s.len() ==> is_white(#[trigger] s[i]),
{
    lemma_trim_start_cut(s);
    let a = choose|a: int|
        {
            &&& 0 <= a <= s.len()
            &&& trim_start(s) == #[trigger] s.skip(a)
            &&& forall|i: int| 0 <= i < a ==> is_white(#[trigger] s[i])
            &&& a < s.len() ==> !is_white(s[a])
        };
    let t = s.skip(a);
    lemma_trim_end_cut(t);
    let n = choose|n: int|
        {
            &&& 0 <= n <= t.len()
            &&& trim_end(t) == #[trigger] t.take(n)
            &&& forall|i: int| n <= i < t.len() ==> is_white(#[trigger] t[i])
            &&& n > 0 ==> !is_white(t[n - 1])
        };
    let b = a + n;
    assert(t.take(n) =~= s.subrange(a, b));
    assert forall|i: int| 0 <= i < a || b <= i < s.len() implies is_white(#[trigger] s[i]) by {
        if b <= i {
            assert(t[i - a] == s[i]);
        }
    }
    if n > 0 {
        assert(s[b - 1] == t[n - 1]);
        assert(!is_white(s[a])) by {
            assert(a < s.len());
        }
    }
    assert(trimmed(s) == s.subrange(a, b));
    if trimmed(s).len() > 0 {
        assert(!is_white(s[a]));
    }
}

proof fn lemma_trim_start_cut(s: Seq<char>)
    ensures
        exists|a: int|
            {
                &&& 0 <= a <= s.len()
                &&& trim_start(s) == #[trigger] s.skip(a)
                &&& forall|i: int| 0 <= i < a ==> is_white(#[trigger] s[i])
                &&& a < s.len() ==> !is_white(s[a])
            },
    decreases s.len(),
{
    if s.len() > 0 && is_white(s[0]) {
        let t = s.drop_first();
        lemma_trim_start_cut(t);
        let a = choose|a: int|
            {
                &&& 0 <= a <= t.len()
                &&& trim_start(t) == #[trigger] t.skip(a)
                &&& forall|i: int| 0 <= i < a ==> is_white(#[trigger] t[i])
                &&& a < t.len() ==> !is_white(t[a])
            };
        assert(t.skip(a) =~= s.skip(a + 1));
        assert forall|i: int| 0 <= i < a + 1 implies is_white(#[trigger] s[i]) by {
            if i > 0 {
                assert(t[i - 1] == s[i]);
            }
        }
    } else {
        assert(s.skip(0) =~= s);
    }
}

proof fn lemma_trim_end_cut(s: Seq<char>)
    ensures
        exists|n: int|
            {
                &&& 0 <= n <= s.len()
                &&& trim_end(s) == #[trigger] s.take(n)
                &&& forall|i: int| n <= i < s.len() ==> is_white(#[trigger] s[i])
                &&& n > 0 ==> !is_white(s[n - 1])
            },
    decreases s.len(),
{
    if s.len() > 0 && is_white(s.last()) {
        let t = s.drop_last();
        lemma_trim_end_cut(t);
        let n = choose|n: int|
            {
                &&& 0 <= n <= t.len()
                &&& trim_end(t) == #[trigger] t.take(n)
                &&& forall|i: int| n <= i < t.len() ==> is_white(#[trigger] t[i])
                &&& n > 0 ==> !is_white(t[n - 1])
            };
        assert(t.take(n) =~= s.take(n));
        assert forall|i: int| n <= i < s.len() implies is_white(#[trigger] s[i]) by {
            if i < t.len() {
                assert(t[i] == s[i]);
            }
        }
    } else {
        assert(s.take(s.len() as int) =~= s);
    }
}

/// Of the ASCII characters, the space, the tabs, the line ends and the form feed
/// are white, and no other.
pub proof fn law_white_in_ascii(c: char)
    requires
        (c as u32) < 128,
    ensures
        is_white(c) <==> c == ' ' || c == '\t' || c == '\n' || c == '\r' || c as u32 == 11 || c as u32
            == 12,
{
}

/// Where a text stands in another one, letter by letter.
pub proof fn law_where_a_part_stands(s: Seq<char>, p: Seq<char>)
    ensures
        has_prefix(s, p) <==> p.is_prefix_of(s),
        has_part(s, p) <==> exists|a: Seq<char>, b: Seq<char>| s == #[trigger] (a + p + b),
        match position(s, p) {
            Some(k) => s == s.take(k) + p + s.skip(k + p.len()) && forall|a: Seq<char>, b: Seq<char>|
                s == #[trigger] (a + p + b) ==> a.len() >= k,
            None => !has_part(s, p),
        },
{
    lemma_position_from(s, p, 0);
    if has_part(s, p) {
        let i = choose|i: int| occurs_at(s, p, i);
        assert(s =~= s.take(i) + p + s.skip(i + p.len()));
    }
    assert forall|a: Seq<char>, b: Seq<char>| s == #[trigger] (a + p + b) implies occurs_at(
        s,
        p,
        a.len() as int,
    ) by {
        let i = a.len() as int;
        assert(s.subrange(i, i + p.len()) =~= p);
    }
    if let Some(k) = position(s, p) {
        assert(s =~= s.take(k) + p + s.skip(k + p.len()));
    }
}

/// Replacing goes from left to right: what stands before the first occurrence
/// stays, and behind it goes on.
pub proof fn law_replacing_goes_on(s: Seq<char>, p: Seq<char>, q: Seq<char>, k: int)
    requires
        p.len() > 0,
        occurs_at(s, p, k),
        forall|j: int| 0 <= j < k ==> !#[trigger] occurs_at(s, p, j),
    ensures
        replaced(s, p, q) == s.take(k) + q + replaced(s.skip(k + p.len()), p, q),
{
    lemma_position_from(s, p, 0);
}

/// What is known of an optional string by its text is what stands in it.
pub proof fn law_optional_texts(s: String)
    ensures
        text_of(Some(s)) == Some(s@),
        text_of(None) is None,
{
}

/// Texts are the same, the case aside, exactly if each letter is, in its place,
/// or the two are a capital and its small letter.
pub proof fn law_same_but_for_the_case(a: Seq<char>, b: Seq<char>)
    ensures
        same_ignoring_case(a, b) <==> a.len() == b.len() && forall|i: int|
            0 <= i < a.len() ==> #[trigger] a[i] == b[i] || 'A' <= a[i] <= 'Z' && b[i] as u32
                == a[i] as u32 + 32 || 'A' <= b[i] <= 'Z' && a[i] as u32 == b[i] as u32 + 32,
{
}

/// What stands behind the first occurrence of a text is all of it.
pub proof fn law_text_behind_a_part(a: Seq<char>, p: Seq<char>, b: Seq<char>)
    ensures
        position(a + p + b, p) == Some(a.len() as int) ==> after_first(a + p + b, p) == Some(b),
        after_first(a, p) is None <==> !has_part(a, p),
{
    lemma_position_from(a, p, 0);
    assert((a + p + b).skip(a.len() as int + p.len()) =~= b);
}

} // verus!
