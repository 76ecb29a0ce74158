//! Character sequences: whitespace, trimming, lines and substring search.
//!
//! Text is modelled as `Seq<char>`. The executable functions work on a
//! `Vec<char>`, which gives constant-time indexing, and convert from and to
//! strings at the edges.

use vstd::prelude::*;

verus! {

/// The characters that carry Unicode's `White_Space` property.
pub open spec fn is_space(c: char) -> bool {
    let n = c as u32;
    ||| 0x09 <= n <= 0x0D
    ||| n == 0x20
    ||| n == 0x85
    ||| n == 0xA0
    ||| n == 0x1680
    ||| 0x2000 <= n <= 0x200A
    ||| n == 0x2028
    ||| n == 0x2029
    ||| n == 0x202F
    ||| n == 0x205F
    ||| n == 0x3000
}

/// Whether `c` is a whitespace character.
pub fn is_whitespace(c: char) -> (r: bool)
    ensures
        r == is_space(c),
{
    let n: u32 = c as u32;
    (0x09 <= n && n <= 0x0D) || n == 0x20 || n == 0x85 || n == 0xA0 || n == 0x1680 || (0x2000 <= n
        && n <= 0x200A) || n == 0x2028 || n == 0x2029 || n == 0x202F || n == 0x205F || n == 0x3000
}

/// `s` without its leading whitespace.
pub open spec fn skip_leading(s: Seq<char>) -> Seq<char>
    decreases s.len(),
{
    if s.len() > 0 && is_space(s.first()) {
        skip_leading(s.drop_first())
    } else {
        s
    }
}

/// `s` without its trailing whitespace.
pub open spec fn skip_trailing(s: Seq<char>) -> Seq<char>
    decreases s.len(),
{
    if s.len() > 0 && is_space(s.last()) {
        skip_trailing(s.drop_last())
    } else {
        s
    }
}

/// `s` without the whitespace at either end.
pub open spec fn trim(s: Seq<char>) -> Seq<char> {
    skip_trailing(skip_leading(s))
}

/// Whether `s[a..b]` is `s` without the whitespace at either end: only
/// whitespace stands before and behind it, and it neither starts nor ends
/// with whitespace.
pub open spec fn is_trim_of(s: Seq<char>, a: int, b: int) -> bool {
    &&& 0 <= a <= b <= s.len()
    &&& forall|k: int| 0 <= k < a ==> is_space(s[k])
    &&& forall|k: int| b <= k < s.len() ==> is_space(s[k])
    &&& a < b ==> !is_space(s[a]) && !is_space(s[b - 1])
}

/// Where `s` without its leading whitespace starts.
proof fn lemma_skip_leading(s: Seq<char>) -> (a: int)
    ensures
        0 <= a <= s.len(),
        forall|k: int| 0 <= k < a ==> is_space(s[k]),
        a < s.len() ==> !is_space(s[a]),
        skip_leading(s) == s.subrange(a, s.len() as int),
    decreases s.len(),
{
    if s.len() > 0 && is_space(s.first()) {
        let t = s.drop_first();
        let a = lemma_skip_leading(t);
        assert forall|k: int| 0 <= k < a + 1 implies is_space(s[k]) by {
            if k > 0 {
                assert(s[k] == t[k - 1]);
            }
        }
        assert(t.subrange(a, t.len() as int) =~= s.subrange(a + 1, s.len() as int));
        a + 1
    } else {
        assert(s.subrange(0, s.len() as int) =~= s);
        0
    }
}

/// Where `s` without its trailing whitespace ends.
proof fn lemma_skip_trailing(s: Seq<char>) -> (b: int)
    ensures
        0 <= b <= s.len(),
        forall|k: int| b <= k < s.len() ==> is_space(s[k]),
        b > 0 ==> !is_space(s[b - 1]),
        skip_trailing(s) == s.subrange(0, b),
    decreases s.len(),
{
    if s.len() > 0 && is_space(s.last()) {
        let t = s.drop_last();
        let b = lemma_skip_trailing(t);
        assert forall|k: int| b <= k < s.len() implies is_space(s[k]) by {
            if k < s.len() - 1 {
                assert(s[k] == t[k]);
            }
        }
        assert(t.subrange(0, b) =~= s.subrange(0, b));
        b
    } else {
        assert(s.subrange(0, s.len() as int) =~= s);
        s.len() as int
    }
}

/// Trimming takes a piece out of `s`: the bounds of that piece.
pub proof fn lemma_trim(s: Seq<char>) -> (r: (int, int))
    ensures
        is_trim_of(s, r.0, r.1),
        trim(s) == s.subrange(r.0, r.1),
{
    let a = lemma_skip_leading(s);
    let t = s.subrange(a, s.len() as int);
    let b = lemma_skip_trailing(t);
    assert(t.subrange(0, b) =~= s.subrange(a, a + b));
    assert forall|k: int| a + b <= k < s.len() implies is_space(s[k]) by {
        assert(s[k] == t[k - a]);
    }
    if b > 0 {
        assert(t[b - 1] == s[a + b - 1]);
    }
    (a, a + b)
}

/// The characters of `s`.
pub fn to_chars(s: &str) -> (v: Vec<char>)
    ensures
        v@ == s@,
{
    let mut v: Vec<char> = Vec::new();
    let chars = s.chars();
    for c in it: chars
        invariant
            it.seq() == s@,
            v@ == it.seq().take(it.index()),
    {
        v.push(c);
    }
    v
}

/// `String::push`: the string afterwards is the string before with `c`
/// added at its end.
#[verifier::external_body]
fn push_char(s: &mut String, c: char)
    ensures
        final(s)@ == old(s)@.push(c),
{
    s.push(c)
}

/// The string made of `v[from..to]`.
pub fn to_text(v: &Vec<char>, from: usize, to: usize) -> (s: String)
    requires
        from <= to <= v.len(),
    ensures
        s@ == v@.subrange(from as int, to as int),
{
    let mut s = String::new();
    let mut i: usize = from;
    while i < to
        invariant
            from <= i <= to <= v.len(),
            s@ == v@.subrange(from as int, i as int),
        decreases to - i,
    {
        push_char(&mut s, v[i]);
        i += 1;
    }
    s
}

/// Adds `v[from..to]` at the end of `out`.
pub fn extend_range(out: &mut Vec<char>, v: &Vec<char>, from: usize, to: usize)
    requires
        from <= to <= v.len(),
    ensures
        final(out)@ == old(out)@ + v@.subrange(from as int, to as int),
{
    let mut i: usize = from;
    assert(out@ =~= old(out)@ + v@.subrange(from as int, from as int));
    while i < to
        invariant
            from <= i <= to <= v.len(),
            out@ == old(out)@ + v@.subrange(from as int, i as int),
        decreases to - i,
    {
        out.push(v[i]);
        i += 1;
        assert(out@ =~= old(out)@ + v@.subrange(from as int, i as int));
    }
}

/// Adds the characters of `s` at the end of `out`.
pub fn extend_str(out: &mut Vec<char>, s: &str)
    ensures
        final(out)@ == old(out)@ + s@,
{
    let chars = s.chars();
    assert(out@ =~= old(out)@ + s@.take(0));
    for c in it: chars
        invariant
            it.seq() == s@,
            out@ == old(out)@ + it.seq().take(it.index()),
    {
        out.push(c);
        assert(out@ =~= old(out)@ + it.seq().take(it.index() + 1));
    }
    assert(s@.take(s@.len() as int) =~= s@);
}

/// The bounds of `v[from..to]` without the whitespace at either end.
pub fn trim_bounds(v: &Vec<char>, from: usize, to: usize) -> (r: (usize, usize))
    requires
        from <= to <= v.len(),
    ensures
        from <= r.0 <= r.1 <= to,
        v@.subrange(r.0 as int, r.1 as int) == trim(v@.subrange(from as int, to as int)),
{
    let mut a: usize = from;
    while a < to && is_whitespace(v[a])
        invariant
            from <= a <= to <= v.len(),
            skip_leading(v@.subrange(from as int, to as int)) == skip_leading(
                v@.subrange(a as int, to as int),
            ),
        decreases to - a,
    {
        assert(v@.subrange(a as int, to as int).drop_first() == v@.subrange(a + 1, to as int));
        a += 1;
    }
    let mut b: usize = to;
    while b > a && is_whitespace(v[b - 1])
        invariant
            a <= b <= to <= v.len(),
            skip_trailing(v@.subrange(a as int, to as int)) == skip_trailing(
                v@.subrange(a as int, b as int),
            ),
        decreases b - a,
    {
        assert(v@.subrange(a as int, b as int).drop_last() == v@.subrange(a as int, b - 1));
        b -= 1;
    }
    (a, b)
}

/// Whether `needle` occurs in `hay` at index `i`.
pub open spec fn occurs_at(hay: Seq<char>, needle: Seq<char>, i: int) -> bool {
    &&& 0 <= i
    &&& i + needle.len() <= hay.len()
    &&& hay.subrange(i, i + needle.len()) == needle
}

/// Whether `needle` occurs in `hay` at all.
pub open spec fn occurs(hay: Seq<char>, needle: Seq<char>) -> bool {
    exists|i: int| occurs_at(hay, needle, i)
}

/// Whether `i` is the least index at which `needle` occurs in `hay`.
pub open spec fn is_first_occurrence(hay: Seq<char>, needle: Seq<char>, i: int) -> bool {
    &&& occurs_at(hay, needle, i)
    &&& forall|j: int| 0 <= j < i ==> !occurs_at(hay, needle, j)
}

/// The least index at which `needle` occurs in `hay`, if it occurs at all.
pub open spec fn first_occurrence(hay: Seq<char>, needle: Seq<char>) -> Option<int> {
    if occurs(hay, needle) {
        Some(choose|i: int| is_first_occurrence(hay, needle, i))
    } else {
        None
    }
}

/// A least index of occurrence is the first occurrence.
pub proof fn lemma_first_occurrence_unique(hay: Seq<char>, needle: Seq<char>, i: int)
    requires
        is_first_occurrence(hay, needle, i),
    ensures
        first_occurrence(hay, needle) == Some(i),
{
    let k = choose|k: int| is_first_occurrence(hay, needle, k);
    assert(occurs_at(hay, needle, i));
    assert(occurs_at(hay, needle, k));
}

/// Where `needle` occurs, it has a least index of occurrence.
proof fn lemma_least_occurrence(hay: Seq<char>, needle: Seq<char>, i: int)
    requires
        occurs_at(hay, needle, i),
    ensures
        exists|k: int| is_first_occurrence(hay, needle, k),
    decreases i,
{
    if exists|j: int| 0 <= j < i && occurs_at(hay, needle, j) {
        let j = choose|j: int| 0 <= j < i && occurs_at(hay, needle, j);
        lemma_least_occurrence(hay, needle, j);
    } else {
        assert(is_first_occurrence(hay, needle, i));
    }
}

/// The first occurrence is an occurrence, and none comes before it.
pub proof fn lemma_first_occurrence(hay: Seq<char>, needle: Seq<char>)
    ensures
        first_occurrence(hay, needle) matches Some(i) ==> is_first_occurrence(hay, needle, i),
        first_occurrence(hay, needle) is None ==> forall|j: int| !occurs_at(hay, needle, j),
{
    if occurs(hay, needle) {
        let i = choose|i: int| occurs_at(hay, needle, i);
        lemma_least_occurrence(hay, needle, i);
    }
}

/// Whether, in `n`, the character `c` is never the last one and never
/// stands before `next`.
pub open spec fn never_before(n: Seq<char>, c: char, next: char) -> bool {
    forall|j: int| 0 <= j < n.len() && #[trigger] n[j] == c ==> j + 1 < n.len() && n[j + 1] != next
}

/// Whether, in `n`, the character `c` is never the first one and never
/// stands behind `prev`.
pub open spec fn never_behind(n: Seq<char>, c: char, prev: char) -> bool {
    forall|j: int| 0 <= j < n.len() && #[trigger] n[j] == c ==> j >= 1 && n[j - 1] != prev
}

/// Whether `s` holds the character `c` nowhere.
pub open spec fn lacks(s: Seq<char>, c: char) -> bool {
    forall|k: int| 0 <= k < s.len() ==> s[k] != c
}

/// A text that holds nowhere the first character of `n` does not hold `n`.
pub proof fn lemma_no_occurrence_without_first(s: Seq<char>, n: Seq<char>)
    requires
        n.len() > 0,
        lacks(s, n[0]),
    ensures
        !occurs(s, n),
{
    if occurs(s, n) {
        let i = choose|i: int| occurs_at(s, n, i);
        assert(s.subrange(i, i + n.len())[0] == n[0]);
    }
}

/// What does not occur in a text does not occur at its start.
pub proof fn lemma_no_occurrence_in_prefix(s: Seq<char>, k: int, n: Seq<char>)
    requires
        0 <= k <= s.len(),
        !occurs(s, n),
    ensures
        !occurs(s.take(k), n),
{
    if occurs(s.take(k), n) {
        let i = choose|i: int| occurs_at(s.take(k), n, i);
        assert(s.subrange(i, i + n.len()) =~= s.take(k).subrange(i, i + n.len()));
        assert(occurs_at(s, n, i));
    }
}

/// Two texts that do not hold `n` make one that does not hold it, where the
/// second begins in a way in which no part of `n` behind its first
/// character goes on.
pub proof fn lemma_no_occurrence_across_start(a: Seq<char>, b: Seq<char>, n: Seq<char>)
    requires
        !occurs(a, n),
        !occurs(b, n),
        b.len() >= 2,
        never_before(n, b[0], b[1]),
    ensures
        !occurs(a + b, n),
{
    let t = a + b;
    if occurs(t, n) {
        let i = choose|i: int| occurs_at(t, n, i);
        let w = t.subrange(i, i + n.len());
        if i + n.len() <= a.len() {
            assert(a.subrange(i, i + n.len()) =~= w);
            assert(occurs_at(a, n, i));
        } else if i >= a.len() {
            assert(b.subrange(i - a.len(), i - a.len() + n.len()) =~= w);
            assert(occurs_at(b, n, i - a.len()));
        } else {
            let j = a.len() - i;
            assert(w[j] == b[0]);
            assert(n[j] == b[0]);
            assert(w[j + 1] == b[1]);
        }
    }
}

/// Two texts that do not hold `n` make one that does not hold it, where the
/// first ends in a way that no part of `n` before its last character leads
/// up to.
pub proof fn lemma_no_occurrence_across_end(a: Seq<char>, b: Seq<char>, n: Seq<char>)
    requires
        !occurs(a, n),
        !occurs(b, n),
        a.len() >= 2,
        never_behind(n, a[a.len() - 1], a[a.len() - 2]),
    ensures
        !occurs(a + b, n),
{
    let t = a + b;
    if occurs(t, n) {
        let i = choose|i: int| occurs_at(t, n, i);
        let w = t.subrange(i, i + n.len());
        if i + n.len() <= a.len() {
            assert(a.subrange(i, i + n.len()) =~= w);
            assert(occurs_at(a, n, i));
        } else if i >= a.len() {
            assert(b.subrange(i - a.len(), i - a.len() + n.len()) =~= w);
            assert(occurs_at(b, n, i - a.len()));
        } else {
            let j = a.len() - 1 - i;
            assert(w[j] == a[a.len() - 1]);
            assert(n[j] == a[a.len() - 1]);
            assert(w[j - 1] == a[a.len() - 2]);
        }
    }
}

/// Whether `needle` occurs in `hay` at index `i`.
fn occurs_here(hay: &Vec<char>, needle: &Vec<char>, i: usize) -> (r: bool)
    requires
        i + needle.len() <= hay.len(),
    ensures
        r == occurs_at(hay@, needle@, i as int),
{
    let m = needle.len();
    let mut k: usize = 0;
    while k < m
        invariant
            m == needle.len(),
            i + m <= hay.len(),
            k <= m,
            forall|t: int| 0 <= t < k ==> hay[i + t] == needle[t],
        decreases m - k,
    {
        if hay[i + k] != needle[k] {
            assert(hay@.subrange(i as int, i + m)[k as int] != needle@[k as int]);
            return false;
        }
        k += 1;
    }
    assert(hay@.subrange(i as int, i + m) =~= needle@);
    true
}

/// The index of the first occurrence of `needle` in `hay`.
pub fn find(hay: &Vec<char>, needle: &Vec<char>) -> (r: Option<usize>)
    ensures
        r matches Some(i) ==> first_occurrence(hay@, needle@) == Some(i as int)
            && is_first_occurrence(hay@, needle@, i as int),
        r is None ==> first_occurrence(hay@, needle@) is None && !occurs(hay@, needle@),
{
    let n = hay.len();
    let m = needle.len();
    if m > n {
        return None;
    }
    if m == 0 {
        assert(hay@.subrange(0, 0) =~= needle@);
        proof {
            lemma_first_occurrence_unique(hay@, needle@, 0);
        }
        return Some(0);
    }
    let mut i: usize = 0;
    while i <= n - m
        invariant
            n == hay.len(),
            m == needle.len(),
            0 < m <= n,
            i <= n - m + 1,
            forall|j: int| 0 <= j < i ==> !occurs_at(hay@, needle@, j),
        decreases n - m + 1 - i,
    {
        if occurs_here(hay, needle, i) {
            proof {
                lemma_first_occurrence_unique(hay@, needle@, i as int);
            }
            return Some(i);
        }
        i += 1;
    }
    None
}

/// The number of characters of `s` before its first `stop`, or the length
/// of `s` where it holds none.
pub open spec fn span_until(s: Seq<char>, stop: char) -> nat
    decreases s.len(),
{
    if s.len() == 0 || s.first() == stop {
        0
    } else {
        1 + span_until(s.drop_first(), stop)
    }
}

/// `span_until` is the index of the first `stop`.
pub proof fn lemma_span_until(s: Seq<char>, stop: char, k: int)
    requires
        0 <= k <= s.len(),
        forall|i: int| 0 <= i < k ==> s[i] != stop,
        k == s.len() || s[k] == stop,
    ensures
        span_until(s, stop) == k,
    decreases k,
{
    if k > 0 {
        let t = s.drop_first();
        assert forall|i: int| 0 <= i < k - 1 implies t[i] != stop by {
            assert(t[i] == s[i + 1]);
        }
        lemma_span_until(t, stop, k - 1);
    }
}

/// The index of the first `stop` in `v[from..to]`, or `to` where there is
/// none.
pub fn scan_until(v: &Vec<char>, from: usize, to: usize, stop: char) -> (k: usize)
    requires
        from <= to <= v.len(),
    ensures
        from <= k <= to,
        k - from == span_until(v@.subrange(from as int, to as int), stop),
        k < to ==> v[k as int] == stop,
{
    let mut k: usize = from;
    while k < to && v[k] != stop
        invariant
            from <= k <= to <= v.len(),
            forall|i: int| from <= i < k ==> v[i] != stop,
        decreases to - k,
    {
        k += 1;
    }
    proof {
        lemma_span_until(v@.subrange(from as int, to as int), stop, k - from);
    }
    k
}

/// The lines of `s`: the pieces that its line feeds separate.
pub open spec fn lines(s: Seq<char>) -> Seq<Seq<char>>
    decreases s.len(),
{
    let n = span_until(s, '\n');
    if n < s.len() {
        seq![s.take(n as int)] + lines(s.skip(n as int + 1))
    } else {
        seq![s]
    }
}

/// The pieces `ls` with `sep` between each two neighbours.
pub open spec fn join(ls: Seq<Seq<char>>, sep: char) -> Seq<char>
    decreases ls.len(),
{
    if ls.len() == 0 {
        Seq::empty()
    } else if ls.len() == 1 {
        ls[0]
    } else {
        ls[0] + seq![sep] + join(ls.drop_first(), sep)
    }
}

/// `span_until` stops at the first `stop`, and not before.
pub proof fn lemma_span_until_stops(s: Seq<char>, stop: char)
    ensures
        span_until(s, stop) <= s.len(),
        forall|k: int| 0 <= k < span_until(s, stop) ==> s[k] != stop,
        span_until(s, stop) < s.len() ==> s[span_until(s, stop) as int] == stop,
    decreases s.len(),
{
    if s.len() > 0 && s.first() != stop {
        let t = s.drop_first();
        lemma_span_until_stops(t, stop);
        assert forall|k: int| 0 <= k < span_until(s, stop) implies s[k] != stop by {
            if k > 0 {
                assert(s[k] == t[k - 1]);
            }
        }
    }
}

/// The lines of a text hold no line feed, and with a line feed between each
/// two of them they make up the text again.
pub proof fn lemma_lines(s: Seq<char>)
    ensures
        lines(s).len() > 0,
        forall|i: int, k: int|
            0 <= i < lines(s).len() && 0 <= k < lines(s)[i].len() ==> #[trigger] lines(s)[i][k]
                != '\n',
        join(lines(s), '\n') == s,
    decreases s.len(),
{
    let n = span_until(s, '\n') as int;
    lemma_span_until_stops(s, '\n');
    if n < s.len() {
        let rest = s.skip(n + 1);
        let ls = lines(s);
        lemma_lines(rest);
        assert(ls.drop_first() =~= lines(rest));
        assert(s.take(n) + seq!['\n'] + rest =~= s);
        assert forall|i: int, k: int| 0 <= i < ls.len() && 0 <= k < ls[i].len() implies #[trigger] ls[i][k]
            != '\n' by {
            if i > 0 {
                assert(ls[i] == lines(rest)[i - 1]);
            }
        }
    }
}

/// The bounds of each line of `v`, in order.
pub fn split_lines(v: &Vec<char>) -> (r: Vec<(usize, usize)>)
    ensures
        r@.len() == lines(v@).len(),
        forall|i: int|
            0 <= i < r@.len() ==> {
                &&& (#[trigger] r@[i]).0 <= r@[i].1 <= v.len()
                &&& v@.subrange(r@[i].0 as int, r@[i].1 as int) == lines(v@)[i]
            },
{
    let n = v.len();
    let mut r: Vec<(usize, usize)> = Vec::new();
    let mut start: usize = 0;
    let ghost mut done: Seq<Seq<char>> = Seq::empty();
    assert(v@.skip(0) =~= v@);
    loop
        invariant_except_break
            lines(v@) == done + lines(v@.skip(start as int)),
        invariant
            n == v.len(),
            start <= n,
            done.len() == r@.len(),
            forall|i: int|
                0 <= i < r@.len() ==> {
                    &&& (#[trigger] r@[i]).0 <= r@[i].1 <= v.len()
                    &&& v@.subrange(r@[i].0 as int, r@[i].1 as int) == done[i]
                },
        ensures
            r@.len() == lines(v@).len(),
            forall|i: int|
                0 <= i < r@.len() ==> {
                    &&& (#[trigger] r@[i]).0 <= r@[i].1 <= v.len()
                    &&& v@.subrange(r@[i].0 as int, r@[i].1 as int) == lines(v@)[i]
                },
        decreases n - start,
    {
        let end = scan_until(v, start, n, '\n');
        let ghost rest = v@.skip(start as int);
        assert(rest =~= v@.subrange(start as int, n as int));
        r.push((start, end));
        if end < n {
            proof {
                assert(rest.take(end - start) =~= v@.subrange(start as int, end as int));
                assert(rest.skip(end - start + 1) =~= v@.skip(end + 1));
                assert(done + (seq![rest.take(end - start)] + lines(rest.skip(end - start + 1)))
                    =~= done.push(rest.take(end - start)) + lines(v@.skip(end + 1)));
                done = done.push(rest.take(end - start));
            }
            start = end + 1;
        } else {
            proof {
                assert(done + seq![rest] =~= done.push(rest));
                done = done.push(rest);
                assert(lines(v@) == done);
            }
            break;
        }
    }
    r
}

} // verus!
