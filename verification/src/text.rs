//! Text at the level of characters: splitting into lines, trimming white
//! space, finding characters and substrings, and building strings from
//! ranges of characters.
use vstd::prelude::*;

verus! {

/// `String::push` appends the given character to the end of the string.
pub assume_specification[ String::push ](s: &mut String, ch: char)
    ensures
        final(s)@ == old(s)@.push(ch),
;

/// The characters of `s`, in order.
pub fn chars_of(s: &str) -> (r: Vec<char>)
    ensures
        r@ == s@,
{
    let mut r: Vec<char> = Vec::new();
    for c in it: s.chars()
        invariant
            r@ == it.seq().take(it.index() as int),
            it.seq() == s@,
    {
        r.push(c);
    }
    r
}

/// A string holding the characters `v[lo..hi]`.
pub fn string_of(v: &Vec<char>, lo: usize, hi: usize) -> (r: String)
    requires
        lo <= hi <= v.len(),
    ensures
        r@ == v@.subrange(lo as int, hi as int),
{
    let mut r = String::new();
    let mut i = lo;
    while i < hi
        invariant
            lo <= i <= hi <= v.len(),
            r@ == v@.subrange(lo as int, i as int),
        decreases hi - i,
    {
        r.push(v[i]);
        assert(v@.subrange(lo as int, i + 1) =~= v@.subrange(lo as int, i as int).push(v@[i as int]));
        i = i + 1;
    }
    r
}

/// Whether two strings hold the same characters.
pub fn str_eq(a: &str, b: &str) -> (r: bool)
    ensures
        r == (a@ == b@),
{
    let x = chars_of(a);
    let y = chars_of(b);
    if x.len() != y.len() {
        return false;
    }
    let mut i: usize = 0;
    while i < x.len()
        invariant
            x@ == a@,
            y@ == b@,
            x.len() == y.len(),
            i <= x.len(),
            forall|j: int| 0 <= j < i ==> x@[j] == y@[j],
        decreases x.len() - i,
    {
        if x[i] != y[i] {
            return false;
        }
        i = i + 1;
    }
    assert(x@ =~= y@);
    true
}

/// Whether `c` has the Unicode White_Space property (what `char::is_whitespace`
/// tests).
pub open spec fn is_white(c: char) -> bool {
    let u = c as u32;
    ||| (9 <= u <= 13)
    ||| u == 32
    ||| u == 0x85
    ||| u == 0xa0
    ||| u == 0x1680
    ||| (0x2000 <= u <= 0x200a)
    ||| u == 0x2028
    ||| u == 0x2029
    ||| u == 0x202f
    ||| u == 0x205f
    ||| u == 0x3000
}

/// Whether `c` is Unicode white space.
pub fn is_white_char(c: char) -> (r: bool)
    ensures
        r == is_white(c),
{
    let u = c as u32;
    (9 <= u && u <= 13) || u == 32 || u == 0x85 || u == 0xa0 || u == 0x1680 || (0x2000 <= u && u
        <= 0x200a) || u == 0x2028 || u == 0x2029 || u == 0x202f || u == 0x205f || u == 0x3000
}

/// `s` without its leading white space.
pub open spec fn trim_start(s: Seq<char>) -> Seq<char>
    decreases s.len(),
{
    if s.len() > 0 && is_white(s[0]) {
        trim_start(s.drop_first())
    } else {
        s
    }
}

/// `s` without its trailing white space.
pub open spec fn trim_end(s: Seq<char>) -> Seq<char>
    decreases s.len(),
{
    if s.len() > 0 && is_white(s.last()) {
        trim_end(s.drop_last())
    } else {
        s
    }
}

/// `s` without leading and trailing white space.
pub open spec fn trim(s: Seq<char>) -> Seq<char> {
    trim_end(trim_start(s))
}

/// The index of the first `c` in `s`, or `s.len()` when there is none.
pub open spec fn find_char(s: Seq<char>, c: char) -> int
    decreases s.len(),
{
    if s.len() == 0 {
        0
    } else if s[0] == c {
        0
    } else {
        1 + find_char(s.drop_first(), c)
    }
}

/// A line of text without its `\r\n` ending: the `\r` goes only when a
/// `\n` followed it.
pub open spec fn strip_cr(line: Seq<char>) -> Seq<char> {
    if line.len() > 0 && line.last() == '\r' {
        line.drop_last()
    } else {
        line
    }
}

/// The lines of `s`, split at `\n` and at `\r\n`, as `str::lines` gives
/// them: a final line ending adds no empty line, and a final `\r` without a
/// `\n` stays.
pub open spec fn lines(s: Seq<char>) -> Seq<Seq<char>>
    decreases s.len(),
{
    if s.len() == 0 {
        Seq::empty()
    } else {
        let i = find_char(s, '\n');
        proof {
            lemma_find_char_bounds(s, '\n');
        }
        if i >= s.len() {
            seq![s]
        } else {
            seq![strip_cr(s.take(i))] + lines(s.skip(i + 1))
        }
    }
}

/// `find_char` is at most the length, and points at `c` when it is less.
pub proof fn lemma_find_char_bounds(s: Seq<char>, c: char)
    ensures
        0 <= find_char(s, c) <= s.len(),
        find_char(s, c) < s.len() ==> s[find_char(s, c)] == c,
        forall|k: int| 0 <= k < find_char(s, c) ==> s[k] != c,
    decreases s.len(),
{
    if s.len() > 0 && s[0] != c {
        lemma_find_char_bounds(s.drop_first(), c);
        assert forall|k: int| 0 <= k < find_char(s, c) implies s[k] != c by {
            if k > 0 {
                assert(s[k] == s.drop_first()[k - 1]);
            }
        }
    }
}

/// The first index holding `c` (or the length, when none does) is
/// `find_char`.
pub proof fn lemma_find_char_is(s: Seq<char>, c: char, j: int)
    requires
        0 <= j <= s.len(),
        j < s.len() ==> s[j] == c,
        forall|k: int| 0 <= k < j ==> s[k] != c,
    ensures
        find_char(s, c) == j,
    decreases s.len(),
{
    if s.len() > 0 && j > 0 {
        assert(s[0] != c);
        assert forall|k: int| 0 <= k < j - 1 implies s.drop_first()[k] != c by {
            assert(s.drop_first()[k] == s[k + 1]);
        }
        lemma_find_char_is(s.drop_first(), c, j - 1);
    }
}

/// Where leading white space ends.
pub proof fn lemma_trim_start_is(s: Seq<char>, i: int)
    requires
        0 <= i <= s.len(),
        forall|k: int| 0 <= k < i ==> is_white(s[k]),
        i < s.len() ==> !is_white(s[i]),
    ensures
        trim_start(s) == s.skip(i),
    decreases i,
{
    if i > 0 {
        assert forall|k: int| 0 <= k < i - 1 implies is_white(s.drop_first()[k]) by {
            assert(s.drop_first()[k] == s[k + 1]);
        }
        if i < s.len() {
            assert(s.drop_first()[i - 1] == s[i]);
        }
        lemma_trim_start_is(s.drop_first(), i - 1);
        assert(s.drop_first().skip(i - 1) =~= s.skip(i));
    } else {
        assert(s.skip(0) =~= s);
    }
}

/// Where trailing white space starts.
pub proof fn lemma_trim_end_is(s: Seq<char>, j: int)
    requires
        0 <= j <= s.len(),
        forall|k: int| j <= k < s.len() ==> is_white(s[k]),
        j > 0 ==> !is_white(s[j - 1]),
    ensures
        trim_end(s) == s.take(j),
    decreases s.len() - j,
{
    if j < s.len() {
        assert forall|k: int| j <= k < s.len() - 1 implies is_white(s.drop_last()[k]) by {
            assert(s.drop_last()[k] == s[k]);
        }
        if j > 0 {
            assert(s.drop_last()[j - 1] == s[j - 1]);
        }
        lemma_trim_end_is(s.drop_last(), j);
        assert(s.drop_last().take(j) =~= s.take(j));
    } else {
        assert(s.take(j) =~= s);
    }
}

/// The bounds of `v[lo..hi]` with white space cut from both ends.
pub fn trim_bounds(v: &Vec<char>, lo: usize, hi: usize) -> (r: (usize, usize))
    requires
        lo <= hi <= v.len(),
    ensures
        lo <= r.0 <= r.1 <= hi,
        v@.subrange(r.0 as int, r.1 as int) == trim(v@.subrange(lo as int, hi as int)),
{
    let ghost s = v@.subrange(lo as int, hi as int);
    let mut i = lo;
    while i < hi && is_white_char(v[i])
        invariant
            lo <= i <= hi <= v.len(),
            forall|k: int| lo <= k < i ==> is_white(v@[k]),
        decreases hi - i,
    {
        i = i + 1;
    }
    proof {
        assert forall|k: int| 0 <= k < i - lo implies is_white(s[k]) by {
            assert(s[k] == v@[lo + k]);
        }
        if i < hi {
            assert(s[i - lo] == v@[i as int]);
        }
        lemma_trim_start_is(s, i - lo);
    }
    let ghost t = s.skip(i - lo);
    let mut j = hi;
    while j > i && is_white_char(v[j - 1])
        invariant
            lo <= i <= j <= hi <= v.len(),
            forall|k: int| j <= k < hi ==> is_white(v@[k]),
        decreases j - i,
    {
        j = j - 1;
    }
    proof {
        assert(t =~= v@.subrange(i as int, hi as int));
        assert forall|k: int| j - i <= k < t.len() implies is_white(t[k]) by {
            assert(t[k] == v@[i + k]);
        }
        if j > i {
            assert(t[j - i - 1] == v@[j - 1]);
        }
        lemma_trim_end_is(t, j - i);
        assert(t.take(j - i) =~= v@.subrange(i as int, j as int));
    }
    (i, j)
}

/// `s` with white space cut from both ends.
pub fn trim_string(s: &str) -> (r: String)
    ensures
        r@ == trim(s@),
{
    let v = chars_of(s);
    let (a, b) = trim_bounds(&v, 0, v.len());
    proof {
        assert(v@.subrange(0, v@.len() as int) =~= v@);
    }
    string_of(&v, a, b)
}

/// The index of the first `c` in `v[lo..hi]`, counted from `lo`, or
/// `hi - lo` when there is none.
pub fn find_char_in(v: &Vec<char>, lo: usize, hi: usize, c: char) -> (r: usize)
    requires
        lo <= hi <= v.len(),
    ensures
        r == find_char(v@.subrange(lo as int, hi as int), c),
        r <= hi - lo,
{
    let ghost s = v@.subrange(lo as int, hi as int);
    let mut i = lo;
    while i < hi && v[i] != c
        invariant
            lo <= i <= hi <= v.len(),
            forall|k: int| lo <= k < i ==> v@[k] != c,
        decreases hi - i,
    {
        i = i + 1;
    }
    proof {
        assert forall|k: int| 0 <= k < i - lo implies s[k] != c by {
            assert(s[k] == v@[lo + k]);
        }
        if i < hi {
            assert(s[i - lo] == v@[i as int]);
        }
        lemma_find_char_is(s, c, i - lo);
    }
    i - lo
}

/// The lines of `s`, as [`lines`] describes them.
pub fn split_lines(s: &str) -> (r: Vec<String>)
    ensures
        r@.len() == lines(s@).len(),
        forall|i: int| 0 <= i < r@.len() ==> #[trigger] r@[i]@ == lines(s@)[i],
{
    let v = chars_of(s);
    let n = v.len();
    let mut r: Vec<String> = Vec::new();
    let mut pos: usize = 0;
    proof {
        assert(v@.subrange(0, n as int) =~= v@);
    }
    while pos < n
        invariant
            v@ == s@,
            n == v@.len(),
            pos <= n,
            r@.len() + lines(v@.subrange(pos as int, n as int)).len() == lines(s@).len(),
            forall|i: int| 0 <= i < r@.len() ==> #[trigger] r@[i]@ == lines(s@)[i],
            forall|i: int|
                0 <= i < lines(v@.subrange(pos as int, n as int)).len() ==> lines(
                    v@.subrange(pos as int, n as int),
                )[i] == lines(s@)[r@.len() + i],
        decreases n - pos,
    {
        let ghost rest = v@.subrange(pos as int, n as int);
        let j = find_char_in(&v, pos, n, '\n');
        proof {
            lemma_find_char_bounds(rest, '\n');
        }
        if j == n - pos {
            let line = string_of(&v, pos, n);
            proof {
                assert(lines(rest) == seq![rest]);
                assert(lines(rest)[0] == lines(s@)[r@.len() as int]);
            }
            r.push(line);
            pos = n;
            proof {
                assert(lines(v@.subrange(pos as int, n as int)) =~= Seq::<Seq<char>>::empty());
            }
        } else {
            let end = pos + j;
            let mut stop = end;
            if stop > pos && v[stop - 1] == '\r' {
                stop = stop - 1;
            }
            let line = string_of(&v, pos, stop);
            proof {
                let t = rest.take(j as int);
                assert(v@.subrange(pos as int, end as int) =~= t);
                if end > pos && v@[end - 1] == '\r' {
                    assert(t.last() == v@[end - 1]);
                    assert(v@.subrange(pos as int, stop as int) =~= t.drop_last());
                } else {
                    if t.len() > 0 {
                        assert(t.last() == v@[end - 1]);
                    }
                }
                assert(line@ == strip_cr(t));
                assert(rest.skip(j + 1) =~= v@.subrange(end + 1, n as int));
                assert(lines(rest) == seq![strip_cr(t)] + lines(rest.skip(j + 1)));
                assert(lines(rest)[0] == lines(s@)[r@.len() as int]);
            }
            let ghost old_len = r@.len();
            r.push(line);
            pos = end + 1;
            proof {
                let next = v@.subrange(pos as int, n as int);
                assert(next =~= rest.skip(j + 1));
                assert forall|i: int| 0 <= i < lines(next).len() implies lines(next)[i] == lines(
                    s@,
                )[r@.len() + i] by {
                    assert(lines(next)[i] == lines(rest)[i + 1]);
                }
            }
        }
    }
    proof {
        assert(v@.subrange(n as int, n as int) =~= Seq::<char>::empty());
    }
    r
}

/// Appends `v[lo..hi]` to `out`.
pub fn push_range(out: &mut String, v: &Vec<char>, lo: usize, hi: usize)
    requires
        lo <= hi <= v.len(),
    ensures
        final(out)@ == old(out)@ + v@.subrange(lo as int, hi as int),
{
    let ghost start = out@;
    let mut i = lo;
    while i < hi
        invariant
            lo <= i <= hi <= v.len(),
            out@ == start + v@.subrange(lo as int, i as int),
        decreases hi - i,
    {
        out.push(v[i]);
        assert(v@.subrange(lo as int, i + 1) =~= v@.subrange(lo as int, i as int).push(v@[i as int]));
        i = i + 1;
    }
}

/// Whether `v[lo..hi]` holds exactly the characters of `w`.
pub fn range_eq(v: &Vec<char>, lo: usize, hi: usize, w: &Vec<char>) -> (r: bool)
    requires
        lo <= hi <= v.len(),
    ensures
        r == (v@.subrange(lo as int, hi as int) == w@),
{
    if hi - lo != w.len() {
        return false;
    }
    let mut i: usize = 0;
    while i < w.len()
        invariant
            lo <= hi <= v.len(),
            hi - lo == w.len(),
            i <= w.len(),
            forall|k: int| 0 <= k < i ==> v@[lo + k] == w@[k],
        decreases w.len() - i,
    {
        if v[lo + i] != w[i] {
            assert(v@.subrange(lo as int, hi as int)[i as int] == v@[lo + i]);
            return false;
        }
        i = i + 1;
    }
    assert(v@.subrange(lo as int, hi as int) =~= w@);
    true
}

/// Where `v[lo..hi]` stops being white space: `v[r..hi]` is
/// `trim_start(v[lo..hi])`.
pub fn trim_start_index(v: &Vec<char>, lo: usize, hi: usize) -> (r: usize)
    requires
        lo <= hi <= v.len(),
    ensures
        lo <= r <= hi,
        v@.subrange(r as int, hi as int) == trim_start(v@.subrange(lo as int, hi as int)),
{
    let ghost s = v@.subrange(lo as int, hi as int);
    let mut i = lo;
    while i < hi && is_white_char(v[i])
        invariant
            lo <= i <= hi <= v.len(),
            forall|k: int| lo <= k < i ==> is_white(v@[k]),
        decreases hi - i,
    {
        i = i + 1;
    }
    proof {
        assert forall|k: int| 0 <= k < i - lo implies is_white(s[k]) by {
            assert(s[k] == v@[lo + k]);
        }
        if i < hi {
            assert(s[i - lo] == v@[i as int]);
        }
        lemma_trim_start_is(s, i - lo);
        assert(s.skip(i - lo) =~= v@.subrange(i as int, hi as int));
    }
    i
}

/// The index of the first occurrence of `pat` in `s`, or `s.len()` when
/// there is none.
pub open spec fn find_sub(s: Seq<char>, pat: Seq<char>) -> int
    decreases s.len(),
{
    if pat.len() <= s.len() && s.take(pat.len() as int) == pat {
        0
    } else if s.len() == 0 || s.len() < pat.len() {
        s.len() as int
    } else {
        1 + find_sub(s.drop_first(), pat)
    }
}

/// `pat` occurs in `s` at `k`.
pub open spec fn occurs_at(s: Seq<char>, pat: Seq<char>, k: int) -> bool {
    0 <= k && k + pat.len() <= s.len() && s.subrange(k, k + pat.len()) == pat
}

proof fn lemma_find_sub_is(s: Seq<char>, pat: Seq<char>, j: int)
    requires
        0 <= j <= s.len(),
        j < s.len() ==> occurs_at(s, pat, j),
        forall|k: int| 0 <= k < j ==> !#[trigger] occurs_at(s, pat, k),
    ensures
        find_sub(s, pat) == j,
    decreases s.len(),
{
    if pat.len() <= s.len() && s.take(pat.len() as int) == pat {
        assert(s.subrange(0, pat.len() as int) =~= s.take(pat.len() as int));
        assert(occurs_at(s, pat, 0));
    } else if s.len() == 0 || s.len() < pat.len() {
    } else {
        if j == 0 {
            assert(s.subrange(0, pat.len() as int) =~= s.take(pat.len() as int));
        }
        assert(j > 0);
        let d = s.drop_first();
        assert forall|k: int| 0 <= k < j - 1 implies !#[trigger] occurs_at(d, pat, k) by {
            if k + pat.len() <= d.len() {
                assert(d.subrange(k, k + pat.len()) =~= s.subrange(k + 1, k + 1 + pat.len()));
            }
            assert(!occurs_at(s, pat, k + 1));
        }
        if j < s.len() {
            assert(d.subrange(j - 1, j - 1 + pat.len()) =~= s.subrange(j, j + pat.len()));
        }
        lemma_find_sub_is(d, pat, j - 1);
    }
}

/// The first occurrence of `pat` in `v`, or `v.len()`.
pub fn find_sub_in(v: &Vec<char>, pat: &Vec<char>) -> (r: usize)
    ensures
        r == find_sub(v@, pat@),
        r <= v.len(),
        r < v.len() ==> r + pat.len() <= v.len(),
{
    let n = v.len();
    let m = pat.len();
    if n < m {
        proof {
            lemma_find_sub_is(v@, pat@, n as int);
        }
        return n;
    }
    if m == 0 {
        proof {
            assert(v@.subrange(0, 0) =~= pat@);
            lemma_find_sub_is(v@, pat@, 0);
        }
        return 0;
    }
    let mut i: usize = 0;
    while i <= n - m
        invariant
            m > 0,
            m == pat@.len(),
            n == v@.len(),
            m <= n,
            i <= n - m + 1,
            forall|k: int| 0 <= k < i ==> !#[trigger] occurs_at(v@, pat@, k),
        decreases n - m + 1 - i,
    {
        if range_eq(v, i, i + m, pat) {
            proof {
                lemma_find_sub_is(v@, pat@, i as int);
            }
            return i;
        }
        i = i + 1;
    }
    proof {
        assert forall|k: int| 0 <= k < n implies !#[trigger] occurs_at(v@, pat@, k) by {
            if k >= i {
                assert(k + m > n);
            }
        }
        lemma_find_sub_is(v@, pat@, n as int);
    }
    n
}

/// The first white-space-separated word of `s`, as
/// `split_whitespace().next()` gives it.
pub open spec fn first_word(s: Seq<char>) -> Option<Seq<char>> {
    let t = trim_start(s);
    if t.len() == 0 {
        None
    } else {
        Some(t.take(find_white(t)))
    }
}

/// The index of the first white-space character of `s`, or `s.len()`.
pub open spec fn find_white(s: Seq<char>) -> int
    decreases s.len(),
{
    if s.len() == 0 {
        0
    } else if is_white(s[0]) {
        0
    } else {
        1 + find_white(s.drop_first())
    }
}

proof fn lemma_find_white_is(s: Seq<char>, j: int)
    requires
        0 <= j <= s.len(),
        j < s.len() ==> is_white(s[j]),
        forall|k: int| 0 <= k < j ==> !is_white(#[trigger] s[k]),
    ensures
        find_white(s) == j,
    decreases s.len(),
{
    if s.len() > 0 && j > 0 {
        assert(!is_white(s[0]));
        assert forall|k: int| 0 <= k < j - 1 implies !is_white(#[trigger] s.drop_first()[k]) by {
            assert(s.drop_first()[k] == s[k + 1]);
        }
        if j < s.len() {
            assert(s.drop_first()[j - 1] == s[j]);
        }
        lemma_find_white_is(s.drop_first(), j - 1);
    }
}

/// The first word of `v[lo..]`.
pub fn first_word_in(v: &Vec<char>, lo: usize) -> (r: Option<String>)
    requires
        lo <= v.len(),
    ensures
        match r {
            Some(w) => first_word(v@.skip(lo as int)) == Some(w@),
            None => first_word(v@.skip(lo as int)) is None,
        },
{
    let n = v.len();
    let a = trim_start_index(v, lo, n);
    proof {
        assert(v@.subrange(lo as int, n as int) =~= v@.skip(lo as int));
    }
    if a == n {
        return None;
    }
    let ghost t = v@.subrange(a as int, n as int);
    let mut b = a;
    while b < n && !is_white_char(v[b])
        invariant
            a <= b <= n,
            n == v@.len(),
            forall|k: int| a <= k < b ==> !is_white(#[trigger] v@[k]),
        decreases n - b,
    {
        b = b + 1;
    }
    proof {
        assert forall|k: int| 0 <= k < b - a implies !is_white(#[trigger] t[k]) by {
            assert(t[k] == v@[a + k]);
        }
        if b < n {
            assert(t[b - a] == v@[b as int]);
        }
        lemma_find_white_is(t, b - a);
        assert(t.take(b - a) =~= v@.subrange(a as int, b as int));
    }
    Some(string_of(v, a, b))
}

} // verus!
