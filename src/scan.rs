use vstd::prelude::*;

verus! {

/// Whether `c` has the Unicode White_Space property (what `char::is_whitespace` tests).
pub open spec fn is_ws(c: char) -> bool {
    ||| ('\t' <= c && c <= '\r')
    ||| c == ' '
    ||| c == '\u{85}'
    ||| c == '\u{a0}'
    ||| c == '\u{1680}'
    ||| ('\u{2000}' <= c && c <= '\u{200a}')
    ||| c == '\u{2028}'
    ||| c == '\u{2029}'
    ||| c == '\u{202f}'
    ||| c == '\u{205f}'
    ||| c == '\u{3000}'
}

pub fn is_whitespace(c: char) -> (r: bool)
    ensures
        r == is_ws(c),
{
    ('\t' <= c && c <= '\r') || c == ' ' || c == '\u{85}' || c == '\u{a0}' || c == '\u{1680}'
        || ('\u{2000}' <= c && c <= '\u{200a}') || c == '\u{2028}' || c == '\u{2029}' || c
        == '\u{202f}' || c == '\u{205f}' || c == '\u{3000}'
}

pub open spec fn trim_start(s: Seq<char>) -> Seq<char>
    decreases s.len(),
{
    if s.len() > 0 && is_ws(s[0]) {
        trim_start(s.drop_first())
    } else {
        s
    }
}

pub open spec fn trim_end(s: Seq<char>) -> Seq<char>
    decreases s.len(),
{
    if s.len() > 0 && is_ws(s.last()) {
        trim_end(s.drop_last())
    } else {
        s
    }
}

/// `s` without leading and trailing white space.
pub open spec fn trim(s: Seq<char>) -> Seq<char> {
    trim_end(trim_start(s))
}

/// Whether `pat` occurs in `s` at index `i`.
pub open spec fn occurs_at(s: Seq<char>, pat: Seq<char>, i: int) -> bool {
    0 <= i && i + pat.len() <= s.len() && s.subrange(i, i + pat.len()) == pat
}

/// The first index at or after `i` where `pat` occurs in `s`.
pub open spec fn find_from(s: Seq<char>, pat: Seq<char>, i: int) -> Option<int>
    decreases s.len() + 1 - i,
{
    if i < 0 || i + pat.len() > s.len() {
        None
    } else if occurs_at(s, pat, i) {
        Some(i)
    } else {
        find_from(s, pat, i + 1)
    }
}

/// The first index where `pat` occurs in `s`.
pub open spec fn find(s: Seq<char>, pat: Seq<char>) -> Option<int> {
    find_from(s, pat, 0)
}

pub open spec fn contains(s: Seq<char>, pat: Seq<char>) -> bool {
    find(s, pat) is Some
}

/// The last index below `i` where the character `c` occurs in `s`.
pub open spec fn rfind_before(s: Seq<char>, c: char, i: int) -> Option<int>
    decreases i,
{
    if i <= 0 || i > s.len() {
        None
    } else if s[i - 1] == c {
        Some(i - 1)
    } else {
        rfind_before(s, c, i - 1)
    }
}

/// The last index where the character `c` occurs in `s`.
pub open spec fn rfind(s: Seq<char>, c: char) -> Option<int> {
    rfind_before(s, c, s.len() as int)
}

/// A line without the carriage return of a CRLF ending.
pub open spec fn strip_cr(l: Seq<char>) -> Seq<char> {
    if l.len() > 0 && l.last() == '\r' {
        l.drop_last()
    } else {
        l
    }
}

/// The lines of `s[pos..]` as `str::lines` yields them: split at each '\n', a '\r'
/// before that '\n' dropped, and no empty line after a final '\n'.
pub open spec fn lines_from(s: Seq<char>, pos: int) -> Seq<Seq<char>>
    decreases s.len() - pos,
{
    if pos < 0 || pos >= s.len() {
        Seq::empty()
    } else {
        match find_from(s, seq!['\n'], pos) {
            Some(i) => {
                if pos <= i < s.len() {
                    seq![strip_cr(s.subrange(pos, i))] + lines_from(s, i + 1)
                } else {
                    Seq::empty()
                }
            },
            None => seq![s.subrange(pos, s.len() as int)],
        }
    }
}

/// The lines of `s` (see `lines_from`).
pub open spec fn lines_of(s: Seq<char>) -> Seq<Seq<char>> {
    lines_from(s, 0)
}

pub proof fn lemma_find_from_bounds(s: Seq<char>, pat: Seq<char>, p: int)
    ensures
        find_from(s, pat, p) matches Some(i) ==> p <= i && occurs_at(s, pat, i),
    decreases s.len() + 1 - p,
{
    if !(p < 0 || p + pat.len() > s.len()) && !occurs_at(s, pat, p) {
        lemma_find_from_bounds(s, pat, p + 1);
    }
}

/// Where the run of non-white-space characters that starts at `pos` ends.
pub open spec fn word_end(s: Seq<char>, pos: int) -> int
    decreases s.len() - pos,
{
    if pos < 0 || pos >= s.len() || is_ws(s[pos]) {
        pos
    } else {
        word_end(s, pos + 1)
    }
}

/// The white-space separated words of `s[pos..]`, as `str::split_whitespace` yields them.
pub open spec fn words_from(s: Seq<char>, pos: int) -> Seq<Seq<char>>
    decreases s.len() - pos,
{
    if pos < 0 || pos >= s.len() {
        Seq::empty()
    } else if is_ws(s[pos]) {
        words_from(s, pos + 1)
    } else {
        let e = word_end(s, pos);
        if pos < e <= s.len() {
            seq![s.subrange(pos, e)] + words_from(s, e)
        } else {
            Seq::empty()
        }
    }
}

pub open spec fn words_of(s: Seq<char>) -> Seq<Seq<char>> {
    words_from(s, 0)
}

/// Whether `s` begins with `p`.
pub open spec fn starts_with(s: Seq<char>, p: Seq<char>) -> bool {
    p.len() <= s.len() && s.take(p.len() as int) == p
}

proof fn lemma_word_end(s: Seq<char>, pos: int)
    requires
        0 <= pos <= s.len(),
    ensures
        pos <= word_end(s, pos) <= s.len(),
        forall|j: int| pos <= j < word_end(s, pos) ==> !is_ws(#[trigger] s[j]),
        word_end(s, pos) < s.len() ==> is_ws(s[word_end(s, pos)]),
    decreases s.len() - pos,
{
    if pos < s.len() && !is_ws(s[pos]) {
        lemma_word_end(s, pos + 1);
    }
}

/// Where each word of `cs` (see `words_of`) starts and ends.
pub fn word_bounds(cs: &Vec<char>) -> (r: Vec<(usize, usize)>)
    ensures
        r.len() == words_of(cs@).len(),
        forall|k: int|
            0 <= k < r.len() ==> {
                &&& (#[trigger] r@[k]).0 <= r@[k].1 <= cs.len()
                &&& cs@.subrange(r@[k].0 as int, r@[k].1 as int) == words_of(cs@)[k]
            },
{
    let mut out: Vec<(usize, usize)> = Vec::new();
    let ghost done: Seq<Seq<char>> = Seq::empty();
    let mut pos: usize = 0;
    while pos < cs.len()
        invariant
            pos <= cs.len(),
            out.len() == done.len(),
            words_of(cs@) == done + words_from(cs@, pos as int),
            forall|k: int|
                0 <= k < out.len() ==> {
                    &&& (#[trigger] out@[k]).0 <= out@[k].1 <= cs.len()
                    &&& cs@.subrange(out@[k].0 as int, out@[k].1 as int) == done[k]
                },
        decreases cs.len() - pos,
    {
        if is_whitespace(cs[pos]) {
            pos = pos + 1;
        } else {
            let start = pos;
            proof {
                lemma_word_end(cs@, start as int);
            }
            while pos < cs.len() && !is_whitespace(cs[pos])
                invariant
                    start <= pos <= cs.len(),
                    start < cs.len(),
                    !is_ws(cs@[start as int]),
                    word_end(cs@, start as int) == word_end(cs@, pos as int),
                decreases cs.len() - pos,
            {
                pos = pos + 1;
            }
            proof {
                let w = cs@.subrange(start as int, pos as int);
                assert(word_end(cs@, pos as int) == pos);
                assert(words_from(cs@, start as int) == seq![w] + words_from(cs@, pos as int));
                assert(done.push(w) + words_from(cs@, pos as int) =~= done + (seq![w] + words_from(
                    cs@,
                    pos as int,
                )));
                done = done.push(w);
            }
            out.push((start, pos));
        }
    }
    assert(done + words_from(cs@, pos as int) =~= done);
    assert(words_of(cs@) == done);
    out
}

/// The characters of `s`, in order.
pub fn chars_of(s: &str) -> (r: Vec<char>)
    ensures
        r@ == s@,
{
    let n = s.unicode_len();
    let mut out: Vec<char> = Vec::with_capacity(n);
    let mut i: usize = 0;
    while i < n
        invariant
            n == s@.len(),
            i <= n,
            out@ == s@.take(i as int),
        decreases n - i,
    {
        out.push(s.get_char(i));
        i = i + 1;
        assert(out@ =~= s@.take(i as int));
    }
    assert(s@.take(n as int) =~= s@);
    out
}

/// Whether `pat` occurs in `cs` at `i`.
pub fn matches_at(cs: &Vec<char>, pat: &Vec<char>, i: usize) -> (r: bool)
    ensures
        r == occurs_at(cs@, pat@, i as int),
{
    if i > cs.len() || pat.len() > cs.len() - i {
        return false;
    }
    let mut k: usize = 0;
    while k < pat.len()
        invariant
            i + pat.len() <= cs.len(),
            k <= pat.len(),
            forall|j: int| 0 <= j < k ==> cs@[i + j] == pat@[j],
        decreases pat.len() - k,
    {
        if cs[i + k] != pat[k] {
            assert(cs@.subrange(i as int, i + pat.len())[k as int] != pat@[k as int]);
            return false;
        }
        k = k + 1;
    }
    assert(cs@.subrange(i as int, i + pat.len()) =~= pat@);
    true
}

/// The first index at or after `from` where `pat` occurs in `cs`.
pub fn find_at(cs: &Vec<char>, pat: &Vec<char>, from: usize) -> (r: Option<usize>)
    requires
        pat.len() >= 1,
    ensures
        match r {
            Some(i) => find_from(cs@, pat@, from as int) == Some(i as int),
            None => find_from(cs@, pat@, from as int) is None,
        },
{
    let mut i = from;
    while i <= cs.len() && pat.len() <= cs.len() - i
        invariant
            from <= i,
            pat.len() >= 1,
            find_from(cs@, pat@, from as int) == find_from(cs@, pat@, i as int),
        decreases cs.len() + 1 - i,
    {
        if matches_at(cs, pat, i) {
            return Some(i);
        }
        i = i + 1;
    }
    None
}

/// The last index below `to` where `c` occurs in `cs`.
pub fn rfind_char(cs: &Vec<char>, c: char, to: usize) -> (r: Option<usize>)
    requires
        to <= cs.len(),
    ensures
        match r {
            Some(i) => rfind_before(cs@, c, to as int) == Some(i as int) && i < to,
            None => rfind_before(cs@, c, to as int) is None,
        },
{
    let mut i = to;
    while i > 0
        invariant
            i <= to <= cs.len(),
            rfind_before(cs@, c, to as int) == rfind_before(cs@, c, i as int),
        decreases i,
    {
        if cs[i - 1] == c {
            return Some(i - 1);
        }
        i = i - 1;
    }
    None
}

proof fn lemma_trim_start_skip(s: Seq<char>, i: int)
    requires
        0 <= i <= s.len(),
        forall|j: int| 0 <= j < i ==> is_ws(#[trigger] s[j]),
    ensures
        trim_start(s) == trim_start(s.skip(i)),
    decreases i,
{
    if i > 0 {
        assert(s.drop_first().skip(i - 1) =~= s.skip(i));
        lemma_trim_start_skip(s.drop_first(), i - 1);
    } else {
        assert(s.skip(0) =~= s);
    }
}

proof fn lemma_trim_end_take(s: Seq<char>, i: int)
    requires
        0 <= i <= s.len(),
        forall|j: int| i <= j < s.len() ==> is_ws(#[trigger] s[j]),
    ensures
        trim_end(s) == trim_end(s.take(i)),
    decreases s.len() - i,
{
    if i < s.len() {
        assert(s.drop_last().take(i) =~= s.take(i));
        lemma_trim_end_take(s.drop_last(), i);
    } else {
        assert(s.take(i) =~= s);
    }
}

/// The bounds of `cs[lo..hi]` with white space trimmed from both ends.
pub fn trim_bounds(cs: &Vec<char>, lo: usize, hi: usize) -> (r: (usize, usize))
    requires
        lo <= hi <= cs.len(),
    ensures
        lo <= r.0 <= r.1 <= hi,
        cs@.subrange(r.0 as int, r.1 as int) == trim(cs@.subrange(lo as int, hi as int)),
{
    let ghost s = cs@.subrange(lo as int, hi as int);
    let mut a = lo;
    while a < hi && is_whitespace(cs[a])
        invariant
            lo <= a <= hi <= cs.len(),
            s == cs@.subrange(lo as int, hi as int),
            forall|j: int| lo <= j < a ==> is_ws(#[trigger] cs@[j]),
        decreases hi - a,
    {
        a = a + 1;
    }
    proof {
        assert forall|j: int| 0 <= j < a - lo implies is_ws(#[trigger] s[j]) by {
            assert(s[j] == cs@[lo + j]);
        }
        lemma_trim_start_skip(s, a - lo);
        assert(s.skip(a - lo) =~= cs@.subrange(a as int, hi as int));
        if a < hi {
            assert(trim_start(cs@.subrange(a as int, hi as int)) == cs@.subrange(a as int, hi as int));
        }
    }
    let mut b = hi;
    while b > a && is_whitespace(cs[b - 1])
        invariant
            lo <= a <= b <= hi <= cs.len(),
            forall|j: int| b <= j < hi ==> is_ws(#[trigger] cs@[j]),
        decreases b,
    {
        b = b - 1;
    }
    proof {
        let t = cs@.subrange(a as int, hi as int);
        assert(trim_start(s) == t);
        assert forall|j: int| b - a <= j < t.len() implies is_ws(#[trigger] t[j]) by {
            assert(t[j] == cs@[a + j]);
        }
        lemma_trim_end_take(t, b - a);
        assert(t.take(b - a) =~= cs@.subrange(a as int, b as int));
    }
    (a, b)
}

/// Where each line of `s` starts and ends (see `lines_of`), given its characters.
pub fn line_bounds(cs: &Vec<char>) -> (r: Vec<(usize, usize)>)
    ensures
        r.len() == lines_of(cs@).len(),
        forall|k: int|
            0 <= k < r.len() ==> {
                &&& (#[trigger] r@[k]).0 <= r@[k].1 <= cs.len()
                &&& cs@.subrange(r@[k].0 as int, r@[k].1 as int) == lines_of(cs@)[k]
            },
{
    let nl: Vec<char> = vec!['\n'];
    let mut out: Vec<(usize, usize)> = Vec::new();
    let ghost done: Seq<Seq<char>> = Seq::empty();
    let mut pos: usize = 0;
    while pos < cs.len()
        invariant
            pos <= cs.len(),
            nl@ == seq!['\n'],
            out.len() == done.len(),
            lines_of(cs@) == done + lines_from(cs@, pos as int),
            forall|k: int|
                0 <= k < out.len() ==> {
                    &&& (#[trigger] out@[k]).0 <= out@[k].1 <= cs.len()
                    &&& cs@.subrange(out@[k].0 as int, out@[k].1 as int) == done[k]
                },
        decreases cs.len() - pos,
    {
        let found = find_at(cs, &nl, pos);
        proof {
            lemma_find_from_bounds(cs@, nl@, pos as int);
        }
        match found {
            Some(i) => {
                let end = if i > pos && cs[i - 1] == '\r' {
                    i - 1
                } else {
                    i
                };
                proof {
                    let l = cs@.subrange(pos as int, i as int);
                    assert(strip_cr(l) =~= cs@.subrange(pos as int, end as int));
                    assert(lines_from(cs@, pos as int) == seq![strip_cr(l)] + lines_from(
                        cs@,
                        i + 1,
                    ));
                    assert(done.push(strip_cr(l)) + lines_from(cs@, i + 1) =~= done + (seq![
                        strip_cr(l),
                    ] + lines_from(cs@, i + 1)));
                    done = done.push(strip_cr(l));
                }
                out.push((pos, end));
                pos = i + 1;
            },
            None => {
                proof {
                    let l = cs@.subrange(pos as int, cs.len() as int);
                    assert(lines_from(cs@, cs.len() as int) == Seq::<Seq<char>>::empty());
                    assert(done.push(l) =~= done + lines_from(cs@, pos as int));
                    done = done.push(l);
                }
                out.push((pos, cs.len()));
                pos = cs.len();
            },
        }
    }
    assert(done + lines_from(cs@, pos as int) =~= done);
    assert(lines_of(cs@) == done);
    out
}

/// A copy of `cs[lo..hi]`.
pub fn slice_chars(cs: &Vec<char>, lo: usize, hi: usize) -> (r: Vec<char>)
    requires
        lo <= hi <= cs.len(),
    ensures
        r@ == cs@.subrange(lo as int, hi as int),
{
    let mut out: Vec<char> = Vec::new();
    let mut i = lo;
    while i < hi
        invariant
            lo <= i <= hi <= cs.len(),
            out@ == cs@.subrange(lo as int, i as int),
        decreases hi - i,
    {
        out.push(cs[i]);
        i = i + 1;
        assert(out@ =~= cs@.subrange(lo as int, i as int));
    }
    out
}

} // verus!
