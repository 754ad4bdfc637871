//! Verified text helpers shared by the backends: decimal formatting,
//! splitting, joining and searching over `Seq<char>` views.

use vstd::prelude::*;

verus! {

/// The character for one decimal digit.
pub open spec fn dec_digit(d: nat) -> char {
    if d == 0 {
        '0'
    } else if d == 1 {
        '1'
    } else if d == 2 {
        '2'
    } else if d == 3 {
        '3'
    } else if d == 4 {
        '4'
    } else if d == 5 {
        '5'
    } else if d == 6 {
        '6'
    } else if d == 7 {
        '7'
    } else if d == 8 {
        '8'
    } else {
        '9'
    }
}

/// The usual decimal notation of `n`, most significant digit first, no sign
/// and no leading zeros (except for `n == 0` itself).
pub open spec fn dec_rep(n: nat) -> Seq<char>
    decreases n,
{
    if n < 10 {
        seq![dec_digit(n)]
    } else {
        dec_rep(n / 10).push(dec_digit(n % 10))
    }
}

/// Decimal notation of a signed value: a leading `-` for negatives.
pub open spec fn dec_int_rep(n: int) -> Seq<char> {
    if n >= 0 {
        dec_rep(n as nat)
    } else {
        seq!['-'] + dec_rep((-n) as nat)
    }
}

fn digit_str(d: u64) -> (r: &'static str)
    requires
        d < 10,
    ensures
        r@ =~= seq![dec_digit(d as nat)],
{
    proof {
        reveal_strlit("0");
        reveal_strlit("1");
        reveal_strlit("2");
        reveal_strlit("3");
        reveal_strlit("4");
        reveal_strlit("5");
        reveal_strlit("6");
        reveal_strlit("7");
        reveal_strlit("8");
        reveal_strlit("9");
    }
    match d {
        0 => "0",
        1 => "1",
        2 => "2",
        3 => "3",
        4 => "4",
        5 => "5",
        6 => "6",
        7 => "7",
        8 => "8",
        _ => "9",
    }
}

/// Appends the decimal notation of `n` to `s`.
pub fn push_dec(s: &mut String, n: u64)
    ensures
        final(s)@ == old(s)@ + dec_rep(n as nat),
    decreases n,
{
    if n >= 10 {
        push_dec(s, n / 10);
        s.append(digit_str(n % 10));
        proof {
            assert(final(s)@ =~= old(s)@ + dec_rep(n as nat));
        }
    } else {
        s.append(digit_str(n));
        proof {
            assert(final(s)@ =~= old(s)@ + dec_rep(n as nat));
        }
    }
}

/// The decimal notation of `n` as a fresh string.
pub fn u64_to_dec(n: u64) -> (r: String)
    ensures
        r@ == dec_rep(n as nat),
{
    let mut s = String::new();
    push_dec(&mut s, n);
    proof {
        assert(s@ =~= dec_rep(n as nat));
    }
    s
}

/// The characters of `s`, for index-based scanning.
pub fn chars_of(s: &str) -> (r: Vec<char>)
    ensures
        r@ == s@,
{
    let n = s.unicode_len();
    let mut r: Vec<char> = Vec::new();
    let mut i: usize = 0;
    while i < n
        invariant
            n == s@.len(),
            i <= n,
            r@ =~= s@.subrange(0, i as int),
        decreases n - i,
    {
        r.push(s.get_char(i));
        i = i + 1;
    }
    proof {
        assert(r@ =~= s@);
    }
    r
}

/// The index of the first character satisfying `p`, or the length when none
/// does.
pub open spec fn spec_find_p(s: Seq<char>, p: spec_fn(char) -> bool) -> int
    decreases s.len(),
{
    if s.len() == 0 {
        0
    } else if p(s[0]) {
        0
    } else {
        1 + spec_find_p(s.drop_first(), p)
    }
}

/// A scan that saw no hit before `i`, and a hit at `i` unless `i` is the
/// length, pins down `spec_find_p`.
pub proof fn lemma_find_p_is(s: Seq<char>, p: spec_fn(char) -> bool, i: int)
    requires
        0 <= i <= s.len(),
        forall|k: int| 0 <= k < i ==> !p(s[k]),
        i < s.len() ==> p(s[i]),
    ensures
        spec_find_p(s, p) == i,
    decreases i,
{
    if s.len() != 0 && !p(s[0]) {
        lemma_find_p_is(s.drop_first(), p, i - 1);
    }
}

/// The index of the last occurrence of `c`, if any.
pub open spec fn spec_rfind(s: Seq<char>, c: char) -> Option<int>
    decreases s.len(),
{
    if s.len() == 0 {
        None
    } else if s.last() == c {
        Some(s.len() - 1)
    } else {
        spec_rfind(s.drop_last(), c)
    }
}

/// A backwards scan that saw a hit at `i` and none after pins down
/// `spec_rfind`.
pub proof fn lemma_rfind_is(s: Seq<char>, c: char, i: int)
    requires
        0 <= i < s.len(),
        s[i] == c,
        forall|k: int| i < k < s.len() ==> s[k] != c,
    ensures
        spec_rfind(s, c) == Some(i),
    decreases s.len(),
{
    if i < s.len() - 1 {
        lemma_rfind_is(s.drop_last(), c, i);
    }
}

/// A backwards scan that saw no hit at all pins down `spec_rfind`.
pub proof fn lemma_rfind_none(s: Seq<char>, c: char)
    requires
        forall|k: int| 0 <= k < s.len() ==> s[k] != c,
    ensures
        spec_rfind(s, c) is None,
    decreases s.len(),
{
    if s.len() > 0 {
        lemma_rfind_none(s.drop_last(), c);
    }
}

/// A line with a trailing carriage return loses it, as `str::lines` does.
pub open spec fn strip_tail_cr(l: Seq<char>) -> Seq<char> {
    if l.len() > 0 && l.last() == '\r' {
        l.drop_last()
    } else {
        l
    }
}

/// The lines of `s`, split at `\n` with a `\r` immediately before the `\n`
/// removed, the final line ending optional: the semantics of `str::lines`.
pub open spec fn spec_lines(s: Seq<char>) -> Seq<Seq<char>>
    decreases s.len(),
{
    if s.len() == 0 {
        Seq::empty()
    } else {
        let j = spec_find_p(s, |x: char| x == '\n');
        if 0 <= j < s.len() {
            seq![strip_tail_cr(s.subrange(0, j))] + spec_lines(
                s.subrange(j + 1, s.len() as int),
            )
        } else {
            seq![s]
        }
    }
}

/// The line spans of `v`: for each line of [`spec_lines`], the index range
/// that holds it (carriage return already excluded).
pub fn line_spans(v: &Vec<char>) -> (r: Vec<(usize, usize)>)
    ensures
        r@.len() == spec_lines(v@).len(),
        forall|i: int|
            0 <= i < r@.len() ==> {
                &&& r@[i].0 <= r@[i].1 <= v@.len()
                &&& v@.subrange(r@[i].0 as int, r@[i].1 as int) == spec_lines(v@)[i]
            },
{
    let n = v.len();
    let mut spans: Vec<(usize, usize)> = Vec::new();
    let mut start: usize = 0;
    let ghost lines = spec_lines(v@);
    proof {
        assert(v@.subrange(0, n as int) =~= v@);
    }
    while start < n
        invariant
            n == v@.len(),
            start <= n,
            lines == spec_lines(v@),
            lines =~= Seq::new(spans@.len() as nat, |i: int|
                v@.subrange(spans@[i].0 as int, spans@[i].1 as int)) + spec_lines(
                v@.subrange(start as int, n as int),
            ),
            forall|i: int|
                0 <= i < spans@.len() ==> (#[trigger] spans@[i]).0 <= spans@[i].1 <= v@.len(),
        decreases n - start,
    {
        // Find the next newline.
        let mut j: usize = start;
        while j < n && v[j] != '\n'
            invariant
                n == v@.len(),
                start <= j <= n,
                forall|k: int| start <= k < j ==> v@[k] != '\n',
            decreases n - j,
        {
            j = j + 1;
        }
        let ghost tail = v@.subrange(start as int, n as int);
        proof {
            lemma_find_p_is(tail, |x: char| x == '\n', j - start);
        }
        if j == n {
            // Final line without a newline: kept whole.
            spans.push((start, n));
            proof {
                assert(spec_lines(tail) =~= seq![tail]);
                assert(lines =~= Seq::new(spans@.len() as nat, |i: int|
                    v@.subrange(spans@[i].0 as int, spans@[i].1 as int)) + spec_lines(
                    v@.subrange(n as int, n as int),
                ));
            }
            start = n;
        } else {
            // Exclude a carriage return immediately before the newline.
            let e = if j > start && v[j - 1] == '\r' {
                j - 1
            } else {
                j
            };
            proof {
                assert(strip_tail_cr(tail.subrange(0, j - start)) =~= v@.subrange(
                    start as int,
                    e as int,
                ));
                assert(tail.subrange(j - start + 1, tail.len() as int) =~= v@.subrange(
                    j + 1,
                    n as int,
                ));
            }
            spans.push((start, e));
            start = j + 1;
        }
    }
    proof {
        assert(spec_lines(v@.subrange(start as int, n as int)) =~= Seq::<Seq<char>>::empty());
        assert(lines =~= Seq::new(spans@.len() as nat, |i: int|
            v@.subrange(spans@[i].0 as int, spans@[i].1 as int)));
    }
    spans
}

/// Whether `p` is a prefix of `s`.
pub open spec fn spec_starts_with(s: Seq<char>, p: Seq<char>) -> bool {
    p.len() <= s.len() && s.subrange(0, p.len() as int) == p
}

/// Whether the span `[a, b)` of `v` starts with `pat`.
pub fn span_starts_with(v: &Vec<char>, a: usize, b: usize, pat: &str) -> (r: bool)
    requires
        a <= b <= v@.len(),
    ensures
        r == spec_starts_with(v@.subrange(a as int, b as int), pat@),
{
    let p = pat.unicode_len();
    if b - a < p {
        return false;
    }
    let mut k: usize = 0;
    while k < p
        invariant
            a <= b <= v@.len(),
            p == pat@.len(),
            p <= b - a,
            k <= p,
            forall|m: int| 0 <= m < k ==> v@[a + m] == pat@[m],
        decreases p - k,
    {
        if v[a + k] != pat.get_char(k) {
            return false;
        }
        k = k + 1;
    }
    proof {
        assert(v@.subrange(a as int, b as int).subrange(0, pat@.len() as int) =~= pat@);
    }
    true
}

/// The last index of `c` in the span `[a, b)` of `v`, if any.
pub fn span_rfind(v: &Vec<char>, a: usize, b: usize, c: char) -> (r: Option<usize>)
    requires
        a <= b <= v@.len(),
    ensures
        match r {
            Some(i) => a <= i < b && spec_rfind(v@.subrange(a as int, b as int), c) == Some(
                i - a,
            ),
            None => spec_rfind(v@.subrange(a as int, b as int), c) is None,
        },
{
    let mut j: usize = b;
    while j > a
        invariant
            a <= j <= b <= v@.len(),
            forall|k: int| j <= k < b ==> v@[k] != c,
        decreases j,
    {
        j = j - 1;
        if v[j] == c {
            proof {
                lemma_rfind_is(v@.subrange(a as int, b as int), c, j - a);
            }
            return Some(j);
        }
    }
    proof {
        lemma_rfind_none(v@.subrange(a as int, b as int), c);
    }
    None
}

/// The span `[a, b)` of `s` as a fresh string, by character index.
pub fn span_string(s: &str, a: usize, b: usize) -> (r: String)
    requires
        a <= b <= s@.len(),
    ensures
        r@ == s@.subrange(a as int, b as int),
{
    String::from_str(s.substring_char(a, b))
}

/// The whitespace that separates tokens on a control tool's output line.
pub open spec fn spec_is_ws(c: char) -> bool {
    c == ' ' || c == '\t' || c == '\r'
}

/// Whether `c` separates tokens.
pub fn is_ws(c: char) -> (r: bool)
    ensures
        r == spec_is_ws(c),
{
    c == ' ' || c == '\t' || c == '\r'
}

/// The maximal runs of non-whitespace characters of `s`, in order: the
/// semantics of `str::split_whitespace` over the separators of
/// [`spec_is_ws`].
pub open spec fn spec_ws_tokens(s: Seq<char>) -> Seq<Seq<char>>
    decreases s.len(),
{
    if s.len() == 0 {
        Seq::empty()
    } else if spec_is_ws(s[0]) {
        spec_ws_tokens(s.drop_first())
    } else {
        let j = spec_find_p(s, |x: char| spec_is_ws(x));
        if 1 <= j <= s.len() {
            seq![s.subrange(0, j)] + spec_ws_tokens(s.subrange(j, s.len() as int))
        } else {
            seq![s]
        }
    }
}

/// The token spans of the span `[a, b)` of `v`: for each token of
/// [`spec_ws_tokens`], the index range that holds it.
pub fn ws_token_spans(v: &Vec<char>, a: usize, b: usize) -> (r: Vec<(usize, usize)>)
    requires
        a <= b <= v@.len(),
    ensures
        r@.len() == spec_ws_tokens(v@.subrange(a as int, b as int)).len(),
        forall|i: int|
            0 <= i < r@.len() ==> {
                &&& a <= (#[trigger] r@[i]).0 <= r@[i].1 <= b
                &&& v@.subrange(r@[i].0 as int, r@[i].1 as int) == spec_ws_tokens(
                    v@.subrange(a as int, b as int),
                )[i]
            },
{
    let ghost whole = spec_ws_tokens(v@.subrange(a as int, b as int));
    let mut spans: Vec<(usize, usize)> = Vec::new();
    let mut pos: usize = a;
    proof {
        assert(v@.subrange(a as int, b as int) =~= v@.subrange(pos as int, b as int));
    }
    while pos < b
        invariant
            a <= pos <= b <= v@.len(),
            whole == spec_ws_tokens(v@.subrange(a as int, b as int)),
            whole =~= Seq::new(spans@.len() as nat, |i: int|
                v@.subrange(spans@[i].0 as int, spans@[i].1 as int)) + spec_ws_tokens(
                v@.subrange(pos as int, b as int),
            ),
            forall|i: int|
                0 <= i < spans@.len() ==> a <= (#[trigger] spans@[i]).0 <= spans@[i].1 <= b,
        decreases b - pos,
    {
        if is_ws(v[pos]) {
            proof {
                assert(v@.subrange(pos as int, b as int).drop_first() =~= v@.subrange(
                    pos + 1,
                    b as int,
                ));
            }
            pos = pos + 1;
        } else {
            let ts = pos;
            let mut j: usize = pos;
            while j < b && !is_ws(v[j])
                invariant
                    a <= ts <= j <= b <= v@.len(),
                    forall|k: int| ts <= k < j ==> !spec_is_ws(v@[k]),
                decreases b - j,
            {
                j = j + 1;
            }
            let ghost tail = v@.subrange(ts as int, b as int);
            proof {
                lemma_find_p_is(tail, |x: char| spec_is_ws(x), j - ts);
                assert(tail.subrange(0, j - ts) =~= v@.subrange(ts as int, j as int));
                assert(tail.subrange(j - ts, tail.len() as int) =~= v@.subrange(
                    j as int,
                    b as int,
                ));
            }
            spans.push((ts, j));
            pos = j;
        }
    }
    proof {
        assert(spec_ws_tokens(v@.subrange(pos as int, b as int)) =~= Seq::<Seq<char>>::empty());
        assert(whole =~= Seq::new(spans@.len() as nat, |i: int|
            v@.subrange(spans@[i].0 as int, spans@[i].1 as int)));
    }
    spans
}

/// Whether the span `[a, b)` of `v` equals `pat`.
pub fn span_eq_str(v: &Vec<char>, a: usize, b: usize, pat: &str) -> (r: bool)
    requires
        a <= b <= v@.len(),
    ensures
        r == (v@.subrange(a as int, b as int) == pat@),
{
    let p = pat.unicode_len();
    if b - a != p {
        proof {
            assert(v@.subrange(a as int, b as int).len() != pat@.len());
        }
        return false;
    }
    let r = span_starts_with(v, a, b, pat);
    proof {
        if r {
            assert(v@.subrange(a as int, b as int).subrange(0, pat@.len() as int) =~= v@.subrange(
                a as int,
                b as int,
            ));
        } else {
            assert(v@.subrange(a as int, b as int).subrange(0, pat@.len() as int) =~= v@.subrange(
                a as int,
                b as int,
            ));
        }
    }
    r
}

/// Whether `needle` occurs in `hay` as a contiguous run.
pub open spec fn spec_contains(hay: Seq<char>, needle: Seq<char>) -> bool {
    exists|i: int|
        0 <= i && i + needle.len() <= hay.len() && #[trigger] hay.subrange(
            i,
            i + needle.len() as int,
        ) == needle
}

/// Whether `needle` occurs anywhere in `hay`.
pub fn str_contains(hay: &str, needle: &str) -> (r: bool)
    ensures
        r == spec_contains(hay@, needle@),
{
    let v = chars_of(hay);
    let n = hay.unicode_len();
    let p = needle.unicode_len();
    if p > n {
        return false;
    }
    if p == 0 {
        proof {
            assert(hay@.subrange(0, 0 + needle@.len() as int) =~= needle@);
        }
        return true;
    }
    let mut i: usize = 0;
    while i <= n - p
        invariant
            v@ == hay@,
            n == hay@.len(),
            p == needle@.len(),
            0 < p <= n,
            i <= n - p + 1,
            forall|m: int|
                0 <= m < i ==> #[trigger] v@.subrange(m, m + needle@.len() as int) != needle@,
        decreases n - i,
    {
        if span_starts_with(&v, i, n, needle) {
            proof {
                assert(v@.subrange(i as int, n as int).subrange(0, needle@.len() as int)
                    =~= v@.subrange(i as int, i + needle@.len() as int));
            }
            return true;
        }
        proof {
            assert(v@.subrange(i as int, n as int).subrange(0, needle@.len() as int)
                =~= v@.subrange(i as int, i + needle@.len() as int));
        }
        i = i + 1;
    }
    false
}

/// The parts joined by `sep`: nothing for no parts, and no leading or
/// trailing separator otherwise.
pub open spec fn spec_join(parts: Seq<Seq<char>>, sep: Seq<char>) -> Seq<char>
    decreases parts.len(),
{
    if parts.len() == 0 {
        Seq::empty()
    } else if parts.len() == 1 {
        parts[0]
    } else {
        parts[0] + sep + spec_join(parts.drop_first(), sep)
    }
}

/// Joins `parts` with `sep`.
pub fn join_with(parts: &Vec<String>, sep: &str) -> (r: String)
    ensures
        r@ == spec_join(parts.deep_view(), sep@),
{
    let mut r = String::new();
    let n = parts.len();
    if n == 0 {
        return r;
    }
    let mut i: usize = 0;
    while i < n
        invariant
            0 < n == parts@.len(),
            parts.deep_view().len() == n,
            i <= n,
            r@ == spec_join(parts.deep_view().subrange(0, i as int), sep@),
        decreases n - i,
    {
        let ghost prev = parts.deep_view().subrange(0, i as int);
        if i > 0 {
            r.append(sep);
        }
        r.append(parts[i].as_str());
        proof {
            assert(parts.deep_view()[i as int] == parts@[i as int]@);
            lemma_join_snoc(prev, parts.deep_view()[i as int], sep@);
            assert(prev.push(parts.deep_view()[i as int]) =~= parts.deep_view().subrange(
                0,
                i + 1,
            ));
        }
        i = i + 1;
    }
    proof {
        assert(parts.deep_view().subrange(0, n as int) =~= parts.deep_view());
    }
    r
}

/// Appending one more part to a join appends one separator and the part
/// (or just the part, when the join was empty).
pub proof fn lemma_join_snoc(parts: Seq<Seq<char>>, last: Seq<char>, sep: Seq<char>)
    ensures
        parts.len() == 0 ==> spec_join(parts.push(last), sep) == last,
        parts.len() > 0 ==> spec_join(parts.push(last), sep) == spec_join(parts, sep) + sep
            + last,
    decreases parts.len(),
{
    if parts.len() == 0 {
        assert(spec_join(parts.push(last), sep) =~= last);
    } else {
        lemma_join_snoc(parts.drop_first(), last, sep);
        assert(parts.push(last).drop_first() =~= parts.drop_first().push(last));
        if parts.len() == 1 {
            assert(parts.drop_first().push(last) =~= seq![last]);
            assert(spec_join(parts.push(last), sep) =~= parts[0] + sep + last);
            assert(spec_join(parts, sep) == parts[0]);
        } else {
            assert(spec_join(parts.push(last), sep) =~= spec_join(parts, sep) + sep + last);
        }
    }
}

/// The decimal notation of the signed `n` as a fresh string.
pub fn i64_to_dec(n: i64) -> (r: String)
    ensures
        r@ == dec_int_rep(n as int),
{
    if n >= 0 {
        u64_to_dec(n as u64)
    } else {
        // Compute the magnitude without overflowing at i64::MIN.
        let mag: u64 = ((-(n + 1)) as u64) + 1;
        assert(mag == -(n as int));
        let mut s = String::from_str("-");
        proof {
            reveal_strlit("-");
        }
        push_dec(&mut s, mag);
        proof {
            assert(s@ =~= dec_int_rep(n as int));
        }
        s
    }
}

} // verus!
