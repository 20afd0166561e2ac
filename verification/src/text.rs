//! Text utilities over sequences of characters: conversions between `str`,
//! `String` and `Vec<char>`, searching, trimming, splitting, line splitting,
//! decimal parsing and printing, and lowercase hex encoding.

use vstd::prelude::*;

verus! {

/// `String::push` appends one character.
pub assume_specification[ std::string::String::push ](s: &mut String, ch: char)
    ensures
        final(s)@ == old(s)@.push(ch),
;

/// Appends the characters of `t` to `s`.
pub fn push_str(s: &mut String, t: &str)
    ensures
        final(s)@ == old(s)@ + t@,
{
    let ghost s0 = s@;
    for c in it: t.chars()
        invariant
            s@ == s0 + it.seq().take(it.index() as int),
    {
        s.push(c);
        assert(s@ =~= s0 + it.seq().take(it.index() + 1));
    }
    assert(s@ =~= s0 + t@);
}

/// `a` followed by `b`.
pub fn concat(a: &str, b: &str) -> (r: String)
    ensures
        r@ == a@ + b@,
{
    let mut r = a.to_owned();
    push_str(&mut r, b);
    r
}

/// Whether `a` and `b` hold the same characters.
pub fn eq_str(a: &str, b: &str) -> (r: bool)
    ensures
        r == (a@ == b@),
{
    let x = a.to_owned();
    let y = b.to_owned();
    x == y
}

/// The strings as character sequences.
pub open spec fn strings_view(v: Seq<String>) -> Seq<Seq<char>> {
    v.map_values(|s: String| s@)
}

/// Appends copies of the strings of `src` to `dst`.
pub fn extend_strings(dst: &mut Vec<String>, src: &Vec<String>)
    ensures
        strings_view(final(dst)@) == strings_view(old(dst)@) + strings_view(src@),
{
    let ghost d0 = strings_view(dst@);
    let mut i: usize = 0;
    while i < src.len()
        invariant
            i <= src@.len(),
            strings_view(dst@) == d0 + strings_view(src@).subrange(0, i as int),
        decreases src@.len() - i,
    {
        let x = src[i].clone();
        let ghost a0 = dst@;
        dst.push(x);
        proof {
            assert(strings_view(dst@) =~= strings_view(a0).push(x@));
            assert(strings_view(src@).subrange(0, i + 1) =~= strings_view(src@).subrange(0, i as int).push(x@));
        }
        i = i + 1;
    }
    assert(strings_view(src@).subrange(0, i as int) =~= strings_view(src@));
}

/// The characters of `s`, in order.
pub fn chars_of(s: &str) -> (r: Vec<char>)
    ensures
        r@ == s@,
{
    let mut r: Vec<char> = Vec::new();
    for c in it: s.chars()
        invariant
            r@ == it.seq().take(it.index() as int),
    {
        r.push(c);
    }
    proof {
        broadcast use vstd::string::axiom_spec_iter;
    }
    r
}


/// The characters of `cs[lo..hi]` as a `String`.
pub fn string_of(cs: &Vec<char>, lo: usize, hi: usize) -> (r: String)
    requires
        lo <= hi <= cs@.len(),
    ensures
        r@ == cs@.subrange(lo as int, hi as int),
{
    let mut r = String::new();
    let mut i = lo;
    while i < hi
        invariant
            lo <= i <= hi <= cs@.len(),
            r@ == cs@.subrange(lo as int, i as int),
        decreases hi - i,
    {
        r.push(cs[i]);
        i = i + 1;
        assert(r@ =~= cs@.subrange(lo as int, i as int));
    }
    r
}

/// `s` begins with `p`.
pub open spec fn starts_with(s: Seq<char>, p: Seq<char>) -> bool {
    p.len() <= s.len() && s.subrange(0, p.len() as int) == p
}

/// `p` occurs in `s` at position `i`.
pub open spec fn occurs_at(s: Seq<char>, p: Seq<char>, i: int) -> bool {
    0 <= i && i + p.len() <= s.len() && s.subrange(i, i + p.len()) == p
}

/// `p` occurs somewhere in `s`.
pub open spec fn contains(s: Seq<char>, p: Seq<char>) -> bool {
    exists|i: int| occurs_at(s, p, i)
}

/// Whether `p` occurs in `s` at position `i` (exec).
pub fn matches_at(s: &Vec<char>, p: &Vec<char>, i: usize) -> (r: bool)
    requires
        i <= s@.len(),
    ensures
        r == occurs_at(s@, p@, i as int),
{
    if p.len() > s.len() - i {
        return false;
    }
    let slen = s.len();
    let mut k: usize = 0;
    while k < p.len()
        invariant
            slen == s@.len(),
            i <= s@.len(),
            i + p@.len() <= s@.len(),
            k <= p@.len(),
            forall|j: int| 0 <= j < k ==> s@[i + j] == p@[j],
        decreases p@.len() - k,
    {
        if s[i + k] != p[k] {
            assert(s@.subrange(i as int, i + p@.len())[k as int] != p@[k as int]);
            return false;
        }
        k = k + 1;
    }
    assert(s@.subrange(i as int, i + p@.len()) =~= p@);
    true
}

/// Whether `s` begins with `p` (exec).
pub fn has_prefix(s: &Vec<char>, p: &Vec<char>) -> (r: bool)
    ensures
        r == starts_with(s@, p@),
{
    matches_at(s, p, 0)
}

/// Whether `p` occurs in `s` (exec).
pub fn has_substring(s: &Vec<char>, p: &Vec<char>) -> (r: bool)
    ensures
        r == contains(s@, p@),
{
    if p.len() > s.len() {
        assert(!contains(s@, p@));
        return false;
    }
    let last = s.len() - p.len();
    let mut i: usize = 0;
    loop
        invariant
            p@.len() <= s@.len(),
            last == s@.len() - p@.len(),
            i <= last,
            forall|j: int| 0 <= j < i ==> !occurs_at(s@, p@, j),
        ensures
            forall|j: int| 0 <= j <= last ==> !occurs_at(s@, p@, j),
        decreases last - i,
    {
        if matches_at(s, p, i) {
            return true;
        }
        if i == last {
            break ;
        }
        i = i + 1;
    }
    assert forall|j: int| !occurs_at(s@, p@, j) by {
        if 0 <= j && j + p@.len() <= s@.len() {
            assert(j <= last);
        }
    }
    false
}

/// Unicode `White_Space` characters, as `char::is_whitespace` documents them.
pub open spec fn is_ws(c: char) -> bool {
    ||| ('\u{9}' <= c && c <= '\u{d}')
    ||| c == ' '
    ||| c == '\u{85}'
    ||| c == '\u{a0}'
    ||| c == '\u{1680}'
    ||| ('\u{2000}' <= c && c <= '\u{200a}')
    ||| c == '\u{2028}'
    ||| c == '\u{2029}'
    ||| c == '\u{202f}'
    ||| c == '\u{205f}'
    ||| c == '\u{3000}'
}

/// Whether `c` is Unicode white space (exec).
pub fn is_whitespace(c: char) -> (r: bool)
    ensures
        r == is_ws(c),
{
    ('\u{9}' <= c && c <= '\u{d}') || c == ' ' || c == '\u{85}' || c == '\u{a0}' || c
        == '\u{1680}' || ('\u{2000}' <= c && c <= '\u{200a}') || c == '\u{2028}' || c
        == '\u{2029}' || c == '\u{202f}' || c == '\u{205f}' || c == '\u{3000}'
}

/// `s` without leading white space.
pub open spec fn trim_start(s: Seq<char>) -> Seq<char>
    decreases s.len(),
{
    if s.len() > 0 && is_ws(s[0]) {
        trim_start(s.drop_first())
    } else {
        s
    }
}

/// `s` without trailing white space.
pub open spec fn trim_end(s: Seq<char>) -> Seq<char>
    decreases s.len(),
{
    if s.len() > 0 && is_ws(s.last()) {
        trim_end(s.drop_last())
    } else {
        s
    }
}

/// `s` without leading and trailing white space (`str::trim`).
pub open spec fn trim(s: Seq<char>) -> Seq<char> {
    trim_end(trim_start(s))
}

proof fn lemma_trim_start_sub(s: Seq<char>, i: int)
    requires
        0 <= i <= s.len(),
        forall|j: int| 0 <= j < i ==> is_ws(s[j]),
    ensures
        trim_start(s) == trim_start(s.subrange(i, s.len() as int)),
    decreases i,
{
    if i > 0 {
        assert(is_ws(s[0]));
        lemma_trim_start_sub(s.drop_first(), i - 1);
        assert(s.drop_first().subrange(i - 1, s.drop_first().len() as int) =~= s.subrange(
            i,
            s.len() as int,
        ));
    } else {
        assert(s.subrange(0, s.len() as int) =~= s);
    }
}

proof fn lemma_trim_end_sub(s: Seq<char>, i: int)
    requires
        0 <= i <= s.len(),
        forall|j: int| i <= j < s.len() ==> is_ws(s[j]),
    ensures
        trim_end(s) == trim_end(s.subrange(0, i)),
    decreases s.len() - i,
{
    if i < s.len() {
        assert(is_ws(s.last()));
        lemma_trim_end_sub(s.drop_last(), i);
        assert(s.drop_last().subrange(0, i) =~= s.subrange(0, i));
    } else {
        assert(s.subrange(0, i) =~= s);
    }
}

/// The bounds `[a, b)` of `trim(cs[lo..hi])` inside `cs`.
pub fn trim_bounds(cs: &Vec<char>, lo: usize, hi: usize) -> (r: (usize, usize))
    requires
        lo <= hi <= cs@.len(),
    ensures
        lo <= r.0 <= r.1 <= hi,
        cs@.subrange(r.0 as int, r.1 as int) == trim(cs@.subrange(lo as int, hi as int)),
{
    let ghost s = cs@.subrange(lo as int, hi as int);
    let mut a = lo;
    while a < hi && is_whitespace(cs[a])
        invariant
            lo <= a <= hi <= cs@.len(),
            s == cs@.subrange(lo as int, hi as int),
            forall|j: int| lo <= j < a ==> is_ws(cs@[j]),
        decreases hi - a,
    {
        a = a + 1;
    }
    proof {
        lemma_trim_start_sub(s, a - lo);
        assert(s.subrange(a - lo, s.len() as int) =~= cs@.subrange(a as int, hi as int));
        let t = cs@.subrange(a as int, hi as int);
        if t.len() > 0 {
            assert(t[0] == cs@[a as int]);
        }
        assert(trim_start(t) == t);
    }
    let mut b = hi;
    while b > a && is_whitespace(cs[b - 1])
        invariant
            lo <= a <= b <= hi <= cs@.len(),
            forall|j: int| b <= j < hi ==> is_ws(cs@[j]),
        decreases b - a,
    {
        b = b - 1;
    }
    proof {
        let t = cs@.subrange(a as int, hi as int);
        lemma_trim_end_sub(t, b - a);
        assert(t.subrange(0, b - a) =~= cs@.subrange(a as int, b as int));
        let u = cs@.subrange(a as int, b as int);
        if u.len() > 0 {
            assert(u.last() == cs@[b - 1]);
        }
        assert(trim_end(u) == u);
    }
    (a, b)
}

/// The first index `j >= i` with `s[j] == c`, or `s.len()` when there is none.
pub open spec fn next_index_of(s: Seq<char>, c: char, i: int) -> int
    decreases s.len() - i,
{
    if i >= s.len() {
        s.len() as int
    } else if s[i] == c {
        i
    } else {
        next_index_of(s, c, i + 1)
    }
}

pub proof fn lemma_next_index_of(s: Seq<char>, c: char, i: int)
    requires
        0 <= i <= s.len(),
    ensures
        i <= next_index_of(s, c, i) <= s.len(),
        next_index_of(s, c, i) < s.len() ==> s[next_index_of(s, c, i)] == c,
        forall|j: int| i <= j < next_index_of(s, c, i) ==> s[j] != c,
    decreases s.len() - i,
{
    if i < s.len() && s[i] != c {
        lemma_next_index_of(s, c, i + 1);
    }
}

/// Exec counterpart of `next_index_of`.
pub fn find_char_from(s: &Vec<char>, c: char, i: usize) -> (r: usize)
    requires
        i <= s@.len(),
    ensures
        r == next_index_of(s@, c, i as int),
{
    let mut j = i;
    while j < s.len() && s[j] != c
        invariant
            i <= j <= s@.len(),
            next_index_of(s@, c, i as int) == next_index_of(s@, c, j as int),
        decreases s@.len() - j,
    {
        j = j + 1;
    }
    j
}

/// The pieces of `s[i..]` between occurrences of `d`, empty pieces included
/// (the pieces of `str::split` with a `char` pattern).
pub open spec fn split_from(s: Seq<char>, d: char, i: int) -> Seq<Seq<char>>
    decreases s.len() - i,
{
    if i < 0 || i > s.len() || next_index_of(s, d, i) >= s.len() {
        seq![s.subrange(i, s.len() as int)]
    } else {
        proof {
            lemma_next_index_of(s, d, i);
        }
        seq![s.subrange(i, next_index_of(s, d, i))] + split_from(s, d, next_index_of(s, d, i) + 1)
    }
}

pub proof fn lemma_split_from_nonempty(s: Seq<char>, d: char, i: int)
    ensures
        split_from(s, d, i).len() >= 1,
    decreases s.len() - i,
{
    if !(i < 0 || i > s.len() || next_index_of(s, d, i) >= s.len()) {
        lemma_next_index_of(s, d, i);
        lemma_split_from_nonempty(s, d, next_index_of(s, d, i) + 1);
    }
}

/// A split has at least one piece.
pub proof fn lemma_split_nonempty(s: Seq<char>, d: char)
    ensures
        split(s, d).len() >= 1,
{
    lemma_split_from_nonempty(s, d, 0);
}

/// `str::split` by a single character.
pub open spec fn split(s: Seq<char>, d: char) -> Seq<Seq<char>> {
    split_from(s, d, 0)
}

/// The pieces of `cs` split by `d`, as `(start, end)` bounds into `cs`.
pub fn split_bounds(cs: &Vec<char>, d: char) -> (r: Vec<(usize, usize)>)
    ensures
        r@.len() == split(cs@, d).len(),
        forall|k: int|
            0 <= k < r@.len() ==> (#[trigger] r@[k]).0 <= r@[k].1 <= cs@.len() && cs@.subrange(
                r@[k].0 as int,
                r@[k].1 as int,
            ) == split(cs@, d)[k],
{
    let mut r: Vec<(usize, usize)> = Vec::new();
    let mut i: usize = 0;
    loop
        invariant_except_break
            split(cs@, d) =~= Seq::new(
                r@.len(),
                |k: int| cs@.subrange(r@[k].0 as int, r@[k].1 as int),
            ) + split_from(cs@, d, i as int),
        invariant
            i <= cs@.len(),
            forall|k: int| 0 <= k < r@.len() ==> (#[trigger] r@[k]).0 <= r@[k].1 <= cs@.len(),
        ensures
            forall|k: int| 0 <= k < r@.len() ==> (#[trigger] r@[k]).0 <= r@[k].1 <= cs@.len(),
            split(cs@, d) =~= Seq::new(
                r@.len(),
                |k: int| cs@.subrange(r@[k].0 as int, r@[k].1 as int),
            ),
        decreases cs@.len() - i,
    {
        let ghost old_r = r@;
        let j = find_char_from(cs, d, i);
        proof {
            lemma_next_index_of(cs@, d, i as int);
        }
        if j >= cs.len() {
            r.push((i, cs.len()));
            proof {
                assert(split_from(cs@, d, i as int) == seq![cs@.subrange(i as int, cs@.len() as int)]);
                assert(Seq::new(r@.len(), |k: int| cs@.subrange(r@[k].0 as int, r@[k].1 as int))
                    =~= Seq::new(old_r.len(), |k: int| cs@.subrange(old_r[k].0 as int, old_r[k].1 as int))
                    + split_from(cs@, d, i as int));
            }
            break ;
        }
        r.push((i, j));
        proof {
            assert(split_from(cs@, d, i as int) == seq![cs@.subrange(i as int, j as int)]
                + split_from(cs@, d, j + 1));
            assert(Seq::new(r@.len(), |k: int| cs@.subrange(r@[k].0 as int, r@[k].1 as int))
                =~= Seq::new(old_r.len(), |k: int| cs@.subrange(old_r[k].0 as int, old_r[k].1 as int))
                + seq![cs@.subrange(i as int, j as int)]);
        }
        i = j + 1;
    }
    r
}


/// A copy of `cs[lo..hi]`.
pub fn sub_vec(cs: &Vec<char>, lo: usize, hi: usize) -> (r: Vec<char>)
    requires
        lo <= hi <= cs@.len(),
    ensures
        r@ == cs@.subrange(lo as int, hi as int),
{
    let mut r: Vec<char> = Vec::new();
    let mut i = lo;
    while i < hi
        invariant
            lo <= i <= hi <= cs@.len(),
            r@ == cs@.subrange(lo as int, i as int),
        decreases hi - i,
    {
        r.push(cs[i]);
        i = i + 1;
        assert(r@ =~= cs@.subrange(lo as int, i as int));
    }
    r
}

/// `l` without one trailing carriage return.
pub open spec fn strip_cr(l: Seq<char>) -> Seq<char> {
    if l.len() > 0 && l.last() == '\r' {
        l.drop_last()
    } else {
        l
    }
}

/// The lines of `s[i..]`, as `str::lines` yields them.
pub open spec fn lines_from(s: Seq<char>, i: int) -> Seq<Seq<char>>
    decreases s.len() - i,
{
    if i < 0 || i >= s.len() {
        seq![]
    } else if next_index_of(s, '\n', i) >= s.len() {
        seq![s.subrange(i, s.len() as int)]
    } else {
        proof {
            lemma_next_index_of(s, '\n', i);
        }
        seq![strip_cr(s.subrange(i, next_index_of(s, '\n', i)))] + lines_from(
            s,
            next_index_of(s, '\n', i) + 1,
        )
    }
}

/// The lines of `s` (`str::lines`): split at `\n`, a `\r` before the `\n`
/// dropped, and no empty line after a final line ending.
pub open spec fn lines(s: Seq<char>) -> Seq<Seq<char>> {
    lines_from(s, 0)
}

/// The lines of `cs`.
pub fn lines_of(cs: &Vec<char>) -> (r: Vec<Vec<char>>)
    ensures
        r@.len() == lines(cs@).len(),
        forall|k: int| 0 <= k < r@.len() ==> (#[trigger] r@[k])@ == lines(cs@)[k],
{
    let mut r: Vec<Vec<char>> = Vec::new();
    let mut i: usize = 0;
    let n = cs.len();
    while i < n
        invariant
            n == cs@.len(),
            i <= n,
            lines(cs@) =~= Seq::new(r@.len(), |k: int| r@[k]@) + lines_from(cs@, i as int),
        decreases n - i,
    {
        let ghost old_r = r@;
        let j = find_char_from(cs, '\n', i);
        proof {
            lemma_next_index_of(cs@, '\n', i as int);
        }
        if j >= n {
            let line = sub_vec(cs, i, n);
            r.push(line);
            proof {
                assert(Seq::new(r@.len(), |k: int| r@[k]@) =~= Seq::new(
                    old_r.len(),
                    |k: int| old_r[k]@,
                ) + lines_from(cs@, i as int));
                assert(lines_from(cs@, n as int) =~= seq![]);
            }
            i = n;
        } else {
            let mut e = j;
            if e > i && cs[e - 1] == '\r' {
                e = e - 1;
            }
            let line = sub_vec(cs, i, e);
            r.push(line);
            proof {
                assert(strip_cr(cs@.subrange(i as int, j as int)) =~= cs@.subrange(
                    i as int,
                    e as int,
                ));
                assert(Seq::new(r@.len(), |k: int| r@[k]@) =~= Seq::new(
                    old_r.len(),
                    |k: int| old_r[k]@,
                ) + seq![cs@.subrange(i as int, e as int)]);
            }
            i = j + 1;
        }
    }
    assert(lines_from(cs@, i as int) =~= seq![]);
    assert(lines(cs@) =~= Seq::new(r@.len(), |k: int| r@[k]@));
    proof {
        assert forall|k: int| 0 <= k < r@.len() implies (#[trigger] r@[k])@ == lines(cs@)[k] by {
            assert(Seq::new(r@.len(), |k: int| r@[k]@)[k] == r@[k]@);
        }
    }
    r
}

/// `c` is an ASCII decimal digit.
pub open spec fn is_digit(c: char) -> bool {
    '0' <= c && c <= '9'
}

/// The value of the decimal digit `c`.
pub open spec fn digit_val(c: char) -> nat {
    ((c as u32) - 48) as nat
}

/// Every character of `s` is a decimal digit.
pub open spec fn all_digits(s: Seq<char>) -> bool {
    forall|i: int| 0 <= i < s.len() ==> is_digit(#[trigger] s[i])
}

/// The value of the decimal numeral `s`.
pub open spec fn dec_val(s: Seq<char>) -> nat
    decreases s.len(),
{
    if s.len() == 0 {
        0
    } else {
        dec_val(s.drop_last()) * 10 + digit_val(s.last())
    }
}

/// `s` without one leading `+`.
pub open spec fn unsigned_digits(s: Seq<char>) -> Seq<char> {
    if s.len() > 0 && s[0] == '+' {
        s.drop_first()
    } else {
        s
    }
}

/// What `str::parse::<u64>` gives: an optional `+`, then one or more decimal
/// digits whose value fits in 64 bits.
pub open spec fn parse_u64(s: Seq<char>) -> Option<u64> {
    let d = unsigned_digits(s);
    if d.len() > 0 && all_digits(d) && dec_val(d) <= u64::MAX {
        Some(dec_val(d) as u64)
    } else {
        None
    }
}

proof fn lemma_dec_val_prefix(s: Seq<char>, k: int)
    requires
        0 <= k <= s.len(),
    ensures
        dec_val(s.subrange(0, k)) <= dec_val(s),
    decreases s.len() - k,
{
    if k < s.len() {
        lemma_dec_val_prefix(s, k + 1);
        assert(s.subrange(0, k + 1).drop_last() =~= s.subrange(0, k));
    } else {
        assert(s.subrange(0, k) =~= s);
    }
}

/// `parse_u64(cs[lo..hi])`.
pub fn parse_u64_in(cs: &Vec<char>, lo: usize, hi: usize) -> (r: Option<u64>)
    requires
        lo <= hi <= cs@.len(),
    ensures
        r == parse_u64(cs@.subrange(lo as int, hi as int)),
{
    let ghost s = cs@.subrange(lo as int, hi as int);
    let mut start = lo;
    if start < hi && cs[start] == '+' {
        start = start + 1;
    }
    let ghost d = cs@.subrange(start as int, hi as int);
    assert(unsigned_digits(s) =~= d);
    if start == hi {
        return None;
    }
    let mut acc: u64 = 0;
    let mut i = start;
    while i < hi
        invariant
            lo <= start <= i <= hi <= cs@.len(),
            start < hi,
            d == cs@.subrange(start as int, hi as int),
            s == cs@.subrange(lo as int, hi as int),
            unsigned_digits(s) == d,
            all_digits(cs@.subrange(start as int, i as int)),
            acc as nat == dec_val(cs@.subrange(start as int, i as int)),
        decreases hi - i,
    {
        let c = cs[i];
        if !('0' <= c && c <= '9') {
            assert(d[i - start] == c);
            assert(!all_digits(d));
            return None;
        }
        let dv: u64 = (c as u32 - 48) as u64;
        proof {
            assert(cs@.subrange(start as int, i + 1).drop_last() =~= cs@.subrange(
                start as int,
                i as int,
            ));
            assert(cs@.subrange(start as int, i + 1).last() == c);
        }
        if acc > (u64::MAX - dv) / 10 {
            proof {
                assert(acc * 10 + dv > u64::MAX) by (nonlinear_arith)
                    requires
                        acc > (u64::MAX - dv) / 10,
                        dv <= 9,
                ;
                if all_digits(d) {
                    assert(d.subrange(0, i + 1 - start) =~= cs@.subrange(start as int, i + 1));
                    lemma_dec_val_prefix(d, i + 1 - start);
                }
            }
            return None;
        }
        assert(acc * 10 + dv <= u64::MAX) by (nonlinear_arith)
            requires
                acc <= (u64::MAX - dv) / 10,
                dv <= 9,
        ;
        acc = acc * 10 + dv;
        i = i + 1;
        assert(all_digits(cs@.subrange(start as int, i as int)));
    }
    Some(acc)
}

/// The number `s` holds, or zero when it holds none (`parse().unwrap_or(0)`).
pub open spec fn parse_or_zero(s: Seq<char>) -> u64 {
    match parse_u64(s) {
        Some(v) => v,
        None => 0,
    }
}

/// `parse_or_zero(cs[lo..hi])`.
pub fn parse_u64_or_zero(cs: &Vec<char>, lo: usize, hi: usize) -> (r: u64)
    requires
        lo <= hi <= cs@.len(),
    ensures
        r == parse_or_zero(cs@.subrange(lo as int, hi as int)),
{
    match parse_u64_in(cs, lo, hi) {
        Some(v) => v,
        None => 0,
    }
}

/// The decimal digit character for `n < 10`.
pub open spec fn digit_char(n: nat) -> char {
    ((n + 48) as u8) as char
}

/// The decimal numeral of `n` without leading zeros (`u64`'s `Display`).
pub open spec fn dec_str(n: nat) -> Seq<char>
    decreases n,
{
    if n < 10 {
        seq![digit_char(n)]
    } else {
        dec_str(n / 10).push(digit_char(n % 10))
    }
}

/// Appends the decimal numeral of `n` to `s`.
pub fn push_decimal(s: &mut String, n: u64)
    ensures
        final(s)@ == old(s)@ + dec_str(n as nat),
    decreases n,
{
    if n >= 10 {
        push_decimal(s, n / 10);
    }
    let d: u8 = (n % 10) as u8;
    s.push((d + 48) as char);
    assert(s@ =~= old(s)@ + dec_str(n as nat));
}

/// The decimal numeral of `n`.
pub fn decimal(n: u64) -> (r: String)
    ensures
        r@ == dec_str(n as nat),
{
    let mut s = String::new();
    push_decimal(&mut s, n);
    assert(s@ =~= dec_str(n as nat));
    s
}

/// The lowercase hexadecimal digit for `n < 16`.
pub open spec fn hex_digit(n: nat) -> char {
    if n < 10 {
        ((n + 48) as u8) as char
    } else {
        ((n + 87) as u8) as char
    }
}

/// Lowercase hexadecimal, two digits per byte, most significant first.
pub open spec fn hex_lower(bytes: Seq<u8>) -> Seq<char>
    decreases bytes.len(),
{
    if bytes.len() == 0 {
        seq![]
    } else {
        hex_lower(bytes.drop_last()).push(hex_digit((bytes.last() / 16) as nat)).push(
            hex_digit((bytes.last() % 16) as nat),
        )
    }
}

fn hex_char(n: u8) -> (c: char)
    requires
        n < 16,
    ensures
        c == hex_digit(n as nat),
{
    if n < 10 {
        (n + 48) as char
    } else {
        (n + 87) as char
    }
}

pub proof fn lemma_hex_lower_len(bytes: Seq<u8>)
    ensures
        hex_lower(bytes).len() == 2 * bytes.len(),
    decreases bytes.len(),
{
    if bytes.len() > 0 {
        lemma_hex_lower_len(bytes.drop_last());
    }
}

/// Appends `hex_lower(bytes)` to `s`.
pub fn push_hex(s: &mut String, bytes: &[u8])
    ensures
        final(s)@ == old(s)@ + hex_lower(bytes@),
{
    let n = bytes.len();
    let mut i: usize = 0;
    while i < n
        invariant
            n == bytes@.len(),
            i <= n,
            s@ == old(s)@ + hex_lower(bytes@.subrange(0, i as int)),
        decreases n - i,
    {
        let b = bytes[i];
        s.push(hex_char(b / 16));
        s.push(hex_char(b % 16));
        proof {
            assert(bytes@.subrange(0, i + 1).drop_last() =~= bytes@.subrange(0, i as int));
            assert(bytes@.subrange(0, i + 1).last() == b);
        }
        i = i + 1;
        assert(s@ =~= old(s)@ + hex_lower(bytes@.subrange(0, i as int)));
    }
    assert(bytes@.subrange(0, n as int) =~= bytes@);
}

} // verus!
