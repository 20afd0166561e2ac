//! Line grammars of fuzzer logs: a pattern is a sequence of literal text,
//! runs of decimal digits, optional literal text and runs of any characters.
//! A line matches at the first position from which the whole pattern
//! matches; runs of digits take every digit that follows, optional text is
//! taken when the rest of the pattern then matches, and runs of any
//! characters take as much as the rest of the pattern allows. Every digit
//! run and every run of any characters is captured.

use vstd::prelude::*;

use crate::text::{is_digit, matches_at, occurs_at};

verus! {

/// One element of a line pattern.
pub enum Tok {
    /// This text.
    Lit(Vec<char>),
    /// Zero or more decimal digits, as many as follow.
    Digits,
    /// This text or nothing; the text when the rest then matches.
    OptLit(Vec<char>),
    /// Zero or more characters other than a line feed, as many as the rest
    /// allows.
    Any,
}

/// A pattern element as character sequences.
pub enum TokSpec {
    Lit(Seq<char>),
    Digits,
    OptLit(Seq<char>),
    Any,
}

impl Tok {
    /// The element as character sequences.
    pub open spec fn spec(&self) -> TokSpec {
        match self {
            Tok::Lit(l) => TokSpec::Lit(l@),
            Tok::Digits => TokSpec::Digits,
            Tok::OptLit(l) => TokSpec::OptLit(l@),
            Tok::Any => TokSpec::Any,
        }
    }
}

/// The pattern as character sequences.
pub open spec fn toks_spec(toks: Seq<Tok>) -> Seq<TokSpec> {
    toks.map_values(|t: Tok| t.spec())
}

/// The first index at or after `i` that does not hold a digit.
pub open spec fn digits_end(s: Seq<char>, i: int) -> int
    decreases s.len() - i,
{
    if i < 0 || i >= s.len() || !is_digit(s[i]) {
        i
    } else {
        digits_end(s, i + 1)
    }
}

/// The end of the run of non-line-feed characters from `i`.
pub open spec fn line_end(s: Seq<char>, i: int) -> int
    decreases s.len() - i,
{
    if i < 0 || i >= s.len() || s[i] == '\n' {
        i
    } else {
        line_end(s, i + 1)
    }
}

/// Matching `toks[t..]` at position `i` of `s`: the capture bounds of the
/// digit and any-character runs, in order.
pub open spec fn match_from(s: Seq<char>, i: int, toks: Seq<TokSpec>, t: int) -> Option<
    Seq<(int, int)>,
>
    decreases toks.len() - t, s.len() + 2 - i, s.len() + 2,
{
    if t < 0 || t >= toks.len() {
        Some(seq![])
    } else if i < 0 || i > s.len() {
        None
    } else {
        match toks[t] {
            TokSpec::Lit(l) => if occurs_at(s, l, i) {
                match_from(s, i + l.len(), toks, t + 1)
            } else {
                None
            },
            TokSpec::Digits => {
                proof {
                    lemma_digits_end(s, i);
                }
                match match_from(s, digits_end(s, i), toks, t + 1) {
                    Some(c) => Some(seq![(i, digits_end(s, i))] + c),
                    None => None,
                }
            },
            TokSpec::OptLit(l) => if occurs_at(s, l, i) && match_from(s, i + l.len(), toks, t + 1) is Some {
                match_from(s, i + l.len(), toks, t + 1)
            } else {
                match_from(s, i, toks, t + 1)
            },
            TokSpec::Any => {
                proof {
                    lemma_line_end(s, i);
                }
                any_from(s, i, toks, t, line_end(s, i))
            },
        }
    }
}

/// Matching an any-character run at `i` followed by `toks[t + 1..]`, trying
/// the ends `j, j - 1, ..., i` in turn.
pub open spec fn any_from(s: Seq<char>, i: int, toks: Seq<TokSpec>, t: int, j: int) -> Option<
    Seq<(int, int)>,
>
    decreases toks.len() - t, s.len() + 2 - i, j - i + 1,
{
    if t < 0 || t >= toks.len() || i < 0 || j < i || j > s.len() {
        None
    } else {
        match match_from(s, j, toks, t + 1) {
            Some(c) => Some(seq![(i, j)] + c),
            None => any_from(s, i, toks, t, j - 1),
        }
    }
}

pub proof fn lemma_digits_end(s: Seq<char>, i: int)
    requires
        0 <= i <= s.len(),
    ensures
        i <= digits_end(s, i) <= s.len(),
        forall|k: int| i <= k < digits_end(s, i) ==> is_digit(s[k]),
        digits_end(s, i) < s.len() ==> !is_digit(s[digits_end(s, i)]),
    decreases s.len() - i,
{
    if i < s.len() && is_digit(s[i]) {
        lemma_digits_end(s, i + 1);
    }
}

pub proof fn lemma_line_end(s: Seq<char>, i: int)
    requires
        0 <= i <= s.len(),
    ensures
        i <= line_end(s, i) <= s.len(),
    decreases s.len() - i,
{
    if i < s.len() && s[i] != '\n' {
        lemma_line_end(s, i + 1);
    }
}

/// Number of captures of `toks[t..]`: one per digit run and per any-character run.
pub open spec fn count_caps(toks: Seq<TokSpec>, t: int) -> nat
    decreases toks.len() - t,
{
    if t < 0 || t >= toks.len() {
        0
    } else {
        (match toks[t] {
            TokSpec::Digits => 1nat,
            TokSpec::Any => 1nat,
            _ => 0nat,
        }) + count_caps(toks, t + 1)
    }
}

/// Captures lie between `lo` and the end of `s`, each start before its end.
pub open spec fn caps_within(c: Seq<(usize, usize)>, lo: int, n: int) -> bool {
    forall|k: int| 0 <= k < c.len() ==> lo <= (#[trigger] c[k]).0 <= c[k].1 <= n
}

/// The pattern matches from position `p` and from no earlier position.
pub open spec fn is_first_match(s: Seq<char>, toks: Seq<TokSpec>, p: int) -> bool {
    &&& 0 <= p <= s.len()
    &&& match_from(s, p, toks, 0) is Some
    &&& forall|q: int| 0 <= q < p ==> match_from(s, q, toks, 0) is None
}

/// The captures of the first match of the pattern in `s`, if any.
pub open spec fn first_match(s: Seq<char>, toks: Seq<TokSpec>) -> Option<Seq<(int, int)>> {
    if exists|p: int| is_first_match(s, toks, p) {
        match_from(s, choose|p: int| is_first_match(s, toks, p), toks, 0)
    } else {
        None
    }
}

/// The captures as bounds.
pub open spec fn caps_view(c: Seq<(usize, usize)>) -> Seq<(int, int)> {
    c.map_values(|p: (usize, usize)| (p.0 as int, p.1 as int))
}

fn skip_digits(s: &Vec<char>, i: usize) -> (r: usize)
    requires
        i <= s@.len(),
    ensures
        r == digits_end(s@, i as int),
{
    let mut j = i;
    while j < s.len() && '0' <= s[j] && s[j] <= '9'
        invariant
            i <= j <= s@.len(),
            digits_end(s@, i as int) == digits_end(s@, j as int),
        decreases s@.len() - j,
    {
        j = j + 1;
    }
    j
}

fn skip_line(s: &Vec<char>, i: usize) -> (r: usize)
    requires
        i <= s@.len(),
    ensures
        r == line_end(s@, i as int),
{
    let mut j = i;
    while j < s.len() && s[j] != '\n'
        invariant
            i <= j <= s@.len(),
            line_end(s@, i as int) == line_end(s@, j as int),
        decreases s@.len() - j,
    {
        j = j + 1;
    }
    j
}

fn prepend(b: (usize, usize), c: Vec<(usize, usize)>) -> (r: Vec<(usize, usize)>)
    ensures
        caps_view(r@) == seq![(b.0 as int, b.1 as int)] + caps_view(c@),
        r@.len() == c@.len() + 1,
        r@[0] == b,
        forall|k: int| 0 <= k < c@.len() ==> r@[k + 1] == #[trigger] c@[k],
{
    let mut r: Vec<(usize, usize)> = Vec::new();
    r.push(b);
    let mut k: usize = 0;
    while k < c.len()
        invariant
            k <= c@.len(),
            caps_view(r@) == seq![(b.0 as int, b.1 as int)] + caps_view(c@.subrange(0, k as int)),
            r@.len() == k + 1,
            r@[0] == b,
            forall|x: int| 0 <= x < k ==> r@[x + 1] == #[trigger] c@[x],
        decreases c@.len() - k,
    {
        let ghost r0 = r@;
        r.push(c[k]);
        proof {
            assert(r@ =~= r0.push(c@[k as int]));
            assert(c@.subrange(0, k + 1) =~= c@.subrange(0, k as int).push(c@[k as int]));
            assert(caps_view(r@) =~= caps_view(r0).push((c@[k as int].0 as int, c@[k as int].1 as int)));
            assert(caps_view(c@.subrange(0, k + 1)) =~= caps_view(c@.subrange(0, k as int)).push(
                (c@[k as int].0 as int, c@[k as int].1 as int),
            ));
        }
        k = k + 1;
        assert(caps_view(r@) =~= seq![(b.0 as int, b.1 as int)] + caps_view(c@.subrange(0, k as int)));
    }
    assert(c@.subrange(0, k as int) =~= c@);
    r
}

proof fn lemma_prepend_within(b: (usize, usize), c: Seq<(usize, usize)>, r: Seq<(usize, usize)>, lo: int, n: int)
    requires
        r.len() == c.len() + 1,
        r[0] == b,
        forall|k: int| 0 <= k < c.len() ==> r[k + 1] == #[trigger] c[k],
        lo <= b.0 <= b.1 <= n,
        caps_within(c, b.1 as int, n),
    ensures
        caps_within(r, lo, n),
{
    assert forall|k: int| 0 <= k < r.len() implies lo <= (#[trigger] r[k]).0 <= r[k].1 <= n by {
        if k > 0 {
            assert(r[k] == c[k - 1]);
        }
    }
}

/// `match_from(s, i, toks, t)`.
pub fn match_tokens(s: &Vec<char>, i: usize, toks: &Vec<Tok>, t: usize) -> (r: Option<Vec<(usize, usize)>>)
    requires
        i <= s@.len(),
        t <= toks@.len(),
    ensures
        match r {
            Some(c) => match_from(s@, i as int, toks_spec(toks@), t as int) == Some(caps_view(c@))
                && c@.len() == count_caps(toks_spec(toks@), t as int) && caps_within(c@, i as int, s@.len() as int),
            None => match_from(s@, i as int, toks_spec(toks@), t as int) is None,
        },
    decreases toks@.len() - t, s@.len() + 2 - i, 1int,
{
    let ghost ts = toks_spec(toks@);
    if t >= toks.len() {
        let v: Vec<(usize, usize)> = Vec::new();
        assert(caps_view(v@) =~= seq![]);
        return Some(v);
    }
    assert(ts[t as int] == toks@[t as int].spec());
    match &toks[t] {
        Tok::Lit(l) => {
            if l.len() <= s.len() - i && matches_at(s, l, i) {
                match_tokens(s, i + l.len(), toks, t + 1)
            } else {
                None
            }
        },
        Tok::Digits => {
            let j = skip_digits(s, i);
            proof {
                lemma_digits_end(s@, i as int);
            }
            match match_tokens(s, j, toks, t + 1) {
                Some(c) => {
                    let r = prepend((i, j), c);
                    proof {
                        lemma_prepend_within((i, j), c@, r@, i as int, s@.len() as int);
                    }
                    Some(r)
                },
                None => None,
            }
        },
        Tok::OptLit(l) => {
            if l.len() <= s.len() - i && matches_at(s, l, i) {
                let m = match_tokens(s, i + l.len(), toks, t + 1);
                if m.is_some() {
                    return m;
                }
            }
            match_tokens(s, i, toks, t + 1)
        },
        Tok::Any => {
            let e = skip_line(s, i);
            proof {
                lemma_line_end(s@, i as int);
            }
            let mut j = e;
            let tlen = toks.len();
            assert(match_from(s@, i as int, ts, t as int) == any_from(s@, i as int, ts, t as int, e as int));
            loop
                invariant
                    i <= j <= e <= s@.len(),
                    tlen == toks@.len(),
                    t < toks@.len(),
                    match_from(s@, i as int, ts, t as int) == any_from(s@, i as int, ts, t as int, j as int),
                    ts == toks_spec(toks@),
                    ts[t as int] is Any,
                    any_from(s@, i as int, ts, t as int, e as int) == any_from(
                        s@,
                        i as int,
                        ts,
                        t as int,
                        j as int,
                    ),
                decreases j - i,
            {
                match match_tokens(s, j, toks, t + 1) {
                    Some(c) => {
                        let r = prepend((i, j), c);
                        proof {
                            lemma_prepend_within((i, j), c@, r@, i as int, s@.len() as int);
                        }
                        return Some(r);
                    },
                    None => {},
                }
                if j == i {
                    assert(any_from(s@, i as int, ts, t as int, i - 1) is None);
                    return None;
                }
                j = j - 1;
            }
        },
    }
}

/// The captures of the first match of `toks` in `s`.
pub fn find_first_match(s: &Vec<char>, toks: &Vec<Tok>) -> (r: Option<Vec<(usize, usize)>>)
    ensures
        match r {
            Some(c) => first_match(s@, toks_spec(toks@)) == Some(caps_view(c@)) && c@.len()
                == count_caps(toks_spec(toks@), 0) && caps_within(c@, 0, s@.len() as int),
            None => first_match(s@, toks_spec(toks@)) is None,
        },
{
    let ghost ts = toks_spec(toks@);
    let n = s.len();
    let mut p: usize = 0;
    loop
        invariant
            n == s@.len(),
            p <= n,
            ts == toks_spec(toks@),
            forall|q: int| 0 <= q < p ==> match_from(s@, q, ts, 0) is None,
        decreases n - p,
    {
        match match_tokens(s, p, toks, 0) {
            Some(c) => {
                proof {
                    assert(is_first_match(s@, ts, p as int));
                    let p2 = choose|p2: int| is_first_match(s@, ts, p2);
                    if p2 < p {
                        assert(match_from(s@, p2, ts, 0) is None);
                    }
                    if p < p2 {
                        assert(match_from(s@, p as int, ts, 0) is None);
                    }
                }
                return Some(c);
            },
            None => {},
        }
        if p == n {
            proof {
                if exists|p2: int| is_first_match(s@, ts, p2) {
                    let p2 = choose|p2: int| is_first_match(s@, ts, p2);
                    assert(match_from(s@, p2, ts, 0) is None);
                }
            }
            return None;
        }
        p = p + 1;
    }
}

} // verus!
