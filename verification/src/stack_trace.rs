//! Stack traces printed by sanitizers: splitting frame lines, extracting the
//! frames of a libFuzzer report, and hashing frames for deduplication.

use vstd::prelude::*;

use crate::digest::{sha1_digest, sha1_of};
use crate::text::{
    chars_of, contains, has_prefix, has_substring, lines, lines_of, matches_at, starts_with,
    string_of, trim, trim_bounds, hex_lower, push_hex, lemma_hex_lower_len,
};

verus! {

/// The net nesting of parentheses in `s[0..i]`: `(` counts one up, `)` one down.
pub open spec fn paren_depth(s: Seq<char>, i: int) -> int
    decreases i,
{
    if i <= 0 || i > s.len() {
        0
    } else {
        paren_depth(s, i - 1) + (if s[i - 1] == '(' {
            1int
        } else if s[i - 1] == ')' {
            -1int
        } else {
            0int
        })
    }
}

/// Position `i` of `s` splits: it holds the delimiter, outside any parentheses.
pub open spec fn is_cut(s: Seq<char>, delim: char, i: int) -> bool {
    &&& 0 <= i < s.len()
    &&& s[i] == delim
    &&& delim != '('
    &&& delim != ')'
    &&& paren_depth(s, i) == 0
}

/// After reading `s[0..n]`: the pieces closed so far and where the open piece starts.
pub open spec fn split_state(s: Seq<char>, delim: char, n: int) -> (Seq<Seq<char>>, int)
    decreases n,
{
    if n <= 0 {
        (seq![], 0)
    } else {
        let (pieces, start) = split_state(s, delim, n - 1);
        if is_cut(s, delim, n - 1) {
            (
                if n - 1 > start {
                    pieces.push(s.subrange(start, n - 1))
                } else {
                    pieces
                },
                n,
            )
        } else {
            (pieces, start)
        }
    }
}

/// `s` cut at every delimiter that stands outside parentheses, empty pieces
/// dropped.
pub open spec fn balanced_split(s: Seq<char>, delim: char) -> Seq<Seq<char>> {
    let (pieces, start) = split_state(s, delim, s.len() as int);
    if start < s.len() {
        pieces.push(s.subrange(start, s.len() as int))
    } else {
        pieces
    }
}

spec fn range_pieces(cs: Seq<char>, r: Seq<(usize, usize)>) -> Seq<Seq<char>> {
    Seq::new(r.len(), |k: int| cs.subrange(r[k].0 as int, r[k].1 as int))
}

/// The pieces of `balanced_split(cs, delim)` as bounds into `cs`.
fn balanced_split_bounds(cs: &Vec<char>, delim: char) -> (r: Vec<(usize, usize)>)
    ensures
        r@.len() == balanced_split(cs@, delim).len(),
        forall|k: int|
            0 <= k < r@.len() ==> (#[trigger] r@[k]).0 <= r@[k].1 <= cs@.len() && cs@.subrange(
                r@[k].0 as int,
                r@[k].1 as int,
            ) == balanced_split(cs@, delim)[k],
{
    let n = cs.len();
    let mut r: Vec<(usize, usize)> = Vec::new();
    let mut opens: usize = 0;
    let mut closes: usize = 0;
    let mut start: usize = 0;
    let mut i: usize = 0;
    while i < n
        invariant
            n == cs@.len(),
            i <= n,
            opens <= i,
            closes <= i,
            start <= i,
            opens - closes == paren_depth(cs@, i as int),
            split_state(cs@, delim, i as int) == (range_pieces(cs@, r@), start as int),
            forall|k: int| 0 <= k < r@.len() ==> (#[trigger] r@[k]).0 <= r@[k].1 <= i,
        decreases n - i,
    {
        let c = cs[i];
        let ghost old_r = r@;
        if c == '(' {
            opens = opens + 1;
        } else if c == ')' {
            closes = closes + 1;
        } else if c == delim && opens == closes {
            if i > start {
                r.push((start, i));
                assert(range_pieces(cs@, r@) =~= range_pieces(cs@, old_r).push(
                    cs@.subrange(start as int, i as int),
                ));
            }
            start = i + 1;
        }
        i = i + 1;
    }
    if start < n {
        let ghost old_r = r@;
        r.push((start, n));
        assert(range_pieces(cs@, r@) =~= range_pieces(cs@, old_r).push(
            cs@.subrange(start as int, n as int),
        ));
    }
    proof {
        assert forall|k: int| 0 <= k < r@.len() implies cs@.subrange(
            (#[trigger] r@[k]).0 as int,
            r@[k].1 as int,
        ) == balanced_split(cs@, delim)[k] by {
            assert(range_pieces(cs@, r@)[k] == cs@.subrange(r@[k].0 as int, r@[k].1 as int));
        }
    }
    r
}

/// Splits `input` at every `delim` that stands outside parentheses, so that
/// each piece holds as many `(` as `)` when the input does; empty pieces are
/// dropped.
pub fn balanced_bracket_split(input: &str, delim: char) -> (r: Vec<String>)
    ensures
        r@.len() == balanced_split(input@, delim).len(),
        forall|k: int| 0 <= k < r@.len() ==> (#[trigger] r@[k])@ == balanced_split(input@, delim)[k],
{
    let cs = chars_of(input);
    let b = balanced_split_bounds(&cs, delim);
    let mut r: Vec<String> = Vec::new();
    let mut k: usize = 0;
    while k < b.len()
        invariant
            cs@ == input@,
            b@.len() == balanced_split(cs@, delim).len(),
            forall|j: int|
                0 <= j < b@.len() ==> (#[trigger] b@[j]).0 <= b@[j].1 <= cs@.len()
                    && cs@.subrange(b@[j].0 as int, b@[j].1 as int) == balanced_split(cs@, delim)[j],
            k <= b@.len(),
            r@.len() == k,
            forall|j: int| 0 <= j < k ==> (#[trigger] r@[j])@ == balanced_split(cs@, delim)[j],
        decreases b@.len() - k,
    {
        let (lo, hi) = b[k];
        r.push(string_of(&cs, lo, hi));
        k = k + 1;
    }
    r
}

/// Number of occurrences of `c` in `s`.
pub open spec fn count_char(s: Seq<char>, c: char) -> int
    decreases s.len(),
{
    if s.len() == 0 {
        0
    } else {
        count_char(s.drop_last(), c) + (if s.last() == c {
            1int
        } else {
            0int
        })
    }
}

/// `s` holds as many `(` as `)`.
pub open spec fn parens_balanced(s: Seq<char>) -> bool {
    count_char(s, '(') == count_char(s, ')')
}

proof fn lemma_depth_counts(s: Seq<char>, i: int)
    requires
        0 <= i <= s.len(),
    ensures
        paren_depth(s, i) == count_char(s.subrange(0, i), '(') - count_char(s.subrange(0, i), ')'),
    decreases i,
{
    if i > 0 {
        lemma_depth_counts(s, i - 1);
        assert(s.subrange(0, i).drop_last() =~= s.subrange(0, i - 1));
    }
}

proof fn lemma_count_split(s: Seq<char>, a: int, b: int, c: char)
    requires
        0 <= a <= b <= s.len(),
    ensures
        count_char(s.subrange(0, b), c) == count_char(s.subrange(0, a), c) + count_char(
            s.subrange(a, b),
            c,
        ),
    decreases b - a,
{
    if b > a {
        lemma_count_split(s, a, b - 1, c);
        assert(s.subrange(0, b).drop_last() =~= s.subrange(0, b - 1));
        assert(s.subrange(a, b).drop_last() =~= s.subrange(a, b - 1));
    } else {
        assert(s.subrange(a, b) =~= Seq::<char>::empty());
    }
}

proof fn lemma_piece_balanced(s: Seq<char>, a: int, b: int)
    requires
        0 <= a <= b <= s.len(),
        paren_depth(s, a) == 0,
        paren_depth(s, b) == 0,
    ensures
        parens_balanced(s.subrange(a, b)),
{
    lemma_depth_counts(s, a);
    lemma_depth_counts(s, b);
    lemma_count_split(s, a, b, '(');
    lemma_count_split(s, a, b, ')');
}

proof fn lemma_split_state(s: Seq<char>, delim: char, n: int)
    requires
        0 <= n <= s.len(),
    ensures
        0 <= split_state(s, delim, n).1 <= n,
        paren_depth(s, split_state(s, delim, n).1) == 0,
        forall|k: int|
            0 <= k < split_state(s, delim, n).0.len() ==> {
                &&& (#[trigger] split_state(s, delim, n).0[k]).len() > 0
                &&& parens_balanced(split_state(s, delim, n).0[k])
            },
    decreases n,
{
    if n > 0 {
        lemma_split_state(s, delim, n - 1);
        let (pieces, start) = split_state(s, delim, n - 1);
        if is_cut(s, delim, n - 1) {
            assert(paren_depth(s, n) == paren_depth(s, n - 1));
            if n - 1 > start {
                lemma_piece_balanced(s, start, n - 1);
                let p2 = pieces.push(s.subrange(start, n - 1));
                assert forall|k: int| 0 <= k < p2.len() implies (#[trigger] p2[k]).len() > 0
                    && parens_balanced(p2[k]) by {
                    if k < pieces.len() {
                        assert(p2[k] == pieces[k]);
                    }
                }
            }
        }
    }
}

/// Every piece of a balanced split is non-empty, and when `s` holds as many
/// `(` as `)`, so does every piece.
pub proof fn lemma_balanced_split_pieces(s: Seq<char>, delim: char)
    ensures
        forall|k: int|
            0 <= k < balanced_split(s, delim).len() ==> {
                &&& (#[trigger] balanced_split(s, delim)[k]).len() > 0
                &&& parens_balanced(s) ==> parens_balanced(balanced_split(s, delim)[k])
            },
{
    lemma_split_state(s, delim, s.len() as int);
    let (pieces, start) = split_state(s, delim, s.len() as int);
    if start < s.len() {
        let p2 = pieces.push(s.subrange(start, s.len() as int));
        assert forall|k: int| 0 <= k < p2.len() implies (#[trigger] p2[k]).len() > 0 && (
        parens_balanced(s) ==> parens_balanced(p2[k])) by {
            if k < pieces.len() {
                assert(p2[k] == pieces[k]);
            } else {
                if parens_balanced(s) {
                    lemma_depth_counts(s, s.len() as int);
                    assert(s.subrange(0, s.len() as int) =~= s);
                    lemma_piece_balanced(s, start, s.len() as int);
                }
            }
        }
    }
}


/// The line announces a sanitizer report, after which frames are collected.
pub open spec fn is_report_start(line: Seq<char>) -> bool {
    ||| contains(line, "runtime error:"@)
    ||| contains(line, "==ERROR"@)
    ||| contains(line, "== ERROR"@)
    ||| contains(line, "==WARNING"@)
    ||| contains(line, "WARNING: ThreadSanitizer:"@)
}

/// The function name on a frame line `#N 0xADDR in NAME ...` (or `#N NAME ...`).
pub open spec fn frame_of(line: Seq<char>) -> Option<Seq<char>> {
    let parts = balanced_split(line, ' ');
    if !starts_with(trim(line), seq!['#']) {
        None
    } else if parts.len() > 3 && parts[2] == "in"@ {
        Some(parts[3])
    } else if parts.len() > 2 && !starts_with(parts[1], "0x"@) {
        Some(parts[1])
    } else {
        None
    }
}

/// The frames found on `lines[k..j]`, in order.
pub open spec fn frames_between(lines: Seq<Seq<char>>, k: int, j: int) -> Seq<Seq<char>>
    decreases j - k,
{
    if j <= k {
        seq![]
    } else {
        let f = frames_between(lines, k, j - 1);
        match frame_of(lines[j - 1]) {
            Some(x) => f.push(x),
            None => f,
        }
    }
}

/// `lines[j]` ends a report that started at `lines[k]`: it is a summary and
/// frames were found since the start.
pub open spec fn ends_report(lines: Seq<Seq<char>>, k: int, j: int) -> bool {
    &&& k <= j < lines.len()
    &&& starts_with(lines[j], "SUMMARY"@)
    &&& frames_between(lines, k, j).len() > 0
}

/// `k` is the first line that starts a report.
pub open spec fn is_first_report_start(lines: Seq<Seq<char>>, k: int) -> bool {
    &&& 0 <= k < lines.len()
    &&& is_report_start(lines[k])
    &&& forall|i: int| 0 <= i < k ==> !is_report_start(#[trigger] lines[i])
}

/// `j` is the first line that ends the report started at `k`.
pub open spec fn is_first_report_end(lines: Seq<Seq<char>>, k: int, j: int) -> bool {
    &&& ends_report(lines, k, j)
    &&& forall|i: int| k <= i < j ==> !ends_report(lines, k, i)
}

/// The frames of a sanitizer report: from the first line that starts a report
/// up to the first summary line after at least one frame. `None` when there
/// is no report start or no such summary.
pub open spec fn report_frames(lines: Seq<Seq<char>>) -> Option<Seq<Seq<char>>> {
    if exists|k: int, j: int| is_first_report_start(lines, k) && is_first_report_end(lines, k, j) {
        let (k, j) = choose|k: int, j: int|
            is_first_report_start(lines, k) && is_first_report_end(lines, k, j);
        Some(frames_between(lines, k, j))
    } else {
        None
    }
}

/// The frames as character sequences.
pub open spec fn frames_view(frames: Seq<String>) -> Seq<Seq<char>> {
    frames.map_values(|f: String| f@)
}

/// The UTF-8 bytes of the frames, one after the other.
pub open spec fn frames_bytes(frames: Seq<Seq<char>>) -> Seq<u8>
    decreases frames.len(),
{
    if frames.len() == 0 {
        seq![]
    } else {
        frames_bytes(frames.drop_last()) + vstd::utf8::encode_utf8(frames.last())
    }
}

/// The identity of a stack trace: lowercase hex of the SHA-1 of its frames.
pub open spec fn trace_hash(frames: Seq<Seq<char>>) -> Seq<char> {
    hex_lower(sha1_of(frames_bytes(frames)))
}

/// A stack trace made of frames, identified by a hash of its frames.
pub trait StackTrace: Sized {
    /// The frames of the trace.
    spec fn frame_seq(&self) -> Seq<Seq<char>>;

    /// Parses a trace from a report.
    fn parse(trace: &str) -> Option<Self>;

    /// The frames of the trace.
    fn frames(&self) -> (r: Vec<String>)
        ensures
            frames_view(r@) == self.frame_seq(),
    ;

    /// Lowercase hex of the SHA-1 digest of the frames' bytes, which names
    /// the trace for deduplication.
    fn hash(&self) -> (h: String)
        ensures
            h@ == trace_hash(self.frame_seq()),
            h@.len() == 40,
    {
        let frames = self.frames();
        let mut bytes: Vec<u8> = Vec::new();
        let mut i: usize = 0;
        while i < frames.len()
            invariant
                i <= frames@.len(),
                bytes@ == frames_bytes(frames_view(frames@).subrange(0, i as int)),
            decreases frames@.len() - i,
        {
            let fb = frames[i].as_str().as_bytes();
            let mut j: usize = 0;
            let ghost before = bytes@;
            while j < fb.len()
                invariant
                    j <= fb@.len(),
                    bytes@ == before + fb@.subrange(0, j as int),
                decreases fb@.len() - j,
            {
                bytes.push(fb[j]);
                j = j + 1;
                assert(bytes@ =~= before + fb@.subrange(0, j as int));
            }
            proof {
                assert(fb@.subrange(0, j as int) =~= fb@);
                let fv = frames_view(frames@);
                assert(fv.subrange(0, i + 1).drop_last() =~= fv.subrange(0, i as int));
                assert(fv.subrange(0, i + 1).last() == frames@[i as int]@);
            }
            i = i + 1;
        }
        assert(frames_view(frames@).subrange(0, i as int) =~= frames_view(frames@));
        let digest = sha1_digest(bytes.as_slice());
        let mut h = String::new();
        push_hex(&mut h, digest.as_slice());
        proof {
            lemma_hex_lower_len(digest@);
            assert(h@ =~= hex_lower(digest@));
        }
        h
    }
}

/// A stack trace reported by a libFuzzer harness under a sanitizer.
pub struct LibFuzzerStackTrace {
    frames: Vec<String>,
}

impl LibFuzzerStackTrace {
    /// The frames as character sequences.
    pub closed spec fn view_frames(&self) -> Seq<Seq<char>> {
        frames_view(self.frames@)
    }
}

/// Whether `cs[lo..hi]` equals `p`.
fn range_equals(cs: &Vec<char>, lo: usize, hi: usize, p: &Vec<char>) -> (r: bool)
    requires
        lo <= hi <= cs@.len(),
    ensures
        r == (cs@.subrange(lo as int, hi as int) == p@),
{
    if hi - lo != p.len() {
        return false;
    }
    matches_at(cs, p, lo)
}

/// Whether `cs[lo..hi]` begins with `p`.
fn range_starts_with(cs: &Vec<char>, lo: usize, hi: usize, p: &Vec<char>) -> (r: bool)
    requires
        lo <= hi <= cs@.len(),
    ensures
        r == starts_with(cs@.subrange(lo as int, hi as int), p@),
{
    if hi - lo < p.len() {
        return false;
    }
    let r = matches_at(cs, p, lo);
    assert(cs@.subrange(lo as int, hi as int).subrange(0, p@.len() as int) =~= cs@.subrange(
        lo as int,
        lo + p@.len(),
    ));
    r
}

/// The frame named on `line`, if it is a frame line.
fn frame_on_line(line: &Vec<char>, word_in: &Vec<char>, hex_prefix: &Vec<char>) -> (r: Option<String>)
    requires
        word_in@ == "in"@,
        hex_prefix@ == "0x"@,
    ensures
        match r {
            Some(f) => frame_of(line@) == Some(f@),
            None => frame_of(line@) is None,
        },
{
    let (a, b) = trim_bounds(line, 0, line.len());
    assert(line@.subrange(0, line@.len() as int) =~= line@);
    let t_hash = a < b && line[a] == '#';
    proof {
        let t = line@.subrange(a as int, b as int);
        if a < b {
            assert(t[0] == line@[a as int]);
        }
        assert(t_hash == starts_with(t, seq!['#'])) by {
            if t.len() >= 1 {
                assert(t.subrange(0, 1) =~= seq![t[0]]);
                if t_hash {
                    assert(t.subrange(0, 1) =~= seq!['#']);
                }
                if starts_with(t, seq!['#']) {
                    assert(t.subrange(0, 1)[0] == seq!['#'][0]);
                }
            }
        }
    }
    if !t_hash {
        return None;
    }
    let parts = balanced_split_bounds(line, ' ');
    if parts.len() > 3 && range_equals(line, parts[2].0, parts[2].1, word_in) {
        return Some(string_of(line, parts[3].0, parts[3].1));
    }
    if parts.len() > 2 && !range_starts_with(line, parts[1].0, parts[1].1, hex_prefix) {
        return Some(string_of(line, parts[1].0, parts[1].1));
    }
    None
}

impl StackTrace for LibFuzzerStackTrace {
    open spec fn frame_seq(&self) -> Seq<Seq<char>> {
        self.view_frames()
    }

    /// The frames of the first sanitizer report in `trace`: collection starts
    /// at the first line that mentions a runtime error, an `==ERROR`,
    /// `== ERROR` or `==WARNING` banner or a ThreadSanitizer warning, and
    /// ends at the first `SUMMARY` line after at least one frame. A frame
    /// line starts with `#` after white space; its frame is the piece after
    /// `in`, or else the second piece unless that is an address.
    fn parse(trace: &str) -> (r: Option<Self>)
        ensures
            match r {
                Some(t) => report_frames(lines(trace@)) == Some(t.view_frames()),
                None => report_frames(lines(trace@)) is None,
            },
    {
        let cs = chars_of(trace);
        let ls = lines_of(&cs);
        let ghost lv = lines(trace@);
        let word_in = chars_of("in");
        let hex_prefix = chars_of("0x");
        let m0 = chars_of("runtime error:");
        let m1 = chars_of("==ERROR");
        let m2 = chars_of("== ERROR");
        let m3 = chars_of("==WARNING");
        let m4 = chars_of("WARNING: ThreadSanitizer:");
        let summary = chars_of("SUMMARY");
        let mut frames: Vec<String> = Vec::new();
        let mut entered = false;
        let ghost mut k: int = 0;
        let mut i: usize = 0;
        while i < ls.len()
            invariant
                cs@ == trace@,
                lv == lines(trace@),
                ls@.len() == lv.len(),
                forall|x: int| 0 <= x < ls@.len() ==> (#[trigger] ls@[x])@ == lv[x],
                word_in@ == "in"@,
                hex_prefix@ == "0x"@,
                m0@ == "runtime error:"@,
                m1@ == "==ERROR"@,
                m2@ == "== ERROR"@,
                m3@ == "==WARNING"@,
                m4@ == "WARNING: ThreadSanitizer:"@,
                summary@ == "SUMMARY"@,
                i <= ls@.len(),
                !entered ==> forall|x: int| 0 <= x < i ==> !is_report_start(#[trigger] lv[x]),
                !entered ==> frames@.len() == 0,
                entered ==> is_first_report_start(lv, k) && k < i,
                entered ==> frames_view(frames@) == frames_between(lv, k, i as int),
                entered ==> forall|x: int| k <= x < i ==> !ends_report(lv, k, x),
            decreases ls@.len() - i,
        {
            let line = &ls[i];
            let ghost lines_before = frames_view(frames@);
            if has_substring(line, &m0) || has_substring(line, &m1) || has_substring(line, &m2)
                || has_substring(line, &m3) || has_substring(line, &m4) {
                if !entered {
                    proof {
                        k = i as int;
                        assert(frames_between(lv, k, i as int) =~= seq![]);
                    }
                }
                entered = true;
            }
            if entered && has_prefix(line, &summary) && frames.len() > 0 {
                proof {
                    assert(ends_report(lv, k, i as int));
                    assert(is_first_report_end(lv, k, i as int));
                    let (k2, j2) = choose|k2: int, j2: int|
                        is_first_report_start(lv, k2) && is_first_report_end(lv, k2, j2);
                    assert(k2 == k) by {
                        if k2 < k {
                            assert(!is_report_start(lv[k2]));
                        }
                        if k < k2 {
                            assert(!is_report_start(lv[k]));
                        }
                    }
                    assert(j2 == i) by {
                        if j2 < i {
                            assert(!ends_report(lv, k, j2));
                        }
                        if i < j2 {
                            assert(!ends_report(lv, k, i as int));
                        }
                    }
                }
                return Some(LibFuzzerStackTrace { frames });
            }
            if entered {
                let f = frame_on_line(line, &word_in, &hex_prefix);
                match f {
                    Some(name) => {
                        frames.push(name);
                        assert(frames_view(frames@) =~= lines_before.push(frame_of(lv[i as int]).unwrap()));
                    },
                    None => {},
                }
                proof {
                    assert(!ends_report(lv, k, i as int));
                }
            }
            i = i + 1;
        }
        proof {
            if exists|k2: int, j2: int| is_first_report_start(lv, k2) && is_first_report_end(lv, k2, j2) {
                let (k2, j2) = choose|k2: int, j2: int|
                    is_first_report_start(lv, k2) && is_first_report_end(lv, k2, j2);
                if entered {
                    assert(k2 == k) by {
                        if k2 < k {
                            assert(!is_report_start(lv[k2]));
                        }
                        if k < k2 {
                            assert(!is_report_start(lv[k]));
                        }
                    }
                    assert(!ends_report(lv, k, j2));
                } else {
                    assert(!is_report_start(lv[k2]));
                }
            }
        }
        None
    }

    fn frames(&self) -> (r: Vec<String>) {
        self.frames.clone()
    }
}

} // verus!

verus! {

/// Crash deduplication: two traces whose reports have the same frames get
/// the same hash, whatever else they hold.
pub proof fn lemma_same_frames_same_hash(t1: Seq<char>, t2: Seq<char>)
    requires
        report_frames(lines(t1)) is Some,
        report_frames(lines(t1)) == report_frames(lines(t2)),
    ensures
        trace_hash(report_frames(lines(t1))->Some_0) == trace_hash(report_frames(lines(t2))->Some_0),
{
}

/// A sanitizer report is recognised by any of the banners that libFuzzer's
/// sanitizers print (`runtime error:`, `==ERROR`, `== ERROR`, `==WARNING`,
/// `WARNING: ThreadSanitizer:`): when the first line of the output holds one
/// of them and line `j` is the first summary line after at least one frame,
/// the report's frames are exactly the frames on the lines before `j`.
pub proof fn lemma_report_from_banner(ls: Seq<Seq<char>>, banner: Seq<char>, j: int)
    requires
        banner == "runtime error:"@ || banner == "==ERROR"@ || banner == "== ERROR"@ || banner == "==WARNING"@
            || banner == "WARNING: ThreadSanitizer:"@,
        0 < j < ls.len(),
        contains(ls[0], banner),
        starts_with(ls[j], "SUMMARY"@),
        frames_between(ls, 0, j).len() > 0,
        forall|i: int| 0 <= i < j && starts_with(#[trigger] ls[i], "SUMMARY"@) ==> frames_between(ls, 0, i).len() == 0,
    ensures
        report_frames(ls) == Some(frames_between(ls, 0, j)),
{
    assert(is_report_start(ls[0]));
    assert(is_first_report_start(ls, 0));
    assert forall|i: int| 0 <= i < j implies !ends_report(ls, 0, i) by {
        if ends_report(ls, 0, i) {
            assert(starts_with(ls[i], "SUMMARY"@));
        }
    }
    assert(is_first_report_end(ls, 0, j));
    let (k2, j2) = choose|k: int, j: int| is_first_report_start(ls, k) && is_first_report_end(ls, k, j);
    if k2 > 0 {
        assert(!is_report_start(ls[0]));
    }
    assert(k2 == 0);
    if j2 < j {
        assert(!ends_report(ls, 0, j2));
    }
    if j2 > j {
        assert(!ends_report(ls, 0, j));
    }
    assert(j2 == j);
}

} // verus!
