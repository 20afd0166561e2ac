//! Native Go fuzzing instances: their command line, corpus location and the
//! progress lines they print.

use vstd::prelude::*;

use crate::pattern::{count_caps, find_first_match, first_match, toks_spec, Tok, TokSpec};
use crate::text::{
    chars_of, parse_or_zero, parse_u64_or_zero, split, split_bounds, string_of, strings_view,
};
use crate::types::{join_path, path_join};

verus! {

/// A native Go fuzzing instance.
pub struct NativeGoFuzzer {
    pub binary: String,
    pub solutions: String,
    pub go_fuzz_cache_dir: String,
}

/// The last component of a path (`Path::file_name`): the last piece between
/// slashes that is neither empty nor `.`; none when there is no such piece
/// or it is `..`.
pub open spec fn file_name(path: Seq<char>) -> Option<Seq<char>> {
    let pieces = split(path, '/');
    if exists|i: int| 0 <= i < pieces.len() && is_component(#[trigger] pieces[i]) {
        let i = choose|i: int|
            0 <= i < pieces.len() && is_component(#[trigger] pieces[i]) && forall|k: int|
                i < k < pieces.len() ==> !is_component(#[trigger] pieces[k]);
        if pieces[i] == ".."@ {
            None
        } else {
            Some(pieces[i])
        }
    } else {
        None
    }
}

/// A piece of a path that names a component.
pub open spec fn is_component(p: Seq<char>) -> bool {
    p.len() > 0 && p != "."@
}

/// The harness a native Go binary runs: the part of its file name after the
/// last `_` (`some/path/fuzz_pkg_FuzzFoo` runs `FuzzFoo`).
pub open spec fn go_harness_name(binary: Seq<char>) -> Seq<char> {
    split(file_name(binary).unwrap(), '_').last()
}

fn is_dot(cs: &Vec<char>, lo: usize, hi: usize) -> (r: bool)
    requires
        lo <= hi <= cs@.len(),
    ensures
        r == (cs@.subrange(lo as int, hi as int) == "."@),
{
    let d = chars_of(".");
    if hi - lo != d.len() {
        return false;
    }
    crate::text::matches_at(cs, &d, lo)
}

fn is_dotdot(cs: &Vec<char>, lo: usize, hi: usize) -> (r: bool)
    requires
        lo <= hi <= cs@.len(),
    ensures
        r == (cs@.subrange(lo as int, hi as int) == ".."@),
{
    let d = chars_of("..");
    if hi - lo != d.len() {
        return false;
    }
    crate::text::matches_at(cs, &d, lo)
}

/// The last component of `path`.
pub fn path_file_name(path: &str) -> (r: Option<String>)
    ensures
        match r {
            Some(n) => file_name(path@) == Some(n@),
            None => file_name(path@) is None,
        },
{
    let cs = chars_of(path);
    let pieces = split_bounds(&cs, '/');
    let ghost ps = split(cs@, '/');
    let mut i = pieces.len();
    while i > 0
        invariant
            i <= pieces@.len(),
            pieces@.len() == ps.len(),
            ps == split(path@, '/'),
            cs@ == path@,
            forall|k: int|
                0 <= k < pieces@.len() ==> (#[trigger] pieces@[k]).0 <= pieces@[k].1 <= cs@.len()
                    && cs@.subrange(pieces@[k].0 as int, pieces@[k].1 as int) == ps[k],
            forall|k: int| i <= k < ps.len() ==> !is_component(#[trigger] ps[k]),
        decreases i,
    {
        let (lo, hi) = pieces[i - 1];
        if hi > lo && !is_dot(&cs, lo, hi) {
            proof {
                assert(is_component(ps[i - 1]));
                let j = choose|j: int|
                    0 <= j < ps.len() && is_component(#[trigger] ps[j]) && forall|k: int|
                        j < k < ps.len() ==> !is_component(#[trigger] ps[k]);
                if j < i - 1 {
                    assert(!is_component(ps[i - 1]));
                }
                if j > i - 1 {
                    assert(!is_component(ps[j]));
                }
            }
            if is_dotdot(&cs, lo, hi) {
                return None;
            }
            return Some(string_of(&cs, lo, hi));
        }
        proof {
            assert(!is_component(ps[i - 1]));
        }
        i = i - 1;
    }
    None
}

/// The part of `name` after its last `_`.
fn after_last_underscore(name: &str) -> (r: String)
    ensures
        r@ == split(name@, '_').last(),
{
    let cs = chars_of(name);
    let pieces = split_bounds(&cs, '_');
    proof {
        crate::text::lemma_split_nonempty(cs@, '_');
    }
    let (lo, hi) = pieces[pieces.len() - 1];
    string_of(&cs, lo, hi)
}

impl NativeGoFuzzer {
    /// An instance for `binary` working in `workspace`.
    pub fn new(binary: String, workspace: &str) -> (r: Self)
        ensures
            r.binary == binary,
            r.go_fuzz_cache_dir@ == path_join(workspace@, "fuzzcache"@),
            r.solutions@ == path_join(workspace@, "solutions"@),
    {
        let go_fuzz_cache_dir = join_path(workspace, "fuzzcache");
        let solutions = join_path(workspace, "solutions");
        NativeGoFuzzer { binary, go_fuzz_cache_dir, solutions }
    }

    /// Name of the harness the binary runs.
    pub fn get_harness_name(&self) -> (r: String)
        requires
            file_name(self.binary@) is Some,
        ensures
            r@ == go_harness_name(self.binary@),
    {
        let name = path_file_name(self.binary.as_str());
        match name {
            Some(n) => after_last_underscore(n.as_str()),
            None => "".to_owned(),
        }
    }

    /// Name of the fuzz engine.
    pub fn get_name(&self) -> (r: String)
        ensures
            r@ == "native-go"@,
    {
        "native-go".to_owned()
    }

    /// The corpus new inputs are pushed from: the harness's directory in the
    /// fuzzing cache.
    pub fn get_push_corpus(&self) -> (r: Option<String>)
        requires
            file_name(self.binary@) is Some,
        ensures
            match r {
                Some(p) => p@ == path_join(self.go_fuzz_cache_dir@, go_harness_name(self.binary@)),
                None => false,
            },
    {
        let h = self.get_harness_name();
        Some(join_path(self.go_fuzz_cache_dir.as_str(), h.as_str()))
    }

    /// Native Go instances pull in no corpus.
    pub fn get_pull_corpus(&self) -> (r: Option<String>)
        ensures
            r is None,
    {
        None
    }

    /// Native Go instances report no solution folders.
    pub fn get_solutions(&self) -> (r: Vec<String>)
        ensures
            r@.len() == 0,
    {
        Vec::new()
    }

    /// The arguments of the shell that runs the instance: the binary and the
    /// fuzzing cache.
    pub fn start_args(&self) -> (r: Vec<String>)
        ensures
            strings_view(r@) == seq![self.binary@, self.go_fuzz_cache_dir@],
    {
        let mut r: Vec<String> = Vec::new();
        r.push(self.binary.clone());
        r.push(self.go_fuzz_cache_dir.clone());
        assert(strings_view(r@) =~= seq![self.binary@, self.go_fuzz_cache_dir@]);
        r
    }
}

/// The progress line of native Go fuzzing:
/// `fuzz: elapsed: Ns, execs: N (EXECS/sec), new interesting: N (total: CORPUS)...`.
pub open spec fn progress_pattern() -> Seq<TokSpec> {
    seq![
        TokSpec::Lit("fuzz: elapsed: "@),
        TokSpec::Digits,
        TokSpec::Lit("s, execs: "@),
        TokSpec::Digits,
        TokSpec::Lit(" ("@),
        TokSpec::Digits,
        TokSpec::Lit("/sec), new interesting: "@),
        TokSpec::Digits,
        TokSpec::Lit(" (total: "@),
        TokSpec::Digits,
        TokSpec::Lit(")"@),
        TokSpec::Any,
    ]
}

fn progress_tokens() -> (r: Vec<Tok>)
    ensures
        toks_spec(r@) == progress_pattern(),
{
    let mut r: Vec<Tok> = Vec::new();
    r.push(Tok::Lit(chars_of("fuzz: elapsed: ")));
    r.push(Tok::Digits);
    r.push(Tok::Lit(chars_of("s, execs: ")));
    r.push(Tok::Digits);
    r.push(Tok::Lit(chars_of(" (")));
    r.push(Tok::Digits);
    r.push(Tok::Lit(chars_of("/sec), new interesting: ")));
    r.push(Tok::Digits);
    r.push(Tok::Lit(chars_of(" (total: ")));
    r.push(Tok::Digits);
    r.push(Tok::Lit(chars_of(")")));
    r.push(Tok::Any);
    assert(toks_spec(r@) =~= progress_pattern());
    r
}

/// What a progress line reports.
pub struct NativeGoProgress {
    /// The execution rate as printed (digits, possibly none).
    pub execs_per_sec: String,
    pub corpus_count: u64,
}

/// The report of a progress line: execution rate text and corpus size (zero
/// when it does not parse).
pub open spec fn progress_report(line: Seq<char>) -> Option<(Seq<char>, u64)> {
    match first_match(line, progress_pattern()) {
        Some(c) => Some((line.subrange(c[2].0, c[2].1), parse_or_zero(line.subrange(c[4].0, c[4].1)))),
        None => None,
    }
}

/// Parses a progress line of native Go fuzzing.
pub fn parse_native_go_progress(line: &str) -> (r: Option<NativeGoProgress>)
    ensures
        match r {
            Some(p) => progress_report(line@) == Some((p.execs_per_sec@, p.corpus_count)),
            None => progress_report(line@) is None,
        },
{
    let cs = chars_of(line);
    let toks = progress_tokens();
    match find_first_match(&cs, &toks) {
        Some(c) => {
            assert(count_caps(progress_pattern(), 0) == 6) by {
                reveal_with_fuel(count_caps, 20);
            }
            let execs_per_sec = string_of(&cs, c[2].0, c[2].1);
            let corpus_count = parse_u64_or_zero(&cs, c[4].0, c[4].1);
            Some(NativeGoProgress { execs_per_sec, corpus_count })
        },
        None => None,
    }
}

} // verus!
