//! SemSan (differential fuzzing) instances: which SemSan build runs a
//! secondary binary, their command line, and the stats lines they print.

use vstd::prelude::*;

use crate::env::EnvVars;
use crate::pattern::{count_caps, find_first_match, first_match, toks_spec, Tok, TokSpec};
use crate::text::{
    chars_of, eq_str, parse_or_zero, parse_u64_or_zero, split, split_bounds, string_of,
    strings_view,
};

verus! {

/// A SemSan instance comparing a primary and a secondary binary.
pub struct SemSanFuzzer {
    pub primary_binary: String,
    pub secondary_binary: String,
    pub seeds: String,
    pub solutions: String,
    pub pull_corpus: String,
    pub comparator: String,
}

/// The architecture of the machine the ensembler runs on.
#[derive(Clone, Copy, Debug, PartialEq, Eq, Structural)]
pub enum HostArch {
    X86_64,
    Aarch64,
    Other,
}

/// The SemSan build that runs a binary, from the second comma-separated
/// field of what `file` says of it; the plain build for the host's own
/// architecture and an emulating build otherwise.
pub open spec fn semsan_build_for(file_info: Seq<char>, host: HostArch) -> Seq<char> {
    let field = split(file_info, ',')[1];
    if field == " ARM"@ {
        "semsan-arm"@
    } else if field == " x86-64"@ {
        if host == HostArch::X86_64 {
            "semsan"@
        } else {
            "semsan-x86_64"@
        }
    } else if field == " ARM aarch64"@ {
        if host == HostArch::Aarch64 {
            "semsan"@
        } else {
            "semsan-aarch64"@
        }
    } else {
        "semsan"@
    }
}

/// Number of comma-separated fields of `s`.
pub fn comma_field_count(s: &str) -> (r: usize)
    ensures
        r == split(s@, ',').len(),
{
    let cs = chars_of(s);
    split_bounds(&cs, ',').len()
}

/// The SemSan build that runs the binary `file` described by `file_info`.
pub fn semsan_build(file_info: &str, host: HostArch) -> (r: String)
    requires
        split(file_info@, ',').len() > 2,
    ensures
        r@ == semsan_build_for(file_info@, host),
{
    let cs = chars_of(file_info);
    let pieces = split_bounds(&cs, ',');
    let (lo, hi) = pieces[1];
    let field = string_of(&cs, lo, hi);
    if eq_str(field.as_str(), " ARM") {
        "semsan-arm".to_owned()
    } else if eq_str(field.as_str(), " x86-64") {
        if host == HostArch::X86_64 {
            "semsan".to_owned()
        } else {
            "semsan-x86_64".to_owned()
        }
    } else if eq_str(field.as_str(), " ARM aarch64") {
        if host == HostArch::Aarch64 {
            "semsan".to_owned()
        } else {
            "semsan-aarch64".to_owned()
        }
    } else {
        "semsan".to_owned()
    }
}

/// The arguments SemSan runs with: the comparator (`custom` when a custom
/// comparator library is given), a timeout, both binaries and the fuzzing
/// directories.
pub open spec fn semsan_args(f: SemSanFuzzer, custom: Option<Seq<char>>) -> Seq<Seq<char>> {
    seq!["--comparator"@, if custom is Some { "custom"@ } else { f.comparator@ }] + seq![
        "--timeout"@,
        "5000"@,
        "--ignore-exit-kind"@,
        f.primary_binary@,
        f.secondary_binary@,
        "fuzz"@,
        "--seeds"@,
        f.seeds@,
        "--solutions"@,
        f.solutions@,
        "--foreign-corpus"@,
        f.pull_corpus@,
        "--ignore-solutions"@,
    ]
}

impl SemSanFuzzer {
    /// An instance.
    pub fn new(
        primary_binary: String,
        secondary_binary: String,
        seeds: String,
        solutions: String,
        pull_corpus: String,
        comparator: String,
    ) -> (r: Self)
        ensures
            r.primary_binary == primary_binary,
            r.secondary_binary == secondary_binary,
            r.seeds == seeds,
            r.solutions == solutions,
            r.pull_corpus == pull_corpus,
            r.comparator == comparator,
    {
        SemSanFuzzer { primary_binary, secondary_binary, seeds, solutions, pull_corpus, comparator }
    }

    /// Name of the fuzz engine and of the instance.
    pub fn get_name(&self) -> (r: String)
        ensures
            r@ == "semsan"@,
    {
        "semsan".to_owned()
    }

    /// SemSan pushes no corpus.
    pub fn get_push_corpus(&self) -> (r: Option<String>)
        ensures
            r is None,
    {
        None
    }

    /// The corpus new inputs are pulled into.
    pub fn get_pull_corpus(&self) -> (r: Option<String>)
        ensures
            r == Some(self.pull_corpus),
    {
        Some(self.pull_corpus.clone())
    }

    /// The solution directory.
    pub fn get_solutions(&self) -> (r: Vec<String>)
        ensures
            strings_view(r@) == seq![self.solutions@],
    {
        let mut r: Vec<String> = Vec::new();
        r.push(self.solutions.clone());
        assert(strings_view(r@) =~= seq![self.solutions@]);
        r
    }

    /// The arguments of the SemSan run, with `custom` the custom comparator
    /// library if one is configured.
    pub fn start_args(&self, custom: Option<&str>) -> (r: Vec<String>)
        ensures
            strings_view(r@) == semsan_args(
                *self,
                match custom {
                    Some(c) => Some(c@),
                    None => None,
                },
            ),
    {
        let mut r: Vec<String> = Vec::new();
        r.push("--comparator".to_owned());
        match custom {
            Some(_) => r.push("custom".to_owned()),
            None => r.push(self.comparator.clone()),
        }
        r.push("--timeout".to_owned());
        r.push("5000".to_owned());
        r.push("--ignore-exit-kind".to_owned());
        r.push(self.primary_binary.clone());
        r.push(self.secondary_binary.clone());
        r.push("fuzz".to_owned());
        r.push("--seeds".to_owned());
        r.push(self.seeds.clone());
        r.push("--solutions".to_owned());
        r.push(self.solutions.clone());
        r.push("--foreign-corpus".to_owned());
        r.push(self.pull_corpus.clone());
        r.push("--ignore-solutions".to_owned());
        let ghost cv = match custom {
            Some(c) => Some(c@),
            None => None::<Seq<char>>,
        };
        assert(strings_view(r@) =~= semsan_args(*self, cv));
        r
    }

    /// The extra environment of the SemSan run: the custom comparator
    /// library preloaded, if one is configured.
    pub fn start_env(&self, custom: Option<&str>) -> (r: EnvVars)
        ensures
            r@ == match custom {
                Some(c) => Map::<Seq<char>, Seq<char>>::empty().insert("LD_PRELOAD"@, c@),
                None => Map::<Seq<char>, Seq<char>>::empty(),
            },
    {
        let mut r = EnvVars::new();
        match custom {
            Some(c) => r.insert("LD_PRELOAD".to_owned(), c.to_owned()),
            None => {},
        }
        r
    }
}

/// The stats line SemSan prints:
/// `... run time: ..., clients: ..., corpus: CORPUS, objectives: SOLUTIONS,
/// executions: ..., exec/sec: EXECS, combined-coverage: ..., stability: N/N (N%`.
pub open spec fn stats_pattern() -> Seq<TokSpec> {
    seq![
        TokSpec::Any,
        TokSpec::Lit(" run time: "@),
        TokSpec::Any,
        TokSpec::Lit(", clients: "@),
        TokSpec::Any,
        TokSpec::Lit(", corpus: "@),
        TokSpec::Digits,
        TokSpec::Lit(", objectives: "@),
        TokSpec::Any,
        TokSpec::Lit(", executions: "@),
        TokSpec::Any,
        TokSpec::Lit(", exec/sec: "@),
        TokSpec::Any,
        TokSpec::Lit(", combined-coverage: "@),
        TokSpec::Any,
        TokSpec::Lit(", stability: "@),
        TokSpec::Digits,
        TokSpec::Lit("/"@),
        TokSpec::Digits,
        TokSpec::Lit(" ("@),
        TokSpec::Digits,
        TokSpec::Lit("%"@),
    ]
}

fn stats_tokens() -> (r: Vec<Tok>)
    ensures
        toks_spec(r@) == stats_pattern(),
{
    let mut r: Vec<Tok> = Vec::new();
    r.push(Tok::Any);
    r.push(Tok::Lit(chars_of(" run time: ")));
    r.push(Tok::Any);
    r.push(Tok::Lit(chars_of(", clients: ")));
    r.push(Tok::Any);
    r.push(Tok::Lit(chars_of(", corpus: ")));
    r.push(Tok::Digits);
    r.push(Tok::Lit(chars_of(", objectives: ")));
    r.push(Tok::Any);
    r.push(Tok::Lit(chars_of(", executions: ")));
    r.push(Tok::Any);
    r.push(Tok::Lit(chars_of(", exec/sec: ")));
    r.push(Tok::Any);
    r.push(Tok::Lit(chars_of(", combined-coverage: ")));
    r.push(Tok::Any);
    r.push(Tok::Lit(chars_of(", stability: ")));
    r.push(Tok::Digits);
    r.push(Tok::Lit(chars_of("/")));
    r.push(Tok::Digits);
    r.push(Tok::Lit(chars_of(" (")));
    r.push(Tok::Digits);
    r.push(Tok::Lit(chars_of("%")));
    assert(toks_spec(r@) =~= stats_pattern());
    r
}

/// What a SemSan stats line reports.
pub struct SemSanStats {
    pub corpus_count: u64,
    /// The objectives count, zero when it does not parse.
    pub saved_crashes: u64,
    /// The execution rate as printed.
    pub execs_per_sec: String,
}

/// The report of a stats line: corpus size, solutions and execution rate
/// text (numbers that do not parse count as zero).
pub open spec fn stats_report(line: Seq<char>) -> Option<(u64, u64, Seq<char>)> {
    match first_match(line, stats_pattern()) {
        Some(c) => Some(
            (
                parse_or_zero(line.subrange(c[3].0, c[3].1)),
                parse_or_zero(line.subrange(c[4].0, c[4].1)),
                line.subrange(c[6].0, c[6].1),
            ),
        ),
        None => None,
    }
}

/// Parses a SemSan stats line.
pub fn parse_semsan_stats(line: &str) -> (r: Option<SemSanStats>)
    ensures
        match r {
            Some(st) => stats_report(line@) == Some((st.corpus_count, st.saved_crashes, st.execs_per_sec@)),
            None => stats_report(line@) is None,
        },
{
    let cs = chars_of(line);
    let toks = stats_tokens();
    match find_first_match(&cs, &toks) {
        Some(c) => {
            assert(count_caps(stats_pattern(), 0) == 11) by {
                reveal_with_fuel(count_caps, 25);
            }
            let corpus_count = parse_u64_or_zero(&cs, c[3].0, c[3].1);
            let saved_crashes = parse_u64_or_zero(&cs, c[4].0, c[4].1);
            let execs_per_sec = string_of(&cs, c[6].0, c[6].1);
            Some(SemSanStats { corpus_count, saved_crashes, execs_per_sec })
        },
        None => None,
    }
}

} // verus!
