//! libFuzzer instances: their command line and the status lines they print.

use vstd::prelude::*;

use crate::env::EnvVars;
use crate::pattern::{count_caps, find_first_match, first_match, toks_spec, Tok, TokSpec};
use crate::text::{
    chars_of, concat, extend_strings, parse_or_zero, parse_u64_or_zero, push_str, string_of,
    strings_view,
};
use crate::types::{join_path, path_join};

verus! {

/// A libFuzzer instance.
pub struct LibFuzzer {
    pub seeds: String,
    pub workspace: String,
    pub binary: String,
    pub args: Vec<String>,
    pub env: EnvVars,
    pub instance_tag: String,
}

impl LibFuzzer {
    /// An instance with the given corpus, workspace, binary, arguments,
    /// environment and tag.
    pub fn new(
        seeds: String,
        workspace: String,
        binary: String,
        args: Vec<String>,
        env: EnvVars,
        instance_tag: String,
    ) -> (r: Self)
        ensures
            r.seeds == seeds,
            r.workspace == workspace,
            r.binary == binary,
            r.args == args,
            r.env == env,
            r.instance_tag == instance_tag,
    {
        LibFuzzer { seeds, workspace, binary, args, env, instance_tag }
    }

    /// Name of the fuzz engine.
    pub fn get_name(&self) -> (r: String)
        ensures
            r@ == "libfuzzer"@,
    {
        "libfuzzer".to_owned()
    }

    /// Name of the instance: `libfuzzer-<tag>`.
    pub fn get_instance_name(&self) -> (r: String)
        ensures
            r@ == "libfuzzer-"@ + self.instance_tag@,
    {
        concat("libfuzzer-", self.instance_tag.as_str())
    }

    /// The corpus new inputs are pushed from: the instance's corpus.
    pub fn get_push_corpus(&self) -> (r: Option<String>)
        ensures
            r == Some(self.seeds),
    {
        Some(self.seeds.clone())
    }

    /// The corpus new inputs are pulled into: the instance's corpus.
    pub fn get_pull_corpus(&self) -> (r: Option<String>)
        ensures
            r == Some(self.seeds),
    {
        Some(self.seeds.clone())
    }

    /// The solution directory: `<workspace>/solutions`.
    pub fn get_solutions(&self) -> (r: Vec<String>)
        ensures
            strings_view(r@) == seq![path_join(self.workspace@, "solutions"@)],
    {
        let mut r: Vec<String> = Vec::new();
        r.push(join_path(self.workspace.as_str(), "solutions"));
        assert(strings_view(r@) =~= seq![path_join(self.workspace@, "solutions"@)]);
        r
    }

    /// The arguments the instance runs with: its own, a timeout of five
    /// seconds, crashes stored in the solution directory, and the corpus.
    pub fn start_args(&self) -> (r: Vec<String>)
        ensures
            strings_view(r@) == strings_view(self.args@) + seq![
                "-timeout=5"@,
                "-artifact_prefix="@ + path_join(self.workspace@, "solutions"@) + "/"@,
                self.seeds@,
            ],
    {
        let mut r: Vec<String> = Vec::new();
        extend_strings(&mut r, &self.args);
        assert(strings_view(r@) =~= strings_view(self.args@));
        let ghost before = strings_view(r@);
        r.push("-timeout=5".to_owned());
        let sol = join_path(self.workspace.as_str(), "solutions");
        let mut prefix = concat("-artifact_prefix=", sol.as_str());
        push_str(&mut prefix, "/");
        r.push(prefix);
        r.push(self.seeds.clone());
        assert(strings_view(r@) =~= before + seq![
            "-timeout=5"@,
            "-artifact_prefix="@ + path_join(self.workspace@, "solutions"@) + "/"@,
            self.seeds@,
        ]);
        r
    }
}

/// The status line libFuzzer prints while fuzzing:
/// `#N: cov: N ft: N corp: CORPUS exec/s[:] EXECS oom/timeout/crash: N/HANGS/CRASHES ...`.
pub open spec fn status_pattern() -> Seq<TokSpec> {
    seq![
        TokSpec::Lit("#"@),
        TokSpec::Digits,
        TokSpec::Lit(": cov: "@),
        TokSpec::Digits,
        TokSpec::Lit(" ft: "@),
        TokSpec::Digits,
        TokSpec::Lit(" corp: "@),
        TokSpec::Digits,
        TokSpec::Lit(" exec/s"@),
        TokSpec::OptLit(":"@),
        TokSpec::Lit(" "@),
        TokSpec::Digits,
        TokSpec::Lit(" oom/timeout/crash: "@),
        TokSpec::Digits,
        TokSpec::Lit("/"@),
        TokSpec::Digits,
        TokSpec::Lit("/"@),
        TokSpec::Digits,
        TokSpec::Any,
    ]
}

fn status_tokens() -> (r: Vec<Tok>)
    ensures
        toks_spec(r@) == status_pattern(),
{
    let mut r: Vec<Tok> = Vec::new();
    r.push(Tok::Lit(chars_of("#")));
    r.push(Tok::Digits);
    r.push(Tok::Lit(chars_of(": cov: ")));
    r.push(Tok::Digits);
    r.push(Tok::Lit(chars_of(" ft: ")));
    r.push(Tok::Digits);
    r.push(Tok::Lit(chars_of(" corp: ")));
    r.push(Tok::Digits);
    r.push(Tok::Lit(chars_of(" exec/s")));
    r.push(Tok::OptLit(chars_of(":")));
    r.push(Tok::Lit(chars_of(" ")));
    r.push(Tok::Digits);
    r.push(Tok::Lit(chars_of(" oom/timeout/crash: ")));
    r.push(Tok::Digits);
    r.push(Tok::Lit(chars_of("/")));
    r.push(Tok::Digits);
    r.push(Tok::Lit(chars_of("/")));
    r.push(Tok::Digits);
    r.push(Tok::Any);
    assert(toks_spec(r@) =~= status_pattern());
    r
}

/// What a libFuzzer status line reports.
pub struct LibFuzzerStatus {
    pub corpus_count: u64,
    /// The execution rate as printed (digits, possibly none).
    pub execs_per_sec: String,
    pub saved_hangs: u64,
    pub saved_crashes: u64,
}

/// The report of a status line: corpus size, execution rate text, hangs and
/// crashes, numbers that do not parse counting as zero.
pub open spec fn status_report(line: Seq<char>) -> Option<(u64, Seq<char>, u64, u64)> {
    match first_match(line, status_pattern()) {
        Some(c) => Some(
            (
                parse_or_zero(line.subrange(c[3].0, c[3].1)),
                line.subrange(c[4].0, c[4].1),
                parse_or_zero(line.subrange(c[6].0, c[6].1)),
                parse_or_zero(line.subrange(c[7].0, c[7].1)),
            ),
        ),
        None => None,
    }
}

/// Parses a libFuzzer status line.
pub fn parse_libfuzzer_status(line: &str) -> (r: Option<LibFuzzerStatus>)
    ensures
        match r {
            Some(st) => status_report(line@) == Some(
                (st.corpus_count, st.execs_per_sec@, st.saved_hangs, st.saved_crashes),
            ),
            None => status_report(line@) is None,
        },
{
    let cs = chars_of(line);
    let toks = status_tokens();
    match find_first_match(&cs, &toks) {
        Some(c) => {
            assert(count_caps(status_pattern(), 0) == 9) by {
                reveal_with_fuel(count_caps, 20);
            }
            assert(c@.len() == 9);
            let corpus_count = parse_u64_or_zero(&cs, c[3].0, c[3].1);
            let execs_per_sec = string_of(&cs, c[4].0, c[4].1);
            let saved_hangs = parse_u64_or_zero(&cs, c[6].0, c[6].1);
            let saved_crashes = parse_u64_or_zero(&cs, c[7].0, c[7].1);
            Some(LibFuzzerStatus { corpus_count, execs_per_sec, saved_hangs, saved_crashes })
        },
        None => None,
    }
}

} // verus!
