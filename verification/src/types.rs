//! Project configuration shared by the builder, the fuzzer launcher, the
//! ensembler and the reproducer: engines, sanitizers, where the harness
//! binaries live, and how solutions are named.

use vstd::prelude::*;

use crate::digest::{sha256_digest, sha256_of};
use crate::text::{
    concat, dec_str, eq_str, hex_lower, push_decimal, push_hex, push_str,
};

verus! {

/// Language a project is written in.
#[derive(Clone, Copy, Debug, PartialEq, Eq, Structural)]
pub enum Language {
    C,
    Cpp,
    Rust,
    Go,
}

/// A fuzz engine a project can be built for.
#[derive(Clone, Copy, Debug, PartialEq, Eq, Structural)]
pub enum FuzzEngine {
    LibFuzzer,
    AflPlusPlus,
    AflPlusPlusNyx,
    HonggFuzz,
    SemSan,
    NativeGo,
    /// No fuzz engine (plain instrumented builds, such as coverage).
    NoEngine,
}

/// Build flavours for differential (SemSan) fuzzing.
#[derive(Clone, Copy, Debug, PartialEq, Eq, Structural)]
pub enum SemSanBuild {
    GccO0,
    GccO1,
    GccO2,
    ClangO0,
    ClangO1,
    ClangO2,
    Custom0,
    Custom1,
    Custom2,
    Custom3,
    Custom4,
    Custom5,
    Custom6,
    Custom7,
    Custom8,
    Custom9,
    Custom10,
    Custom11,
    Custom12,
    Custom13,
    Custom14,
    Custom15,
}

/// A sanitizer (or instrumentation flavour) a project can be built with.
#[derive(Clone, Copy, Debug, PartialEq, Eq, Structural)]
pub enum Sanitizer {
    Undefined,
    Address,
    Memory,
    Thread,
    /// Only for `FuzzEngine::NoEngine`.
    Coverage,
    /// Only for `FuzzEngine::AflPlusPlus`.
    CmpLog,
    /// Only for `FuzzEngine::LibFuzzer`.
    ValueProfile,
    /// Only in combination with `FuzzEngine::AflPlusPlus`.
    SemSan(SemSanBuild),
    /// No sanitizer.
    NoSanitizer,
}

/// A CPU architecture a project can be built for.
#[derive(Clone, Copy, Debug, PartialEq, Eq, Structural)]
pub enum CpuArchitecture {
    Amd64,
    Arm64,
}

/// Configuration of a fuzzed project.
#[derive(Debug)]
pub struct ProjectConfig {
    pub name: String,
    pub owner: String,
    pub repo: String,
    pub branch: Option<String>,
    pub pr_number: Option<String>,
    pub language: Language,
    pub ccs: Vec<String>,
    pub engines: Option<Vec<FuzzEngine>>,
    pub sanitizers: Option<Vec<Sanitizer>>,
    pub architectures: Option<Vec<CpuArchitecture>>,
    pub fuzz_env_var: Option<String>,
    pub no_stack_limit_harnesses: Option<Vec<String>>,
}

/// Per-harness configuration.
#[derive(Debug)]
pub struct HarnessConfig {
    /// Path of a fuzzing dictionary.
    pub dictionary: Option<String>,
}

impl HarnessConfig {
    /// A configuration without a dictionary.
    pub fn new() -> (r: Self)
        ensures
            r.dictionary is None,
    {
        HarnessConfig { dictionary: None }
    }
}

/// The project was built with `s`.
pub open spec fn config_has_sanitizer(config: ProjectConfig, s: Sanitizer) -> bool {
    config.sanitizers matches Some(v) && v@.contains(s)
}

/// The project was built for `e`.
pub open spec fn config_has_engine(config: ProjectConfig, e: FuzzEngine) -> bool {
    config.engines matches Some(v) && v@.contains(e)
}

/// `harness` runs without a stack limit in the project.
pub open spec fn config_no_stack_limit(config: ProjectConfig, harness: Seq<char>) -> bool {
    match config.no_stack_limit_harnesses {
        Some(v) => seq_has_string(v@, harness),
        None => false,
    }
}

/// Some string of `v` holds the characters `s`.
pub open spec fn seq_has_string(v: Seq<String>, s: Seq<char>) -> bool {
    exists|i: int| 0 <= i < v.len() && (#[trigger] v[i])@ == s
}

fn vec_contains_sanitizer(v: &Vec<Sanitizer>, s: &Sanitizer) -> (r: bool)
    ensures
        r == v@.contains(*s),
{
    let mut i: usize = 0;
    while i < v.len()
        invariant
            i <= v@.len(),
            forall|j: int| 0 <= j < i ==> v@[j] != *s,
        decreases v@.len() - i,
    {
        if v[i] == *s {
            assert(v@[i as int] == *s);
            return true;
        }
        i = i + 1;
    }
    false
}

fn vec_contains_engine(v: &Vec<FuzzEngine>, e: &FuzzEngine) -> (r: bool)
    ensures
        r == v@.contains(*e),
{
    let mut i: usize = 0;
    while i < v.len()
        invariant
            i <= v@.len(),
            forall|j: int| 0 <= j < i ==> v@[j] != *e,
        decreases v@.len() - i,
    {
        if v[i] == *e {
            assert(v@[i as int] == *e);
            return true;
        }
        i = i + 1;
    }
    false
}

impl ProjectConfig {
    /// Whether the project was built with `sanitizer`.
    pub fn has_sanitizer(&self, sanitizer: &Sanitizer) -> (r: bool)
        ensures
            r == config_has_sanitizer(*self, *sanitizer),
    {
        match &self.sanitizers {
            Some(v) => vec_contains_sanitizer(v, sanitizer),
            None => false,
        }
    }

    /// Whether the project was built for `engine`.
    pub fn has_engine(&self, engine: &FuzzEngine) -> (r: bool)
        ensures
            r == config_has_engine(*self, *engine),
    {
        match &self.engines {
            Some(v) => vec_contains_engine(v, engine),
            None => false,
        }
    }

    /// Whether `harness_name` is listed as running without a stack limit.
    pub fn harness_has_no_stack_limit(&self, harness_name: &str) -> (r: bool)
        ensures
            r == config_no_stack_limit(*self, harness_name@),
    {
        match &self.no_stack_limit_harnesses {
            Some(v) => {
                let mut i: usize = 0;
                while i < v.len()
                    invariant
                        self.no_stack_limit_harnesses == Some(*v),
                        i <= v@.len(),
                        forall|j: int| 0 <= j < i ==> (#[trigger] v@[j])@ != harness_name@,
                    decreases v@.len() - i,
                {
                    if eq_str(v[i].as_str(), harness_name) {
                        assert((#[trigger] v@[i as int])@ == harness_name@);
                        return true;
                    }
                    i = i + 1;
                }
                false
            },
            None => false,
        }
    }
}

/// Statistics of a fuzzer (the counters; rates live with the caller).
#[derive(Debug)]
pub struct FuzzerStats {
    pub corpus_count: u64,
    pub saved_crashes: u64,
    pub saved_hangs: u64,
    pub failed_instances: Vec<String>,
}

impl FuzzerStats {
    /// Counters that are all zero, with no failed instance.
    pub fn new() -> (r: Self)
        ensures
            r.corpus_count == 0,
            r.saved_crashes == 0,
            r.saved_hangs == 0,
            r.failed_instances@.len() == 0,
    {
        FuzzerStats { corpus_count: 0, saved_crashes: 0, saved_hangs: 0, failed_instances: Vec::new() }
    }

    /// Whether any crash or hang was saved.
    pub fn has_solutions(&self) -> (r: bool)
        ensures
            r == (self.saved_hangs + self.saved_crashes > 0),
    {
        self.saved_hangs > 0 || self.saved_crashes > 0
    }
}

/// What caused a reproduced solution.
#[derive(Clone, Copy, Debug, PartialEq, Eq, Structural)]
pub enum SolutionCause {
    AsanCrash,
    UbsanCrash,
    MsanCrash,
    TsanCrash,
    Crash,
    SignalCrash,
    Timeout,
    Differential,
}

/// The variant name of a cause, as `Debug` prints it.
pub open spec fn cause_name(c: SolutionCause) -> Seq<char> {
    match c {
        SolutionCause::AsanCrash => "AsanCrash"@,
        SolutionCause::UbsanCrash => "UbsanCrash"@,
        SolutionCause::MsanCrash => "MsanCrash"@,
        SolutionCause::TsanCrash => "TsanCrash"@,
        SolutionCause::Crash => "Crash"@,
        SolutionCause::SignalCrash => "SignalCrash"@,
        SolutionCause::Timeout => "Timeout"@,
        SolutionCause::Differential => "Differential"@,
    }
}

impl SolutionCause {
    /// The variant name.
    pub fn name(&self) -> (r: String)
        ensures
            r@ == cause_name(*self),
    {
        match self {
            SolutionCause::AsanCrash => "AsanCrash".to_owned(),
            SolutionCause::UbsanCrash => "UbsanCrash".to_owned(),
            SolutionCause::MsanCrash => "MsanCrash".to_owned(),
            SolutionCause::TsanCrash => "TsanCrash".to_owned(),
            SolutionCause::Crash => "Crash".to_owned(),
            SolutionCause::SignalCrash => "SignalCrash".to_owned(),
            SolutionCause::Timeout => "Timeout".to_owned(),
            SolutionCause::Differential => "Differential".to_owned(),
        }
    }
}

/// A solution (crash, hang, difference) that was reproduced.
pub struct ReproducedSolution {
    pub cause: SolutionCause,
    /// Input bytes that trigger the solution.
    pub input: Vec<u8>,
    /// Stack trace for crashes or a flamegraph SVG for timeouts.
    pub trace: Vec<u8>,
}

/// `fuzzor-<time>-<cause>-<sha256 of the input in hex>`.
pub open spec fn solution_name(time_secs: u64, cause: SolutionCause, input: Seq<u8>) -> Seq<char> {
    "fuzzor-"@ + dec_str(time_secs as nat) + "-"@ + cause_name(cause) + "-"@ + hex_lower(
        sha256_of(input),
    )
}

/// Calls `std::time::SystemTime::now().duration_since(UNIX_EPOCH)` and takes
/// the whole seconds; none when the clock reads before the epoch (the call's
/// error). Nothing is claimed of the value: it is the time.
#[verifier::external_body]
fn unix_time_secs() -> (r: Option<u64>) {
    match std::time::SystemTime::now().duration_since(std::time::UNIX_EPOCH) {
        Ok(d) => Some(d.as_secs()),
        Err(_) => None,
    }
}

impl ReproducedSolution {
    /// The file name of the solution, named after the current time; none
    /// when the clock reads before the Unix epoch.
    pub fn name(&self) -> (r: Option<String>)
        ensures
            match r {
                Some(n) => exists|t: u64| n@ == solution_name(t, self.cause, self.input@),
                None => true,
            },
    {
        match unix_time_secs() {
            Some(t) => Some(self.name_at(t)),
            None => None,
        }
    }

    /// The file name of the solution, reproduced at `time_secs` seconds
    /// after the Unix epoch.
    pub fn name_at(&self, time_secs: u64) -> (r: String)
        ensures
            r@ == solution_name(time_secs, self.cause, self.input@),
    {
        let digest = sha256_digest(self.input.as_slice());
        let mut r = "fuzzor-".to_owned();
        push_decimal(&mut r, time_secs);
        push_str(&mut r, "-");
        let cause = self.cause.name();
        push_str(&mut r, cause.as_str());
        push_str(&mut r, "-");
        push_hex(&mut r, digest.as_slice());
        r
    }
}

/// Startup parameters for a fuzzing campaign, stored once at the beginning of
/// each campaign.
#[derive(Debug)]
pub struct CampaignStartupParams {
    /// Number of CPUs allocated to the campaign.
    pub num_cpus: usize,
    /// Campaign duration in seconds.
    pub duration_secs: u64,
    /// Fuzzing engines enabled for the campaign.
    pub engines: Option<Vec<FuzzEngine>>,
    /// Sanitizers enabled for the campaign.
    pub sanitizers: Option<Vec<Sanitizer>>,
    /// Commit hash of the target binary being fuzzed.
    pub commit_hash: String,
}

/// The name of the project's container image.
pub fn format_image_name(config: &ProjectConfig) -> (r: String)
    ensures
        r@ == "fuzzor-"@ + config.name@,
{
    concat("fuzzor-", config.name.as_str())
}

/// The variant name of a SemSan build, as `Debug` prints it.
pub open spec fn semsan_build_name(b: SemSanBuild) -> Seq<char> {
    match b {
        SemSanBuild::GccO0 => "GccO0"@,
        SemSanBuild::GccO1 => "GccO1"@,
        SemSanBuild::GccO2 => "GccO2"@,
        SemSanBuild::ClangO0 => "ClangO0"@,
        SemSanBuild::ClangO1 => "ClangO1"@,
        SemSanBuild::ClangO2 => "ClangO2"@,
        SemSanBuild::Custom0 => "Custom0"@,
        SemSanBuild::Custom1 => "Custom1"@,
        SemSanBuild::Custom2 => "Custom2"@,
        SemSanBuild::Custom3 => "Custom3"@,
        SemSanBuild::Custom4 => "Custom4"@,
        SemSanBuild::Custom5 => "Custom5"@,
        SemSanBuild::Custom6 => "Custom6"@,
        SemSanBuild::Custom7 => "Custom7"@,
        SemSanBuild::Custom8 => "Custom8"@,
        SemSanBuild::Custom9 => "Custom9"@,
        SemSanBuild::Custom10 => "Custom10"@,
        SemSanBuild::Custom11 => "Custom11"@,
        SemSanBuild::Custom12 => "Custom12"@,
        SemSanBuild::Custom13 => "Custom13"@,
        SemSanBuild::Custom14 => "Custom14"@,
        SemSanBuild::Custom15 => "Custom15"@,
    }
}

impl SemSanBuild {
    /// The variant name.
    pub fn name(&self) -> (r: String)
        ensures
            r@ == semsan_build_name(*self),
    {
        match self {
            SemSanBuild::GccO0 => "GccO0".to_owned(),
            SemSanBuild::GccO1 => "GccO1".to_owned(),
            SemSanBuild::GccO2 => "GccO2".to_owned(),
            SemSanBuild::ClangO0 => "ClangO0".to_owned(),
            SemSanBuild::ClangO1 => "ClangO1".to_owned(),
            SemSanBuild::ClangO2 => "ClangO2".to_owned(),
            SemSanBuild::Custom0 => "Custom0".to_owned(),
            SemSanBuild::Custom1 => "Custom1".to_owned(),
            SemSanBuild::Custom2 => "Custom2".to_owned(),
            SemSanBuild::Custom3 => "Custom3".to_owned(),
            SemSanBuild::Custom4 => "Custom4".to_owned(),
            SemSanBuild::Custom5 => "Custom5".to_owned(),
            SemSanBuild::Custom6 => "Custom6".to_owned(),
            SemSanBuild::Custom7 => "Custom7".to_owned(),
            SemSanBuild::Custom8 => "Custom8".to_owned(),
            SemSanBuild::Custom9 => "Custom9".to_owned(),
            SemSanBuild::Custom10 => "Custom10".to_owned(),
            SemSanBuild::Custom11 => "Custom11".to_owned(),
            SemSanBuild::Custom12 => "Custom12".to_owned(),
            SemSanBuild::Custom13 => "Custom13".to_owned(),
            SemSanBuild::Custom14 => "Custom14".to_owned(),
            SemSanBuild::Custom15 => "Custom15".to_owned(),
        }
    }
}

/// The output directory of the build for an engine and a sanitizer, when that
/// combination has one.
pub open spec fn harness_dir_name(e: FuzzEngine, s: Sanitizer) -> Option<Seq<char>> {
    match (e, s) {
        (FuzzEngine::LibFuzzer, Sanitizer::NoSanitizer) => Some("libfuzzer"@),
        (FuzzEngine::LibFuzzer, Sanitizer::Undefined) => Some("libfuzzer_ubsan"@),
        (FuzzEngine::LibFuzzer, Sanitizer::Address) => Some("libfuzzer_asan"@),
        (FuzzEngine::LibFuzzer, Sanitizer::Memory) => Some("libfuzzer_msan"@),
        (FuzzEngine::LibFuzzer, Sanitizer::Thread) => Some("libfuzzer_tsan"@),
        (FuzzEngine::AflPlusPlus, Sanitizer::NoSanitizer) => Some("aflpp"@),
        (FuzzEngine::AflPlusPlusNyx, Sanitizer::NoSanitizer) => Some("aflpp"@),
        (FuzzEngine::AflPlusPlus, Sanitizer::Undefined) => Some("aflpp_ubsan"@),
        (FuzzEngine::AflPlusPlus, Sanitizer::Address) => Some("aflpp_asan"@),
        (FuzzEngine::AflPlusPlusNyx, Sanitizer::Address) => Some("aflpp_asan"@),
        (FuzzEngine::AflPlusPlus, Sanitizer::Memory) => Some("aflpp_msan"@),
        (FuzzEngine::AflPlusPlus, Sanitizer::Thread) => Some("aflpp_tsan"@),
        (FuzzEngine::AflPlusPlus, Sanitizer::CmpLog) => Some("aflpp_cmplog"@),
        (FuzzEngine::AflPlusPlus, Sanitizer::SemSan(t)) => Some("semsan_"@ + semsan_build_name(t)),
        (FuzzEngine::HonggFuzz, Sanitizer::NoSanitizer) => Some("honggfuzz"@),
        (FuzzEngine::HonggFuzz, Sanitizer::Undefined) => Some("honggfuzz_ubsan"@),
        (FuzzEngine::HonggFuzz, Sanitizer::Address) => Some("honggfuzz_asan"@),
        (FuzzEngine::HonggFuzz, Sanitizer::Memory) => Some("honggfuzz_msan"@),
        (FuzzEngine::SemSan, Sanitizer::NoSanitizer) => Some("semsan"@),
        (FuzzEngine::SemSan, Sanitizer::SemSan(t)) => Some("semsan_"@ + semsan_build_name(t)),
        (FuzzEngine::NativeGo, Sanitizer::NoSanitizer) => Some("native_go"@),
        (FuzzEngine::NoEngine, Sanitizer::Coverage) => Some("coverage"@),
        _ => None,
    }
}

/// The harness directory for `engine` and `sanitizer`: none when the project
/// was not built for both, or when the combination has no build.
pub open spec fn harness_dir(e: FuzzEngine, s: Sanitizer, config: ProjectConfig) -> Option<Seq<char>> {
    if !config_has_engine(config, e) || !config_has_sanitizer(config, s) {
        None
    } else {
        harness_dir_name(e, s)
    }
}

/// The optional string as a character sequence.
pub open spec fn opt_view(o: Option<String>) -> Option<Seq<char>> {
    match o {
        Some(s) => Some(s@),
        None => None,
    }
}

fn semsan_dir(t: SemSanBuild) -> (r: String)
    ensures
        r@ == "semsan_"@ + semsan_build_name(t),
{
    let name = t.name();
    concat("semsan_", name.as_str())
}

/// The directory (under `/workdir/out`) holding the harness binaries built
/// for `engine` and `sanitizer`.
pub fn get_harness_dir(engine: &FuzzEngine, sanitizer: &Sanitizer, config: &ProjectConfig) -> (r:
    Option<String>)
    ensures
        opt_view(r) == harness_dir(*engine, *sanitizer, *config),
{
    if !config.has_engine(engine) || !config.has_sanitizer(sanitizer) {
        // The project was not built for the requested engine or sanitizer, so
        // there is no path to the requested binary.
        return None;
    }
    match (*engine, *sanitizer) {
        (FuzzEngine::LibFuzzer, Sanitizer::NoSanitizer) => Some("libfuzzer".to_owned()),
        (FuzzEngine::LibFuzzer, Sanitizer::Undefined) => Some("libfuzzer_ubsan".to_owned()),
        (FuzzEngine::LibFuzzer, Sanitizer::Address) => Some("libfuzzer_asan".to_owned()),
        (FuzzEngine::LibFuzzer, Sanitizer::Memory) => Some("libfuzzer_msan".to_owned()),
        (FuzzEngine::LibFuzzer, Sanitizer::Thread) => Some("libfuzzer_tsan".to_owned()),
        (FuzzEngine::LibFuzzer, Sanitizer::Coverage) => None,
        (FuzzEngine::LibFuzzer, Sanitizer::CmpLog) => None,
        (FuzzEngine::LibFuzzer, Sanitizer::ValueProfile) => None,
        (FuzzEngine::LibFuzzer, Sanitizer::SemSan(_)) => None,
        (FuzzEngine::AflPlusPlus, Sanitizer::NoSanitizer) => Some("aflpp".to_owned()),
        (FuzzEngine::AflPlusPlusNyx, Sanitizer::NoSanitizer) => Some("aflpp".to_owned()),
        (FuzzEngine::AflPlusPlus, Sanitizer::Undefined) => Some("aflpp_ubsan".to_owned()),
        (FuzzEngine::AflPlusPlus, Sanitizer::Address) => Some("aflpp_asan".to_owned()),
        (FuzzEngine::AflPlusPlusNyx, Sanitizer::Address) => Some("aflpp_asan".to_owned()),
        (FuzzEngine::AflPlusPlus, Sanitizer::Memory) => Some("aflpp_msan".to_owned()),
        (FuzzEngine::AflPlusPlus, Sanitizer::Thread) => Some("aflpp_tsan".to_owned()),
        (FuzzEngine::AflPlusPlus, Sanitizer::Coverage) => None,
        (FuzzEngine::AflPlusPlus, Sanitizer::CmpLog) => Some("aflpp_cmplog".to_owned()),
        (FuzzEngine::AflPlusPlus, Sanitizer::ValueProfile) => None,
        (FuzzEngine::AflPlusPlus, Sanitizer::SemSan(t)) => Some(semsan_dir(t)),
        (FuzzEngine::AflPlusPlusNyx, _) => None,
        (FuzzEngine::HonggFuzz, Sanitizer::NoSanitizer) => Some("honggfuzz".to_owned()),
        (FuzzEngine::HonggFuzz, Sanitizer::Undefined) => Some("honggfuzz_ubsan".to_owned()),
        (FuzzEngine::HonggFuzz, Sanitizer::Address) => Some("honggfuzz_asan".to_owned()),
        (FuzzEngine::HonggFuzz, Sanitizer::Memory) => Some("honggfuzz_msan".to_owned()),
        (FuzzEngine::HonggFuzz, _) => None,
        (FuzzEngine::SemSan, Sanitizer::NoSanitizer) => Some("semsan".to_owned()),
        (FuzzEngine::SemSan, Sanitizer::SemSan(t)) => Some(semsan_dir(t)),
        (FuzzEngine::SemSan, _) => None,
        (FuzzEngine::NativeGo, Sanitizer::NoSanitizer) => Some("native_go".to_owned()),
        (FuzzEngine::NativeGo, _) => None,
        (FuzzEngine::NoEngine, Sanitizer::Coverage) => Some("coverage".to_owned()),
        (FuzzEngine::NoEngine, _) => None,
    }
}

/// `/workdir/out/<dir>/<binary>`, where the binary is `fuzz` for projects that
/// select the harness through an environment variable, and the harness's
/// own name otherwise.
pub open spec fn harness_binary(e: FuzzEngine, s: Sanitizer, harness: Seq<char>, config: ProjectConfig) -> Option<Seq<char>> {
    match harness_dir(e, s, config) {
        Some(dir) => Some(
            "/workdir/out/"@ + dir + "/"@ + (if config.fuzz_env_var is Some {
                "fuzz"@
            } else {
                harness
            }),
        ),
        None => None,
    }
}

/// The path of the binary for a harness.
pub fn get_harness_binary(
    engine: &FuzzEngine,
    sanitizer: &Sanitizer,
    harness: &str,
    config: &ProjectConfig,
) -> (r: Option<String>)
    ensures
        opt_view(r) == harness_binary(*engine, *sanitizer, harness@, *config),
{
    let harness_dir = get_harness_dir(engine, sanitizer, config);
    match harness_dir {
        Some(dir) => {
            let mut p = concat("/workdir/out/", dir.as_str());
            push_str(&mut p, "/");
            if config.fuzz_env_var.is_some() {
                push_str(&mut p, "fuzz");
            } else {
                push_str(&mut p, harness);
            }
            Some(p)
        },
        None => None,
    }
}

/// `base` joined with the relative path `seg`, as `PathBuf::join` does on
/// Unix: an absolute `seg` replaces `base`; otherwise a `/` goes between them
/// unless `base` is empty or already ends with one.
pub open spec fn path_join(base: Seq<char>, seg: Seq<char>) -> Seq<char> {
    if seg.len() > 0 && seg[0] == '/' {
        seg
    } else if base.len() == 0 || base.last() == '/' {
        base + seg
    } else {
        base + "/"@ + seg
    }
}

/// Exec counterpart of `path_join`.
pub fn join_path(base: &str, seg: &str) -> (r: String)
    ensures
        r@ == path_join(base@, seg@),
{
    let segc = seg.to_owned();
    let basec = base.to_owned();
    let seg_abs = seg_starts_with_slash(seg);
    if seg_abs {
        return segc;
    }
    let base_ends = base_ends_with_slash(base);
    if base_ends {
        concat(base, seg)
    } else {
        let mut r = basec;
        push_str(&mut r, "/");
        push_str(&mut r, seg);
        r
    }
}

fn seg_starts_with_slash(seg: &str) -> (r: bool)
    ensures
        r == (seg@.len() > 0 && seg@[0] == '/'),
{
    let cs = crate::text::chars_of(seg);
    cs.len() > 0 && cs[0] == '/'
}

fn base_ends_with_slash(base: &str) -> (r: bool)
    ensures
        r == (base@.len() == 0 || base@.last() == '/'),
{
    let cs = crate::text::chars_of(base);
    cs.len() == 0 || cs[cs.len() - 1] == '/'
}

/// An AFL++ command line tool.
#[derive(Clone, Copy, Debug, PartialEq, Eq, Structural)]
pub enum AflTool {
    AflFuzz,
    AflCMin,
    AflPlot,
    AflWhatsUp,
    AflTmin,
    AflAddSeeds,
    AflShowMap,
}

/// The executable name of an AFL++ tool.
pub open spec fn afl_tool_name(t: AflTool) -> Seq<char> {
    match t {
        AflTool::AflFuzz => "afl-fuzz"@,
        AflTool::AflCMin => "afl-cmin"@,
        AflTool::AflPlot => "afl-plot"@,
        AflTool::AflWhatsUp => "afl-whatsup"@,
        AflTool::AflTmin => "afl-tmin"@,
        AflTool::AflAddSeeds => "afl-addseeds"@,
        AflTool::AflShowMap => "afl-showmap"@,
    }
}

impl AflTool {
    /// The executable name of the tool.
    pub fn name(&self) -> (r: String)
        ensures
            r@ == afl_tool_name(*self),
    {
        match self {
            AflTool::AflFuzz => "afl-fuzz".to_owned(),
            AflTool::AflCMin => "afl-cmin".to_owned(),
            AflTool::AflPlot => "afl-plot".to_owned(),
            AflTool::AflWhatsUp => "afl-whatsup".to_owned(),
            AflTool::AflTmin => "afl-tmin".to_owned(),
            AflTool::AflAddSeeds => "afl-addseeds".to_owned(),
            AflTool::AflShowMap => "afl-showmap".to_owned(),
        }
    }
}

/// The path of an AFL++ tool: inside `bin_dir` when one is configured, the
/// bare tool name (looked up on `PATH`) otherwise.
pub fn get_afl_tool_path(bin_dir: Option<&str>, tool: AflTool) -> (r: String)
    ensures
        r@ == match bin_dir {
            Some(d) => path_join(d@, afl_tool_name(tool)),
            None => afl_tool_name(tool),
        },
{
    let name = tool.name();
    match bin_dir {
        Some(d) => join_path(d, name.as_str()),
        None => name,
    }
}

} // verus!

verus! {

/// Reads a SemSan build back from its name.
spec fn semsan_name_decode(n: Seq<char>) -> SemSanBuild {
    if n.len() == 5 {
        if n[4] == '0' {
            SemSanBuild::GccO0
        } else if n[4] == '1' {
            SemSanBuild::GccO1
        } else {
            SemSanBuild::GccO2
        }
    } else if n.len() == 7 && n[1] == 'l' {
        if n[6] == '0' {
            SemSanBuild::ClangO0
        } else if n[6] == '1' {
            SemSanBuild::ClangO1
        } else {
            SemSanBuild::ClangO2
        }
    } else if n.len() == 7 {
        if n[6] == '0' {
            SemSanBuild::Custom0
        } else if n[6] == '1' {
            SemSanBuild::Custom1
        } else if n[6] == '2' {
            SemSanBuild::Custom2
        } else if n[6] == '3' {
            SemSanBuild::Custom3
        } else if n[6] == '4' {
            SemSanBuild::Custom4
        } else if n[6] == '5' {
            SemSanBuild::Custom5
        } else if n[6] == '6' {
            SemSanBuild::Custom6
        } else if n[6] == '7' {
            SemSanBuild::Custom7
        } else if n[6] == '8' {
            SemSanBuild::Custom8
        } else {
            SemSanBuild::Custom9
        }
    } else {
        if n[7] == '0' {
            SemSanBuild::Custom10
        } else if n[7] == '1' {
            SemSanBuild::Custom11
        } else if n[7] == '2' {
            SemSanBuild::Custom12
        } else if n[7] == '3' {
            SemSanBuild::Custom13
        } else if n[7] == '4' {
            SemSanBuild::Custom14
        } else {
            SemSanBuild::Custom15
        }
    }
}

/// A SemSan build's name gives the build back.
proof fn lemma_semsan_name_decode(t: SemSanBuild)
    ensures
        semsan_name_decode(semsan_build_name(t)) == t,
        semsan_build_name(t).len() >= 5,
{
    match t {
        SemSanBuild::GccO0 => {
            reveal_strlit("GccO0");
        },
        SemSanBuild::GccO1 => {
            reveal_strlit("GccO1");
        },
        SemSanBuild::GccO2 => {
            reveal_strlit("GccO2");
        },
        SemSanBuild::ClangO0 => {
            reveal_strlit("ClangO0");
        },
        SemSanBuild::ClangO1 => {
            reveal_strlit("ClangO1");
        },
        SemSanBuild::ClangO2 => {
            reveal_strlit("ClangO2");
        },
        SemSanBuild::Custom0 => {
            reveal_strlit("Custom0");
        },
        SemSanBuild::Custom1 => {
            reveal_strlit("Custom1");
        },
        SemSanBuild::Custom2 => {
            reveal_strlit("Custom2");
        },
        SemSanBuild::Custom3 => {
            reveal_strlit("Custom3");
        },
        SemSanBuild::Custom4 => {
            reveal_strlit("Custom4");
        },
        SemSanBuild::Custom5 => {
            reveal_strlit("Custom5");
        },
        SemSanBuild::Custom6 => {
            reveal_strlit("Custom6");
        },
        SemSanBuild::Custom7 => {
            reveal_strlit("Custom7");
        },
        SemSanBuild::Custom8 => {
            reveal_strlit("Custom8");
        },
        SemSanBuild::Custom9 => {
            reveal_strlit("Custom9");
        },
        SemSanBuild::Custom10 => {
            reveal_strlit("Custom10");
        },
        SemSanBuild::Custom11 => {
            reveal_strlit("Custom11");
        },
        SemSanBuild::Custom12 => {
            reveal_strlit("Custom12");
        },
        SemSanBuild::Custom13 => {
            reveal_strlit("Custom13");
        },
        SemSanBuild::Custom14 => {
            reveal_strlit("Custom14");
        },
        SemSanBuild::Custom15 => {
            reveal_strlit("Custom15");
        },
    }
}

/// Reads the family of engines and the sanitizer back from a harness
/// directory's name.
spec fn dir_decode(d: Seq<char>) -> (int, Sanitizer) {
    if d.len() == 0 {
        (6, Sanitizer::NoSanitizer)
    } else if d[0] == 'l' {
        (0, if d.len() == 9 {
            Sanitizer::NoSanitizer
        } else if d.len() == 15 {
            Sanitizer::Undefined
        } else if d[10] == 'a' {
            Sanitizer::Address
        } else if d[10] == 'm' {
            Sanitizer::Memory
        } else {
            Sanitizer::Thread
        })
    } else if d[0] == 'a' {
        (1, if d.len() == 5 {
            Sanitizer::NoSanitizer
        } else if d.len() == 11 {
            Sanitizer::Undefined
        } else if d.len() == 12 {
            Sanitizer::CmpLog
        } else if d[6] == 'a' {
            Sanitizer::Address
        } else if d[6] == 'm' {
            Sanitizer::Memory
        } else {
            Sanitizer::Thread
        })
    } else if d[0] == 'h' {
        (2, if d.len() == 9 {
            Sanitizer::NoSanitizer
        } else if d.len() == 15 {
            Sanitizer::Undefined
        } else if d[10] == 'a' {
            Sanitizer::Address
        } else {
            Sanitizer::Memory
        })
    } else if d[0] == 's' {
        if d.len() == 6 {
            (3, Sanitizer::NoSanitizer)
        } else {
            (3, Sanitizer::SemSan(semsan_name_decode(d.subrange(7, d.len() as int))))
        }
    } else if d[0] == 'n' {
        (4, Sanitizer::NoSanitizer)
    } else {
        (5, Sanitizer::Coverage)
    }
}

/// The family of engines whose builds share a directory: AFL++ and AFL++
/// Nyx; AFL++ and SemSan for SemSan builds.
spec fn dir_family(e: FuzzEngine, s: Sanitizer) -> int {
    match e {
        FuzzEngine::LibFuzzer => 0,
        FuzzEngine::AflPlusPlus => if s is SemSan {
            3
        } else {
            1
        },
        FuzzEngine::AflPlusPlusNyx => 1,
        FuzzEngine::HonggFuzz => 2,
        FuzzEngine::SemSan => 3,
        FuzzEngine::NativeGo => 4,
        FuzzEngine::NoEngine => 5,
    }
}

/// A harness directory's name gives its family of engines and its
/// sanitizer back.
proof fn lemma_dir_decode(e: FuzzEngine, s: Sanitizer)
    requires
        harness_dir_name(e, s) is Some,
    ensures
        dir_decode(harness_dir_name(e, s).unwrap()) == (dir_family(e, s), s),
{
    match (e, s) {
        (FuzzEngine::LibFuzzer, Sanitizer::NoSanitizer) => {
            reveal_strlit("libfuzzer");
        },
        (FuzzEngine::LibFuzzer, Sanitizer::Undefined) => {
            reveal_strlit("libfuzzer_ubsan");
        },
        (FuzzEngine::LibFuzzer, Sanitizer::Address) => {
            reveal_strlit("libfuzzer_asan");
        },
        (FuzzEngine::LibFuzzer, Sanitizer::Memory) => {
            reveal_strlit("libfuzzer_msan");
        },
        (FuzzEngine::LibFuzzer, Sanitizer::Thread) => {
            reveal_strlit("libfuzzer_tsan");
        },
        (FuzzEngine::AflPlusPlus, Sanitizer::NoSanitizer) => {
            reveal_strlit("aflpp");
        },
        (FuzzEngine::AflPlusPlusNyx, Sanitizer::NoSanitizer) => {
            reveal_strlit("aflpp");
        },
        (FuzzEngine::AflPlusPlus, Sanitizer::Undefined) => {
            reveal_strlit("aflpp_ubsan");
        },
        (FuzzEngine::AflPlusPlus, Sanitizer::Address) => {
            reveal_strlit("aflpp_asan");
        },
        (FuzzEngine::AflPlusPlusNyx, Sanitizer::Address) => {
            reveal_strlit("aflpp_asan");
        },
        (FuzzEngine::AflPlusPlus, Sanitizer::Memory) => {
            reveal_strlit("aflpp_msan");
        },
        (FuzzEngine::AflPlusPlus, Sanitizer::Thread) => {
            reveal_strlit("aflpp_tsan");
        },
        (FuzzEngine::AflPlusPlus, Sanitizer::CmpLog) => {
            reveal_strlit("aflpp_cmplog");
        },
        (FuzzEngine::HonggFuzz, Sanitizer::NoSanitizer) => {
            reveal_strlit("honggfuzz");
        },
        (FuzzEngine::HonggFuzz, Sanitizer::Undefined) => {
            reveal_strlit("honggfuzz_ubsan");
        },
        (FuzzEngine::HonggFuzz, Sanitizer::Address) => {
            reveal_strlit("honggfuzz_asan");
        },
        (FuzzEngine::HonggFuzz, Sanitizer::Memory) => {
            reveal_strlit("honggfuzz_msan");
        },
        (FuzzEngine::SemSan, Sanitizer::NoSanitizer) => {
            reveal_strlit("semsan");
        },
        (FuzzEngine::NativeGo, Sanitizer::NoSanitizer) => {
            reveal_strlit("native_go");
        },
        (FuzzEngine::NoEngine, Sanitizer::Coverage) => {
            reveal_strlit("coverage");
        },
        (FuzzEngine::AflPlusPlus, Sanitizer::SemSan(t)) => {
            reveal_strlit("semsan_");
            lemma_semsan_name_decode(t);
            let d = "semsan_"@ + semsan_build_name(t);
            assert(d[0] == 's');
            assert(d.subrange(7, d.len() as int) =~= semsan_build_name(t));
        },
        (FuzzEngine::SemSan, Sanitizer::SemSan(t)) => {
            reveal_strlit("semsan_");
            lemma_semsan_name_decode(t);
            let d = "semsan_"@ + semsan_build_name(t);
            assert(d[0] == 's');
            assert(d.subrange(7, d.len() as int) =~= semsan_build_name(t));
        },
        _ => {},
    }
}

/// Harness directories tell the builds apart: two engine and sanitizer
/// combinations with the same directory have the same sanitizer, and the
/// same engine but for AFL++ and AFL++ Nyx, which share their builds, and
/// AFL++ and SemSan, which share the SemSan builds.
pub proof fn lemma_harness_dir_name_injective(e1: FuzzEngine, s1: Sanitizer, e2: FuzzEngine, s2: Sanitizer)
    requires
        harness_dir_name(e1, s1) is Some,
        harness_dir_name(e1, s1) == harness_dir_name(e2, s2),
    ensures
        s1 == s2,
        e1 == e2 || ((e1 == FuzzEngine::AflPlusPlus || e1 == FuzzEngine::AflPlusPlusNyx) && (e2
            == FuzzEngine::AflPlusPlus || e2 == FuzzEngine::AflPlusPlusNyx)) || (s1 is SemSan && (e1
            == FuzzEngine::AflPlusPlus || e1 == FuzzEngine::SemSan) && (e2 == FuzzEngine::AflPlusPlus || e2
            == FuzzEngine::SemSan)),
{
    lemma_dir_decode(e1, s1);
    lemma_dir_decode(e2, s2);
}

/// The libFuzzer builds live in `libfuzzer`, `libfuzzer_ubsan`,
/// `libfuzzer_asan`, `libfuzzer_msan` and `libfuzzer_tsan`, by sanitizer.
pub proof fn lemma_libfuzzer_dir_names(s: Sanitizer)
    ensures
        s == Sanitizer::NoSanitizer ==> harness_dir_name(FuzzEngine::LibFuzzer, s) == Some("libfuzzer"@),
        s == Sanitizer::Undefined ==> harness_dir_name(FuzzEngine::LibFuzzer, s) == Some("libfuzzer_ubsan"@),
        s == Sanitizer::Address ==> harness_dir_name(FuzzEngine::LibFuzzer, s) == Some("libfuzzer_asan"@),
        s == Sanitizer::Memory ==> harness_dir_name(FuzzEngine::LibFuzzer, s) == Some("libfuzzer_msan"@),
        s == Sanitizer::Thread ==> harness_dir_name(FuzzEngine::LibFuzzer, s) == Some("libfuzzer_tsan"@),
{
}

} // verus!
