//! Reproducing solutions with libFuzzer builds: how the harness is run, how
//! its exit status is classified, and which builds a solution is tried on.

use vstd::prelude::*;

use crate::types::{
    config_has_engine, config_has_sanitizer, get_harness_binary, harness_binary, join_path, opt_view,
    path_join, FuzzEngine, ProjectConfig, Sanitizer, SolutionCause,
};

verus! {

/// Why a reproduction failed.
#[derive(Clone, Copy, Debug, PartialEq, Eq, Structural)]
pub enum LibFuzzerReproducerError {
    FailedToCreateOutputFile,
    FailedToRunHarness,
    FailedToReadOutputFile,
    FailedToReadTestCase,
    FailedToCreateWorkdir,
    FailedToCreatePerfOutputFile,
    FailedToRunPerfRecord,
    FailedToCreatePerfScriptFile,
    FailedToRunPerfScript,
    FailedToRunStackcollapse,
    FailedToRunFlameGraph,
    FlameGraphRepoNotConfigured,
    FailedToCreateFoldedFile,
    FailedToCreateFlameGraphFile,
    FailedToReadFlameGraphFile,
    SolutionNotReproducible,
}

/// The variant name of an error, which is how it is displayed.
pub open spec fn error_name(e: LibFuzzerReproducerError) -> Seq<char> {
    match e {
        LibFuzzerReproducerError::FailedToCreateOutputFile => "FailedToCreateOutputFile"@,
        LibFuzzerReproducerError::FailedToRunHarness => "FailedToRunHarness"@,
        LibFuzzerReproducerError::FailedToReadOutputFile => "FailedToReadOutputFile"@,
        LibFuzzerReproducerError::FailedToReadTestCase => "FailedToReadTestCase"@,
        LibFuzzerReproducerError::FailedToCreateWorkdir => "FailedToCreateWorkdir"@,
        LibFuzzerReproducerError::FailedToCreatePerfOutputFile => "FailedToCreatePerfOutputFile"@,
        LibFuzzerReproducerError::FailedToRunPerfRecord => "FailedToRunPerfRecord"@,
        LibFuzzerReproducerError::FailedToCreatePerfScriptFile => "FailedToCreatePerfScriptFile"@,
        LibFuzzerReproducerError::FailedToRunPerfScript => "FailedToRunPerfScript"@,
        LibFuzzerReproducerError::FailedToRunStackcollapse => "FailedToRunStackcollapse"@,
        LibFuzzerReproducerError::FailedToRunFlameGraph => "FailedToRunFlameGraph"@,
        LibFuzzerReproducerError::FlameGraphRepoNotConfigured => "FlameGraphRepoNotConfigured"@,
        LibFuzzerReproducerError::FailedToCreateFoldedFile => "FailedToCreateFoldedFile"@,
        LibFuzzerReproducerError::FailedToCreateFlameGraphFile => "FailedToCreateFlameGraphFile"@,
        LibFuzzerReproducerError::FailedToReadFlameGraphFile => "FailedToReadFlameGraphFile"@,
        LibFuzzerReproducerError::SolutionNotReproducible => "SolutionNotReproducible"@,
    }
}

impl LibFuzzerReproducerError {
    /// The error as displayed: its variant name.
    pub fn name(&self) -> (r: String)
        ensures
            r@ == error_name(*self),
    {
        match self {
            LibFuzzerReproducerError::FailedToCreateOutputFile => "FailedToCreateOutputFile".to_owned(),
            LibFuzzerReproducerError::FailedToRunHarness => "FailedToRunHarness".to_owned(),
            LibFuzzerReproducerError::FailedToReadOutputFile => "FailedToReadOutputFile".to_owned(),
            LibFuzzerReproducerError::FailedToReadTestCase => "FailedToReadTestCase".to_owned(),
            LibFuzzerReproducerError::FailedToCreateWorkdir => "FailedToCreateWorkdir".to_owned(),
            LibFuzzerReproducerError::FailedToCreatePerfOutputFile => "FailedToCreatePerfOutputFile".to_owned(),
            LibFuzzerReproducerError::FailedToRunPerfRecord => "FailedToRunPerfRecord".to_owned(),
            LibFuzzerReproducerError::FailedToCreatePerfScriptFile => "FailedToCreatePerfScriptFile".to_owned(),
            LibFuzzerReproducerError::FailedToRunPerfScript => "FailedToRunPerfScript".to_owned(),
            LibFuzzerReproducerError::FailedToRunStackcollapse => "FailedToRunStackcollapse".to_owned(),
            LibFuzzerReproducerError::FailedToRunFlameGraph => "FailedToRunFlameGraph".to_owned(),
            LibFuzzerReproducerError::FlameGraphRepoNotConfigured => "FlameGraphRepoNotConfigured".to_owned(),
            LibFuzzerReproducerError::FailedToCreateFoldedFile => "FailedToCreateFoldedFile".to_owned(),
            LibFuzzerReproducerError::FailedToCreateFlameGraphFile => "FailedToCreateFlameGraphFile".to_owned(),
            LibFuzzerReproducerError::FailedToReadFlameGraphFile => "FailedToReadFlameGraphFile".to_owned(),
            LibFuzzerReproducerError::SolutionNotReproducible => "SolutionNotReproducible".to_owned(),
        }
    }
}

/// Exit code that a harness reports on a timeout.
pub open spec fn timeout_exit_code() -> i32 {
    78
}

/// Exit code taken when the harness gave none (it was killed by a signal).
pub open spec fn signal_exit_code() -> i32 {
    66
}

/// The exit code of a failed run: the one the harness gave, or the signal
/// code when it gave none.
pub fn exit_code(code: Option<i32>) -> (r: i32)
    ensures
        r == match code {
            Some(c) => c,
            None => signal_exit_code(),
        },
{
    match code {
        Some(c) => c,
        None => 66,
    }
}

/// What caused a failed run: a timeout, a signal, or a crash of the
/// sanitizer the harness was built with.
pub open spec fn cause_of(code: i32, sanitizer: Sanitizer) -> SolutionCause {
    if code == timeout_exit_code() {
        SolutionCause::Timeout
    } else if code == signal_exit_code() {
        SolutionCause::SignalCrash
    } else {
        match sanitizer {
            Sanitizer::Address => SolutionCause::AsanCrash,
            Sanitizer::Undefined => SolutionCause::UbsanCrash,
            Sanitizer::Memory => SolutionCause::MsanCrash,
            Sanitizer::Thread => SolutionCause::TsanCrash,
            _ => SolutionCause::Crash,
        }
    }
}

/// The cause of a failed run with exit code `code`.
pub fn solution_cause(code: i32, sanitizer: Sanitizer) -> (r: SolutionCause)
    ensures
        r == cause_of(code, sanitizer),
{
    if code == 78 {
        SolutionCause::Timeout
    } else if code == 66 {
        SolutionCause::SignalCrash
    } else {
        match sanitizer {
            Sanitizer::Address => SolutionCause::AsanCrash,
            Sanitizer::Undefined => SolutionCause::UbsanCrash,
            Sanitizer::Memory => SolutionCause::MsanCrash,
            Sanitizer::Thread => SolutionCause::TsanCrash,
            _ => SolutionCause::Crash,
        }
    }
}

/// Where the trace of a reproduced solution comes from.
#[derive(Clone, Copy, Debug, PartialEq, Eq, Structural)]
pub enum TraceSource {
    /// A flame graph recorded with `perf` (for timeouts).
    FlameGraph,
    /// What the harness printed (for crashes).
    HarnessOutput,
}

/// The outcome of running the harness on a test case.
#[derive(Clone, Copy, Debug, PartialEq, Eq, Structural)]
pub enum RunVerdict {
    /// The harness exited successfully: nothing to reproduce.
    NotReproducible,
    /// The harness failed: the cause, and where the trace comes from.
    Reproduced { cause: SolutionCause, trace: TraceSource },
}

/// Runs the harness built for one sanitizer on one test case.
pub struct LibFuzzerReproducer {
    harness_binary: String,
    sanitizer: Sanitizer,
    test_case: String,
}

impl LibFuzzerReproducer {
    /// The harness binary.
    pub closed spec fn binary_view(&self) -> Seq<char> {
        self.harness_binary@
    }

    /// The sanitizer the harness was built with.
    pub closed spec fn sanitizer_view(&self) -> Sanitizer {
        self.sanitizer
    }

    /// The test case.
    pub closed spec fn test_case_view(&self) -> Seq<char> {
        self.test_case@
    }

    /// A reproducer for `test_case` with `harness_binary`.
    pub fn new(harness_binary: String, sanitizer: Sanitizer, test_case: String) -> (r: Self)
        ensures
            r.binary_view() == harness_binary@,
            r.sanitizer_view() == sanitizer,
            r.test_case_view() == test_case@,
    {
        LibFuzzerReproducer { harness_binary, sanitizer, test_case }
    }

    /// The harness binary.
    pub fn harness_binary(&self) -> (r: &str)
        ensures
            r@ == self.binary_view(),
    {
        self.harness_binary.as_str()
    }

    /// The test case.
    pub fn test_case(&self) -> (r: &str)
        ensures
            r@ == self.test_case_view(),
    {
        self.test_case.as_str()
    }

    /// The sanitizer the harness was built with.
    pub fn sanitizer(&self) -> (r: Sanitizer)
        ensures
            r == self.sanitizer_view(),
    {
        self.sanitizer
    }

    /// The arguments the harness runs with: crashes and timeouts get exit
    /// codes of their own, a run times out after a second, and the test case
    /// comes last.
    pub fn harness_args(&self) -> (r: Vec<String>)
        ensures
            r@.map_values(|s: String| s@) == seq![
                "-error_exitcode=77"@,
                "-timeout_exitcode=78"@,
                "-timeout=1"@,
                self.test_case_view(),
            ],
    {
        let mut r: Vec<String> = Vec::new();
        r.push("-error_exitcode=77".to_owned());
        r.push("-timeout_exitcode=78".to_owned());
        r.push("-timeout=1".to_owned());
        r.push(self.test_case.clone());
        assert(r@.map_values(|s: String| s@) =~= seq![
            "-error_exitcode=77"@,
            "-timeout_exitcode=78"@,
            "-timeout=1"@,
            self.test_case_view(),
        ]);
        r
    }

    /// The arguments of `perf record` that profiles five runs of the test
    /// case into `perf_output`.
    pub fn perf_record_args(&self, perf_output: &str) -> (r: Vec<String>)
        ensures
            r@.map_values(|s: String| s@) == seq![
                "record"@,
                "-g"@,
                "--output"@,
                perf_output@,
                "--"@,
                self.binary_view(),
                "-runs=5"@,
                self.test_case_view(),
            ],
    {
        let mut r: Vec<String> = Vec::new();
        r.push("record".to_owned());
        r.push("-g".to_owned());
        r.push("--output".to_owned());
        r.push(perf_output.to_owned());
        r.push("--".to_owned());
        r.push(self.harness_binary.clone());
        r.push("-runs=5".to_owned());
        r.push(self.test_case.clone());
        assert(r@.map_values(|s: String| s@) =~= seq![
            "record"@,
            "-g"@,
            "--output"@,
            perf_output@,
            "--"@,
            self.binary_view(),
            "-runs=5"@,
            self.test_case_view(),
        ]);
        r
    }

    /// What a run of the harness shows: nothing when it succeeded; otherwise
    /// the cause, from its exit code (`code`, none when a signal killed it),
    /// and where the trace comes from (a flame graph for timeouts, the
    /// harness's output for crashes).
    pub fn verdict(&self, success: bool, code: Option<i32>) -> (r: RunVerdict)
        ensures
            success ==> r == RunVerdict::NotReproducible,
            !success ==> {
                let c = match code {
                    Some(c) => c,
                    None => signal_exit_code(),
                };
                r == RunVerdict::Reproduced {
                    cause: cause_of(c, self.sanitizer_view()),
                    trace: if c == timeout_exit_code() {
                        TraceSource::FlameGraph
                    } else {
                        TraceSource::HarnessOutput
                    },
                }
            },
    {
        if success {
            return RunVerdict::NotReproducible;
        }
        let c = exit_code(code);
        let trace = if c == 78 {
            TraceSource::FlameGraph
        } else {
            TraceSource::HarnessOutput
        };
        RunVerdict::Reproduced { cause: solution_cause(c, self.sanitizer), trace }
    }
}

/// The arguments of `perf script` that reads `perf_output`.
pub fn perf_script_args(perf_output: &str) -> (r: Vec<String>)
    ensures
        r@.map_values(|s: String| s@) == seq!["script"@, "--input"@, perf_output@],
{
    let mut r: Vec<String> = Vec::new();
    r.push("script".to_owned());
    r.push("--input".to_owned());
    r.push(perf_output.to_owned());
    assert(r@.map_values(|s: String| s@) =~= seq!["script"@, "--input"@, perf_output@]);
    r
}

/// How the solutions of a harness are reproduced.
pub enum ReproductionMode {
    /// With the native Go harness at this path.
    NativeGo(String),
    /// With the fuzzamoto harness at this path (none when the project has no
    /// such build).
    Fuzzamoto(Option<String>),
    /// With the libFuzzer builds, and the SemSan pairs.
    Standard,
}

/// How the solutions of `harness` in the project are reproduced: with the
/// native Go build when there is one, as fuzzamoto solutions in the project
/// of that name, and with the libFuzzer builds otherwise.
pub fn reproduction_mode(config: &ProjectConfig, harness: &str) -> (r: ReproductionMode)
    ensures
        match harness_binary(FuzzEngine::NativeGo, Sanitizer::NoSanitizer, harness@, *config) {
            Some(b) => r matches ReproductionMode::NativeGo(p) && p@ == b,
            None => if config.name@ == "fuzzamoto"@ {
                r matches ReproductionMode::Fuzzamoto(p) && opt_view(p) == harness_binary(
                    FuzzEngine::AflPlusPlusNyx,
                    Sanitizer::NoSanitizer,
                    harness@,
                    *config,
                )
            } else {
                r is Standard
            },
        },
{
    match get_harness_binary(&FuzzEngine::NativeGo, &Sanitizer::NoSanitizer, harness, config) {
        Some(b) => ReproductionMode::NativeGo(b),
        None => {
            if crate::text::eq_str(config.name.as_str(), "fuzzamoto") {
                ReproductionMode::Fuzzamoto(
                    get_harness_binary(&FuzzEngine::AflPlusPlusNyx, &Sanitizer::NoSanitizer, harness, config),
                )
            } else {
                ReproductionMode::Standard
            }
        },
    }
}

/// The sanitizers a solution is reproduced with, in order.
pub open spec fn reproduction_sanitizers() -> Seq<Sanitizer> {
    seq![
        Sanitizer::NoSanitizer,
        Sanitizer::Undefined,
        Sanitizer::Address,
        Sanitizer::Memory,
        Sanitizer::Thread,
    ]
}

/// The libFuzzer builds among the first `n` reproduction sanitizers that
/// the project has, in order, each with its sanitizer.
pub open spec fn libfuzzer_builds(config: ProjectConfig, harness: Seq<char>, n: int) -> Seq<(Seq<char>, Sanitizer)>
    decreases n,
{
    if n <= 0 {
        seq![]
    } else {
        let s = reproduction_sanitizers()[n - 1];
        libfuzzer_builds(config, harness, n - 1) + if config_has_sanitizer(config, s) {
            seq![(harness_binary(FuzzEngine::LibFuzzer, s, harness, config)->Some_0, s)]
        } else {
            seq![]
        }
    }
}

/// Every reproduction sanitizer the project has comes with a libFuzzer
/// build of the harness.
pub open spec fn libfuzzer_builds_exist(config: ProjectConfig, harness: Seq<char>) -> bool {
    forall|i: int|
        0 <= i < 5 && config_has_sanitizer(config, #[trigger] reproduction_sanitizers()[i]) ==> harness_binary(
            FuzzEngine::LibFuzzer,
            reproduction_sanitizers()[i],
            harness,
            config,
        ) is Some
}

/// The libFuzzer builds a solution of `harness` is reproduced with: one per
/// reproduction sanitizer the project has, in order.
pub fn libfuzzer_harnesses(config: &ProjectConfig, harness: &str) -> (r: Vec<(String, Sanitizer)>)
    requires
        libfuzzer_builds_exist(*config, harness@),
    ensures
        r@.map_values(|b: (String, Sanitizer)| (b.0@, b.1)) == libfuzzer_builds(*config, harness@, 5),
{
    let sanitizers = [
        Sanitizer::NoSanitizer,
        Sanitizer::Undefined,
        Sanitizer::Address,
        Sanitizer::Memory,
        Sanitizer::Thread,
    ];
    assert(sanitizers@ =~= reproduction_sanitizers());
    let mut r: Vec<(String, Sanitizer)> = Vec::new();
    let mut i: usize = 0;
    while i < 5
        invariant
            i <= 5,
            sanitizers@ == reproduction_sanitizers(),
            libfuzzer_builds_exist(*config, harness@),
            r@.map_values(|b: (String, Sanitizer)| (b.0@, b.1)) == libfuzzer_builds(*config, harness@, i as int),
        decreases 5 - i,
    {
        let s = sanitizers[i];
        let ghost r0 = r@;
        if config.has_sanitizer(&s) {
            assert(config_has_sanitizer(*config, reproduction_sanitizers()[i as int]));
            match get_harness_binary(&FuzzEngine::LibFuzzer, &s, harness, config) {
                Some(b) => {
                    r.push((b, s));
                },
                None => {},
            }
            assert(r@.map_values(|b: (String, Sanitizer)| (b.0@, b.1)) =~= r0.map_values(
                |b: (String, Sanitizer)| (b.0@, b.1),
            ).push((harness_binary(FuzzEngine::LibFuzzer, s, harness@, *config)->Some_0, s)));
        }
        i = i + 1;
    }
    r
}

/// The SemSan pairs among `sanitizers`, in order: for each SemSan build, the
/// plain AFL++ build and that SemSan build of the harness.
pub open spec fn semsan_pairs_of(config: ProjectConfig, harness: Seq<char>, sanitizers: Seq<Sanitizer>) -> Seq<
    (Seq<char>, Seq<char>),
>
    decreases sanitizers.len(),
{
    if sanitizers.len() == 0 {
        seq![]
    } else {
        let s = sanitizers.last();
        semsan_pairs_of(config, harness, sanitizers.drop_last()) + if s is SemSan {
            seq![
                (
                    harness_binary(FuzzEngine::AflPlusPlus, Sanitizer::NoSanitizer, harness, config)->Some_0,
                    harness_binary(FuzzEngine::AflPlusPlus, s, harness, config)->Some_0,
                ),
            ]
        } else {
            seq![]
        }
    }
}

/// The project's SemSan pairs: none without a sanitizer list.
pub open spec fn semsan_pairs_spec(config: ProjectConfig, harness: Seq<char>) -> Seq<(Seq<char>, Seq<char>)> {
    match config.sanitizers {
        Some(v) => semsan_pairs_of(config, harness, v@),
        None => seq![],
    }
}

/// Every SemSan build the project lists comes with an AFL++ build of the
/// harness, as does the plain sanitizer.
pub open spec fn semsan_builds_exist(config: ProjectConfig, harness: Seq<char>) -> bool {
    match config.sanitizers {
        Some(v) => forall|i: int|
            0 <= i < v@.len() && (#[trigger] v@[i]) is SemSan ==> harness_binary(
                FuzzEngine::AflPlusPlus,
                Sanitizer::NoSanitizer,
                harness,
                config,
            ) is Some && harness_binary(FuzzEngine::AflPlusPlus, v@[i], harness, config) is Some,
        None => true,
    }
}

/// The pairs of builds a solution of `harness` is reproduced with by SemSan.
pub fn semsan_pairs(config: &ProjectConfig, harness: &str) -> (r: Vec<(String, String)>)
    requires
        semsan_builds_exist(*config, harness@),
    ensures
        r@.map_values(|p: (String, String)| (p.0@, p.1@)) == semsan_pairs_spec(*config, harness@),
{
    let mut r: Vec<(String, String)> = Vec::new();
    match &config.sanitizers {
        Some(v) => {
            let mut i: usize = 0;
            while i < v.len()
                invariant
                    config.sanitizers == Some(*v),
                    i <= v@.len(),
                    semsan_builds_exist(*config, harness@),
                    r@.map_values(|p: (String, String)| (p.0@, p.1@)) == semsan_pairs_of(
                        *config,
                        harness@,
                        v@.subrange(0, i as int),
                    ),
                decreases v@.len() - i,
            {
                let s = v[i];
                let ghost r0 = r@;
                assert(v@.subrange(0, i + 1).drop_last() =~= v@.subrange(0, i as int));
                if let Sanitizer::SemSan(_) = s {
                    let primary = get_harness_binary(&FuzzEngine::AflPlusPlus, &Sanitizer::NoSanitizer, harness, config);
                    let secondary = get_harness_binary(&FuzzEngine::AflPlusPlus, &s, harness, config);
                    match (primary, secondary) {
                        (Some(p), Some(q)) => {
                            r.push((p, q));
                        },
                        _ => {},
                    }
                }
                assert(r@.map_values(|p: (String, String)| (p.0@, p.1@)) =~= semsan_pairs_of(
                    *config,
                    harness@,
                    v@.subrange(0, i + 1),
                ));
                i = i + 1;
            }
            assert(v@.subrange(0, i as int) =~= v@);
        },
        None => {},
    }
    r
}

/// SemSan pairs are reproduced only in projects built for both AFL++ and
/// SemSan.
pub fn reproduces_with_semsan(config: &ProjectConfig) -> (r: bool)
    ensures
        r == (config_has_engine(*config, FuzzEngine::AflPlusPlus) && config_has_engine(
            *config,
            FuzzEngine::SemSan,
        )),
{
    config.has_engine(&FuzzEngine::AflPlusPlus) && config.has_engine(&FuzzEngine::SemSan)
}

/// A step of a reproduction that can fail.
#[derive(Clone, Copy, Debug, PartialEq, Eq, Structural)]
pub enum ReproduceStep {
    CreateWorkdir,
    CreateOutputFile,
    ReadTestCase,
    RunHarness,
    ReadOutputFile,
    CreateFlameGraphWorkdir,
    CreatePerfOutputFile,
    RunPerfRecord,
    CreatePerfScriptFile,
    RunPerfScript,
    LocateFlameGraphRepo,
    CreateFoldedFile,
    RunStackcollapse,
    CreateFlameGraphFile,
    RunFlameGraph,
    ReadFlameGraphFile,
}

/// The error a failing step gives. (The work directory of the flame graph
/// counts as its perf output file.)
pub open spec fn step_error_spec(step: ReproduceStep) -> LibFuzzerReproducerError {
    match step {
        ReproduceStep::CreateWorkdir => LibFuzzerReproducerError::FailedToCreateWorkdir,
        ReproduceStep::CreateOutputFile => LibFuzzerReproducerError::FailedToCreateOutputFile,
        ReproduceStep::ReadTestCase => LibFuzzerReproducerError::FailedToReadTestCase,
        ReproduceStep::RunHarness => LibFuzzerReproducerError::FailedToRunHarness,
        ReproduceStep::ReadOutputFile => LibFuzzerReproducerError::FailedToReadOutputFile,
        ReproduceStep::CreateFlameGraphWorkdir => LibFuzzerReproducerError::FailedToCreatePerfOutputFile,
        ReproduceStep::CreatePerfOutputFile => LibFuzzerReproducerError::FailedToCreatePerfOutputFile,
        ReproduceStep::RunPerfRecord => LibFuzzerReproducerError::FailedToRunPerfRecord,
        ReproduceStep::CreatePerfScriptFile => LibFuzzerReproducerError::FailedToCreatePerfScriptFile,
        ReproduceStep::RunPerfScript => LibFuzzerReproducerError::FailedToRunPerfScript,
        ReproduceStep::LocateFlameGraphRepo => LibFuzzerReproducerError::FlameGraphRepoNotConfigured,
        ReproduceStep::CreateFoldedFile => LibFuzzerReproducerError::FailedToCreateFoldedFile,
        ReproduceStep::RunStackcollapse => LibFuzzerReproducerError::FailedToRunStackcollapse,
        ReproduceStep::CreateFlameGraphFile => LibFuzzerReproducerError::FailedToCreateFlameGraphFile,
        ReproduceStep::RunFlameGraph => LibFuzzerReproducerError::FailedToRunFlameGraph,
        ReproduceStep::ReadFlameGraphFile => LibFuzzerReproducerError::FailedToReadFlameGraphFile,
    }
}

/// The error a failing step gives.
pub fn step_error(step: ReproduceStep) -> (r: LibFuzzerReproducerError)
    ensures
        r == step_error_spec(step),
{
    match step {
        ReproduceStep::CreateWorkdir => LibFuzzerReproducerError::FailedToCreateWorkdir,
        ReproduceStep::CreateOutputFile => LibFuzzerReproducerError::FailedToCreateOutputFile,
        ReproduceStep::ReadTestCase => LibFuzzerReproducerError::FailedToReadTestCase,
        ReproduceStep::RunHarness => LibFuzzerReproducerError::FailedToRunHarness,
        ReproduceStep::ReadOutputFile => LibFuzzerReproducerError::FailedToReadOutputFile,
        ReproduceStep::CreateFlameGraphWorkdir => LibFuzzerReproducerError::FailedToCreatePerfOutputFile,
        ReproduceStep::CreatePerfOutputFile => LibFuzzerReproducerError::FailedToCreatePerfOutputFile,
        ReproduceStep::RunPerfRecord => LibFuzzerReproducerError::FailedToRunPerfRecord,
        ReproduceStep::CreatePerfScriptFile => LibFuzzerReproducerError::FailedToCreatePerfScriptFile,
        ReproduceStep::RunPerfScript => LibFuzzerReproducerError::FailedToRunPerfScript,
        ReproduceStep::LocateFlameGraphRepo => LibFuzzerReproducerError::FlameGraphRepoNotConfigured,
        ReproduceStep::CreateFoldedFile => LibFuzzerReproducerError::FailedToCreateFoldedFile,
        ReproduceStep::RunStackcollapse => LibFuzzerReproducerError::FailedToRunStackcollapse,
        ReproduceStep::CreateFlameGraphFile => LibFuzzerReproducerError::FailedToCreateFlameGraphFile,
        ReproduceStep::RunFlameGraph => LibFuzzerReproducerError::FailedToRunFlameGraph,
        ReproduceStep::ReadFlameGraphFile => LibFuzzerReproducerError::FailedToReadFlameGraphFile,
    }
}

/// The two scripts of a FlameGraph checkout at `repo`: the one that folds
/// `perf script` output, and the one that draws the graph.
pub fn flame_graph_scripts(repo: &str) -> (r: (String, String))
    ensures
        r.0@ == path_join(repo@, "stackcollapse-perf.pl"@),
        r.1@ == path_join(repo@, "flamegraph.pl"@),
{
    (join_path(repo, "stackcollapse-perf.pl"), join_path(repo, "flamegraph.pl"))
}

} // verus!
