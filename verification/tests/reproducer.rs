use fuzzor::reproducer::{
    exit_code, flame_graph_scripts, libfuzzer_harnesses, perf_script_args, reproduces_with_semsan, reproduction_mode,
    semsan_pairs, solution_cause, step_error, LibFuzzerReproducer, LibFuzzerReproducerError, ReproduceStep,
    ReproductionMode, RunVerdict, TraceSource,
};
use fuzzor::types::{CpuArchitecture, FuzzEngine, Language, ProjectConfig, Sanitizer, SemSanBuild, SolutionCause};

fn config(name: &str, engines: Vec<FuzzEngine>, sanitizers: Vec<Sanitizer>) -> ProjectConfig {
    ProjectConfig {
        name: name.to_string(),
        owner: "o".to_string(),
        repo: "r".to_string(),
        branch: None,
        pr_number: None,
        language: Language::Cpp,
        ccs: vec![],
        engines: Some(engines),
        sanitizers: Some(sanitizers),
        architectures: Some(vec![CpuArchitecture::Arm64]),
        fuzz_env_var: None,
        no_stack_limit_harnesses: None,
    }
}

#[test]
fn causes_from_exit_codes() {
    assert_eq!(exit_code(None), 66);
    assert_eq!(exit_code(Some(77)), 77);
    assert_eq!(solution_cause(78, Sanitizer::Address), SolutionCause::Timeout);
    assert_eq!(solution_cause(66, Sanitizer::Address), SolutionCause::SignalCrash);
    assert_eq!(solution_cause(77, Sanitizer::Address), SolutionCause::AsanCrash);
    assert_eq!(solution_cause(77, Sanitizer::Undefined), SolutionCause::UbsanCrash);
    assert_eq!(solution_cause(1, Sanitizer::Memory), SolutionCause::MsanCrash);
    assert_eq!(solution_cause(77, Sanitizer::Thread), SolutionCause::TsanCrash);
    assert_eq!(solution_cause(77, Sanitizer::NoSanitizer), SolutionCause::Crash);
}

#[test]
fn verdicts() {
    let r = LibFuzzerReproducer::new("/bin/h".to_string(), Sanitizer::Address, "/t/crash-1".to_string());
    assert_eq!(r.verdict(true, Some(0)), RunVerdict::NotReproducible);
    assert_eq!(
        r.verdict(false, Some(78)),
        RunVerdict::Reproduced { cause: SolutionCause::Timeout, trace: TraceSource::FlameGraph }
    );
    assert_eq!(
        r.verdict(false, None),
        RunVerdict::Reproduced { cause: SolutionCause::SignalCrash, trace: TraceSource::HarnessOutput }
    );
    assert_eq!(
        r.verdict(false, Some(77)),
        RunVerdict::Reproduced { cause: SolutionCause::AsanCrash, trace: TraceSource::HarnessOutput }
    );
}

#[test]
fn command_lines() {
    let r = LibFuzzerReproducer::new("/bin/h".to_string(), Sanitizer::Undefined, "/t/x".to_string());
    assert_eq!(r.harness_binary(), "/bin/h");
    assert_eq!(r.test_case(), "/t/x");
    assert_eq!(r.sanitizer(), Sanitizer::Undefined);
    assert_eq!(r.harness_args(), vec!["-error_exitcode=77", "-timeout_exitcode=78", "-timeout=1", "/t/x"]);
    assert_eq!(
        r.perf_record_args("/w/perf_output"),
        vec!["record", "-g", "--output", "/w/perf_output", "--", "/bin/h", "-runs=5", "/t/x"]
    );
    assert_eq!(perf_script_args("/w/perf_output"), vec!["script", "--input", "/w/perf_output"]);
    let (collapse, graph) = flame_graph_scripts("/opt/FlameGraph");
    assert_eq!(collapse, "/opt/FlameGraph/stackcollapse-perf.pl");
    assert_eq!(graph, "/opt/FlameGraph/flamegraph.pl");
}

#[test]
fn error_names_and_steps() {
    assert_eq!(LibFuzzerReproducerError::SolutionNotReproducible.name(), "SolutionNotReproducible");
    assert_eq!(LibFuzzerReproducerError::FlameGraphRepoNotConfigured.name(), "FlameGraphRepoNotConfigured");
    assert_eq!(step_error(ReproduceStep::CreateFlameGraphWorkdir), LibFuzzerReproducerError::FailedToCreatePerfOutputFile);
    assert_eq!(step_error(ReproduceStep::LocateFlameGraphRepo), LibFuzzerReproducerError::FlameGraphRepoNotConfigured);
    assert_eq!(step_error(ReproduceStep::RunHarness), LibFuzzerReproducerError::FailedToRunHarness);
    assert_eq!(step_error(ReproduceStep::ReadFlameGraphFile), LibFuzzerReproducerError::FailedToReadFlameGraphFile);
}

#[test]
fn modes() {
    let go = config("p", vec![FuzzEngine::NativeGo], vec![Sanitizer::NoSanitizer]);
    match reproduction_mode(&go, "FuzzX") {
        ReproductionMode::NativeGo(b) => assert_eq!(b, "/workdir/out/native_go/FuzzX"),
        _ => panic!("expected native Go"),
    }
    let fz = config("fuzzamoto", vec![FuzzEngine::AflPlusPlusNyx], vec![Sanitizer::NoSanitizer]);
    match reproduction_mode(&fz, "h") {
        ReproductionMode::Fuzzamoto(b) => assert_eq!(b, Some("/workdir/out/aflpp/h".to_string())),
        _ => panic!("expected fuzzamoto"),
    }
    let plain = config("p", vec![FuzzEngine::LibFuzzer], vec![Sanitizer::NoSanitizer]);
    assert!(matches!(reproduction_mode(&plain, "h"), ReproductionMode::Standard));
}

#[test]
fn builds_to_reproduce_with() {
    let c = config(
        "p",
        vec![FuzzEngine::LibFuzzer, FuzzEngine::AflPlusPlus, FuzzEngine::SemSan],
        vec![
            Sanitizer::Thread,
            Sanitizer::NoSanitizer,
            Sanitizer::SemSan(SemSanBuild::GccO2),
            Sanitizer::Address,
            Sanitizer::SemSan(SemSanBuild::ClangO0),
        ],
    );
    assert_eq!(
        libfuzzer_harnesses(&c, "h"),
        vec![
            ("/workdir/out/libfuzzer/h".to_string(), Sanitizer::NoSanitizer),
            ("/workdir/out/libfuzzer_asan/h".to_string(), Sanitizer::Address),
            ("/workdir/out/libfuzzer_tsan/h".to_string(), Sanitizer::Thread),
        ]
    );
    assert_eq!(
        semsan_pairs(&c, "h"),
        vec![
            ("/workdir/out/aflpp/h".to_string(), "/workdir/out/semsan_GccO2/h".to_string()),
            ("/workdir/out/aflpp/h".to_string(), "/workdir/out/semsan_ClangO0/h".to_string()),
        ]
    );
    assert!(reproduces_with_semsan(&c));
    let no = config("p", vec![FuzzEngine::LibFuzzer], vec![Sanitizer::NoSanitizer]);
    assert!(!reproduces_with_semsan(&no));
    assert!(semsan_pairs(&no, "h").is_empty());
}

#[test]
fn every_step_has_its_error() {
    let steps = [
        (ReproduceStep::CreateWorkdir, "FailedToCreateWorkdir"),
        (ReproduceStep::CreateOutputFile, "FailedToCreateOutputFile"),
        (ReproduceStep::ReadTestCase, "FailedToReadTestCase"),
        (ReproduceStep::RunHarness, "FailedToRunHarness"),
        (ReproduceStep::ReadOutputFile, "FailedToReadOutputFile"),
        (ReproduceStep::CreateFlameGraphWorkdir, "FailedToCreatePerfOutputFile"),
        (ReproduceStep::CreatePerfOutputFile, "FailedToCreatePerfOutputFile"),
        (ReproduceStep::RunPerfRecord, "FailedToRunPerfRecord"),
        (ReproduceStep::CreatePerfScriptFile, "FailedToCreatePerfScriptFile"),
        (ReproduceStep::RunPerfScript, "FailedToRunPerfScript"),
        (ReproduceStep::LocateFlameGraphRepo, "FlameGraphRepoNotConfigured"),
        (ReproduceStep::CreateFoldedFile, "FailedToCreateFoldedFile"),
        (ReproduceStep::RunStackcollapse, "FailedToRunStackcollapse"),
        (ReproduceStep::CreateFlameGraphFile, "FailedToCreateFlameGraphFile"),
        (ReproduceStep::RunFlameGraph, "FailedToRunFlameGraph"),
        (ReproduceStep::ReadFlameGraphFile, "FailedToReadFlameGraphFile"),
    ];
    for (step, name) in steps.iter() {
        assert_eq!(step_error(*step).name(), *name);
    }
}
