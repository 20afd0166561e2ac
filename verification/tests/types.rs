use fuzzor::types::{
    format_image_name, get_afl_tool_path, get_harness_binary, get_harness_dir, AflTool, CpuArchitecture,
    FuzzEngine, FuzzerStats, Language, ProjectConfig, ReproducedSolution, Sanitizer, SemSanBuild, SolutionCause,
};

fn config(engines: Vec<FuzzEngine>, sanitizers: Vec<Sanitizer>) -> ProjectConfig {
    ProjectConfig {
        name: "bitcoin".to_string(),
        owner: "bitcoin".to_string(),
        repo: "bitcoin".to_string(),
        branch: None,
        pr_number: None,
        language: Language::Cpp,
        ccs: vec![],
        engines: Some(engines),
        sanitizers: Some(sanitizers),
        architectures: Some(vec![CpuArchitecture::Amd64]),
        fuzz_env_var: None,
        no_stack_limit_harnesses: Some(vec!["deep_recursion".to_string()]),
    }
}

#[test]
fn harness_dir_of_built_combinations() {
    let c = config(
        vec![FuzzEngine::LibFuzzer, FuzzEngine::AflPlusPlus, FuzzEngine::SemSan],
        vec![Sanitizer::NoSanitizer, Sanitizer::Address, Sanitizer::SemSan(SemSanBuild::ClangO2)],
    );
    assert_eq!(get_harness_dir(&FuzzEngine::LibFuzzer, &Sanitizer::NoSanitizer, &c), Some("libfuzzer".to_string()));
    assert_eq!(get_harness_dir(&FuzzEngine::LibFuzzer, &Sanitizer::Address, &c), Some("libfuzzer_asan".to_string()));
    assert_eq!(get_harness_dir(&FuzzEngine::AflPlusPlus, &Sanitizer::Address, &c), Some("aflpp_asan".to_string()));
    assert_eq!(
        get_harness_dir(&FuzzEngine::AflPlusPlus, &Sanitizer::SemSan(SemSanBuild::ClangO2), &c),
        Some("semsan_ClangO2".to_string())
    );
    assert_eq!(get_harness_dir(&FuzzEngine::SemSan, &Sanitizer::NoSanitizer, &c), Some("semsan".to_string()));
    // A combination without a build.
    assert_eq!(get_harness_dir(&FuzzEngine::SemSan, &Sanitizer::Address, &c), None);
}

#[test]
fn harness_dir_needs_engine_and_sanitizer() {
    let c = config(vec![FuzzEngine::LibFuzzer], vec![Sanitizer::NoSanitizer]);
    assert_eq!(get_harness_dir(&FuzzEngine::LibFuzzer, &Sanitizer::Address, &c), None);
    assert_eq!(get_harness_dir(&FuzzEngine::HonggFuzz, &Sanitizer::NoSanitizer, &c), None);
    let mut no_lists = config(vec![], vec![]);
    no_lists.engines = None;
    no_lists.sanitizers = None;
    assert_eq!(get_harness_dir(&FuzzEngine::LibFuzzer, &Sanitizer::NoSanitizer, &no_lists), None);
}

#[test]
fn harness_binary_paths() {
    let mut c = config(vec![FuzzEngine::LibFuzzer], vec![Sanitizer::Address]);
    assert_eq!(
        get_harness_binary(&FuzzEngine::LibFuzzer, &Sanitizer::Address, "process_message", &c),
        Some("/workdir/out/libfuzzer_asan/process_message".to_string())
    );
    c.fuzz_env_var = Some("FUZZ".to_string());
    assert_eq!(
        get_harness_binary(&FuzzEngine::LibFuzzer, &Sanitizer::Address, "process_message", &c),
        Some("/workdir/out/libfuzzer_asan/fuzz".to_string())
    );
    assert_eq!(get_harness_binary(&FuzzEngine::LibFuzzer, &Sanitizer::Thread, "process_message", &c), None);
}

#[test]
fn config_queries() {
    let c = config(vec![FuzzEngine::AflPlusPlus], vec![Sanitizer::Undefined]);
    assert!(c.has_engine(&FuzzEngine::AflPlusPlus));
    assert!(!c.has_engine(&FuzzEngine::LibFuzzer));
    assert!(c.has_sanitizer(&Sanitizer::Undefined));
    assert!(!c.has_sanitizer(&Sanitizer::Memory));
    assert!(c.harness_has_no_stack_limit("deep_recursion"));
    assert!(!c.harness_has_no_stack_limit("deep"));
}

#[test]
fn image_name() {
    let c = config(vec![], vec![]);
    assert_eq!(format_image_name(&c), "fuzzor-bitcoin");
}

#[test]
fn afl_tool_paths() {
    assert_eq!(get_afl_tool_path(None, AflTool::AflFuzz), "afl-fuzz");
    assert_eq!(get_afl_tool_path(Some("/opt/afl"), AflTool::AflCMin), "/opt/afl/afl-cmin");
    assert_eq!(get_afl_tool_path(Some("/opt/afl/"), AflTool::AflShowMap), "/opt/afl/afl-showmap");
    assert_eq!(AflTool::AflAddSeeds.name(), "afl-addseeds");
    assert_eq!(AflTool::AflWhatsUp.name(), "afl-whatsup");
}

#[test]
fn stats_with_solutions() {
    let mut s = FuzzerStats::new();
    assert!(!s.has_solutions());
    s.saved_hangs = 1;
    assert!(s.has_solutions());
    s.saved_hangs = 0;
    s.saved_crashes = 3;
    assert!(s.has_solutions());
}

#[test]
fn solution_names() {
    let sol = ReproducedSolution { cause: SolutionCause::AsanCrash, input: b"abc".to_vec(), trace: vec![] };
    assert_eq!(
        sol.name_at(1700000000),
        "fuzzor-1700000000-AsanCrash-ba7816bf8f01cfea414140de5dae2223b00361a396177a9cb410ff61f20015ad"
    );
    let empty = ReproducedSolution { cause: SolutionCause::Timeout, input: vec![], trace: vec![] };
    assert_eq!(
        empty.name_at(0),
        "fuzzor-0-Timeout-e3b0c44298fc1c149afbf4c8996fb92427ae41e4649b934ca495991b7852b855"
    );
    let now = sol.name().unwrap();
    assert!(now.starts_with("fuzzor-"));
    assert!(now.ends_with("-AsanCrash-ba7816bf8f01cfea414140de5dae2223b00361a396177a9cb410ff61f20015ad"));
}

#[test]
fn variant_names() {
    assert_eq!(SolutionCause::Differential.name(), "Differential");
    assert_eq!(SemSanBuild::Custom15.name(), "Custom15");
    assert_eq!(SemSanBuild::GccO1.name(), "GccO1");
}
