use fuzzor::launcher::{add_fuzzer, fuzzer_flag, sanitizer_options_env, FuzzerConfiguration};
use fuzzor::types::{CpuArchitecture, FuzzEngine, HarnessConfig, Language, ProjectConfig, Sanitizer, SemSanBuild};

fn config(engines: Vec<FuzzEngine>, sanitizers: Vec<Sanitizer>) -> ProjectConfig {
    ProjectConfig {
        name: "p".to_string(),
        owner: "o".to_string(),
        repo: "r".to_string(),
        branch: None,
        pr_number: None,
        language: Language::Cpp,
        ccs: vec![],
        engines: Some(engines),
        sanitizers: Some(sanitizers),
        architectures: Some(vec![CpuArchitecture::Amd64]),
        fuzz_env_var: None,
        no_stack_limit_harnesses: None,
    }
}

fn configure(c: &mut FuzzerConfiguration) {
    c.configure_native_go();
    c.configure_semsan();
    c.configure_libfuzzer();
    c.configure_honggfuzz();
    c.configure_aflplusplus();
}

#[test]
fn libfuzzer_takes_remaining_cores_without_aflpp() {
    let p = config(
        vec![FuzzEngine::LibFuzzer],
        vec![Sanitizer::NoSanitizer, Sanitizer::Address, Sanitizer::ValueProfile],
    );
    let mut c = FuzzerConfiguration::with_total_cores(p, HarnessConfig::new(), 8);
    configure(&mut c);
    assert_eq!(
        c.supported_fuzzers().clone(),
        vec![(FuzzEngine::LibFuzzer, Sanitizer::NoSanitizer), (FuzzEngine::LibFuzzer, Sanitizer::Address)]
    );
    assert_eq!(c.extra_args().clone(), vec!["--libfuzzer-value-profile", "--libfuzzer-add-cores", "5"]);
    // The remaining cores go to libFuzzer.
    assert_eq!(c.cores_assigned(), 8);
    assert!(!c.has_available_cores());
}

#[test]
fn aflpp_occupies_with_sanitizers() {
    let p = config(
        vec![FuzzEngine::LibFuzzer, FuzzEngine::AflPlusPlus],
        vec![Sanitizer::NoSanitizer, Sanitizer::CmpLog, Sanitizer::Undefined],
    );
    let mut c = FuzzerConfiguration::with_total_cores(p, HarnessConfig::new(), 16);
    configure(&mut c);
    assert_eq!(
        c.supported_fuzzers().clone(),
        vec![
            (FuzzEngine::LibFuzzer, Sanitizer::NoSanitizer),
            (FuzzEngine::AflPlusPlus, Sanitizer::NoSanitizer),
            (FuzzEngine::AflPlusPlus, Sanitizer::CmpLog),
            (FuzzEngine::AflPlusPlus, Sanitizer::Undefined),
        ]
    );
    assert_eq!(c.extra_args().clone(), vec!["--aflpp-occupy"]);
    let args = c.ensemble_args("h", 3600, "/ws");
    assert_eq!(
        args,
        vec![
            "--libfuzzer-binary",
            "/workdir/out/libfuzzer/h",
            "--aflpp-binary",
            "/workdir/out/aflpp/h",
            "--aflpp-cmplog-binary",
            "/workdir/out/aflpp_cmplog/h",
            "--aflpp-ubsan-binary",
            "/workdir/out/aflpp_ubsan/h",
            "--aflpp-occupy",
            "--max-duration",
            "3600",
            "--workspace",
            "/ws",
        ]
    );
}

#[test]
fn native_go_takes_all_cores() {
    let p = config(vec![FuzzEngine::NativeGo, FuzzEngine::LibFuzzer], vec![Sanitizer::NoSanitizer]);
    let mut c = FuzzerConfiguration::with_total_cores(p, HarnessConfig::new(), 4);
    configure(&mut c);
    assert_eq!(c.supported_fuzzers().clone(), vec![(FuzzEngine::NativeGo, Sanitizer::NoSanitizer)]);
    assert_eq!(c.cores_assigned(), 4);
    assert!(!c.has_available_cores());
}

#[test]
fn nyx_and_semsan() {
    let p = config(
        vec![FuzzEngine::AflPlusPlusNyx, FuzzEngine::SemSan],
        vec![Sanitizer::NoSanitizer, Sanitizer::Address, Sanitizer::SemSan(SemSanBuild::ClangO1)],
    );
    let mut h = HarnessConfig::new();
    h.dictionary = Some("/d.dict".to_string());
    let mut c = FuzzerConfiguration::with_total_cores(p, h, 4);
    configure(&mut c);
    assert_eq!(
        c.supported_fuzzers().clone(),
        vec![
            (FuzzEngine::SemSan, Sanitizer::NoSanitizer),
            (FuzzEngine::SemSan, Sanitizer::SemSan(SemSanBuild::ClangO1)),
            (FuzzEngine::AflPlusPlusNyx, Sanitizer::Address),
        ]
    );
    assert_eq!(c.extra_args().clone(), vec!["--aflpp-nyx", "--aflpp-occupy"]);
    let args = c.ensemble_args("h", 10, "/ws");
    assert_eq!(args[4], "--aflpp-binary");
    assert_eq!(args[5], "/workdir/out/aflpp_asan/h");
    assert_eq!(args[2], "--semsan-secondary-binary");
    assert!(args.windows(2).any(|w| w[0] == "--dictionary" && w[1] == "/d.dict"));
}

#[test]
fn core_limit() {
    let p = config(vec![FuzzEngine::LibFuzzer], vec![Sanitizer::NoSanitizer]);
    let mut c = FuzzerConfiguration::with_total_cores(p, HarnessConfig::new(), 1);
    assert!(c.try_add_fuzzer(FuzzEngine::LibFuzzer, Sanitizer::NoSanitizer));
    assert!(!c.try_add_fuzzer(FuzzEngine::LibFuzzer, Sanitizer::NoSanitizer));
    assert!(!c.try_add_fuzzer(FuzzEngine::HonggFuzz, Sanitizer::NoSanitizer));
    assert_eq!(c.total_cores(), 1);
}

#[test]
fn flags() {
    let p = config(vec![FuzzEngine::HonggFuzz], vec![Sanitizer::NoSanitizer]);
    assert_eq!(fuzzer_flag(FuzzEngine::HonggFuzz, Sanitizer::NoSanitizer, &p), "--honggfuzz-binary");
    assert_eq!(fuzzer_flag(FuzzEngine::AflPlusPlus, Sanitizer::Memory, &p), "--aflpp-msan-binary");
    let mut args = vec!["x".to_string()];
    add_fuzzer(FuzzEngine::HonggFuzz, Sanitizer::NoSanitizer, &mut args, "h", &p);
    assert_eq!(args, vec!["x", "--honggfuzz-binary", "/workdir/out/honggfuzz/h"]);
    let env = sanitizer_options_env();
    assert!(env.get("ASAN_OPTIONS").unwrap().contains("abort_on_error=1"));
    assert_eq!(
        env.get("TSAN_OPTIONS"),
        Some("suppressions=/workdir/tsan_suppressions:halt_on_error=1:abort_on_error=1".to_string())
    );
}

#[test]
fn remaining_cores_stay_with_libfuzzer() {
    let p = config(vec![FuzzEngine::LibFuzzer, FuzzEngine::HonggFuzz], vec![Sanitizer::NoSanitizer]);
    let mut c = FuzzerConfiguration::with_total_cores(p, HarnessConfig::new(), 4);
    configure(&mut c);
    assert_eq!(c.supported_fuzzers().clone(), vec![(FuzzEngine::LibFuzzer, Sanitizer::NoSanitizer)]);
    assert_eq!(c.extra_args().clone(), vec!["--libfuzzer-add-cores", "3"]);
    assert_eq!(c.cores_assigned(), 4);
}

#[test]
fn remaining_cores_go_to_honggfuzz() {
    let p = config(vec![FuzzEngine::HonggFuzz], vec![Sanitizer::NoSanitizer]);
    let mut c = FuzzerConfiguration::with_total_cores(p, HarnessConfig::new(), 4);
    configure(&mut c);
    assert_eq!(c.extra_args().clone(), vec!["--honggfuzz-add-cores", "3"]);
    assert_eq!(c.cores_assigned(), 4);
}
