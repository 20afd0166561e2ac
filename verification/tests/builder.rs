use fuzzor::builder::{cpp_build_env, cpp_build_plan, plan_builds, script_build_plan, BuildEnv};
use fuzzor::types::{CpuArchitecture, FuzzEngine, Language, ProjectConfig, Sanitizer, SemSanBuild};

fn config(language: Language, engines: Vec<FuzzEngine>, sanitizers: Vec<Sanitizer>) -> ProjectConfig {
    ProjectConfig {
        name: "p".to_string(),
        owner: "o".to_string(),
        repo: "r".to_string(),
        branch: None,
        pr_number: None,
        language,
        ccs: vec![],
        engines: Some(engines),
        sanitizers: Some(sanitizers),
        architectures: Some(vec![CpuArchitecture::Amd64]),
        fuzz_env_var: None,
        no_stack_limit_harnesses: None,
    }
}

#[test]
fn default_ccache_dir() {
    let b = BuildEnv::new("cc", "c++", vec![("CFLAGS".to_string(), "-O1".to_string())]);
    let e = b.envs();
    assert_eq!(e.get("CC"), Some("cc".to_string()));
    assert_eq!(e.get("CXX"), Some("c++".to_string()));
    assert_eq!(e.get("CFLAGS"), Some("-O1".to_string()));
    assert_eq!(e.get("CCACHE_DIR"), Some("/ccache/".to_string()));
    let b = BuildEnv::new("cc", "c++", vec![("CCACHE_DIR".to_string(), "/ccache_asan/".to_string())]);
    assert_eq!(b.envs().get("CCACHE_DIR"), Some("/ccache_asan/".to_string()));
}

#[test]
fn cpp_plans() {
    let c = config(
        Language::Cpp,
        vec![FuzzEngine::LibFuzzer, FuzzEngine::AflPlusPlus, FuzzEngine::SemSan],
        vec![Sanitizer::Address, Sanitizer::CmpLog, Sanitizer::SemSan(SemSanBuild::GccO1)],
    );
    let (dir, env) = cpp_build_plan(&FuzzEngine::LibFuzzer, &Sanitizer::Address, &c).unwrap();
    assert_eq!(dir, "libfuzzer_asan");
    assert_eq!(env.get("CC"), Some("clang".to_string()));
    assert_eq!(env.get("LIB_FUZZING_ENGINE"), Some("-fsanitize=fuzzer,address".to_string()));
    assert_eq!(env.get("FUZZING_ENGINE"), Some("libfuzzer_asan".to_string()));
    assert_eq!(env.get("CCACHE_DIR"), Some("/ccache/".to_string()));
    let (dir, env) = cpp_build_plan(&FuzzEngine::AflPlusPlus, &Sanitizer::CmpLog, &c).unwrap();
    assert_eq!(dir, "aflpp_cmplog");
    assert_eq!(env.get("AFL_LLVM_CMPLOG"), Some("1".to_string()));
    assert_eq!(env.get("CCACHE_DIR"), Some("/ccache_cmplog/".to_string()));
    let (dir, env) = cpp_build_plan(&FuzzEngine::SemSan, &Sanitizer::SemSan(SemSanBuild::GccO1), &c).unwrap();
    assert_eq!(dir, "semsan_GccO1");
    assert_eq!(env.get("CC"), Some("afl-gcc-fast".to_string()));
    assert_eq!(env.get("CFLAGS"), Some("-O1".to_string()));
    assert_eq!(env.get("SEMSAN_BUILD"), Some("GccO1".to_string()));
    // A combination that is not built.
    assert!(cpp_build_env(&FuzzEngine::LibFuzzer, &Sanitizer::CmpLog).is_none());
}

#[test]
fn script_plans() {
    let c = config(Language::Rust, vec![FuzzEngine::LibFuzzer], vec![Sanitizer::NoSanitizer]);
    let (dir, env) = script_build_plan(&FuzzEngine::LibFuzzer, &Sanitizer::NoSanitizer, &c).unwrap();
    assert_eq!(dir, "libfuzzer");
    assert_eq!(env.get("FUZZING_ENGINE"), Some("libfuzzer".to_string()));
    assert_eq!(env.to_pairs().len(), 1);
    assert!(script_build_plan(&FuzzEngine::LibFuzzer, &Sanitizer::Address, &c).is_none());
}

#[test]
fn all_builds_in_order() {
    let c = config(
        Language::Go,
        vec![FuzzEngine::NativeGo, FuzzEngine::LibFuzzer],
        vec![Sanitizer::NoSanitizer, Sanitizer::Thread],
    );
    let dirs: Vec<String> = plan_builds(&c).into_iter().map(|(d, _)| d).collect();
    assert_eq!(dirs, vec!["native_go", "libfuzzer", "libfuzzer_tsan"]);
    let cpp = config(
        Language::C,
        vec![FuzzEngine::AflPlusPlus, FuzzEngine::NoEngine],
        vec![Sanitizer::NoSanitizer, Sanitizer::Coverage],
    );
    let dirs: Vec<String> = plan_builds(&cpp).into_iter().map(|(d, _)| d).collect();
    assert_eq!(dirs, vec!["aflpp", "coverage"]);
}
