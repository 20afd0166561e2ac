//! Build environments: the compilers and flags with which a C/C++ project's
//! build script runs for each engine and sanitizer.

use vstd::prelude::*;

use crate::env::{pairs_view, set_all, EnvVars};
use crate::text::{contains, occurs_at};
use crate::types::{
    config_has_engine, config_has_sanitizer, get_harness_dir, harness_dir, harness_dir_name,
    semsan_build_name, FuzzEngine, Language, ProjectConfig, Sanitizer, SemSanBuild,
};

verus! {

/// Compilers and extra environment variables of one build.
pub struct BuildEnv {
    pub cc: String,
    pub cxx: String,
    pub envs: Vec<(String, String)>,
}

/// A build as character sequences: C compiler, C++ compiler, extra variables.
pub type BuildSpec = (Seq<char>, Seq<char>, Seq<(Seq<char>, Seq<char>)>);

impl BuildEnv {
    /// The build as character sequences.
    pub open spec fn spec(&self) -> BuildSpec {
        (self.cc@, self.cxx@, pairs_view(self.envs@))
    }

    /// A build with the given compilers and extra variables.
    pub fn new(cc: &str, cxx: &str, envs: Vec<(String, String)>) -> (r: Self)
        ensures
            r.spec() == (cc@, cxx@, pairs_view(envs@)),
    {
        BuildEnv { cc: cc.to_owned(), cxx: cxx.to_owned(), envs }
    }

    /// The environment of the build: `CC` and `CXX`, then the extra variables
    /// in order (a later one replacing an earlier one of the same name), and
    /// `CCACHE_DIR=/ccache/` unless the extra variables set it.
    pub fn envs(&self) -> (r: EnvVars)
        ensures
            r@ == build_env_map(self.spec()),
    {
        let mut e = EnvVars::new();
        e.insert("CC".to_owned(), self.cc.clone());
        e.insert("CXX".to_owned(), self.cxx.clone());
        let ghost base = e@;
        let mut i: usize = 0;
        while i < self.envs.len()
            invariant
                i <= self.envs@.len(),
                base == Map::<Seq<char>, Seq<char>>::empty().insert("CC"@, self.cc@).insert(
                    "CXX"@,
                    self.cxx@,
                ),
                e@ == set_all(base, pairs_view(self.envs@).subrange(0, i as int)),
            decreases self.envs@.len() - i,
        {
            e.insert(self.envs[i].0.clone(), self.envs[i].1.clone());
            proof {
                let pv = pairs_view(self.envs@);
                assert(pv.subrange(0, i + 1).drop_last() =~= pv.subrange(0, i as int));
                assert(pv.subrange(0, i + 1).last() == pv[i as int]);
            }
            i = i + 1;
        }
        assert(pairs_view(self.envs@).subrange(0, i as int) =~= pairs_view(self.envs@));
        if !e.contains_key("CCACHE_DIR") {
            e.insert("CCACHE_DIR".to_owned(), "/ccache/".to_owned());
        }
        e
    }
}

/// The environment of a build: `CC`, `CXX`, the extra variables in order,
/// and a default `CCACHE_DIR`.
pub open spec fn build_env_map(b: BuildSpec) -> Map<Seq<char>, Seq<char>> {
    let m = set_all(
        Map::<Seq<char>, Seq<char>>::empty().insert("CC"@, b.0).insert("CXX"@, b.1),
        b.2,
    );
    if m.dom().contains("CCACHE_DIR"@) {
        m
    } else {
        m.insert("CCACHE_DIR"@, "/ccache/"@)
    }
}

/// The build used for a C/C++ project with an engine and a sanitizer; `None`
/// for the combinations that are not built.
pub open spec fn cpp_build_table(e: FuzzEngine, s: Sanitizer) -> Option<BuildSpec> {
    match (e, s) {
        (FuzzEngine::SemSan, Sanitizer::SemSan(SemSanBuild::GccO0)) => Some(("afl-gcc-fast"@, "afl-g++-fast"@, seq![("CFLAGS"@, "-O0"@), ("CXXFLAGS"@, "-O0"@)])),
        (FuzzEngine::SemSan, Sanitizer::SemSan(SemSanBuild::GccO1)) => Some(("afl-gcc-fast"@, "afl-g++-fast"@, seq![("CFLAGS"@, "-O1"@), ("CXXFLAGS"@, "-O1"@)])),
        (FuzzEngine::SemSan, Sanitizer::SemSan(SemSanBuild::GccO2)) => Some(("afl-gcc-fast"@, "afl-g++-fast"@, seq![("CFLAGS"@, "-O2"@), ("CXXFLAGS"@, "-O2"@)])),
        (FuzzEngine::SemSan, Sanitizer::SemSan(SemSanBuild::ClangO0)) => Some(("afl-clang-fast"@, "afl-clang-fast++"@, seq![("CFLAGS"@, "-O0"@), ("CXXFLAGS"@, "-O0"@)])),
        (FuzzEngine::SemSan, Sanitizer::SemSan(SemSanBuild::ClangO1)) => Some(("afl-clang-fast"@, "afl-clang-fast++"@, seq![("CFLAGS"@, "-O1"@), ("CXXFLAGS"@, "-O1"@)])),
        (FuzzEngine::SemSan, Sanitizer::SemSan(SemSanBuild::ClangO2)) => Some(("afl-clang-fast"@, "afl-clang-fast++"@, seq![("CFLAGS"@, "-O2"@), ("CXXFLAGS"@, "-O2"@)])),
        (FuzzEngine::SemSan, Sanitizer::SemSan(_)) => Some(("afl-clang-fast"@, "afl-clang-fast++"@, seq![])),
        (FuzzEngine::SemSan, Sanitizer::NoSanitizer) => Some(("afl-clang-fast"@, "afl-clang-fast++"@, seq![])),
        (FuzzEngine::AflPlusPlus, Sanitizer::NoSanitizer) => Some(("afl-clang-fast"@, "afl-clang-fast++"@, seq![])),
        (FuzzEngine::AflPlusPlusNyx, Sanitizer::NoSanitizer) => Some(("afl-clang-fast"@, "afl-clang-fast++"@, seq![])),
        (FuzzEngine::AflPlusPlus, Sanitizer::CmpLog) => Some(("afl-clang-fast"@, "afl-clang-fast++"@, seq![("AFL_LLVM_CMPLOG"@, "1"@), ("CCACHE_DIR"@, "/ccache_cmplog/"@), ("CFLAGS"@, "-O2"@), ("CXXFLAGS"@, "-O2"@)])),
        (FuzzEngine::AflPlusPlus, Sanitizer::Undefined) => Some(("afl-clang-fast"@, "afl-clang-fast++"@, seq![("LIB_FUZZING_ENGINE"@, "-fsanitize=array-bounds,bool,builtin,enum,integer-divide-by-zero,null,return,returns-nonnull-attribute,shift,signed-integer-overflow,unsigned-integer-overflow,unreachable,vla-bound,vptr"@), ("CFLAGS"@, "-fsanitize=array-bounds,bool,builtin,enum,integer-divide-by-zero,null,return,returns-nonnull-attribute,shift,signed-integer-overflow,unsigned-integer-overflow,unreachable,vla-bound,vptr -O2 -g -fno-inline"@), ("CXXFLAGS"@, "-fsanitize=array-bounds,bool,builtin,enum,integer-divide-by-zero,null,return,returns-nonnull-attribute,shift,signed-integer-overflow,unsigned-integer-overflow,unreachable,vla-bound,vptr -O2 -g -fno-inline"@)])),
        (FuzzEngine::AflPlusPlus, Sanitizer::Address) => Some(("afl-clang-fast"@, "afl-clang-fast++"@, seq![("AFL_USE_ASAN"@, "1"@), ("CCACHE_DIR"@, "/ccache_asan/"@), ("CFLAGS"@, "-O2"@), ("CXXFLAGS"@, "-O2"@)])),
        (FuzzEngine::AflPlusPlusNyx, Sanitizer::Address) => Some(("afl-clang-fast"@, "afl-clang-fast++"@, seq![("AFL_USE_ASAN"@, "1"@), ("CCACHE_DIR"@, "/ccache_asan/"@), ("CFLAGS"@, "-O2"@), ("CXXFLAGS"@, "-O2"@)])),
        (FuzzEngine::AflPlusPlus, Sanitizer::Thread) => Some(("afl-clang-fast"@, "afl-clang-fast++"@, seq![("AFL_USE_TSAN"@, "1"@), ("CCACHE_DIR"@, "/ccache_tsan/"@), ("CFLAGS"@, "-O2 -g -fno-omit-frame-pointer"@), ("CXXFLAGS"@, "-O2 -g -fno-omit-frame-pointer"@)])),
        (FuzzEngine::AflPlusPlus, Sanitizer::Memory) => Some(("afl-clang-fast"@, "afl-clang-fast++"@, seq![("CFLAGS"@, "-fsanitize=memory,fuzzer-no-link -fsanitize-memory-track-origins=2 -fno-omit-frame-pointer -g -O1 -fno-optimize-sibling-calls"@), ("CXXFLAGS"@, "-fsanitize=memory,fuzzer-no-link -fsanitize-memory-track-origins=2 -fno-omit-frame-pointer -g -O1 -fno-optimize-sibling-calls -nostdinc++ -nostdlib++ -isystem /libcxx_msan/include/c++/v1 -L/libcxx_msan/lib -Wl,-rpath,/libcxx_msan/lib -lc++ -lc++abi -lpthread -Wno-unused-command-line-argument"@)])),
        (FuzzEngine::LibFuzzer, Sanitizer::NoSanitizer) => Some(("clang"@, "clang++"@, seq![("LIB_FUZZING_ENGINE"@, "-fsanitize=fuzzer"@), ("CFLAGS"@, "-O2 -fsanitize=fuzzer-no-link"@), ("CXXFLAGS"@, "-O2 -fsanitize=fuzzer-no-link"@)])),
        (FuzzEngine::LibFuzzer, Sanitizer::Undefined) => Some(("clang"@, "clang++"@, seq![("LIB_FUZZING_ENGINE"@, "-fsanitize=fuzzer,array-bounds,bool,builtin,enum,integer-divide-by-zero,null,return,returns-nonnull-attribute,shift,signed-integer-overflow,unsigned-integer-overflow,unreachable,vla-bound,vptr"@), ("CFLAGS"@, "-fsanitize=fuzzer-no-link,array-bounds,bool,builtin,enum,integer-divide-by-zero,null,return,returns-nonnull-attribute,shift,signed-integer-overflow,unsigned-integer-overflow,unreachable,vla-bound,vptr -O2 -g"@), ("CXXFLAGS"@, "-fsanitize=fuzzer-no-link,array-bounds,bool,builtin,enum,integer-divide-by-zero,null,return,returns-nonnull-attribute,shift,signed-integer-overflow,unsigned-integer-overflow,unreachable,vla-bound,vptr -O2 -g"@)])),
        (FuzzEngine::LibFuzzer, Sanitizer::Address) => Some(("clang"@, "clang++"@, seq![("LIB_FUZZING_ENGINE"@, "-fsanitize=fuzzer,address"@), ("CFLAGS"@, "-O2 -fsanitize=fuzzer-no-link,address"@), ("CXXFLAGS"@, "-O2 -fsanitize=fuzzer-no-link,address"@)])),
        (FuzzEngine::LibFuzzer, Sanitizer::Thread) => Some(("clang"@, "clang++"@, seq![("LIB_FUZZING_ENGINE"@, "-fsanitize=fuzzer,thread"@), ("CFLAGS"@, "-O2 -g -fno-omit-frame-pointer -fsanitize=fuzzer-no-link,thread"@), ("CXXFLAGS"@, "-O2 -g -fno-omit-frame-pointer -fsanitize=fuzzer-no-link,thread"@)])),
        (FuzzEngine::LibFuzzer, Sanitizer::Memory) => Some(("clang"@, "clang++"@, seq![("LIB_FUZZING_ENGINE"@, "-fsanitize=fuzzer,memory"@), ("CFLAGS"@, "-fsanitize=memory,fuzzer-no-link -fsanitize-memory-track-origins=2 -fno-omit-frame-pointer -g -O1 -fno-optimize-sibling-calls"@), ("CXXFLAGS"@, "-fsanitize=memory,fuzzer-no-link -fsanitize-memory-track-origins=2 -fno-omit-frame-pointer -g -O1 -fno-optimize-sibling-calls -nostdinc++ -nostdlib++ -isystem /libcxx_msan/include/c++/v1 -L/libcxx_msan/lib -Wl,-rpath,/libcxx_msan/lib -lc++ -lc++abi -lpthread -Wno-unused-command-line-argument"@)])),
        (FuzzEngine::HonggFuzz, Sanitizer::NoSanitizer) => Some(("hfuzz-clang"@, "hfuzz-clang++"@, seq![("LIB_FUZZING_ENGINE"@, ""@), ("CFLAGS"@, "-O2"@), ("CXXFLAGS"@, "-O2"@)])),
        (FuzzEngine::NoEngine, Sanitizer::Coverage) => Some(("clang"@, "clang++"@, seq![("CFLAGS"@, "-fsanitize=fuzzer-no-link -fprofile-instr-generate -fcoverage-mapping -O0"@), ("CXXFLAGS"@, "-fsanitize=fuzzer-no-link -fprofile-instr-generate -fcoverage-mapping -O0"@), ("LIB_FUZZING_ENGINE"@, "-fsanitize=fuzzer"@)])),
        _ => None,
    }
}

fn env_pair(name: &str, value: &str) -> (r: (String, String))
    ensures
        r.0@ == name@,
        r.1@ == value@,
{
    (name.to_owned(), value.to_owned())
}

/// The build for a C/C++ project with `engine` and `sanitizer`, if that
/// combination is built.
pub fn cpp_build_env(engine: &FuzzEngine, sanitizer: &Sanitizer) -> (r: Option<BuildEnv>)
    ensures
        match r {
            Some(b) => cpp_build_table(*engine, *sanitizer) == Some(b.spec()),
            None => cpp_build_table(*engine, *sanitizer) is None,
        },
{
    let r = match (*engine, *sanitizer) {
        (FuzzEngine::SemSan, Sanitizer::SemSan(SemSanBuild::GccO0)) => {
            let mut envs: Vec<(String, String)> = Vec::new();
            envs.push(env_pair("CFLAGS", "-O0"));
            envs.push(env_pair("CXXFLAGS", "-O0"));
            Some(BuildEnv::new("afl-gcc-fast", "afl-g++-fast", envs))
        },
        (FuzzEngine::SemSan, Sanitizer::SemSan(SemSanBuild::GccO1)) => {
            let mut envs: Vec<(String, String)> = Vec::new();
            envs.push(env_pair("CFLAGS", "-O1"));
            envs.push(env_pair("CXXFLAGS", "-O1"));
            Some(BuildEnv::new("afl-gcc-fast", "afl-g++-fast", envs))
        },
        (FuzzEngine::SemSan, Sanitizer::SemSan(SemSanBuild::GccO2)) => {
            let mut envs: Vec<(String, String)> = Vec::new();
            envs.push(env_pair("CFLAGS", "-O2"));
            envs.push(env_pair("CXXFLAGS", "-O2"));
            Some(BuildEnv::new("afl-gcc-fast", "afl-g++-fast", envs))
        },
        (FuzzEngine::SemSan, Sanitizer::SemSan(SemSanBuild::ClangO0)) => {
            let mut envs: Vec<(String, String)> = Vec::new();
            envs.push(env_pair("CFLAGS", "-O0"));
            envs.push(env_pair("CXXFLAGS", "-O0"));
            Some(BuildEnv::new("afl-clang-fast", "afl-clang-fast++", envs))
        },
        (FuzzEngine::SemSan, Sanitizer::SemSan(SemSanBuild::ClangO1)) => {
            let mut envs: Vec<(String, String)> = Vec::new();
            envs.push(env_pair("CFLAGS", "-O1"));
            envs.push(env_pair("CXXFLAGS", "-O1"));
            Some(BuildEnv::new("afl-clang-fast", "afl-clang-fast++", envs))
        },
        (FuzzEngine::SemSan, Sanitizer::SemSan(SemSanBuild::ClangO2)) => {
            let mut envs: Vec<(String, String)> = Vec::new();
            envs.push(env_pair("CFLAGS", "-O2"));
            envs.push(env_pair("CXXFLAGS", "-O2"));
            Some(BuildEnv::new("afl-clang-fast", "afl-clang-fast++", envs))
        },
        (FuzzEngine::SemSan, Sanitizer::SemSan(_)) => {
            let mut envs: Vec<(String, String)> = Vec::new();
            Some(BuildEnv::new("afl-clang-fast", "afl-clang-fast++", envs))
        },
        (FuzzEngine::SemSan, Sanitizer::NoSanitizer) => {
            let mut envs: Vec<(String, String)> = Vec::new();
            Some(BuildEnv::new("afl-clang-fast", "afl-clang-fast++", envs))
        },
        (FuzzEngine::AflPlusPlus, Sanitizer::NoSanitizer) => {
            let mut envs: Vec<(String, String)> = Vec::new();
            Some(BuildEnv::new("afl-clang-fast", "afl-clang-fast++", envs))
        },
        (FuzzEngine::AflPlusPlusNyx, Sanitizer::NoSanitizer) => {
            let mut envs: Vec<(String, String)> = Vec::new();
            Some(BuildEnv::new("afl-clang-fast", "afl-clang-fast++", envs))
        },
        (FuzzEngine::AflPlusPlus, Sanitizer::CmpLog) => {
            let mut envs: Vec<(String, String)> = Vec::new();
            envs.push(env_pair("AFL_LLVM_CMPLOG", "1"));
            envs.push(env_pair("CCACHE_DIR", "/ccache_cmplog/"));
            envs.push(env_pair("CFLAGS", "-O2"));
            envs.push(env_pair("CXXFLAGS", "-O2"));
            Some(BuildEnv::new("afl-clang-fast", "afl-clang-fast++", envs))
        },
        (FuzzEngine::AflPlusPlus, Sanitizer::Undefined) => {
            let mut envs: Vec<(String, String)> = Vec::new();
            envs.push(env_pair("LIB_FUZZING_ENGINE", "-fsanitize=array-bounds,bool,builtin,enum,integer-divide-by-zero,null,return,returns-nonnull-attribute,shift,signed-integer-overflow,unsigned-integer-overflow,unreachable,vla-bound,vptr"));
            envs.push(env_pair("CFLAGS", "-fsanitize=array-bounds,bool,builtin,enum,integer-divide-by-zero,null,return,returns-nonnull-attribute,shift,signed-integer-overflow,unsigned-integer-overflow,unreachable,vla-bound,vptr -O2 -g -fno-inline"));
            envs.push(env_pair("CXXFLAGS", "-fsanitize=array-bounds,bool,builtin,enum,integer-divide-by-zero,null,return,returns-nonnull-attribute,shift,signed-integer-overflow,unsigned-integer-overflow,unreachable,vla-bound,vptr -O2 -g -fno-inline"));
            Some(BuildEnv::new("afl-clang-fast", "afl-clang-fast++", envs))
        },
        (FuzzEngine::AflPlusPlus, Sanitizer::Address) => {
            let mut envs: Vec<(String, String)> = Vec::new();
            envs.push(env_pair("AFL_USE_ASAN", "1"));
            envs.push(env_pair("CCACHE_DIR", "/ccache_asan/"));
            envs.push(env_pair("CFLAGS", "-O2"));
            envs.push(env_pair("CXXFLAGS", "-O2"));
            Some(BuildEnv::new("afl-clang-fast", "afl-clang-fast++", envs))
        },
        (FuzzEngine::AflPlusPlusNyx, Sanitizer::Address) => {
            let mut envs: Vec<(String, String)> = Vec::new();
            envs.push(env_pair("AFL_USE_ASAN", "1"));
            envs.push(env_pair("CCACHE_DIR", "/ccache_asan/"));
            envs.push(env_pair("CFLAGS", "-O2"));
            envs.push(env_pair("CXXFLAGS", "-O2"));
            Some(BuildEnv::new("afl-clang-fast", "afl-clang-fast++", envs))
        },
        (FuzzEngine::AflPlusPlus, Sanitizer::Thread) => {
            let mut envs: Vec<(String, String)> = Vec::new();
            envs.push(env_pair("AFL_USE_TSAN", "1"));
            envs.push(env_pair("CCACHE_DIR", "/ccache_tsan/"));
            envs.push(env_pair("CFLAGS", "-O2 -g -fno-omit-frame-pointer"));
            envs.push(env_pair("CXXFLAGS", "-O2 -g -fno-omit-frame-pointer"));
            Some(BuildEnv::new("afl-clang-fast", "afl-clang-fast++", envs))
        },
        (FuzzEngine::AflPlusPlus, Sanitizer::Memory) => {
            let mut envs: Vec<(String, String)> = Vec::new();
            envs.push(env_pair("CFLAGS", "-fsanitize=memory,fuzzer-no-link -fsanitize-memory-track-origins=2 -fno-omit-frame-pointer -g -O1 -fno-optimize-sibling-calls"));
            envs.push(env_pair("CXXFLAGS", "-fsanitize=memory,fuzzer-no-link -fsanitize-memory-track-origins=2 -fno-omit-frame-pointer -g -O1 -fno-optimize-sibling-calls -nostdinc++ -nostdlib++ -isystem /libcxx_msan/include/c++/v1 -L/libcxx_msan/lib -Wl,-rpath,/libcxx_msan/lib -lc++ -lc++abi -lpthread -Wno-unused-command-line-argument"));
            Some(BuildEnv::new("afl-clang-fast", "afl-clang-fast++", envs))
        },
        (FuzzEngine::LibFuzzer, Sanitizer::NoSanitizer) => {
            let mut envs: Vec<(String, String)> = Vec::new();
            envs.push(env_pair("LIB_FUZZING_ENGINE", "-fsanitize=fuzzer"));
            envs.push(env_pair("CFLAGS", "-O2 -fsanitize=fuzzer-no-link"));
            envs.push(env_pair("CXXFLAGS", "-O2 -fsanitize=fuzzer-no-link"));
            Some(BuildEnv::new("clang", "clang++", envs))
        },
        (FuzzEngine::LibFuzzer, Sanitizer::Undefined) => {
            let mut envs: Vec<(String, String)> = Vec::new();
            envs.push(env_pair("LIB_FUZZING_ENGINE", "-fsanitize=fuzzer,array-bounds,bool,builtin,enum,integer-divide-by-zero,null,return,returns-nonnull-attribute,shift,signed-integer-overflow,unsigned-integer-overflow,unreachable,vla-bound,vptr"));
            envs.push(env_pair("CFLAGS", "-fsanitize=fuzzer-no-link,array-bounds,bool,builtin,enum,integer-divide-by-zero,null,return,returns-nonnull-attribute,shift,signed-integer-overflow,unsigned-integer-overflow,unreachable,vla-bound,vptr -O2 -g"));
            envs.push(env_pair("CXXFLAGS", "-fsanitize=fuzzer-no-link,array-bounds,bool,builtin,enum,integer-divide-by-zero,null,return,returns-nonnull-attribute,shift,signed-integer-overflow,unsigned-integer-overflow,unreachable,vla-bound,vptr -O2 -g"));
            Some(BuildEnv::new("clang", "clang++", envs))
        },
        (FuzzEngine::LibFuzzer, Sanitizer::Address) => {
            let mut envs: Vec<(String, String)> = Vec::new();
            envs.push(env_pair("LIB_FUZZING_ENGINE", "-fsanitize=fuzzer,address"));
            envs.push(env_pair("CFLAGS", "-O2 -fsanitize=fuzzer-no-link,address"));
            envs.push(env_pair("CXXFLAGS", "-O2 -fsanitize=fuzzer-no-link,address"));
            Some(BuildEnv::new("clang", "clang++", envs))
        },
        (FuzzEngine::LibFuzzer, Sanitizer::Thread) => {
            let mut envs: Vec<(String, String)> = Vec::new();
            envs.push(env_pair("LIB_FUZZING_ENGINE", "-fsanitize=fuzzer,thread"));
            envs.push(env_pair("CFLAGS", "-O2 -g -fno-omit-frame-pointer -fsanitize=fuzzer-no-link,thread"));
            envs.push(env_pair("CXXFLAGS", "-O2 -g -fno-omit-frame-pointer -fsanitize=fuzzer-no-link,thread"));
            Some(BuildEnv::new("clang", "clang++", envs))
        },
        (FuzzEngine::LibFuzzer, Sanitizer::Memory) => {
            let mut envs: Vec<(String, String)> = Vec::new();
            envs.push(env_pair("LIB_FUZZING_ENGINE", "-fsanitize=fuzzer,memory"));
            envs.push(env_pair("CFLAGS", "-fsanitize=memory,fuzzer-no-link -fsanitize-memory-track-origins=2 -fno-omit-frame-pointer -g -O1 -fno-optimize-sibling-calls"));
            envs.push(env_pair("CXXFLAGS", "-fsanitize=memory,fuzzer-no-link -fsanitize-memory-track-origins=2 -fno-omit-frame-pointer -g -O1 -fno-optimize-sibling-calls -nostdinc++ -nostdlib++ -isystem /libcxx_msan/include/c++/v1 -L/libcxx_msan/lib -Wl,-rpath,/libcxx_msan/lib -lc++ -lc++abi -lpthread -Wno-unused-command-line-argument"));
            Some(BuildEnv::new("clang", "clang++", envs))
        },
        (FuzzEngine::HonggFuzz, Sanitizer::NoSanitizer) => {
            let mut envs: Vec<(String, String)> = Vec::new();
            envs.push(env_pair("LIB_FUZZING_ENGINE", ""));
            envs.push(env_pair("CFLAGS", "-O2"));
            envs.push(env_pair("CXXFLAGS", "-O2"));
            Some(BuildEnv::new("hfuzz-clang", "hfuzz-clang++", envs))
        },
        (FuzzEngine::NoEngine, Sanitizer::Coverage) => {
            let mut envs: Vec<(String, String)> = Vec::new();
            envs.push(env_pair("CFLAGS", "-fsanitize=fuzzer-no-link -fprofile-instr-generate -fcoverage-mapping -O0"));
            envs.push(env_pair("CXXFLAGS", "-fsanitize=fuzzer-no-link -fprofile-instr-generate -fcoverage-mapping -O0"));
            envs.push(env_pair("LIB_FUZZING_ENGINE", "-fsanitize=fuzzer"));
            Some(BuildEnv::new("clang", "clang++", envs))
        },
        _ => None,
    };
    proof {
        if r is Some {
            assert(r->0.spec() =~~= cpp_build_table(*engine, *sanitizer).unwrap());
        }
    }
    r
}

/// The environment of the build script for a C/C++ project with an engine
/// and a sanitizer: the build's environment, `FUZZING_ENGINE` set to the
/// harness directory, and for SemSan builds `SEMSAN_BUILD` set to the
/// build's name.
pub open spec fn cpp_script_env(e: FuzzEngine, s: Sanitizer, dir: Seq<char>) -> Map<Seq<char>, Seq<char>> {
    let m = build_env_map(cpp_build_table(e, s).unwrap()).insert("FUZZING_ENGINE"@, dir);
    match (e, s) {
        (FuzzEngine::SemSan, Sanitizer::SemSan(t)) => m.insert("SEMSAN_BUILD"@, semsan_build_name(t)),
        _ => m,
    }
}

/// Every combination that is built has a harness directory.
pub proof fn lemma_built_has_harness_dir(e: FuzzEngine, s: Sanitizer)
    requires
        cpp_build_table(e, s) is Some,
    ensures
        harness_dir_name(e, s) is Some,
{
}

/// What the build script of a C/C++ project runs with for `engine` and
/// `sanitizer`: the harness directory and the environment. `None` when the
/// combination is not built.
pub fn cpp_build_plan(engine: &FuzzEngine, sanitizer: &Sanitizer, config: &ProjectConfig) -> (r:
    Option<(String, EnvVars)>)
    requires
        cpp_build_table(*engine, *sanitizer) is Some ==> config_has_engine(*config, *engine)
            && config_has_sanitizer(*config, *sanitizer),
    ensures
        match r {
            Some((dir, env)) => {
                &&& cpp_build_table(*engine, *sanitizer) is Some
                &&& harness_dir(*engine, *sanitizer, *config) == Some(dir@)
                &&& env@ == cpp_script_env(*engine, *sanitizer, dir@)
            },
            None => cpp_build_table(*engine, *sanitizer) is None,
        },
{
    let b = match cpp_build_env(engine, sanitizer) {
        Some(b) => b,
        None => return None,
    };
    proof {
        lemma_built_has_harness_dir(*engine, *sanitizer);
    }
    let dir = match get_harness_dir(engine, sanitizer, config) {
        Some(d) => d,
        None => return None,
    };
    let mut env = b.envs();
    env.insert("FUZZING_ENGINE".to_owned(), dir.clone());
    match (*engine, *sanitizer) {
        (FuzzEngine::SemSan, Sanitizer::SemSan(t)) => {
            env.insert("SEMSAN_BUILD".to_owned(), t.name());
        },
        _ => {},
    }
    Some((dir, env))
}

/// What the build script of a Rust or Go project runs with for `engine` and
/// `sanitizer`: the harness directory, with `FUZZING_ENGINE` set to it.
/// `None` when the project has no such build.
pub fn script_build_plan(engine: &FuzzEngine, sanitizer: &Sanitizer, config: &ProjectConfig) -> (r: Option<
    (String, EnvVars),
>)
    ensures
        match r {
            Some((dir, env)) => {
                &&& harness_dir(*engine, *sanitizer, *config) == Some(dir@)
                &&& env@ == Map::<Seq<char>, Seq<char>>::empty().insert("FUZZING_ENGINE"@, dir@)
            },
            None => harness_dir(*engine, *sanitizer, *config) is None,
        },
{
    match get_harness_dir(engine, sanitizer, config) {
        Some(dir) => {
            let mut env = EnvVars::new();
            env.insert("FUZZING_ENGINE".to_owned(), dir.clone());
            Some((dir, env))
        },
        None => None,
    }
}

/// The build of a project in language `lang` for `e` and `s`, when there
/// is one: the harness directory and the script's environment.
pub open spec fn build_of(config: ProjectConfig, e: FuzzEngine, s: Sanitizer) -> Option<
    (Seq<char>, Map<Seq<char>, Seq<char>>),
> {
    match config.language {
        Language::C | Language::Cpp => if cpp_build_table(e, s) is Some {
            match harness_dir(e, s, config) {
                Some(d) => Some((d, cpp_script_env(e, s, d))),
                None => None,
            }
        } else {
            None
        },
        Language::Rust | Language::Go => match harness_dir(e, s, config) {
            Some(d) => Some((d, Map::empty().insert("FUZZING_ENGINE"@, d))),
            None => None,
        },
    }
}

/// The builds for `e` with the first `n` sanitizers, in order.
pub open spec fn engine_builds(config: ProjectConfig, e: FuzzEngine, sans: Seq<Sanitizer>, n: int) -> Seq<
    (Seq<char>, Map<Seq<char>, Seq<char>>),
>
    decreases n,
{
    if n <= 0 {
        seq![]
    } else {
        engine_builds(config, e, sans, n - 1) + match build_of(config, e, sans[n - 1]) {
            Some(b) => seq![b],
            None => seq![],
        }
    }
}

/// The builds for the first `m` engines, each with every sanitizer, in
/// order.
pub open spec fn all_builds(config: ProjectConfig, engines: Seq<FuzzEngine>, sans: Seq<Sanitizer>, m: int) -> Seq<
    (Seq<char>, Map<Seq<char>, Seq<char>>),
>
    decreases m,
{
    if m <= 0 {
        seq![]
    } else {
        all_builds(config, engines, sans, m - 1) + engine_builds(config, engines[m - 1], sans, sans.len() as int)
    }
}

/// The builds as plain values.
pub open spec fn builds_view(v: Seq<(String, EnvVars)>) -> Seq<(Seq<char>, Map<Seq<char>, Seq<char>>)> {
    v.map_values(|b: (String, EnvVars)| (b.0@, b.1@))
}

/// The builds of the project, in order: for each of its engines, each of
/// its sanitizers, the combinations its language builds (the harness
/// directory and the build script's environment).
pub fn plan_builds(config: &ProjectConfig) -> (r: Vec<(String, EnvVars)>)
    requires
        config.engines is Some,
        config.sanitizers is Some,
    ensures
        builds_view(r@) == all_builds(
            *config,
            config.engines->Some_0@,
            config.sanitizers->Some_0@,
            config.engines->Some_0@.len() as int,
        ),
{
    let engines = match &config.engines {
        Some(v) => v,
        None => return Vec::new(),
    };
    let sans = match &config.sanitizers {
        Some(v) => v,
        None => return Vec::new(),
    };
    let mut r: Vec<(String, EnvVars)> = Vec::new();
    let mut i: usize = 0;
    while i < engines.len()
        invariant
            config.engines == Some(*engines),
            config.sanitizers == Some(*sans),
            i <= engines@.len(),
            builds_view(r@) == all_builds(*config, engines@, sans@, i as int),
        decreases engines@.len() - i,
    {
        let e = engines[i];
        let ghost before = builds_view(r@);
        let mut j: usize = 0;
        while j < sans.len()
            invariant
                config.engines == Some(*engines),
                config.sanitizers == Some(*sans),
                i < engines@.len(),
                e == engines@[i as int],
                j <= sans@.len(),
                builds_view(r@) == before + engine_builds(*config, e, sans@, j as int),
            decreases sans@.len() - j,
        {
            let s = sans[j];
            let ghost r0 = builds_view(r@);
            assert(engines@.contains(e) && sans@.contains(s)) by {
                assert(engines@[i as int] == e);
                assert(sans@[j as int] == s);
            }
            let b = match config.language {
                Language::C | Language::Cpp => cpp_build_plan(&e, &s, config),
                Language::Rust | Language::Go => script_build_plan(&e, &s, config),
            };
            match b {
                Some(x) => {
                    let ghost xv = (x.0@, x.1@);
                    r.push(x);
                    assert(builds_view(r@) =~= r0.push(xv));
                },
                None => {},
            }
            assert(builds_view(r@) =~= before + engine_builds(*config, e, sans@, j + 1));
            j = j + 1;
        }
        assert(builds_view(r@) =~= all_builds(*config, engines@, sans@, i + 1));
        i = i + 1;
    }
    r
}

} // verus!

verus! {

/// The address-sanitizer builds for AFL++ and for AFL++ Nyx both enable
/// ASan (`AFL_USE_ASAN=1`), and are one and the same build.
pub proof fn lemma_aflpp_address_build_uses_asan(e: FuzzEngine)
    requires
        e == FuzzEngine::AflPlusPlus || e == FuzzEngine::AflPlusPlusNyx,
    ensures
        cpp_build_table(e, Sanitizer::Address) is Some,
        build_env_map(cpp_build_table(e, Sanitizer::Address).unwrap()).dom().contains("AFL_USE_ASAN"@),
        build_env_map(cpp_build_table(e, Sanitizer::Address).unwrap())["AFL_USE_ASAN"@] == "1"@,
        build_env_map(cpp_build_table(e, Sanitizer::Address).unwrap()) == build_env_map(
            cpp_build_table(FuzzEngine::AflPlusPlusNyx, Sanitizer::Address).unwrap(),
        ),
{
    reveal_strlit("AFL_USE_ASAN");
    reveal_strlit("CCACHE_DIR");
    reveal_strlit("CFLAGS");
    reveal_strlit("CXXFLAGS");
    reveal_with_fuel(set_all, 5);
    let m = build_env_map(cpp_build_table(e, Sanitizer::Address).unwrap());
    assert("AFL_USE_ASAN"@.len() == 12 && "CCACHE_DIR"@.len() == 10);
    assert("AFL_USE_ASAN"@ != "CCACHE_DIR"@);
    assert("AFL_USE_ASAN"@.len() == 12 && "CFLAGS"@.len() == 6);
    assert("AFL_USE_ASAN"@ != "CFLAGS"@);
    assert("AFL_USE_ASAN"@.len() == 12 && "CXXFLAGS"@.len() == 8);
    assert("AFL_USE_ASAN"@ != "CXXFLAGS"@);
    assert(m.dom().contains("AFL_USE_ASAN"@));
}

/// The AFL++ thread-sanitizer build enables TSan (`AFL_USE_TSAN=1`), and the
/// AFL++ memory-sanitizer build compiles with `-fsanitize=memory`.
pub proof fn lemma_aflpp_thread_and_memory_builds(s: Sanitizer)
    requires
        s == Sanitizer::Thread || s == Sanitizer::Memory,
    ensures
        cpp_build_table(FuzzEngine::AflPlusPlus, s) is Some,
        s == Sanitizer::Thread ==> build_env_map(cpp_build_table(FuzzEngine::AflPlusPlus, s).unwrap()).dom().contains(
            "AFL_USE_TSAN"@,
        ) && build_env_map(cpp_build_table(FuzzEngine::AflPlusPlus, s).unwrap())["AFL_USE_TSAN"@] == "1"@,
        s == Sanitizer::Memory ==> build_env_map(cpp_build_table(FuzzEngine::AflPlusPlus, s).unwrap()).dom().contains(
            "CFLAGS"@,
        ) && contains(build_env_map(cpp_build_table(FuzzEngine::AflPlusPlus, s).unwrap())["CFLAGS"@], "memory"@)
            && contains(build_env_map(cpp_build_table(FuzzEngine::AflPlusPlus, s).unwrap())["CXXFLAGS"@], "memory"@),
{
    reveal_strlit("AFL_USE_TSAN");
    reveal_strlit("CCACHE_DIR");
    reveal_strlit("CFLAGS");
    reveal_strlit("CXXFLAGS");
    reveal_strlit("memory");
    reveal_with_fuel(set_all, 5);
    let m = build_env_map(cpp_build_table(FuzzEngine::AflPlusPlus, s).unwrap());
    if s == Sanitizer::Thread {
        assert("AFL_USE_TSAN"@.len() == 12 && "CCACHE_DIR"@.len() == 10);
        assert("AFL_USE_TSAN"@ != "CCACHE_DIR"@);
        assert("AFL_USE_TSAN"@.len() == 12 && "CFLAGS"@.len() == 6);
        assert("AFL_USE_TSAN"@ != "CFLAGS"@);
        assert("AFL_USE_TSAN"@.len() == 12 && "CXXFLAGS"@.len() == 8);
        assert("AFL_USE_TSAN"@ != "CXXFLAGS"@);
        assert(m.dom().contains("AFL_USE_TSAN"@));
    } else {
        let c = "-fsanitize=memory,fuzzer-no-link -fsanitize-memory-track-origins=2 -fno-omit-frame-pointer -g -O1 -fno-optimize-sibling-calls"@;
        let cx = "-fsanitize=memory,fuzzer-no-link -fsanitize-memory-track-origins=2 -fno-omit-frame-pointer -g -O1 -fno-optimize-sibling-calls -nostdinc++ -nostdlib++ -isystem /libcxx_msan/include/c++/v1 -L/libcxx_msan/lib -Wl,-rpath,/libcxx_msan/lib -lc++ -lc++abi -lpthread -Wno-unused-command-line-argument"@;
        reveal_strlit("-fsanitize=memory,fuzzer-no-link -fsanitize-memory-track-origins=2 -fno-omit-frame-pointer -g -O1 -fno-optimize-sibling-calls");
        reveal_strlit("-fsanitize=memory,fuzzer-no-link -fsanitize-memory-track-origins=2 -fno-omit-frame-pointer -g -O1 -fno-optimize-sibling-calls -nostdinc++ -nostdlib++ -isystem /libcxx_msan/include/c++/v1 -L/libcxx_msan/lib -Wl,-rpath,/libcxx_msan/lib -lc++ -lc++abi -lpthread -Wno-unused-command-line-argument");
        assert("CFLAGS"@.len() == 6 && "CCACHE_DIR"@.len() == 10);
        assert("CFLAGS"@ != "CCACHE_DIR"@);
        assert("CFLAGS"@.len() == 6 && "CXXFLAGS"@.len() == 8);
        assert("CFLAGS"@ != "CXXFLAGS"@);
        assert("CXXFLAGS"@.len() == 8 && "CCACHE_DIR"@.len() == 10);
        assert("CXXFLAGS"@ != "CCACHE_DIR"@);
        assert(m["CFLAGS"@] == c);
        assert(m["CXXFLAGS"@] == cx);
        assert(c.subrange(11, 17) =~= "memory"@);
        assert(occurs_at(c, "memory"@, 11));
        assert(cx.subrange(11, 17) =~= "memory"@);
        assert(occurs_at(cx, "memory"@, 11));
    }
}

/// The libFuzzer address-, thread- and memory-sanitizer builds pass their
/// sanitizer (`address`, `thread`, `memory`) in the engine flags and in
/// both compilers' flags.
pub proof fn lemma_libfuzzer_sanitizer_builds(s: Sanitizer)
    requires
        s == Sanitizer::Address || s == Sanitizer::Thread || s == Sanitizer::Memory,
    ensures
        cpp_build_table(FuzzEngine::LibFuzzer, s) is Some,
        build_env_map(cpp_build_table(FuzzEngine::LibFuzzer, s).unwrap()).dom().contains("LIB_FUZZING_ENGINE"@),
        build_env_map(cpp_build_table(FuzzEngine::LibFuzzer, s).unwrap()).dom().contains("CFLAGS"@),
        build_env_map(cpp_build_table(FuzzEngine::LibFuzzer, s).unwrap()).dom().contains("CXXFLAGS"@),
        s == Sanitizer::Address ==> {
            &&& contains(build_env_map(cpp_build_table(FuzzEngine::LibFuzzer, s).unwrap())["LIB_FUZZING_ENGINE"@], "address"@)
            &&& contains(build_env_map(cpp_build_table(FuzzEngine::LibFuzzer, s).unwrap())["CFLAGS"@], "address"@)
            &&& contains(build_env_map(cpp_build_table(FuzzEngine::LibFuzzer, s).unwrap())["CXXFLAGS"@], "address"@)
        },
        s == Sanitizer::Thread ==> {
            &&& contains(build_env_map(cpp_build_table(FuzzEngine::LibFuzzer, s).unwrap())["LIB_FUZZING_ENGINE"@], "thread"@)
            &&& contains(build_env_map(cpp_build_table(FuzzEngine::LibFuzzer, s).unwrap())["CFLAGS"@], "thread"@)
            &&& contains(build_env_map(cpp_build_table(FuzzEngine::LibFuzzer, s).unwrap())["CXXFLAGS"@], "thread"@)
        },
        s == Sanitizer::Memory ==> {
            &&& contains(build_env_map(cpp_build_table(FuzzEngine::LibFuzzer, s).unwrap())["LIB_FUZZING_ENGINE"@], "memory"@)
            &&& contains(build_env_map(cpp_build_table(FuzzEngine::LibFuzzer, s).unwrap())["CFLAGS"@], "memory"@)
            &&& contains(build_env_map(cpp_build_table(FuzzEngine::LibFuzzer, s).unwrap())["CXXFLAGS"@], "memory"@)
        },
{
    reveal_strlit("LIB_FUZZING_ENGINE");
    reveal_strlit("CCACHE_DIR");
    reveal_strlit("CFLAGS");
    reveal_strlit("CXXFLAGS");
    reveal_with_fuel(set_all, 5);
    assert("LIB_FUZZING_ENGINE"@.len() == 18 && "CFLAGS"@.len() == 6);
    assert("LIB_FUZZING_ENGINE"@ != "CFLAGS"@);
    assert("LIB_FUZZING_ENGINE"@.len() == 18 && "CXXFLAGS"@.len() == 8);
    assert("LIB_FUZZING_ENGINE"@ != "CXXFLAGS"@);
    assert("LIB_FUZZING_ENGINE"@.len() == 18 && "CCACHE_DIR"@.len() == 10);
    assert("LIB_FUZZING_ENGINE"@ != "CCACHE_DIR"@);
    assert("CFLAGS"@.len() == 6 && "CCACHE_DIR"@.len() == 10);
    assert("CFLAGS"@ != "CCACHE_DIR"@);
    assert("CFLAGS"@.len() == 6 && "CXXFLAGS"@.len() == 8);
    assert("CFLAGS"@ != "CXXFLAGS"@);
    assert("CXXFLAGS"@.len() == 8 && "CCACHE_DIR"@.len() == 10);
    assert("CXXFLAGS"@ != "CCACHE_DIR"@);
    let m = build_env_map(cpp_build_table(FuzzEngine::LibFuzzer, s).unwrap());
    if s == Sanitizer::Address {
        reveal_strlit("address");
        reveal_strlit("-fsanitize=fuzzer,address");
        reveal_strlit("-O2 -fsanitize=fuzzer-no-link,address");
        let l = "-fsanitize=fuzzer,address"@;
        let c = "-O2 -fsanitize=fuzzer-no-link,address"@;
        assert(m["LIB_FUZZING_ENGINE"@] == l);
        assert(m["CFLAGS"@] == c);
        assert(m["CXXFLAGS"@] == c);
        assert(l.subrange(18, 25) =~= "address"@);
        assert(occurs_at(l, "address"@, 18));
        assert(c.subrange(30, 37) =~= "address"@);
        assert(occurs_at(c, "address"@, 30));
    } else if s == Sanitizer::Thread {
        reveal_strlit("thread");
        reveal_strlit("-fsanitize=fuzzer,thread");
        reveal_strlit("-O2 -g -fno-omit-frame-pointer -fsanitize=fuzzer-no-link,thread");
        let l = "-fsanitize=fuzzer,thread"@;
        let c = "-O2 -g -fno-omit-frame-pointer -fsanitize=fuzzer-no-link,thread"@;
        assert(m["LIB_FUZZING_ENGINE"@] == l);
        assert(m["CFLAGS"@] == c);
        assert(m["CXXFLAGS"@] == c);
        assert(l.subrange(18, 24) =~= "thread"@);
        assert(occurs_at(l, "thread"@, 18));
        assert(c.subrange(57, 63) =~= "thread"@);
        assert(occurs_at(c, "thread"@, 57));
    } else {
        reveal_strlit("memory");
        reveal_strlit("-fsanitize=fuzzer,memory");
        reveal_strlit("-fsanitize=memory,fuzzer-no-link -fsanitize-memory-track-origins=2 -fno-omit-frame-pointer -g -O1 -fno-optimize-sibling-calls");
        reveal_strlit("-fsanitize=memory,fuzzer-no-link -fsanitize-memory-track-origins=2 -fno-omit-frame-pointer -g -O1 -fno-optimize-sibling-calls -nostdinc++ -nostdlib++ -isystem /libcxx_msan/include/c++/v1 -L/libcxx_msan/lib -Wl,-rpath,/libcxx_msan/lib -lc++ -lc++abi -lpthread -Wno-unused-command-line-argument");
        let l = "-fsanitize=fuzzer,memory"@;
        let c = "-fsanitize=memory,fuzzer-no-link -fsanitize-memory-track-origins=2 -fno-omit-frame-pointer -g -O1 -fno-optimize-sibling-calls"@;
        let cx = "-fsanitize=memory,fuzzer-no-link -fsanitize-memory-track-origins=2 -fno-omit-frame-pointer -g -O1 -fno-optimize-sibling-calls -nostdinc++ -nostdlib++ -isystem /libcxx_msan/include/c++/v1 -L/libcxx_msan/lib -Wl,-rpath,/libcxx_msan/lib -lc++ -lc++abi -lpthread -Wno-unused-command-line-argument"@;
        assert(m["LIB_FUZZING_ENGINE"@] == l);
        assert(m["CFLAGS"@] == c);
        assert(m["CXXFLAGS"@] == cx);
        assert(l.subrange(18, 24) =~= "memory"@);
        assert(occurs_at(l, "memory"@, 18));
        assert(c.subrange(11, 17) =~= "memory"@);
        assert(occurs_at(c, "memory"@, 11));
        assert(cx.subrange(11, 17) =~= "memory"@);
        assert(occurs_at(cx, "memory"@, 11));
    }
}

/// Each engine's builds use that engine's compilers: `afl-clang-fast` for
/// AFL++ and AFL++ Nyx, `clang` for libFuzzer, `hfuzz-clang` for honggfuzz
/// (with the matching C++ compilers).
pub proof fn lemma_engine_compilers(e: FuzzEngine, s: Sanitizer)
    requires
        cpp_build_table(e, s) is Some,
    ensures
        (e == FuzzEngine::AflPlusPlus || e == FuzzEngine::AflPlusPlusNyx) ==> build_env_map(
            cpp_build_table(e, s).unwrap(),
        )["CC"@] == "afl-clang-fast"@ && build_env_map(cpp_build_table(e, s).unwrap())["CXX"@]
            == "afl-clang-fast++"@,
        e == FuzzEngine::LibFuzzer ==> build_env_map(cpp_build_table(e, s).unwrap())["CC"@] == "clang"@
            && build_env_map(cpp_build_table(e, s).unwrap())["CXX"@] == "clang++"@,
        e == FuzzEngine::HonggFuzz ==> build_env_map(cpp_build_table(e, s).unwrap())["CC"@] == "hfuzz-clang"@
            && build_env_map(cpp_build_table(e, s).unwrap())["CXX"@] == "hfuzz-clang++"@,
{
    reveal_strlit("AFL_LLVM_CMPLOG");
    reveal_strlit("CCACHE_DIR");
    reveal_strlit("CFLAGS");
    reveal_strlit("CXXFLAGS");
    reveal_strlit("LIB_FUZZING_ENGINE");
    reveal_strlit("AFL_USE_ASAN");
    reveal_strlit("AFL_USE_TSAN");
    reveal_strlit("CC");
    reveal_strlit("CXX");
    assert("AFL_LLVM_CMPLOG"@.len() == 15);
    assert("CCACHE_DIR"@.len() == 10);
    assert("CFLAGS"@.len() == 6);
    assert("CXXFLAGS"@.len() == 8);
    assert("LIB_FUZZING_ENGINE"@.len() == 18);
    assert("AFL_USE_ASAN"@.len() == 12);
    assert("AFL_USE_TSAN"@.len() == 12);
    assert("CC"@.len() == 2);
    assert("CXX"@.len() == 3);
    reveal_with_fuel(set_all, 5);
}

/// The AFL++ CmpLog build turns on CmpLog instrumentation
/// (`AFL_LLVM_CMPLOG=1`).
pub proof fn lemma_aflpp_cmplog_build()
    ensures
        cpp_build_table(FuzzEngine::AflPlusPlus, Sanitizer::CmpLog) is Some,
        build_env_map(cpp_build_table(FuzzEngine::AflPlusPlus, Sanitizer::CmpLog).unwrap()).dom().contains(
            "AFL_LLVM_CMPLOG"@,
        ),
        build_env_map(cpp_build_table(FuzzEngine::AflPlusPlus, Sanitizer::CmpLog).unwrap())["AFL_LLVM_CMPLOG"@] == "1"@,
{
    reveal_strlit("AFL_LLVM_CMPLOG");
    reveal_strlit("CCACHE_DIR");
    reveal_strlit("CFLAGS");
    reveal_strlit("CXXFLAGS");
    reveal_strlit("LIB_FUZZING_ENGINE");
    reveal_strlit("AFL_USE_ASAN");
    reveal_strlit("AFL_USE_TSAN");
    reveal_strlit("CC");
    reveal_strlit("CXX");
    assert("AFL_LLVM_CMPLOG"@.len() == 15);
    assert("CCACHE_DIR"@.len() == 10);
    assert("CFLAGS"@.len() == 6);
    assert("CXXFLAGS"@.len() == 8);
    assert("LIB_FUZZING_ENGINE"@.len() == 18);
    assert("AFL_USE_ASAN"@.len() == 12);
    assert("AFL_USE_TSAN"@.len() == 12);
    assert("CC"@.len() == 2);
    assert("CXX"@.len() == 3);
    reveal_with_fuel(set_all, 5);
}

} // verus!
