use fuzzor::ensemble::aflpp::{afl_stats_well_formed, parse_afl_stats};
use fuzzor::ensemble::honggfuzz::{has_started, latest_stats, parse_stats_line};
use fuzzor::ensemble::libfuzzer::parse_libfuzzer_status;
use fuzzor::ensemble::native_go::parse_native_go_progress;
use fuzzor::ensemble::options::{num_cores_requested, EnsembleOptions};
use fuzzor::ensemble::semsan::parse_semsan_stats;
use fuzzor::ensemble::settings::{recommended_aflpp_settings, split_strings};
use fuzzor::ensemble::setup::{setup_aflpp_instances_with, setup_fuzzers, setup_fuzzers_with, FuzzerInstance, SetupError};
use fuzzor::ensemble::sync::{
    aggregate_counts, fuzzers_not_started, plan_round, rsync_args, sync_plan, transferred_count, EnsembleEvent,
};
use fuzzor::types::FuzzerStats;

fn options() -> EnsembleOptions {
    EnsembleOptions {
        aflpp_binary: None,
        aflpp_cmplog_binary: None,
        aflpp_ubsan_binary: None,
        aflpp_asan_binary: None,
        aflpp_msan_binary: None,
        aflpp_tsan_binary: None,
        aflpp_occupy: false,
        aflpp_nyx: false,
        libfuzzer_binary: None,
        libfuzzer_ubsan_binary: None,
        libfuzzer_asan_binary: None,
        libfuzzer_msan_binary: None,
        libfuzzer_tsan_binary: None,
        libfuzzer_value_profile: false,
        libfuzzer_additional_cores: 0,
        semsan_primary_binary: None,
        semsan_secondary_binaries: vec![],
        semsan_comparator: "equal".to_string(),
        native_go_binary: None,
        honggfuzz_binary: None,
        honggfuzz_additional_cores: 0,
        sync_interval: 600,
        max_duration: None,
        dictionary: None,
        workspace: "/ws".to_string(),
    }
}

#[test]
fn cores_requested_counts_instances() {
    let mut o = options();
    assert_eq!(num_cores_requested(&o), 0);
    o.aflpp_binary = Some("a".into());
    o.aflpp_cmplog_binary = Some("c".into());
    o.libfuzzer_binary = Some("l".into());
    o.libfuzzer_value_profile = true;
    o.libfuzzer_additional_cores = 3;
    o.honggfuzz_binary = Some("h".into());
    o.honggfuzz_additional_cores = 2;
    o.semsan_secondary_binaries = vec!["s1".into(), "s2".into()];
    // 5 switched on, 3 + 2 additional, 2 secondaries.
    assert_eq!(num_cores_requested(&o), 12);
}

fn count_env(envs: &[fuzzor::env::EnvVars], name: &str, value: &str) -> usize {
    envs.iter().filter(|e| e.get(name) == Some(value.to_string())).count()
}

fn count_arg_pair(args: &[Vec<String>], a: &str, b: &str) -> usize {
    args.iter().filter(|v| v.windows(2).any(|w| w[0] == a && w[1] == b)).count()
}

#[test]
fn recommended_settings_shares() {
    let o = options();
    let (args, envs) = recommended_aflpp_settings(10, &o, false);
    assert_eq!(args.len(), 10);
    assert_eq!(envs.len(), 10);
    assert_eq!(count_env(&envs, "AFL_DISABLE_TRIM", "1"), 6);
    assert_eq!(count_env(&envs, "AFL_KEEP_TIMEOUTS", "1"), 5);
    assert_eq!(count_env(&envs, "AFL_EXPAND_HAVOC_NOW", "1"), 4);
    assert!(envs.iter().all(|e| !e.contains_key("AFL_INPUT_LEN_MAX")));
    assert_eq!(count_arg_pair(&args, "-L", "0"), 1);
    assert_eq!(args.iter().filter(|v| v.contains(&"-Z".to_string())).count(), 1);
    assert_eq!(count_arg_pair(&args, "-P", "explore"), 4);
    assert_eq!(count_arg_pair(&args, "-P", "exploit"), 2);
    assert_eq!(count_arg_pair(&args, "-a", "binary"), 3);
    assert_eq!(count_arg_pair(&args, "-a", "ascii"), 3);
    let scheds = ["fast", "explore", "coe", "lin", "quad", "exploit", "rare"];
    for (i, a) in args.iter().enumerate() {
        assert_eq!(count_arg_pair(std::slice::from_ref(a), "-p", scheds[i % 7]), 1);
        // One value per argument name on each core.
        assert!(a.iter().filter(|x| x.as_str() == "-P").count() <= 1);
        assert!(a.iter().filter(|x| x.as_str() == "-a").count() <= 1);
    }
}

#[test]
fn recommended_settings_with_compare_log_and_length_limits() {
    let mut o = options();
    o.aflpp_cmplog_binary = Some("/bin/cmp".to_string());
    let (args, envs) = recommended_aflpp_settings(20, &o, true);
    assert_eq!(count_env(&envs, "AFL_INPUT_LEN_MAX", "128"), 2);
    assert_eq!(count_env(&envs, "AFL_INPUT_LEN_MAX", "8192"), 2);
    assert_eq!(count_arg_pair(&args, "-c", "/bin/cmp"), 6);
    assert_eq!(args.iter().filter(|v| v.windows(3).any(|w| w[0] == "/bin/cmp" && w[1] == "-l" && w[2] == "2AT")).count(), 2);
    for a in args.iter() {
        assert!(a.iter().filter(|x| x.as_str() == "-c").count() <= 1);
        // The CmpLog arguments come after the power schedule.
        if let Some(c) = a.iter().position(|x| x == "-c") {
            let p = a.iter().position(|x| x == "-p").unwrap();
            assert!(p < c);
        }
    }
}

#[test]
fn recommended_settings_for_no_cores() {
    let (args, envs) = recommended_aflpp_settings(0, &options(), true);
    assert!(args.is_empty());
    assert!(envs.is_empty());
}

#[test]
fn split_strings_keeps_empty_pieces() {
    assert_eq!(split_strings("-c /bin/x", ' '), vec!["-c".to_string(), "/bin/x".to_string()]);
    assert_eq!(split_strings("a  b", ' '), vec!["a".to_string(), "".to_string(), "b".to_string()]);
    assert_eq!(split_strings("", ' '), vec!["".to_string()]);
}

#[test]
fn setup_instances_in_order() {
    let mut o = options();
    o.dictionary = Some("/d.dict".to_string());
    o.aflpp_binary = Some("/bin/afl".to_string());
    o.aflpp_cmplog_binary = Some("/bin/afl_cmplog".to_string());
    o.aflpp_asan_binary = Some("/bin/afl_asan".to_string());
    o.libfuzzer_binary = Some("/bin/lf".to_string());
    o.libfuzzer_additional_cores = 1;
    o.libfuzzer_value_profile = true;
    o.libfuzzer_tsan_binary = Some("/bin/lf_tsan".to_string());
    o.honggfuzz_binary = Some("/bin/hf".to_string());
    o.honggfuzz_additional_cores = 2;
    o.semsan_primary_binary = Some("/bin/p".to_string());
    o.semsan_secondary_binaries = vec!["/bin/s0".to_string(), "/bin/s1".to_string()];
    let v = match setup_fuzzers(&o, 0, false) {
        Ok(v) => v,
        Err(_) => panic!("setup failed"),
    };
    assert_eq!(v.len(), 3 + 4 + 1 + 2);
    match &v[0] {
        FuzzerInstance::Aflpp(f) => {
            assert_eq!(f.id, 0);
            assert_eq!(f.binary, "/bin/afl");
            assert_eq!(f.seeds, Some("/ws/aflpp/corpus".to_string()));
            assert_eq!(f.workspace, "/ws/aflpp");
            assert_eq!(f.args, vec!["-x".to_string(), "/d.dict".to_string()]);
        },
        _ => panic!("expected AFL++"),
    }
    match &v[1] {
        FuzzerInstance::Aflpp(f) => {
            assert_eq!(f.id, 1);
            assert_eq!(f.args, vec!["-x", "/d.dict", "-c", "/bin/afl_cmplog"]);
        },
        _ => panic!("expected AFL++"),
    }
    match &v[2] {
        FuzzerInstance::Aflpp(f) => {
            assert_eq!(f.id, 2);
            assert_eq!(f.binary, "/bin/afl_asan");
        },
        _ => panic!("expected AFL++"),
    }
    match &v[3] {
        FuzzerInstance::LibFuzzer(f) => {
            assert_eq!(f.instance_tag, "vanilla-0");
            assert_eq!(f.workspace, "/ws/libfuzzer-0");
            assert_eq!(f.seeds, "/ws/libfuzzer-0/corpus");
            assert_eq!(f.args, vec!["-fork=1", "-ignore_crashes=1", "-ignore_ooms=1", "-ignore_timeouts=1", "-dict=/d.dict"]);
        },
        _ => panic!("expected libFuzzer"),
    }
    match &v[4] {
        FuzzerInstance::LibFuzzer(f) => assert_eq!(f.instance_tag, "vanilla-1"),
        _ => panic!("expected libFuzzer"),
    }
    match &v[5] {
        FuzzerInstance::LibFuzzer(f) => {
            assert_eq!(f.instance_tag, "value-profile");
            assert_eq!(f.args.last().unwrap(), "-use_value_profile=1");
        },
        _ => panic!("expected libFuzzer"),
    }
    match &v[6] {
        FuzzerInstance::LibFuzzer(f) => {
            assert_eq!(f.instance_tag, "libfuzzer-tsan");
            assert_eq!(f.binary, "/bin/lf_tsan");
            assert_eq!(f.workspace, "/ws/libfuzzer-tsan");
        },
        _ => panic!("expected libFuzzer"),
    }
    match &v[7] {
        FuzzerInstance::Hongg(f) => {
            assert_eq!(f.num_threads, 3);
            assert_eq!(f.stats_file, "/ws/honggfuzz/honggfuzz.stats");
        },
        _ => panic!("expected honggfuzz"),
    }
    match &v[9] {
        FuzzerInstance::SemSan(f) => {
            assert_eq!(f.secondary_binary, "/bin/s1");
            assert_eq!(f.seeds, "/ws/semsan-1/seeds");
            assert_eq!(f.pull_corpus, "/ws/semsan-1/pull_corpus");
            assert_eq!(f.comparator, "equal");
        },
        _ => panic!("expected SemSan"),
    }
}

#[test]
fn setup_occupies_spare_cores() {
    let mut o = options();
    o.aflpp_binary = Some("/bin/afl".to_string());
    o.aflpp_occupy = true;
    let v = match setup_fuzzers(&o, 0, false) {
        Ok(v) => v,
        Err(_) => panic!("setup failed"),
    };
    // The main instance, then one per core of the machine.
    assert!(v.len() >= 2);
    for (i, f) in v.iter().enumerate() {
        match f {
            FuzzerInstance::Aflpp(f) => {
                assert_eq!(f.id, i as u64);
                if i > 0 {
                    assert!(f.args.contains(&"-p".to_string()));
                }
            },
            _ => panic!("expected AFL++"),
        }
    }
}

#[test]
fn setup_errors() {
    let mut o = options();
    o.native_go_binary = Some("/bin/go_FuzzX".to_string());
    o.libfuzzer_binary = Some("/bin/lf".to_string());
    assert!(matches!(setup_fuzzers(&o, 0, false), Err(SetupError::NativeGoNotAlone)));
    assert!(matches!(setup_fuzzers(&o, usize::MAX, false), Err(SetupError::NotEnoughCores)));
    o.libfuzzer_binary = None;
    let v = match setup_fuzzers(&o, 0, false) {
        Ok(v) => v,
        Err(_) => panic!("setup failed"),
    };
    assert_eq!(v.len(), 1);
    match &v[0] {
        FuzzerInstance::NativeGo(f) => {
            assert_eq!(f.go_fuzz_cache_dir, "/ws/native-go/fuzzcache");
            assert_eq!(f.get_push_corpus(), Some("/ws/native-go/fuzzcache/FuzzX".to_string()));
        },
        _ => panic!("expected native Go"),
    }
}

#[test]
fn rsync_arguments() {
    assert_eq!(
        rsync_args("/a/corpus", "/ws/corpus"),
        vec![
            "--recursive",
            "--archive",
            "--checksum",
            "--checksum-choice=sha1",
            "--ignore-existing",
            "--stats",
            "/a/corpus/",
            "/ws/corpus"
        ]
    );
}

#[test]
fn rsync_transferred_files() {
    let out = "\nNumber of files: 3 (reg: 2, dir: 1)\nNumber of created files: 2\nNumber of regular files transferred: 2\nTotal file size: 10 bytes\n";
    assert_eq!(transferred_count(out), 2);
    assert_eq!(transferred_count("Number of regular files transferred:  17 \r\n"), 17);
    assert_eq!(transferred_count("Number of regular files transferred: 1,234\n"), 0);
    assert_eq!(transferred_count("Number of regular files transferred\n"), 0);
    assert_eq!(transferred_count("nothing\n"), 0);
    assert_eq!(
        transferred_count("Number of regular files transferred: 4\nNumber of regular files transferred: 5\n"),
        4
    );
}

#[test]
fn sync_order() {
    let folders = vec![
        (Some("/a/push".to_string()), Some("/a/pull".to_string()), vec!["/a/crashes".to_string(), "/a/hangs".to_string()]),
        (Some("/b/push".to_string()), None, vec![]),
        (None, Some("/c/pull".to_string()), vec!["/c/sol".to_string()]),
    ];
    let plan = sync_plan(&folders, "/ws/corpus", "/ws/solutions");
    let expected: Vec<(String, String)> = vec![
        ("/a/push", "/ws/corpus"),
        ("/b/push", "/ws/corpus"),
        ("/ws/corpus", "/a/pull"),
        ("/ws/corpus", "/c/pull"),
        ("/a/crashes", "/ws/solutions"),
        ("/a/hangs", "/ws/solutions"),
        ("/c/sol", "/ws/solutions"),
    ]
    .into_iter()
    .map(|(a, b)| (a.to_string(), b.to_string()))
    .collect();
    assert_eq!(plan, expected);
}

#[test]
fn aggregated_counts() {
    let mut a = FuzzerStats::new();
    a.saved_crashes = 2;
    a.saved_hangs = 1;
    a.corpus_count = 100;
    let mut b = FuzzerStats::new();
    b.saved_crashes = 3;
    b.corpus_count = 50;
    let s = aggregate_counts(&vec![a, b], 7);
    assert_eq!(s.saved_crashes, 5);
    assert_eq!(s.saved_hangs, 1);
    assert_eq!(s.corpus_count, 7);
    assert!(s.failed_instances.is_empty());
}

#[test]
fn not_started_names() {
    let names = vec!["afl++-0".to_string(), "libfuzzer-vanilla-0".to_string(), "honggfuzz".to_string()];
    assert_eq!(fuzzers_not_started(&names, &vec![true, false, false]), vec!["libfuzzer-vanilla-0", "honggfuzz"]);
    assert!(fuzzers_not_started(&names, &vec![true, true, true]).is_empty());
}

#[test]
fn rounds() {
    let quiet = FuzzerStats::new();
    let mut found = FuzzerStats::new();
    found.saved_crashes = 1;
    let r = plan_round(EnsembleEvent::SyncTick, 10, &quiet);
    assert!(r.sync && !r.check_started && !r.last);
    let r = plan_round(EnsembleEvent::StatsTick, 600, &quiet);
    assert!(!r.sync && r.check_started && !r.last);
    let r = plan_round(EnsembleEvent::StatsTick, 599, &found);
    assert!(r.sync && !r.check_started);
    let r = plan_round(EnsembleEvent::Quit, 0, &quiet);
    assert!(r.sync && r.last);
}

#[test]
fn libfuzzer_status_lines() {
    let s = parse_libfuzzer_status("#100: cov: 5 ft: 6 corp: 30 exec/s: 500 oom/timeout/crash: 0/1/2 time: 3s").unwrap();
    assert_eq!(s.corpus_count, 30);
    assert_eq!(s.execs_per_sec, "500");
    assert_eq!(s.saved_hangs, 1);
    assert_eq!(s.saved_crashes, 2);
    assert!(parse_libfuzzer_status("INFO: Seed: 1").is_none());
}

#[test]
fn native_go_progress_lines() {
    let p = parse_native_go_progress("fuzz: elapsed: 3s, execs: 1000 (333/sec), new interesting: 2 (total: 12)").unwrap();
    assert_eq!(p.execs_per_sec, "333");
    assert_eq!(p.corpus_count, 12);
    assert!(parse_native_go_progress("fuzz: elapsed: 0s, gathering baseline coverage: 0/1 completed").is_none());
}

#[test]
fn semsan_stats_lines() {
    let line = "[Stats #0] run time: 0h-0m-5s, clients: 1, corpus: 15, objectives: 3, executions: 1000, exec/sec: 200, combined-coverage: 10/100 (10%), stability: 9/10 (90%)";
    let s = parse_semsan_stats(line).unwrap();
    assert_eq!(s.corpus_count, 15);
    assert_eq!(s.saved_crashes, 3);
    assert_eq!(s.execs_per_sec, "200");
    assert!(parse_semsan_stats("[Testcase #0] run time: 0h").is_none());
}

#[test]
fn honggfuzz_stats() {
    let st = parse_stats_line("1700000000, 1700000000, 5000, 250, 0, 3, 0, 100, 200, 42").unwrap();
    assert_eq!(st.execs_per_sec, 250);
    assert_eq!(st.saved_crashes, 3);
    assert_eq!(st.corpus_count, 42);
    assert!(parse_stats_line("# unix_time, last_cov_update").is_none());
    assert!(parse_stats_line("1, 2, 3").is_none());
    assert!(parse_stats_line("1, 2, 3, 4, 5, 6, 7, 8, 9, x").is_none());
    let contents = "# header\n1,1,1,10,0,1,0,0,0,5\n2,2,2,20,0,2,0,0,0,6\n3,3,3\n";
    let last = latest_stats(contents).unwrap();
    assert_eq!(last.execs_per_sec, 20);
    assert_eq!(last.corpus_count, 6);
    assert!(has_started(contents));
    assert!(!has_started("# header\n"));
}

#[test]
fn afl_stats_files() {
    let main = "start_time : 1\nexecs_per_sec : 1234.56\ncorpus_count : 77\nsaved_crashes : 2\nsaved_hangs : 1\nstability : 99.50%\n";
    assert!(afl_stats_well_formed(main, 0));
    let s = parse_afl_stats(main, 0);
    assert_eq!(s.execs_per_sec, "1234.56");
    assert_eq!(s.corpus_count, 77);
    assert_eq!(s.saved_crashes, 2);
    assert_eq!(s.saved_hangs, 1);
    assert_eq!(s.stability, Some("99.50".to_string()));
    let secondary = "execs_per_sec : 10\ncorpus_count : x\nsaved_crashes : 0\nsaved_hangs : 0\n";
    assert!(afl_stats_well_formed(secondary, 3));
    assert!(!afl_stats_well_formed(secondary, 0));
    let s = parse_afl_stats(secondary, 3);
    assert_eq!(s.corpus_count, 0);
    assert_eq!(s.stability, None);
    assert!(!afl_stats_well_formed("execs_per_sec 10\n", 3));
}

#[test]
fn spare_cores_are_occupied() {
    let mut o = options();
    o.aflpp_binary = Some("/bin/afl".to_string());
    o.aflpp_asan_binary = Some("/bin/afl_asan".to_string());
    o.aflpp_occupy = true;
    let mut v = Vec::new();
    assert!(!setup_aflpp_instances_with(2, &o, 3, false, &mut v));
    assert!(v.is_empty());
    // 8 cores, 3 requested: the main and ASan instances, then 5 occupants.
    assert!(setup_aflpp_instances_with(8, &o, 3, false, &mut v));
    assert_eq!(v.len(), 2 + 5);
    o.aflpp_occupy = false;
    let mut w = Vec::new();
    assert!(setup_aflpp_instances_with(8, &o, 3, false, &mut w));
    assert_eq!(w.len(), 2);
}

#[test]
fn setup_with_a_given_machine() {
    let mut o = options();
    o.aflpp_binary = Some("/bin/afl".to_string());
    o.aflpp_occupy = true;
    o.libfuzzer_binary = Some("/bin/lf".to_string());
    match setup_fuzzers_with(4, &o, 2, false) {
        Ok(v) => assert_eq!(v.len(), 1 + 2 + 1),
        Err(_) => panic!("setup failed"),
    }
    assert!(matches!(setup_fuzzers_with(1, &o, 2, false), Err(SetupError::NotEnoughCores)));
    o.native_go_binary = Some("/bin/go_FuzzX".to_string());
    assert!(matches!(setup_fuzzers_with(4, &o, 2, false), Err(SetupError::NativeGoNotAlone)));
    assert!(matches!(setup_fuzzers_with(1, &o, 2, false), Err(SetupError::NotEnoughCores)));
}
