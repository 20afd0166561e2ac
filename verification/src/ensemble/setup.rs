//! Which fuzz instances the ensembler runs, as its options ask: AFL++,
//! libFuzzer, honggfuzz, SemSan and native Go instances, in that order.

use vstd::prelude::*;

use crate::ensemble::aflpp::AflppFuzzer;
use crate::ensemble::honggfuzz::HonggFuzzer;
use crate::ensemble::libfuzzer::LibFuzzer;
use crate::ensemble::native_go::NativeGoFuzzer;
use crate::ensemble::options::{compare_log_view, EnsembleOptions};
use crate::ensemble::settings::{is_recommended, recommended_aflpp_settings};
use crate::ensemble::semsan::SemSanFuzzer;
use crate::env::EnvVars;
use crate::text::{concat, dec_str, decimal, strings_view};
use crate::types::{join_path, opt_view, path_join};

verus! {

/// A fuzz instance of any engine.
pub enum FuzzerInstance {
    Aflpp(AflppFuzzer),
    LibFuzzer(LibFuzzer),
    Hongg(HonggFuzzer),
    SemSan(SemSanFuzzer),
    NativeGo(NativeGoFuzzer),
}

/// A fuzz instance as plain values.
pub enum InstanceView {
    Aflpp {
        seed_dir: Option<Seq<char>>,
        workspace: Seq<char>,
        binary: Seq<char>,
        id: u64,
        args: Seq<Seq<char>>,
        env: Map<Seq<char>, Seq<char>>,
        nyx: bool,
        /// The output directory (empty until the instance starts).
        out_dir: Seq<char>,
        /// The foreign corpus of the main instance (empty until it starts).
        pull_corpus: Seq<char>,
    },
    LibFuzzer {
        seeds: Seq<char>,
        workspace: Seq<char>,
        binary: Seq<char>,
        args: Seq<Seq<char>>,
        env: Map<Seq<char>, Seq<char>>,
        tag: Seq<char>,
    },
    Hongg { binary: Seq<char>, corpus: Seq<char>, solutions: Seq<char>, stats_file: Seq<char>, threads: u64 },
    SemSan {
        primary: Seq<char>,
        secondary: Seq<char>,
        seeds: Seq<char>,
        solutions: Seq<char>,
        pull_corpus: Seq<char>,
        comparator: Seq<char>,
    },
    NativeGo { binary: Seq<char>, solutions: Seq<char>, cache: Seq<char> },
}

/// An AFL++ instance as plain values (a fresh one: not started).
pub open spec fn aflpp_view(f: AflppFuzzer) -> InstanceView {
    InstanceView::Aflpp {
        seed_dir: opt_view(f.seeds),
        workspace: f.workspace@,
        binary: f.binary@,
        id: f.id,
        args: strings_view(f.args@),
        env: f.env@,
        nyx: f.nyx,
        out_dir: f.out_dir@,
        pull_corpus: f.pull_corpus@,
    }
}

impl FuzzerInstance {
    /// The instance as plain values.
    pub open spec fn view_instance(&self) -> InstanceView {
        match self {
            FuzzerInstance::Aflpp(f) => aflpp_view(*f),
            FuzzerInstance::LibFuzzer(f) => InstanceView::LibFuzzer {
                seeds: f.seeds@,
                workspace: f.workspace@,
                binary: f.binary@,
                args: strings_view(f.args@),
                env: f.env@,
                tag: f.instance_tag@,
            },
            FuzzerInstance::Hongg(f) => InstanceView::Hongg {
                binary: f.binary@,
                corpus: f.corpus@,
                solutions: f.solutions@,
                stats_file: f.stats_file@,
                threads: f.num_threads,
            },
            FuzzerInstance::SemSan(f) => InstanceView::SemSan {
                primary: f.primary_binary@,
                secondary: f.secondary_binary@,
                seeds: f.seeds@,
                solutions: f.solutions@,
                pull_corpus: f.pull_corpus@,
                comparator: f.comparator@,
            },
            FuzzerInstance::NativeGo(f) => InstanceView::NativeGo {
                binary: f.binary@,
                solutions: f.solutions@,
                cache: f.go_fuzz_cache_dir@,
            },
        }
    }
}

/// The instances as plain values.
pub open spec fn instances_view(v: Seq<FuzzerInstance>) -> Seq<InstanceView> {
    v.map_values(|f: FuzzerInstance| f.view_instance())
}

/// Appends `f` to `fuzzers`.
fn push_instance(fuzzers: &mut Vec<FuzzerInstance>, f: FuzzerInstance)
    ensures
        instances_view(final(fuzzers)@) == instances_view(old(fuzzers)@).push(f.view_instance()),
        final(fuzzers)@.len() == old(fuzzers)@.len() + 1,
{
    fuzzers.push(f);
    assert(instances_view(fuzzers@) =~= instances_view(old(fuzzers)@).push(f.view_instance()));
}

// ---------------------------------------------------------------- libFuzzer

/// The arguments every libFuzzer instance gets: fork mode that survives
/// crashes, OOMs and timeouts, and the dictionary (`-dict=<file>`) when
/// there is one.
pub open spec fn libfuzzer_args(o: EnsembleOptions) -> Seq<Seq<char>> {
    seq!["-fork=1"@, "-ignore_crashes=1"@, "-ignore_ooms=1"@, "-ignore_timeouts=1"@] + match o.dictionary {
        Some(d) => seq!["-dict="@ + d@],
        None => seq![],
    }
}

/// A libFuzzer instance named `name` in the workspace directory of that
/// name, with its corpus in `corpus` below it.
pub open spec fn libfuzzer_instance(
    o: EnsembleOptions,
    dir: Seq<char>,
    binary: Seq<char>,
    args: Seq<Seq<char>>,
    tag: Seq<char>,
) -> InstanceView {
    let ws = path_join(o.workspace@, dir);
    InstanceView::LibFuzzer {
        seeds: path_join(ws, "corpus"@),
        workspace: ws,
        binary,
        args,
        env: Map::empty(),
        tag,
    }
}

/// The plain libFuzzer instances `0..n`, named `libfuzzer-<i>` with tag
/// `vanilla-<i>`.
pub open spec fn vanilla_instances(o: EnsembleOptions, binary: Seq<char>, n: nat) -> Seq<InstanceView>
    decreases n,
{
    if n == 0 {
        seq![]
    } else {
        let i = (n - 1) as nat;
        vanilla_instances(o, binary, i).push(
            libfuzzer_instance(o, "libfuzzer-"@ + dec_str(i), binary, libfuzzer_args(o), "vanilla-"@ + dec_str(i)),
        )
    }
}

/// A sanitizer build's libFuzzer instance, named `libfuzzer-<san>`.
pub open spec fn libfuzzer_sanitizer_instance(o: EnsembleOptions, san: Seq<char>, bin: Option<String>) -> Seq<
    InstanceView,
> {
    match bin {
        Some(b) => seq![libfuzzer_instance(o, "libfuzzer-"@ + san, b@, libfuzzer_args(o), "libfuzzer-"@ + san)],
        None => seq![],
    }
}

/// The libFuzzer instances: the plain ones (one and the additional cores),
/// the value-profile one, and one per sanitizer build (UBSan, ASan, MSan,
/// TSan); none without a libFuzzer binary.
pub open spec fn libfuzzer_plan(o: EnsembleOptions) -> Seq<InstanceView> {
    match o.libfuzzer_binary {
        Some(b) => vanilla_instances(o, b@, (o.libfuzzer_additional_cores + 1) as nat) + (if o.libfuzzer_value_profile {
            seq![
                libfuzzer_instance(
                    o,
                    "libfuzzer-value-profile"@,
                    b@,
                    libfuzzer_args(o).push("-use_value_profile=1"@),
                    "value-profile"@,
                ),
            ]
        } else {
            seq![]
        }) + libfuzzer_sanitizer_instance(o, "ubsan"@, o.libfuzzer_ubsan_binary)
            + libfuzzer_sanitizer_instance(o, "asan"@, o.libfuzzer_asan_binary) + libfuzzer_sanitizer_instance(
            o,
            "msan"@,
            o.libfuzzer_msan_binary,
        ) + libfuzzer_sanitizer_instance(o, "tsan"@, o.libfuzzer_tsan_binary),
        None => seq![],
    }
}

/// The arguments every libFuzzer instance gets.
fn libfuzzer_base_args(options: &EnsembleOptions) -> (r: Vec<String>)
    ensures
        strings_view(r@) == libfuzzer_args(*options),
{
    let mut r: Vec<String> = Vec::new();
    r.push("-fork=1".to_owned());
    r.push("-ignore_crashes=1".to_owned());
    r.push("-ignore_ooms=1".to_owned());
    r.push("-ignore_timeouts=1".to_owned());
    match &options.dictionary {
        Some(d) => r.push(concat("-dict=", d.as_str())),
        None => {},
    }
    assert(strings_view(r@) =~= libfuzzer_args(*options));
    r
}

/// A copy of the strings.
fn copy_strings(v: &Vec<String>) -> (r: Vec<String>)
    ensures
        strings_view(r@) == strings_view(v@),
{
    let mut r: Vec<String> = Vec::new();
    crate::text::extend_strings(&mut r, v);
    assert(strings_view(r@) =~= strings_view(v@));
    r
}

/// The libFuzzer instance named `dir` (with tag `tag`).
fn make_libfuzzer(options: &EnsembleOptions, dir: &str, binary: String, args: Vec<String>, tag: String) -> (r:
    FuzzerInstance)
    ensures
        r.view_instance() == libfuzzer_instance(*options, dir@, binary@, strings_view(args@), tag@),
{
    let ws = join_path(options.workspace.as_str(), dir);
    let seeds = join_path(ws.as_str(), "corpus");
    FuzzerInstance::LibFuzzer(LibFuzzer::new(seeds, ws, binary, args, EnvVars::new(), tag))
}

/// Adds the libFuzzer instances the options ask for.
pub fn setup_libfuzzer_instances(options: &EnsembleOptions, fuzzers: &mut Vec<FuzzerInstance>)
    requires
        options.libfuzzer_additional_cores < u64::MAX,
    ensures
        instances_view(final(fuzzers)@) == instances_view(old(fuzzers)@) + libfuzzer_plan(*options),
{
    let ghost start = instances_view(fuzzers@);
    let base = libfuzzer_base_args(options);
    match &options.libfuzzer_binary {
        Some(binary) => {
            let n = options.libfuzzer_additional_cores + 1;
            let mut i: u64 = 0;
            while i < n
                invariant
                    options.libfuzzer_binary == Some(*binary),
                    n == options.libfuzzer_additional_cores + 1,
                    i <= n,
                    strings_view(base@) == libfuzzer_args(*options),
                    instances_view(fuzzers@) == start + vanilla_instances(*options, binary@, i as nat),
                decreases n - i,
            {
                let dir = concat("libfuzzer-", decimal(i).as_str());
                let tag = concat("vanilla-", decimal(i).as_str());
                let f = make_libfuzzer(options, dir.as_str(), binary.clone(), copy_strings(&base), tag);
                push_instance(fuzzers, f);
                assert(start + vanilla_instances(*options, binary@, (i + 1) as nat) =~= (start
                    + vanilla_instances(*options, binary@, i as nat)).push(f.view_instance()));
                i = i + 1;
            }
            let ghost after_vanilla = instances_view(fuzzers@);
            if options.libfuzzer_value_profile {
                let mut args = copy_strings(&base);
                args.push("-use_value_profile=1".to_owned());
                assert(strings_view(args@) =~= libfuzzer_args(*options).push("-use_value_profile=1"@));
                let f = make_libfuzzer(
                    options,
                    "libfuzzer-value-profile",
                    binary.clone(),
                    args,
                    "value-profile".to_owned(),
                );
                push_instance(fuzzers, f);
            }
            let ghost vp = if options.libfuzzer_value_profile {
                seq![
                    libfuzzer_instance(
                        *options,
                        "libfuzzer-value-profile"@,
                        binary@,
                        libfuzzer_args(*options).push("-use_value_profile=1"@),
                        "value-profile"@,
                    ),
                ]
            } else {
                seq![]
            };
            assert(after_vanilla == start + vanilla_instances(*options, binary@, (options.libfuzzer_additional_cores + 1) as nat));
            let ghost after_vp = instances_view(fuzzers@);
            assert(after_vp =~= after_vanilla + vp);
            push_sanitizer_libfuzzer(options, "ubsan", &options.libfuzzer_ubsan_binary, &base, fuzzers);
            let ghost a1 = instances_view(fuzzers@);
            push_sanitizer_libfuzzer(options, "asan", &options.libfuzzer_asan_binary, &base, fuzzers);
            let ghost a2 = instances_view(fuzzers@);
            push_sanitizer_libfuzzer(options, "msan", &options.libfuzzer_msan_binary, &base, fuzzers);
            let ghost a3 = instances_view(fuzzers@);
            push_sanitizer_libfuzzer(options, "tsan", &options.libfuzzer_tsan_binary, &base, fuzzers);
            proof {
                let v = vanilla_instances(*options, binary@, (options.libfuzzer_additional_cores + 1) as nat);
                let u = libfuzzer_sanitizer_instance(*options, "ubsan"@, options.libfuzzer_ubsan_binary);
                let a = libfuzzer_sanitizer_instance(*options, "asan"@, options.libfuzzer_asan_binary);
                let m = libfuzzer_sanitizer_instance(*options, "msan"@, options.libfuzzer_msan_binary);
                let t = libfuzzer_sanitizer_instance(*options, "tsan"@, options.libfuzzer_tsan_binary);
                assert(libfuzzer_plan(*options) == v + vp + u + a + m + t);
                assert(instances_view(fuzzers@) == start + v + vp + u + a + m + t);
                assert(instances_view(fuzzers@) =~= start + (v + vp + u + a + m + t));
            }
        },
        None => {
            assert(instances_view(fuzzers@) =~= start + libfuzzer_plan(*options));
        },
    }
}

/// Adds the libFuzzer instance of a sanitizer build, when there is one.
fn push_sanitizer_libfuzzer(
    options: &EnsembleOptions,
    san: &str,
    bin: &Option<String>,
    base: &Vec<String>,
    fuzzers: &mut Vec<FuzzerInstance>,
)
    requires
        strings_view(base@) == libfuzzer_args(*options),
    ensures
        instances_view(final(fuzzers)@) == instances_view(old(fuzzers)@) + libfuzzer_sanitizer_instance(
            *options,
            san@,
            *bin,
        ),
{
    match bin {
        Some(b) => {
            let name = concat("libfuzzer-", san);
            let f = make_libfuzzer(options, name.as_str(), b.clone(), copy_strings(base), name.clone());
            push_instance(fuzzers, f);
        },
        None => {},
    }
    assert(instances_view(fuzzers@) =~= instances_view(old(fuzzers)@) + libfuzzer_sanitizer_instance(
        *options,
        san@,
        *bin,
    ));
}


// ------------------------------------------------------------------- AFL++

/// The arguments every AFL++ instance gets: the dictionary, when there is
/// one.
pub open spec fn aflpp_extra_args(o: EnsembleOptions) -> Seq<Seq<char>> {
    match o.dictionary {
        Some(d) => seq!["-x"@, d@],
        None => seq![],
    }
}

/// An AFL++ instance to be: binary, arguments and environment.
pub type AflppEntry = (Seq<char>, Seq<Seq<char>>, Map<Seq<char>, Seq<char>>);

/// The instance of a sanitizer build, when there is one.
pub open spec fn aflpp_sanitizer_entry(o: EnsembleOptions, bin: Option<String>) -> Seq<AflppEntry> {
    match bin {
        Some(b) => seq![(b@, aflpp_extra_args(o), Map::empty())],
        None => seq![],
    }
}

/// The instances that occupy the spare cores: the main binary with the
/// recommended arguments (followed by the common ones) and environment of
/// each core.
pub open spec fn occupant_entries(
    o: EnsembleOptions,
    b: Seq<char>,
    occ_args: Seq<Seq<Seq<char>>>,
    occ_envs: Seq<Map<Seq<char>, Seq<char>>>,
) -> Seq<AflppEntry> {
    Seq::new(occ_args.len(), |i: int| (b, occ_args[i] + aflpp_extra_args(o), occ_envs[i]))
}

/// The AFL++ instances, in order: the main one, the CmpLog one, one per
/// sanitizer build (MSan, UBSan, ASan, TSan), then, when the options ask to
/// occupy the spare cores, one per spare core; none without an AFL++ binary.
pub open spec fn aflpp_entries(
    o: EnsembleOptions,
    occ_args: Seq<Seq<Seq<char>>>,
    occ_envs: Seq<Map<Seq<char>, Seq<char>>>,
) -> Seq<AflppEntry> {
    match o.aflpp_binary {
        Some(b) => seq![(b@, aflpp_extra_args(o), Map::empty())] + match compare_log_view(o) {
            Some(c) => seq![(b@, aflpp_extra_args(o) + seq!["-c"@, c], Map::empty())],
            None => seq![],
        } + aflpp_sanitizer_entry(o, o.aflpp_msan_binary) + aflpp_sanitizer_entry(o, o.aflpp_ubsan_binary)
            + aflpp_sanitizer_entry(o, o.aflpp_asan_binary) + aflpp_sanitizer_entry(o, o.aflpp_tsan_binary) + if o.aflpp_occupy {
            occupant_entries(o, b@, occ_args, occ_envs)
        } else {
            seq![]
        },
        None => seq![],
    }
}

/// The AFL++ instances as plain values, numbered from `base`: they share
/// the `aflpp` workspace and its corpus.
pub open spec fn aflpp_plan(
    o: EnsembleOptions,
    base: nat,
    occ_args: Seq<Seq<Seq<char>>>,
    occ_envs: Seq<Map<Seq<char>, Seq<char>>>,
) -> Seq<InstanceView> {
    let e = aflpp_entries(o, occ_args, occ_envs);
    let ws = path_join(o.workspace@, "aflpp"@);
    Seq::new(
        e.len(),
        |j: int|
            InstanceView::Aflpp {
                seed_dir: Some(path_join(ws, "corpus"@)),
                workspace: ws,
                binary: e[j].0,
                id: (base + j) as u64,
                args: e[j].1,
                env: e[j].2,
                nyx: o.aflpp_nyx,
                out_dir: Seq::empty(),
                pull_corpus: Seq::empty(),
            },
    )
}

/// The arguments every AFL++ instance gets.
fn aflpp_common_args(options: &EnsembleOptions) -> (r: Vec<String>)
    ensures
        strings_view(r@) == aflpp_extra_args(*options),
{
    let mut r: Vec<String> = Vec::new();
    match &options.dictionary {
        Some(d) => {
            r.push("-x".to_owned());
            r.push(d.clone());
        },
        None => {},
    }
    assert(strings_view(r@) =~= aflpp_extra_args(*options));
    r
}

/// `v` followed by copies of the strings of `w`.
fn strings_concat(v: &Vec<String>, w: &Vec<String>) -> (r: Vec<String>)
    ensures
        strings_view(r@) == strings_view(v@) + strings_view(w@),
{
    let mut r = copy_strings(v);
    crate::text::extend_strings(&mut r, w);
    r
}

/// The AFL++ instances of `entries` so far, with their numbers.
pub open spec fn aflpp_views_upto(o: EnsembleOptions, base: nat, e: Seq<AflppEntry>, n: int) -> Seq<InstanceView> {
    let ws = path_join(o.workspace@, "aflpp"@);
    Seq::new(
        n as nat,
        |j: int|
            InstanceView::Aflpp {
                seed_dir: Some(path_join(ws, "corpus"@)),
                workspace: ws,
                binary: e[j].0,
                id: (base + j) as u64,
                args: e[j].1,
                env: e[j].2,
                nyx: o.aflpp_nyx,
                out_dir: Seq::empty(),
                pull_corpus: Seq::empty(),
            },
    )
}

/// Appends the AFL++ instance for `entry`, numbered by its position.
fn push_aflpp(
    options: &EnsembleOptions,
    fuzzers: &mut Vec<FuzzerInstance>,
    binary: String,
    args: Vec<String>,
    env: EnvVars,
    Ghost(base): Ghost<nat>,
    Ghost(e): Ghost<Seq<AflppEntry>>,
    Ghost(k): Ghost<int>,
)
    requires
        0 <= k < e.len(),
        old(fuzzers)@.len() == base + k,
        e[k] == (binary@, strings_view(args@), env@),
        instances_view(old(fuzzers)@).subrange(base as int, base + k) == aflpp_views_upto(*options, base, e, k),
        base <= old(fuzzers)@.len(),
    ensures
        final(fuzzers)@.len() == base + k + 1,
        instances_view(final(fuzzers)@).subrange(0, base as int) == instances_view(old(fuzzers)@).subrange(
            0,
            base as int,
        ),
        instances_view(final(fuzzers)@).subrange(base as int, base + k + 1) == aflpp_views_upto(
            *options,
            base,
            e,
            k + 1,
        ),
{
    let ws = join_path(options.workspace.as_str(), "aflpp");
    let seeds = join_path(ws.as_str(), "corpus");
    let id = fuzzers.len() as u64;
    let f = FuzzerInstance::Aflpp(AflppFuzzer::new(Some(seeds), ws, binary, id, args, env, options.aflpp_nyx));
    let ghost old_v = instances_view(fuzzers@);
    push_instance(fuzzers, f);
    assert(instances_view(fuzzers@).subrange(0, base as int) =~= old_v.subrange(0, base as int));
    let ghost nv = instances_view(fuzzers@);
    assert(nv == old_v.push(f.view_instance()));
    assert forall|j: int| 0 <= j < k + 1 implies #[trigger] nv.subrange(base as int, base + k + 1)[j]
        == aflpp_views_upto(*options, base, e, k + 1)[j] by {
        if j < k {
            assert(nv[base + j] == old_v[base + j]);
            assert(old_v.subrange(base as int, base + k)[j] == old_v[base + j]);
        } else {
            assert(nv[base + j] == f.view_instance());
        }
    }
    assert(nv.subrange(base as int, base + k + 1) =~= aflpp_views_upto(*options, base, e, k + 1));
}


/// The entries as plain values.
pub open spec fn entries_view(v: Seq<(String, Vec<String>, EnvVars)>) -> Seq<AflppEntry> {
    v.map_values(|x: (String, Vec<String>, EnvVars)| (x.0@, strings_view(x.1@), x.2@))
}

/// Appends an entry.
fn push_entry(r: &mut Vec<(String, Vec<String>, EnvVars)>, binary: String, args: Vec<String>, env: EnvVars)
    ensures
        entries_view(final(r)@) == entries_view(old(r)@).push((binary@, strings_view(args@), env@)),
{
    let ghost x = (binary@, strings_view(args@), env@);
    r.push((binary, args, env));
    assert(entries_view(r@) =~= entries_view(old(r)@).push(x));
}

/// The recommended arguments as plain values.
pub open spec fn args_lists_view(v: Seq<Vec<String>>) -> Seq<Seq<Seq<char>>> {
    v.map_values(|a: Vec<String>| strings_view(a@))
}

/// The recommended environments as plain values.
pub open spec fn envs_view(v: Seq<EnvVars>) -> Seq<Map<Seq<char>, Seq<char>>> {
    v.map_values(|e: EnvVars| e@)
}

/// The AFL++ instances to be, as values.
fn aflpp_entry_list(options: &EnsembleOptions, occ_args: &Vec<Vec<String>>, occ_envs: &Vec<EnvVars>) -> (r: Vec<
    (String, Vec<String>, EnvVars),
>)
    requires
        occ_args@.len() == occ_envs@.len(),
    ensures
        entries_view(r@) == aflpp_entries(*options, args_lists_view(occ_args@), envs_view(occ_envs@)),
{
    let ghost oa = args_lists_view(occ_args@);
    let ghost oe = envs_view(occ_envs@);
    let mut r: Vec<(String, Vec<String>, EnvVars)> = Vec::new();
    let extra = aflpp_common_args(options);
    match &options.aflpp_binary {
        Some(b) => {
            push_entry(&mut r, b.clone(), copy_strings(&extra), EnvVars::new());
            let ghost p0 = entries_view(r@);
            match options.compare_log_binary() {
                Some(c) => {
                    let mut args = copy_strings(&extra);
                    args.push("-c".to_owned());
                    args.push(c.to_owned());
                    assert(strings_view(args@) =~= aflpp_extra_args(*options) + seq!["-c"@, c@]);
                    push_entry(&mut r, b.clone(), args, EnvVars::new());
                },
                None => {},
            }
            let ghost p1 = entries_view(r@);
            push_sanitizer_entry(&mut r, &options.aflpp_msan_binary, &extra, Ghost(*options));
            push_sanitizer_entry(&mut r, &options.aflpp_ubsan_binary, &extra, Ghost(*options));
            push_sanitizer_entry(&mut r, &options.aflpp_asan_binary, &extra, Ghost(*options));
            push_sanitizer_entry(&mut r, &options.aflpp_tsan_binary, &extra, Ghost(*options));
            let ghost p2 = entries_view(r@);
            if options.aflpp_occupy {
                let mut i: usize = 0;
                while i < occ_args.len()
                    invariant
                        occ_args@.len() == occ_envs@.len(),
                        oa == args_lists_view(occ_args@),
                        oe == envs_view(occ_envs@),
                        strings_view(extra@) == aflpp_extra_args(*options),
                        i <= occ_args@.len(),
                        entries_view(r@) == p2 + occupant_entries(*options, b@, oa, oe).subrange(0, i as int),
                    decreases occ_args@.len() - i,
                {
                    let args = strings_concat(&occ_args[i], &extra);
                    let env = occ_envs[i].duplicate();
                    let ghost r0 = entries_view(r@);
                    push_entry(&mut r, b.clone(), args, env);
                    proof {
                        assert(oa[i as int] == strings_view(occ_args@[i as int]@));
                        assert(oe[i as int] == occ_envs@[i as int]@);
                        assert(occupant_entries(*options, b@, oa, oe).subrange(0, i + 1) =~= occupant_entries(
                            *options,
                            b@,
                            oa,
                            oe,
                        ).subrange(0, i as int).push(occupant_entries(*options, b@, oa, oe)[i as int]));
                        assert(entries_view(r@) =~= p2 + occupant_entries(*options, b@, oa, oe).subrange(0, i + 1));
                    }
                    i = i + 1;
                }
                assert(occupant_entries(*options, b@, oa, oe).subrange(0, i as int) =~= occupant_entries(
                    *options,
                    b@,
                    oa,
                    oe,
                ));
            } else {
                assert(entries_view(r@) =~= p2 + seq![]);
            }
            assert(entries_view(r@) =~= aflpp_entries(*options, oa, oe));
        },
        None => {
            assert(entries_view(r@) =~= aflpp_entries(*options, oa, oe));
        },
    }
    r
}

/// Appends the entry of a sanitizer build, when there is one.
fn push_sanitizer_entry(
    r: &mut Vec<(String, Vec<String>, EnvVars)>,
    bin: &Option<String>,
    extra: &Vec<String>,
    Ghost(o): Ghost<EnsembleOptions>,
)
    requires
        strings_view(extra@) == aflpp_extra_args(o),
    ensures
        entries_view(final(r)@) == entries_view(old(r)@) + aflpp_sanitizer_entry(o, *bin),
{
    match bin {
        Some(b) => {
            push_entry(r, b.clone(), copy_strings(extra), EnvVars::new());
        },
        None => {},
    }
    assert(entries_view(r@) =~= entries_view(old(r)@) + aflpp_sanitizer_entry(o, *bin));
}

/// Adds the AFL++ instances for the options, numbered by their position
/// among all instances, with `occ_args` and `occ_envs` as the recommended
/// settings of the spare cores.
pub fn add_aflpp_instances(
    options: &EnsembleOptions,
    occ_args: &Vec<Vec<String>>,
    occ_envs: &Vec<EnvVars>,
    fuzzers: &mut Vec<FuzzerInstance>,
)
    requires
        occ_args@.len() == occ_envs@.len(),
    ensures
        instances_view(final(fuzzers)@) == instances_view(old(fuzzers)@) + aflpp_plan(
            *options,
            old(fuzzers)@.len(),
            args_lists_view(occ_args@),
            envs_view(occ_envs@),
        ),
{
    let ghost e = aflpp_entries(*options, args_lists_view(occ_args@), envs_view(occ_envs@));
    let ghost base = fuzzers@.len();
    let ghost start = instances_view(fuzzers@);
    let entries = aflpp_entry_list(options, occ_args, occ_envs);
    let n = entries.len();
    let mut k: usize = 0;
    assert(instances_view(fuzzers@).subrange(base as int, base as int) =~= aflpp_views_upto(*options, base, e, 0));
    assert(instances_view(fuzzers@).subrange(0, base as int) =~= start);
    while k < n
        invariant
            n == entries@.len(),
            entries_view(entries@) == e,
            k <= n,
            fuzzers@.len() == base + k,
            instances_view(fuzzers@).subrange(0, base as int) == start,
            instances_view(fuzzers@).subrange(base as int, base + k) == aflpp_views_upto(*options, base, e, k as int),
        decreases n - k,
    {
        let (binary, args, env) = take_entry(&entries, k);
        push_aflpp(options, fuzzers, binary, args, env, Ghost(base), Ghost(e), Ghost(k as int));
        k = k + 1;
    }
    proof {
        let v = instances_view(fuzzers@);
        assert(aflpp_views_upto(*options, base, e, e.len() as int) =~= aflpp_plan(
            *options,
            base,
            args_lists_view(occ_args@),
            envs_view(occ_envs@),
        ));
        assert(v =~= v.subrange(0, base as int) + v.subrange(base as int, base + k));
    }
}

/// A copy of entry `k`.
fn take_entry(entries: &Vec<(String, Vec<String>, EnvVars)>, k: usize) -> (r: (String, Vec<String>, EnvVars))
    requires
        k < entries@.len(),
    ensures
        (r.0@, strings_view(r.1@), r.2@) == entries_view(entries@)[k as int],
{
    let x = &entries[k];
    (x.0.clone(), copy_strings(&x.1), x.2.duplicate())
}


/// What setting up the AFL++ instances gives on a machine with `cpus` cores,
/// appending to the instances `before` and giving `after` and `r`: success
/// exactly when the machine has the cores requested; then the AFL++ plan,
/// where the spare cores (`cpus - cores_requested`), when the options ask to
/// occupy them, each get an instance with recommended settings.
pub open spec fn aflpp_setup_outcome(
    o: EnsembleOptions,
    cores_requested: nat,
    limit_input_len: bool,
    cpus: nat,
    before: Seq<InstanceView>,
    after: Seq<InstanceView>,
    r: bool,
) -> bool {
    &&& r == (cpus >= cores_requested)
    &&& !r ==> after == before
    &&& r ==> exists|oa: Seq<Seq<Seq<char>>>, oe: Seq<Map<Seq<char>, Seq<char>>>|
        #![trigger aflpp_plan(o, before.len(), oa, oe)]
        {
            &&& (o.aflpp_binary is Some && o.aflpp_occupy) ==> is_recommended(
                (cpus - cores_requested) as nat,
                compare_log_view(o),
                limit_input_len,
                oa,
                oe,
            )
            &&& after == before + aflpp_plan(o, before.len(), oa, oe)
        }
}

/// Adds the AFL++ instances the options ask for on a machine with `cpus`
/// cores. The spare cores (those beyond `cores_requested`) get instances
/// with the recommended settings when the options ask to occupy them.
/// Returns `false`, adding nothing, when the machine has fewer cores than
/// `cores_requested`.
pub fn setup_aflpp_instances_with(
    cpus: usize,
    options: &EnsembleOptions,
    cores_requested: usize,
    limit_input_len: bool,
    fuzzers: &mut Vec<FuzzerInstance>,
) -> (r: bool)
    ensures
        aflpp_setup_outcome(
            *options,
            cores_requested as nat,
            limit_input_len,
            cpus as nat,
            instances_view(old(fuzzers)@),
            instances_view(final(fuzzers)@),
            r,
        ),
        !r ==> final(fuzzers)@ == old(fuzzers)@,
{
    if cpus < cores_requested {
        return false;
    }
    let spare = cpus - cores_requested;
    let ghost before = instances_view(fuzzers@);
    if options.aflpp_binary.is_some() && options.aflpp_occupy {
        let (occ_args, occ_envs) = recommended_aflpp_settings(spare, options, limit_input_len);
        proof {
            let oa = args_lists_view(occ_args@);
            let oe = envs_view(occ_envs@);
            assert(oa =~= occ_args@.map_values(|v: Vec<String>| strings_view(v@)));
            assert(oe =~= occ_envs@.map_values(|e: EnvVars| e@));
            assert(is_recommended(spare as nat, compare_log_view(*options), limit_input_len, oa, oe));
            assert(oa.len() == occ_args@.len());
        }
        add_aflpp_instances(options, &occ_args, &occ_envs, fuzzers);
        proof {
            let oa = args_lists_view(occ_args@);
            let oe = envs_view(occ_envs@);
            assert(instances_view(fuzzers@) == before + aflpp_plan(*options, before.len(), oa, oe));
        }
    } else {
        let no_args: Vec<Vec<String>> = Vec::new();
        let no_envs: Vec<EnvVars> = Vec::new();
        add_aflpp_instances(options, &no_args, &no_envs, fuzzers);
        proof {
            let oa = args_lists_view(no_args@);
            let oe = envs_view(no_envs@);
            assert(instances_view(fuzzers@) == before + aflpp_plan(*options, before.len(), oa, oe));
        }
    }
    true
}

/// Adds the AFL++ instances the options ask for on this machine, whose
/// cores it counts. Returns `false`, adding nothing, when the machine has
/// fewer cores than `cores_requested`; since every machine has a core, it
/// succeeds whenever at most one is requested.
pub fn setup_aflpp_instances(
    options: &EnsembleOptions,
    cores_requested: usize,
    limit_input_len: bool,
    fuzzers: &mut Vec<FuzzerInstance>,
) -> (r: bool)
    ensures
        exists|cpus: nat|
            #![trigger aflpp_setup_outcome(*options, cores_requested as nat, limit_input_len, cpus, instances_view(old(fuzzers)@), instances_view(final(fuzzers)@), r)]
            cpus >= 1 && aflpp_setup_outcome(
                *options,
                cores_requested as nat,
                limit_input_len,
                cpus,
                instances_view(old(fuzzers)@),
                instances_view(final(fuzzers)@),
                r,
            ),
        cores_requested <= 1 ==> r,
        !r ==> final(fuzzers)@ == old(fuzzers)@,
{
    let cpus = crate::launcher::available_cpus();
    let ghost before = instances_view(fuzzers@);
    let r = setup_aflpp_instances_with(cpus, options, cores_requested, limit_input_len, fuzzers);
    assert(aflpp_setup_outcome(
        *options,
        cores_requested as nat,
        limit_input_len,
        cpus as nat,
        before,
        instances_view(fuzzers@),
        r,
    ));
    r
}

// --------------------------------------------------------------- honggfuzz

/// The honggfuzz instance: one, with a thread per core it was given, in the
/// `honggfuzz` workspace; none without a honggfuzz binary.
pub open spec fn honggfuzz_plan(o: EnsembleOptions) -> Seq<InstanceView> {
    match o.honggfuzz_binary {
        Some(b) => {
            let ws = path_join(o.workspace@, "honggfuzz"@);
            seq![
                InstanceView::Hongg {
                    binary: b@,
                    corpus: path_join(ws, "corpus"@),
                    solutions: path_join(ws, "solutions"@),
                    stats_file: path_join(ws, "honggfuzz.stats"@),
                    threads: (o.honggfuzz_additional_cores + 1) as u64,
                },
            ]
        },
        None => seq![],
    }
}

/// Adds the honggfuzz instance the options ask for.
pub fn setup_honggfuzz_instances(options: &EnsembleOptions, fuzzers: &mut Vec<FuzzerInstance>)
    requires
        options.honggfuzz_additional_cores < u64::MAX,
    ensures
        instances_view(final(fuzzers)@) == instances_view(old(fuzzers)@) + honggfuzz_plan(*options),
{
    match &options.honggfuzz_binary {
        Some(b) => {
            let ws = join_path(options.workspace.as_str(), "honggfuzz");
            let f = HonggFuzzer::new(b.clone(), ws.as_str(), options.honggfuzz_additional_cores + 1);
            push_instance(fuzzers, FuzzerInstance::Hongg(f));
        },
        None => {},
    }
    assert(instances_view(fuzzers@) =~= instances_view(old(fuzzers)@) + honggfuzz_plan(*options));
}

// ------------------------------------------------------------------ SemSan

/// The SemSan instance for secondary `i`, in workspace `semsan-<i>`.
pub open spec fn semsan_instance(o: EnsembleOptions, primary: Seq<char>, i: int) -> InstanceView {
    let wd = path_join(o.workspace@, "semsan-"@ + dec_str(i as nat));
    InstanceView::SemSan {
        primary,
        secondary: o.semsan_secondary_binaries@[i]@,
        seeds: path_join(wd, "seeds"@),
        solutions: path_join(wd, "solutions"@),
        pull_corpus: path_join(wd, "pull_corpus"@),
        comparator: o.semsan_comparator@,
    }
}

/// The SemSan instances: one per secondary binary, with the primary one;
/// none without a primary binary.
pub open spec fn semsan_plan(o: EnsembleOptions) -> Seq<InstanceView> {
    match o.semsan_primary_binary {
        Some(p) => Seq::new(o.semsan_secondary_binaries@.len(), |i: int| semsan_instance(o, p@, i)),
        None => seq![],
    }
}

/// Adds the SemSan instances the options ask for.
pub fn setup_semsan_instances(options: &EnsembleOptions, fuzzers: &mut Vec<FuzzerInstance>)
    ensures
        instances_view(final(fuzzers)@) == instances_view(old(fuzzers)@) + semsan_plan(*options),
{
    let ghost start = instances_view(fuzzers@);
    match &options.semsan_primary_binary {
        Some(p) => {
            let n = options.semsan_secondary_binaries.len();
            let mut i: usize = 0;
            while i < n
                invariant
                    options.semsan_primary_binary == Some(*p),
                    n == options.semsan_secondary_binaries@.len(),
                    i <= n,
                    instances_view(fuzzers@) == start + semsan_plan(*options).subrange(0, i as int),
                decreases n - i,
            {
                let wd = join_path(options.workspace.as_str(), concat("semsan-", decimal(i as u64).as_str()).as_str());
                let f = SemSanFuzzer::new(
                    p.clone(),
                    options.semsan_secondary_binaries[i].clone(),
                    join_path(wd.as_str(), "seeds"),
                    join_path(wd.as_str(), "solutions"),
                    join_path(wd.as_str(), "pull_corpus"),
                    options.semsan_comparator.clone(),
                );
                let fi = FuzzerInstance::SemSan(f);
                push_instance(fuzzers, fi);
                proof {
                    assert(fi.view_instance() == semsan_plan(*options)[i as int]);
                    assert(semsan_plan(*options).subrange(0, i + 1) =~= semsan_plan(*options).subrange(0, i as int).push(
                        semsan_plan(*options)[i as int],
                    ));
                    assert(instances_view(fuzzers@) =~= start + semsan_plan(*options).subrange(0, i + 1));
                }
                i = i + 1;
            }
            assert(semsan_plan(*options).subrange(0, i as int) =~= semsan_plan(*options));
        },
        None => {
            assert(instances_view(fuzzers@) =~= start + semsan_plan(*options));
        },
    }
}

// --------------------------------------------------------------- native Go

/// The native Go instance, in the `native-go` workspace; none without a
/// native Go binary.
pub open spec fn native_go_plan(o: EnsembleOptions) -> Seq<InstanceView> {
    match o.native_go_binary {
        Some(b) => {
            let wd = path_join(o.workspace@, "native-go"@);
            seq![
                InstanceView::NativeGo {
                    binary: b@,
                    solutions: path_join(wd, "solutions"@),
                    cache: path_join(wd, "fuzzcache"@),
                },
            ]
        },
        None => seq![],
    }
}

/// Adds the native Go instance the options ask for. Native Go fuzzing runs
/// alone: with other instances already there it adds nothing and returns
/// `false`.
pub fn setup_native_go_instances(options: &EnsembleOptions, fuzzers: &mut Vec<FuzzerInstance>) -> (r: bool)
    ensures
        r == (options.native_go_binary is None || old(fuzzers)@.len() == 0),
        r ==> instances_view(final(fuzzers)@) == instances_view(old(fuzzers)@) + native_go_plan(*options),
        !r ==> final(fuzzers)@ == old(fuzzers)@,
{
    match &options.native_go_binary {
        Some(b) => {
            if fuzzers.len() != 0 {
                return false;
            }
            let wd = join_path(options.workspace.as_str(), "native-go");
            let f = NativeGoFuzzer::new(b.clone(), wd.as_str());
            push_instance(fuzzers, FuzzerInstance::NativeGo(f));
        },
        None => {},
    }
    assert(instances_view(fuzzers@) =~= instances_view(old(fuzzers)@) + native_go_plan(*options));
    true
}

// -------------------------------------------------------------- all of them

/// Why the instances could not be set up.
#[derive(Clone, Copy, Debug, PartialEq, Eq, Structural)]
pub enum SetupError {
    /// The machine has fewer cores than the options ask for.
    NotEnoughCores,
    /// Native Go fuzzing was asked for together with other engines.
    NativeGoNotAlone,
}

/// All the instances, in order: AFL++ (numbered from 0), libFuzzer,
/// honggfuzz, SemSan, native Go.
pub open spec fn fuzzers_plan(
    o: EnsembleOptions,
    occ_args: Seq<Seq<Seq<char>>>,
    occ_envs: Seq<Map<Seq<char>, Seq<char>>>,
) -> Seq<InstanceView> {
    aflpp_plan(o, 0, occ_args, occ_envs) + libfuzzer_plan(o) + honggfuzz_plan(o) + semsan_plan(o) + native_go_plan(o)
}

/// Native Go fuzzing is asked for together with another engine.
pub open spec fn native_go_conflict(o: EnsembleOptions) -> bool {
    o.native_go_binary is Some && (o.aflpp_binary is Some || o.libfuzzer_binary is Some || o.honggfuzz_binary is Some
        || (o.semsan_primary_binary is Some && o.semsan_secondary_binaries@.len() > 0))
}

/// What setting up the instances gives on a machine with `cpus` cores: too
/// few cores when it has fewer than `cores_requested`; otherwise a native Go
/// conflict when there is one; otherwise all the instances, the spare cores
/// (`cpus - cores_requested`) occupied by AFL++ instances when asked.
pub open spec fn setup_outcome(
    o: EnsembleOptions,
    cores_requested: nat,
    limit_input_len: bool,
    cpus: nat,
    r: Result<Vec<FuzzerInstance>, SetupError>,
) -> bool {
    match r {
        Ok(v) => cpus >= cores_requested && !native_go_conflict(o) && exists|
            oa: Seq<Seq<Seq<char>>>,
            oe: Seq<Map<Seq<char>, Seq<char>>>,
        |
            #![trigger fuzzers_plan(o, oa, oe)]
            {
                &&& (o.aflpp_binary is Some && o.aflpp_occupy) ==> is_recommended(
                    (cpus - cores_requested) as nat,
                    compare_log_view(o),
                    limit_input_len,
                    oa,
                    oe,
                )
                &&& instances_view(v@) == fuzzers_plan(o, oa, oe)
            },
        Err(SetupError::NotEnoughCores) => cpus < cores_requested,
        Err(SetupError::NativeGoNotAlone) => cpus >= cores_requested && native_go_conflict(o),
    }
}

proof fn lemma_plan_lengths(o: EnsembleOptions, oa: Seq<Seq<Seq<char>>>, oe: Seq<Map<Seq<char>, Seq<char>>>)
    ensures
        (aflpp_plan(o, 0, oa, oe).len() > 0) == (o.aflpp_binary is Some),
        (libfuzzer_plan(o).len() > 0) == (o.libfuzzer_binary is Some),
        (honggfuzz_plan(o).len() > 0) == (o.honggfuzz_binary is Some),
        (semsan_plan(o).len() > 0) == (o.semsan_primary_binary is Some && o.semsan_secondary_binaries@.len() > 0),
{
    if o.libfuzzer_binary is Some {
        let b = o.libfuzzer_binary->Some_0;
        let n = (o.libfuzzer_additional_cores + 1) as nat;
        assert(vanilla_instances(o, b@, n).len() > 0);
    }
}

/// The instances the options ask for on a machine with `cpus` cores, with
/// the spare cores beyond `cores_requested` occupied by AFL++ instances
/// when asked. Fails when the machine has fewer cores than
/// `cores_requested`, and when native Go fuzzing is asked for together with
/// other engines.
pub fn setup_fuzzers_with(cpus: usize, options: &EnsembleOptions, cores_requested: usize, limit_input_len: bool) -> (r:
    Result<Vec<FuzzerInstance>, SetupError>)
    requires
        options.libfuzzer_additional_cores < u64::MAX,
        options.honggfuzz_additional_cores < u64::MAX,
    ensures
        setup_outcome(*options, cores_requested as nat, limit_input_len, cpus as nat, r),
{
    let mut fuzzers: Vec<FuzzerInstance> = Vec::new();
    if !setup_aflpp_instances_with(cpus, options, cores_requested, limit_input_len, &mut fuzzers) {
        return Err(SetupError::NotEnoughCores);
    }
    let ghost after_aflpp = instances_view(fuzzers@);
    let ghost oa = choose|oa: Seq<Seq<Seq<char>>>, oe: Seq<Map<Seq<char>, Seq<char>>>|
        {
            &&& (options.aflpp_binary is Some && options.aflpp_occupy) ==> is_recommended(
                (cpus - cores_requested) as nat,
                compare_log_view(*options),
                limit_input_len,
                oa,
                oe,
            )
            &&& after_aflpp == instances_view(Seq::<FuzzerInstance>::empty()) + aflpp_plan(*options, 0, oa, oe)
        };
    proof {
        assert(instances_view(Seq::<FuzzerInstance>::empty()) =~= Seq::<InstanceView>::empty());
        assert(after_aflpp =~= aflpp_plan(*options, 0, oa.0, oa.1));
        lemma_plan_lengths(*options, oa.0, oa.1);
    }
    setup_libfuzzer_instances(options, &mut fuzzers);
    setup_honggfuzz_instances(options, &mut fuzzers);
    setup_semsan_instances(options, &mut fuzzers);
    let ghost before_go = instances_view(fuzzers@);
    proof {
        assert(before_go == aflpp_plan(*options, 0, oa.0, oa.1) + libfuzzer_plan(*options) + honggfuzz_plan(*options)
            + semsan_plan(*options));
        assert(before_go.len() == fuzzers@.len());
        assert((fuzzers@.len() == 0) == !(options.aflpp_binary is Some || options.libfuzzer_binary is Some
            || options.honggfuzz_binary is Some || (options.semsan_primary_binary is Some
            && options.semsan_secondary_binaries@.len() > 0)));
    }
    if !setup_native_go_instances(options, &mut fuzzers) {
        return Err(SetupError::NativeGoNotAlone);
    }
    proof {
        assert(instances_view(fuzzers@) =~= fuzzers_plan(*options, oa.0, oa.1));
    }
    Ok(fuzzers)
}

/// The instances the options ask for on this machine, whose cores it counts;
/// see `setup_fuzzers_with`. Since every machine has a core, it succeeds
/// whenever at most one core is requested and native Go does not conflict.
pub fn setup_fuzzers(options: &EnsembleOptions, cores_requested: usize, limit_input_len: bool) -> (r: Result<
    Vec<FuzzerInstance>,
    SetupError,
>)
    requires
        options.libfuzzer_additional_cores < u64::MAX,
        options.honggfuzz_additional_cores < u64::MAX,
    ensures
        exists|cpus: nat|
            #![trigger setup_outcome(*options, cores_requested as nat, limit_input_len, cpus, r)]
            cpus >= 1 && setup_outcome(*options, cores_requested as nat, limit_input_len, cpus, r),
        cores_requested <= 1 && !native_go_conflict(*options) ==> r is Ok,
        cores_requested <= 1 && native_go_conflict(*options) ==> r matches Err(SetupError::NativeGoNotAlone),
        native_go_conflict(*options) ==> r is Err,
{
    let cpus = crate::launcher::available_cpus();
    let r = setup_fuzzers_with(cpus, options, cores_requested, limit_input_len);
    assert(setup_outcome(*options, cores_requested as nat, limit_input_len, cpus as nat, r));
    r
}

} // verus!

verus! {

/// The AFL++ instances come first and are numbered by their position: the
/// instance at position `j` of the plan, if it is an AFL++ one, has id `j`.
pub proof fn lemma_aflpp_ids_are_positions(
    o: EnsembleOptions,
    oa: Seq<Seq<Seq<char>>>,
    oe: Seq<Map<Seq<char>, Seq<char>>>,
    j: int,
)
    requires
        0 <= j < aflpp_entries(o, oa, oe).len(),
        aflpp_entries(o, oa, oe).len() <= usize::MAX,
    ensures
        fuzzers_plan(o, oa, oe)[j] matches InstanceView::Aflpp { id, .. } && id == j,
{
    let a = aflpp_plan(o, 0, oa, oe);
    assert(fuzzers_plan(o, oa, oe)[j] == a[j]);
}

/// Native Go fuzzing runs alone: when the options ask for it and for no
/// other engine, the plan holds the native Go instance only.
pub proof fn lemma_native_go_alone(o: EnsembleOptions, oa: Seq<Seq<Seq<char>>>, oe: Seq<Map<Seq<char>, Seq<char>>>)
    requires
        o.native_go_binary is Some,
        o.aflpp_binary is None,
        o.libfuzzer_binary is None,
        o.honggfuzz_binary is None,
        o.semsan_primary_binary is None || o.semsan_secondary_binaries@.len() == 0,
    ensures
        fuzzers_plan(o, oa, oe).len() == 1,
        fuzzers_plan(o, oa, oe)[0] is NativeGo,
{
    assert(aflpp_plan(o, 0, oa, oe).len() == 0);
    assert(semsan_plan(o).len() == 0);
}

} // verus!

verus! {

proof fn lemma_vanilla_len(o: EnsembleOptions, binary: Seq<char>, n: nat)
    ensures
        vanilla_instances(o, binary, n).len() == n,
    decreases n,
{
    if n > 0 {
        lemma_vanilla_len(o, binary, (n - 1) as nat);
    }
}

/// With a libFuzzer binary, the ensembler runs one plain libFuzzer instance
/// and one per additional core, one more with value profiling when asked,
/// and one for each sanitizer build given (UBSan, ASan, MSan, TSan); as many
/// as the cores counted for libFuzzer.
pub proof fn lemma_libfuzzer_instance_count(o: EnsembleOptions)
    requires
        o.libfuzzer_binary is Some,
    ensures
        libfuzzer_plan(o).len() == o.libfuzzer_additional_cores + 1 + (if o.libfuzzer_value_profile {
            1int
        } else {
            0int
        }) + (if o.libfuzzer_ubsan_binary is Some {
            1int
        } else {
            0int
        }) + (if o.libfuzzer_asan_binary is Some {
            1int
        } else {
            0int
        }) + (if o.libfuzzer_msan_binary is Some {
            1int
        } else {
            0int
        }) + (if o.libfuzzer_tsan_binary is Some {
            1int
        } else {
            0int
        }),
{
    let b = o.libfuzzer_binary->Some_0;
    lemma_vanilla_len(o, b@, (o.libfuzzer_additional_cores + 1) as nat);
}

/// Each sanitizer build of the harness that is given (UBSan, ASan, MSan,
/// TSan) is fuzzed by a libFuzzer instance of its own: one that runs that
/// binary, is tagged `libfuzzer-<san>` and works in `<workspace>/libfuzzer-<san>`.
pub proof fn lemma_libfuzzer_sanitizer_instances(o: EnsembleOptions)
    requires
        o.libfuzzer_binary is Some,
    ensures
        o.libfuzzer_ubsan_binary matches Some(b) ==> exists|i: int|
            #![trigger libfuzzer_plan(o)[i]]
            0 <= i < libfuzzer_plan(o).len() && (libfuzzer_plan(o)[i] matches InstanceView::LibFuzzer {
                binary,
                tag,
                workspace,
                ..
            } && binary == b@ && tag == "libfuzzer-ubsan"@ && workspace == path_join(o.workspace@, "libfuzzer-ubsan"@)),
        o.libfuzzer_asan_binary matches Some(b) ==> exists|i: int|
            #![trigger libfuzzer_plan(o)[i]]
            0 <= i < libfuzzer_plan(o).len() && (libfuzzer_plan(o)[i] matches InstanceView::LibFuzzer {
                binary,
                tag,
                workspace,
                ..
            } && binary == b@ && tag == "libfuzzer-asan"@ && workspace == path_join(o.workspace@, "libfuzzer-asan"@)),
        o.libfuzzer_msan_binary matches Some(b) ==> exists|i: int|
            #![trigger libfuzzer_plan(o)[i]]
            0 <= i < libfuzzer_plan(o).len() && (libfuzzer_plan(o)[i] matches InstanceView::LibFuzzer {
                binary,
                tag,
                workspace,
                ..
            } && binary == b@ && tag == "libfuzzer-msan"@ && workspace == path_join(o.workspace@, "libfuzzer-msan"@)),
        o.libfuzzer_tsan_binary matches Some(b) ==> exists|i: int|
            #![trigger libfuzzer_plan(o)[i]]
            0 <= i < libfuzzer_plan(o).len() && (libfuzzer_plan(o)[i] matches InstanceView::LibFuzzer {
                binary,
                tag,
                workspace,
                ..
            } && binary == b@ && tag == "libfuzzer-tsan"@ && workspace == path_join(o.workspace@, "libfuzzer-tsan"@)),
{
    reveal_strlit("libfuzzer-");
    reveal_strlit("ubsan");
    reveal_strlit("asan");
    reveal_strlit("msan");
    reveal_strlit("tsan");
    reveal_strlit("libfuzzer-ubsan");
    reveal_strlit("libfuzzer-asan");
    reveal_strlit("libfuzzer-msan");
    reveal_strlit("libfuzzer-tsan");
    assert("libfuzzer-"@ + "ubsan"@ =~= "libfuzzer-ubsan"@);
    assert("libfuzzer-"@ + "asan"@ =~= "libfuzzer-asan"@);
    assert("libfuzzer-"@ + "msan"@ =~= "libfuzzer-msan"@);
    assert("libfuzzer-"@ + "tsan"@ =~= "libfuzzer-tsan"@);
    let bin = o.libfuzzer_binary->Some_0;
    let v = vanilla_instances(o, bin@, (o.libfuzzer_additional_cores + 1) as nat);
    lemma_vanilla_len(o, bin@, (o.libfuzzer_additional_cores + 1) as nat);
    let vp = if o.libfuzzer_value_profile {
        seq![
            libfuzzer_instance(
                o,
                "libfuzzer-value-profile"@,
                bin@,
                libfuzzer_args(o).push("-use_value_profile=1"@),
                "value-profile"@,
            ),
        ]
    } else {
        seq![]
    };
    let u = libfuzzer_sanitizer_instance(o, "ubsan"@, o.libfuzzer_ubsan_binary);
    let a = libfuzzer_sanitizer_instance(o, "asan"@, o.libfuzzer_asan_binary);
    let m = libfuzzer_sanitizer_instance(o, "msan"@, o.libfuzzer_msan_binary);
    let t = libfuzzer_sanitizer_instance(o, "tsan"@, o.libfuzzer_tsan_binary);
    let p = libfuzzer_plan(o);
    assert(p == v + vp + u + a + m + t);
    let iu: int = (v.len() + vp.len()) as int;
    let ia: int = iu + u.len();
    let im: int = ia + a.len();
    let it: int = im + m.len();
    if o.libfuzzer_ubsan_binary is Some {
        assert(p[iu] == u[0]);
    }
    if o.libfuzzer_asan_binary is Some {
        assert(p[ia] == a[0]);
    }
    if o.libfuzzer_msan_binary is Some {
        assert(p[im] == m[0]);
    }
    if o.libfuzzer_tsan_binary is Some {
        assert(p[it] == t[0]);
    }
}

proof fn lemma_vanilla_at(o: EnsembleOptions, binary: Seq<char>, n: nat, i: int)
    requires
        0 <= i < n,
    ensures
        vanilla_instances(o, binary, n)[i] == libfuzzer_instance(
            o,
            "libfuzzer-"@ + dec_str(i as nat),
            binary,
            libfuzzer_args(o),
            "vanilla-"@ + dec_str(i as nat),
        ),
    decreases n,
{
    lemma_vanilla_len(o, binary, (n - 1) as nat);
    if i < n - 1 {
        lemma_vanilla_at(o, binary, (n - 1) as nat, i);
    }
}

/// With a libFuzzer binary, the first instances are the plain ones: the
/// `i`-th, for each `i` up to the number of additional cores, runs that
/// binary with the common arguments, is tagged `vanilla-<i>` and works in
/// `<workspace>/libfuzzer-<i>`; with value profiling asked for, the next one
/// runs the same binary with `-use_value_profile=1` added.
pub proof fn lemma_libfuzzer_plain_instances(o: EnsembleOptions, i: int)
    requires
        o.libfuzzer_binary is Some,
        0 <= i <= o.libfuzzer_additional_cores,
    ensures
        libfuzzer_plan(o)[i] matches InstanceView::LibFuzzer { binary, tag, workspace, args, .. } && binary
            == o.libfuzzer_binary->Some_0@ && tag == "vanilla-"@ + dec_str(i as nat) && workspace == path_join(
            o.workspace@,
            "libfuzzer-"@ + dec_str(i as nat),
        ) && args == libfuzzer_args(o),
        o.libfuzzer_value_profile ==> (libfuzzer_plan(o)[o.libfuzzer_additional_cores + 1] matches InstanceView::LibFuzzer {
            binary,
            args,
            ..
        } && binary == o.libfuzzer_binary->Some_0@ && args == libfuzzer_args(o).push("-use_value_profile=1"@)),
{
    let b = o.libfuzzer_binary->Some_0;
    let n = (o.libfuzzer_additional_cores + 1) as nat;
    lemma_vanilla_len(o, b@, n);
    lemma_vanilla_at(o, b@, n, i);
    let v = vanilla_instances(o, b@, n);
    let p = libfuzzer_plan(o);
    assert(p[i] == v[i]);
    if o.libfuzzer_value_profile {
        assert(p[n as int] == libfuzzer_instance(
            o,
            "libfuzzer-value-profile"@,
            b@,
            libfuzzer_args(o).push("-use_value_profile=1"@),
            "value-profile"@,
        ));
    }
}

} // verus!
