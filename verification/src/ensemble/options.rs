//! The ensembler's options, and the number of cores that they ask for.

use vstd::prelude::*;

verus! {

/// What the ensembler runs, and how. Paths are held as strings.
pub struct EnsembleOptions {
    /// AFL++: the plain binary.
    pub aflpp_binary: Option<String>,
    /// AFL++: the CmpLog binary.
    pub aflpp_cmplog_binary: Option<String>,
    /// AFL++: the UBSan binary.
    pub aflpp_ubsan_binary: Option<String>,
    /// AFL++: the ASan binary.
    pub aflpp_asan_binary: Option<String>,
    /// AFL++: the MSan binary.
    pub aflpp_msan_binary: Option<String>,
    /// AFL++: the TSan binary.
    pub aflpp_tsan_binary: Option<String>,
    /// Occupy the cores left over with AFL++ instances.
    pub aflpp_occupy: bool,
    /// Run AFL++ in Nyx mode.
    pub aflpp_nyx: bool,
    /// libFuzzer: the plain binary.
    pub libfuzzer_binary: Option<String>,
    /// libFuzzer: the UBSan binary.
    pub libfuzzer_ubsan_binary: Option<String>,
    /// libFuzzer: the ASan binary.
    pub libfuzzer_asan_binary: Option<String>,
    /// libFuzzer: the MSan binary.
    pub libfuzzer_msan_binary: Option<String>,
    /// libFuzzer: the TSan binary.
    pub libfuzzer_tsan_binary: Option<String>,
    /// Add a libFuzzer instance run with `-use_value_profile=1`.
    pub libfuzzer_value_profile: bool,
    /// Number of additional plain libFuzzer instances.
    pub libfuzzer_additional_cores: u64,
    /// SemSan: the primary harness.
    pub semsan_primary_binary: Option<String>,
    /// SemSan: the secondary harnesses, one instance each.
    pub semsan_secondary_binaries: Vec<String>,
    /// SemSan: the comparator.
    pub semsan_comparator: String,
    /// The binary for native Go fuzzing.
    pub native_go_binary: Option<String>,
    /// Honggfuzz: the binary.
    pub honggfuzz_binary: Option<String>,
    /// Number of additional honggfuzz threads.
    pub honggfuzz_additional_cores: u64,
    /// Seconds between corpus syncs.
    pub sync_interval: u64,
    /// Maximum fuzzing duration in seconds.
    pub max_duration: Option<u64>,
    /// Dictionary file given to the fuzzers.
    pub dictionary: Option<String>,
    /// Workspace folder.
    pub workspace: String,
}

/// The single-core instances that the options can switch on, in a fixed
/// order: whether each is on.
pub open spec fn instance_switches(o: EnsembleOptions) -> Seq<bool> {
    seq![
        o.aflpp_binary is Some,
        o.aflpp_cmplog_binary is Some,
        o.aflpp_ubsan_binary is Some,
        o.aflpp_asan_binary is Some,
        o.aflpp_msan_binary is Some,
        o.aflpp_tsan_binary is Some,
        o.libfuzzer_binary is Some,
        o.libfuzzer_ubsan_binary is Some,
        o.libfuzzer_asan_binary is Some,
        o.libfuzzer_msan_binary is Some,
        o.libfuzzer_tsan_binary is Some,
        o.native_go_binary is Some,
        o.honggfuzz_binary is Some,
        o.libfuzzer_value_profile,
    ]
}

/// Number of `true` entries.
pub open spec fn count_on(v: Seq<bool>) -> nat
    decreases v.len(),
{
    if v.len() == 0 {
        0
    } else {
        count_on(v.drop_last()) + if v.last() {
            1nat
        } else {
            0nat
        }
    }
}

/// Number of single-core instances that the options switch on.
pub open spec fn switched_on(o: EnsembleOptions) -> nat {
    count_on(instance_switches(o))
}

/// Number of cores the options ask for: one per switched-on instance, the
/// additional libFuzzer and honggfuzz cores, and one per SemSan secondary.
pub open spec fn cores_requested(o: EnsembleOptions) -> nat {
    switched_on(o) + o.libfuzzer_additional_cores as nat + o.honggfuzz_additional_cores as nat
        + o.semsan_secondary_binaries@.len()
}

/// The additional libFuzzer and honggfuzz cores, with the SemSan
/// secondaries.
fn additional_cores(options: &EnsembleOptions) -> (r: usize)
    requires
        options.libfuzzer_additional_cores as nat + options.honggfuzz_additional_cores as nat
            + options.semsan_secondary_binaries@.len() <= usize::MAX,
    ensures
        r == options.libfuzzer_additional_cores as nat + options.honggfuzz_additional_cores as nat
            + options.semsan_secondary_binaries@.len(),
{
    options.libfuzzer_additional_cores as usize + options.honggfuzz_additional_cores as usize
        + options.semsan_secondary_binaries.len()
}

/// Which single-core instances the options switch on.
fn switch_array(options: &EnsembleOptions) -> (r: [bool; 14])
    ensures
        r@ == instance_switches(*options),
{
    let r = [
        options.aflpp_binary.is_some(),
        options.aflpp_cmplog_binary.is_some(),
        options.aflpp_ubsan_binary.is_some(),
        options.aflpp_asan_binary.is_some(),
        options.aflpp_msan_binary.is_some(),
        options.aflpp_tsan_binary.is_some(),
        options.libfuzzer_binary.is_some(),
        options.libfuzzer_ubsan_binary.is_some(),
        options.libfuzzer_asan_binary.is_some(),
        options.libfuzzer_msan_binary.is_some(),
        options.libfuzzer_tsan_binary.is_some(),
        options.native_go_binary.is_some(),
        options.honggfuzz_binary.is_some(),
        options.libfuzzer_value_profile,
    ];
    assert(r@ =~= instance_switches(*options));
    r
}

/// Number of `true` flags.
fn count_switches(flags: &[bool; 14]) -> (r: usize)
    ensures
        r == count_on(flags@),
        r <= 14,
{
    let mut c: usize = 0;
    let mut i: usize = 0;
    while i < 14
        invariant
            i <= 14,
            flags@.len() == 14,
            c == count_on(flags@.subrange(0, i as int)),
            c <= i,
        decreases 14 - i,
    {
        assert(flags@.subrange(0, i + 1).drop_last() =~= flags@.subrange(0, i as int));
        if flags[i] {
            c = c + 1;
        }
        i = i + 1;
    }
    assert(flags@.subrange(0, 14) =~= flags@);
    c
}

/// Number of cores the options ask for.
pub fn num_cores_requested(options: &EnsembleOptions) -> (r: usize)
    requires
        cores_requested(*options) <= usize::MAX,
    ensures
        r == cores_requested(*options),
{
    let flags = count_switches(&switch_array(options));
    flags + additional_cores(options)
}

/// The CmpLog binary of the options, as characters.
pub open spec fn compare_log_view(o: EnsembleOptions) -> Option<Seq<char>> {
    match o.aflpp_cmplog_binary {
        Some(b) => Some(b@),
        None => None,
    }
}

impl EnsembleOptions {
    /// The CmpLog binary, if any.
    pub fn compare_log_binary(&self) -> (r: Option<&str>)
        ensures
            match r {
                Some(b) => compare_log_view(*self) == Some(b@),
                None => compare_log_view(*self) is None,
            },
    {
        match &self.aflpp_cmplog_binary {
            Some(b) => Some(b.as_str()),
            None => None,
        }
    }
}

} // verus!
