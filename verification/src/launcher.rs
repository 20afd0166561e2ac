//! Choosing which fuzz instances to run for a harness on a machine, and the
//! command line of the ensembler that runs them.

use vstd::prelude::*;

use crate::env::EnvVars;
use crate::text::{concat, dec_str, decimal, strings_view};
use crate::types::{
    config_has_engine, config_has_sanitizer, get_harness_binary, harness_binary, harness_dir_name,
    FuzzEngine, HarnessConfig, ProjectConfig, Sanitizer,
};

verus! {

/// Calls `num_cpus::get()`. Claimed: the result is at least 1, as the crate
/// documents; how many CPUs the machine offers is not stated.
#[verifier::external_body]
pub(crate) fn available_cpus() -> (r: usize)
    ensures
        r >= 1,
{
    num_cpus::get()
}

/// The assignment of fuzz instances to cores, as the launcher builds it.
#[verifier::ext_equal]
pub struct LaunchState {
    /// The (engine, sanitizer) instances to run, in order.
    pub fuzzers: Seq<(FuzzEngine, Sanitizer)>,
    /// Cores taken so far.
    pub assigned: int,
    /// Extra ensembler arguments.
    pub args: Seq<Seq<char>>,
}

/// An instance with this engine and sanitizer can be handed to the ensembler:
/// the engine is a real one and the combination has a build.
pub open spec fn launchable(e: FuzzEngine, s: Sanitizer) -> bool {
    e != FuzzEngine::NoEngine && harness_dir_name(e, s) is Some
}

/// Adding an instance: it is taken when a core is free and the project was
/// built for both the engine and the sanitizer.
pub open spec fn try_add(
    config: ProjectConfig,
    total: int,
    st: LaunchState,
    e: FuzzEngine,
    s: Sanitizer,
) -> (LaunchState, bool) {
    if st.assigned < total && config_has_engine(config, e) && config_has_sanitizer(config, s) {
        (LaunchState { fuzzers: st.fuzzers.push((e, s)), assigned: st.assigned + 1, ..st }, true)
    } else {
        (st, false)
    }
}

/// Adding instances for each sanitizer of `list` in turn.
pub open spec fn try_add_each(
    config: ProjectConfig,
    total: int,
    st: LaunchState,
    e: FuzzEngine,
    list: Seq<Sanitizer>,
) -> LaunchState
    decreases list.len(),
{
    if list.len() == 0 {
        st
    } else {
        try_add(config, total, try_add_each(config, total, st, e, list.drop_last()), e, list.last()).0
    }
}

/// The SemSan builds among `v`, in order.
pub open spec fn semsan_only(v: Seq<Sanitizer>) -> Seq<Sanitizer>
    decreases v.len(),
{
    if v.len() == 0 {
        seq![]
    } else if v.last() is SemSan {
        semsan_only(v.drop_last()).push(v.last())
    } else {
        semsan_only(v.drop_last())
    }
}

/// Native Go takes all remaining cores when it is added.
pub open spec fn native_go_step(config: ProjectConfig, total: int, st: LaunchState) -> LaunchState {
    let (st1, ok) = try_add(config, total, st, FuzzEngine::NativeGo, Sanitizer::NoSanitizer);
    if ok {
        LaunchState { assigned: total, ..st1 }
    } else {
        st1
    }
}

/// A primary SemSan instance, then one per SemSan build of the project.
pub open spec fn semsan_step(config: ProjectConfig, total: int, st: LaunchState) -> LaunchState {
    let (st1, ok) = try_add(config, total, st, FuzzEngine::SemSan, Sanitizer::NoSanitizer);
    let builds = match config.sanitizers {
        Some(v) => semsan_only(v@),
        None => seq![],
    };
    if ok {
        try_add_each(config, total, st1, FuzzEngine::SemSan, builds)
    } else {
        st1
    }
}

/// The cores still free, as an ensembler argument.
pub open spec fn free_cores_arg(total: int, st: LaunchState) -> Seq<char> {
    dec_str((total - st.assigned) as nat)
}

/// A plain libFuzzer instance; a value-profile instance when configured and a
/// core is free; without AFL++, sanitizer instances, then all remaining cores
/// (which are then taken).
pub open spec fn libfuzzer_step(config: ProjectConfig, total: int, st: LaunchState) -> LaunchState {
    let (st1, ok) = try_add(config, total, st, FuzzEngine::LibFuzzer, Sanitizer::NoSanitizer);
    if !ok {
        st1
    } else {
        let st2 = if config_has_sanitizer(config, Sanitizer::ValueProfile) && st1.assigned < total {
            LaunchState {
                args: st1.args.push("--libfuzzer-value-profile"@),
                assigned: st1.assigned + 1,
                ..st1
            }
        } else {
            st1
        };
        if config_has_engine(config, FuzzEngine::AflPlusPlus) {
            st2
        } else {
            let st3 = try_add_each(
                config,
                total,
                st2,
                FuzzEngine::LibFuzzer,
                seq![Sanitizer::Address, Sanitizer::Undefined, Sanitizer::Memory, Sanitizer::Thread],
            );
            if st3.assigned < total {
                LaunchState {
                    args: st3.args.push("--libfuzzer-add-cores"@).push(free_cores_arg(total, st3)),
                    assigned: total,
                    ..st3
                }
            } else {
                st3
            }
        }
    }
}

/// A honggfuzz instance; all remaining cores (which are then taken) when
/// neither AFL++ nor libFuzzer is configured.
pub open spec fn honggfuzz_step(config: ProjectConfig, total: int, st: LaunchState) -> LaunchState {
    let (st1, ok) = try_add(config, total, st, FuzzEngine::HonggFuzz, Sanitizer::NoSanitizer);
    if ok && !config_has_engine(config, FuzzEngine::AflPlusPlus) && !config_has_engine(
        config,
        FuzzEngine::LibFuzzer,
    ) && st1.assigned < total {
        LaunchState {
            args: st1.args.push("--honggfuzz-add-cores"@).push(free_cores_arg(total, st1)),
            assigned: total,
            ..st1
        }
    } else {
        st1
    }
}

/// A Nyx instance alone, or a plain AFL++ instance with its sanitizer
/// instances; either occupies the remaining cores.
pub open spec fn aflpp_step(config: ProjectConfig, total: int, st: LaunchState) -> LaunchState {
    let (st1, nyx) = try_add(
        config,
        total,
        st,
        FuzzEngine::AflPlusPlusNyx,
        Sanitizer::Address,
    );
    if nyx {
        LaunchState { args: st1.args.push("--aflpp-nyx"@).push("--aflpp-occupy"@), ..st1 }
    } else {
        let (st2, ok) = try_add(config, total, st1, FuzzEngine::AflPlusPlus, Sanitizer::NoSanitizer);
        if !ok {
            st2
        } else {
            let st3 = try_add_each(
                config,
                total,
                st2,
                FuzzEngine::AflPlusPlus,
                seq![
                    Sanitizer::CmpLog,
                    Sanitizer::Address,
                    Sanitizer::Undefined,
                    Sanitizer::Memory,
                    Sanitizer::Thread,
                ],
            );
            LaunchState { args: st3.args.push("--aflpp-occupy"@), ..st3 }
        }
    }
}

/// The fuzz instances chosen for a harness and the cores they take.
pub struct FuzzerConfiguration {
    config: ProjectConfig,
    harness_config: HarnessConfig,
    total_cores: usize,
    supported_fuzzers: Vec<(FuzzEngine, Sanitizer)>,
    cores_assigned: usize,
    extra_args: Vec<String>,
}


impl FuzzerConfiguration {
    /// The assignment so far.
    pub closed spec fn state(&self) -> LaunchState {
        LaunchState {
            fuzzers: self.supported_fuzzers@,
            assigned: self.cores_assigned as int,
            args: strings_view(self.extra_args@),
        }
    }

    /// The project configuration.
    pub closed spec fn project(&self) -> ProjectConfig {
        self.config
    }

    /// Number of cores of the machine.
    pub closed spec fn total(&self) -> int {
        self.total_cores as int
    }

    /// The harness configuration.
    pub closed spec fn harness(&self) -> HarnessConfig {
        self.harness_config
    }

    /// No more cores are taken than the machine has, every instance takes a
    /// core, and every instance's engine and sanitizer were built.
    pub open spec fn wf(&self) -> bool {
        &&& self.state().fuzzers.len() <= self.state().assigned <= self.total()
        &&& forall|i: int|
            0 <= i < self.state().fuzzers.len() ==> config_has_engine(
                self.project(),
                (#[trigger] self.state().fuzzers[i]).0,
            ) && config_has_sanitizer(self.project(), self.state().fuzzers[i].1)
    }

    /// Every instance can be handed to the ensembler.
    pub open spec fn all_launchable(&self) -> bool {
        forall|i: int|
            0 <= i < self.state().fuzzers.len() ==> launchable(
                (#[trigger] self.state().fuzzers[i]).0,
                self.state().fuzzers[i].1,
            )
    }

    /// A configuration for a machine with `total_cores` cores and no
    /// instance yet.
    pub fn with_total_cores(config: ProjectConfig, harness_config: HarnessConfig, total_cores: usize) -> (r: Self)
        ensures
            r.wf(),
            r.all_launchable(),
            r.project() == config,
            r.harness() == harness_config,
            r.total() == total_cores,
            r.state() == (LaunchState { fuzzers: seq![], assigned: 0, args: seq![] }),
    {
        let r = FuzzerConfiguration {
            config,
            harness_config,
            total_cores,
            supported_fuzzers: Vec::new(),
            cores_assigned: 0,
            extra_args: Vec::new(),
        };
        assert(strings_view(r.extra_args@) =~= seq![]);
        assert(r.state() =~= (LaunchState { fuzzers: seq![], assigned: 0, args: seq![] }));
        r
    }

    /// A configuration for all the cores of this machine.
    pub fn new(config: ProjectConfig, harness_config: HarnessConfig) -> (r: Self)
        ensures
            r.wf(),
            r.all_launchable(),
            r.project() == config,
            r.harness() == harness_config,
            r.total() >= 1,
            r.state() == (LaunchState { fuzzers: seq![], assigned: 0, args: seq![] }),
    {
        let total = available_cpus();
        Self::with_total_cores(config, harness_config, total)
    }

    /// Whether a core is free.
    pub fn has_available_cores(&self) -> (r: bool)
        ensures
            r == (self.state().assigned < self.total()),
    {
        self.total_cores > self.cores_assigned
    }

    /// The instances chosen, in order.
    pub fn supported_fuzzers(&self) -> (r: &Vec<(FuzzEngine, Sanitizer)>)
        ensures
            r@ == self.state().fuzzers,
    {
        &self.supported_fuzzers
    }

    /// The extra ensembler arguments.
    pub fn extra_args(&self) -> (r: &Vec<String>)
        ensures
            strings_view(r@) == self.state().args,
    {
        &self.extra_args
    }

    /// The number of cores taken.
    pub fn cores_assigned(&self) -> (r: usize)
        ensures
            r == self.state().assigned,
    {
        self.cores_assigned
    }

    /// The number of cores of the machine.
    pub fn total_cores(&self) -> (r: usize)
        ensures
            r == self.total(),
    {
        self.total_cores
    }

    /// Adds an instance for `engine` and `sanitizer` when a core is free and
    /// the project was built for both; says whether it did.
    pub fn try_add_fuzzer(&mut self, engine: FuzzEngine, sanitizer: Sanitizer) -> (r: bool)
        requires
            old(self).wf(),
        ensures
            final(self).wf(),
            (final(self).state(), r) == try_add(
                old(self).project(),
                old(self).total(),
                old(self).state(),
                engine,
                sanitizer,
            ),
            final(self).project() == old(self).project(),
            final(self).total() == old(self).total(),
            final(self).harness() == old(self).harness(),
            old(self).all_launchable() && launchable(engine, sanitizer) ==> final(self).all_launchable(),
    {
        if self.has_available_cores() && self.config.has_engine(&engine) && self.config.has_sanitizer(
            &sanitizer,
        ) {
            let ghost old_state = self.state();
            self.supported_fuzzers.push((engine, sanitizer));
            self.cores_assigned = self.cores_assigned + 1;
            assert(self.state() =~= LaunchState {
                fuzzers: old_state.fuzzers.push((engine, sanitizer)),
                assigned: old_state.assigned + 1,
                ..old_state
            });
            true
        } else {
            false
        }
    }

    /// Appends an extra ensembler argument.
    fn push_arg(&mut self, a: String)
        requires
            old(self).wf(),
        ensures
            final(self).wf(),
            final(self).state() == (LaunchState { args: old(self).state().args.push(a@), ..old(self).state() }),
            final(self).project() == old(self).project(),
            final(self).total() == old(self).total(),
            final(self).harness() == old(self).harness(),
            old(self).all_launchable() ==> final(self).all_launchable(),
    {
        let ghost old_state = self.state();
        self.extra_args.push(a);
        assert(strings_view(self.extra_args@) =~= old_state.args.push(a@));
        assert(self.state() =~= (LaunchState { args: old_state.args.push(a@), ..old_state }));
    }

    /// Lets Native Go take all cores when the project has it.
    pub fn configure_native_go(&mut self)
        requires
            old(self).wf(),
        ensures
            final(self).wf(),
            final(self).state() == native_go_step(old(self).project(), old(self).total(), old(self).state()),
            final(self).project() == old(self).project(),
            final(self).total() == old(self).total(),
            final(self).harness() == old(self).harness(),
            old(self).all_launchable() ==> final(self).all_launchable(),
    {
        if self.try_add_fuzzer(FuzzEngine::NativeGo, Sanitizer::NoSanitizer) {
            self.cores_assigned = self.total_cores;
        }
    }

    /// Adds a primary SemSan instance, then one per SemSan build.
    pub fn configure_semsan(&mut self)
        requires
            old(self).wf(),
        ensures
            final(self).wf(),
            final(self).state() == semsan_step(old(self).project(), old(self).total(), old(self).state()),
            final(self).project() == old(self).project(),
            final(self).total() == old(self).total(),
            final(self).harness() == old(self).harness(),
            old(self).all_launchable() ==> final(self).all_launchable(),
    {
        let builds = self.semsan_builds();
        if self.try_add_fuzzer(FuzzEngine::SemSan, Sanitizer::NoSanitizer) {
            let ghost st1 = self.state();
            let mut i: usize = 0;
            while i < builds.len()
                invariant
                    self.wf(),
                    i <= builds@.len(),
                    self.project() == old(self).project(),
                    self.total() == old(self).total(),
                    self.harness() == old(self).harness(),
                    self.state() == try_add_each(
                        self.project(),
                        self.total(),
                        st1,
                        FuzzEngine::SemSan,
                        builds@.subrange(0, i as int),
                    ),
                    forall|j: int| 0 <= j < builds@.len() ==> (#[trigger] builds@[j]) is SemSan,
                    old(self).all_launchable() ==> self.all_launchable(),
                decreases builds@.len() - i,
            {
                let s = builds[i];
                proof {
                    assert(builds@.subrange(0, i + 1).drop_last() =~= builds@.subrange(0, i as int));
                    assert(builds@[i as int] is SemSan);
                }
                self.try_add_fuzzer(FuzzEngine::SemSan, s);
                i = i + 1;
            }
            assert(builds@.subrange(0, i as int) =~= builds@);
        }
    }

    /// The SemSan builds among the project's sanitizers.
    fn semsan_builds(&self) -> (r: Vec<Sanitizer>)
        ensures
            r@ == match self.project().sanitizers {
                Some(v) => semsan_only(v@),
                None => seq![],
            },
            forall|j: int| 0 <= j < r@.len() ==> (#[trigger] r@[j]) is SemSan,
    {
        let mut r: Vec<Sanitizer> = Vec::new();
        match &self.config.sanitizers {
            Some(v) => {
                let mut i: usize = 0;
                while i < v.len()
                    invariant
                        i <= v@.len(),
                        r@ == semsan_only(v@.subrange(0, i as int)),
                        forall|j: int| 0 <= j < r@.len() ==> (#[trigger] r@[j]) is SemSan,
                    decreases v@.len() - i,
                {
                    let s = v[i];
                    proof {
                        assert(v@.subrange(0, i + 1).drop_last() =~= v@.subrange(0, i as int));
                    }
                    match s {
                        Sanitizer::SemSan(_) => r.push(s),
                        _ => {},
                    }
                    i = i + 1;
                }
                assert(v@.subrange(0, i as int) =~= v@);
            },
            None => {},
        }
        r
    }

    /// Adds the libFuzzer instances.
    pub fn configure_libfuzzer(&mut self)
        requires
            old(self).wf(),
        ensures
            final(self).wf(),
            final(self).state() == libfuzzer_step(old(self).project(), old(self).total(), old(self).state()),
            old(self).state().assigned < old(self).total() && config_has_engine(old(self).project(), FuzzEngine::LibFuzzer)
                && config_has_sanitizer(old(self).project(), Sanitizer::NoSanitizer) && !config_has_engine(
                old(self).project(),
                FuzzEngine::AflPlusPlus,
            ) ==> final(self).state().assigned == final(self).total(),
            final(self).project() == old(self).project(),
            final(self).total() == old(self).total(),
            final(self).harness() == old(self).harness(),
            old(self).all_launchable() ==> final(self).all_launchable(),
    {
        if !self.try_add_fuzzer(FuzzEngine::LibFuzzer, Sanitizer::NoSanitizer) {
            return;
        }
        if self.config.has_sanitizer(&Sanitizer::ValueProfile) && self.has_available_cores() {
            self.push_arg("--libfuzzer-value-profile".to_owned());
            self.cores_assigned = self.cores_assigned + 1;
        }
        if !self.config.has_engine(&FuzzEngine::AflPlusPlus) {
            // Sanitizer instances only when AFL++ is not present.
            let ghost st2 = self.state();
            self.try_add_fuzzer(FuzzEngine::LibFuzzer, Sanitizer::Address);
            self.try_add_fuzzer(FuzzEngine::LibFuzzer, Sanitizer::Undefined);
            self.try_add_fuzzer(FuzzEngine::LibFuzzer, Sanitizer::Memory);
            self.try_add_fuzzer(FuzzEngine::LibFuzzer, Sanitizer::Thread);
            proof {
                let l = seq![Sanitizer::Address, Sanitizer::Undefined, Sanitizer::Memory, Sanitizer::Thread];
                assert(l.drop_last().drop_last().drop_last().drop_last() =~= seq![]);
                assert(l.drop_last().drop_last().drop_last() =~= seq![Sanitizer::Address]);
                assert(l.drop_last().drop_last() =~= seq![Sanitizer::Address, Sanitizer::Undefined]);
                assert(l.drop_last() =~= seq![Sanitizer::Address, Sanitizer::Undefined, Sanitizer::Memory]);
                reveal_with_fuel(try_add_each, 5);
            }
            // The remaining cores go to libFuzzer.
            if self.has_available_cores() {
                self.push_arg("--libfuzzer-add-cores".to_owned());
                self.push_arg(decimal((self.total_cores - self.cores_assigned) as u64));
                self.cores_assigned = self.total_cores;
            }
        }
    }

    /// Adds the honggfuzz instance.
    pub fn configure_honggfuzz(&mut self)
        requires
            old(self).wf(),
        ensures
            final(self).wf(),
            final(self).state() == honggfuzz_step(old(self).project(), old(self).total(), old(self).state()),
            old(self).state().assigned < old(self).total() && config_has_engine(old(self).project(), FuzzEngine::HonggFuzz)
                && config_has_sanitizer(old(self).project(), Sanitizer::NoSanitizer) && !config_has_engine(
                old(self).project(),
                FuzzEngine::AflPlusPlus,
            ) && !config_has_engine(old(self).project(), FuzzEngine::LibFuzzer) ==> final(self).state().assigned
                == final(self).total(),
            final(self).project() == old(self).project(),
            final(self).total() == old(self).total(),
            final(self).harness() == old(self).harness(),
            old(self).all_launchable() ==> final(self).all_launchable(),
    {
        if !self.try_add_fuzzer(FuzzEngine::HonggFuzz, Sanitizer::NoSanitizer) {
            return;
        }
        if !self.config.has_engine(&FuzzEngine::AflPlusPlus) && !self.config.has_engine(
            &FuzzEngine::LibFuzzer,
        ) {
            // The remaining cores go to honggfuzz when neither AFL++ nor
            // libFuzzer runs.
            if self.has_available_cores() {
                self.push_arg("--honggfuzz-add-cores".to_owned());
                self.push_arg(decimal((self.total_cores - self.cores_assigned) as u64));
                self.cores_assigned = self.total_cores;
            }
        }
    }

    /// Adds the AFL++ instances.
    pub fn configure_aflplusplus(&mut self)
        requires
            old(self).wf(),
        ensures
            final(self).wf(),
            final(self).state() == aflpp_step(old(self).project(), old(self).total(), old(self).state()),
            final(self).project() == old(self).project(),
            final(self).total() == old(self).total(),
            final(self).harness() == old(self).harness(),
            old(self).all_launchable() ==> final(self).all_launchable(),
            !(config_has_engine(old(self).project(), FuzzEngine::AflPlusPlusNyx) && config_has_sanitizer(
                old(self).project(),
                Sanitizer::Address,
            )) && config_has_engine(old(self).project(), FuzzEngine::AflPlusPlus) && config_has_sanitizer(
                old(self).project(),
                Sanitizer::NoSanitizer,
            ) && old(self).state().assigned + 6 <= old(self).total() ==> {
                &&& final(self).state().fuzzers.contains((FuzzEngine::AflPlusPlus, Sanitizer::NoSanitizer))
                &&& forall|s: Sanitizer|
                    (s == Sanitizer::CmpLog || s == Sanitizer::Address || s == Sanitizer::Undefined || s
                        == Sanitizer::Memory || s == Sanitizer::Thread) && #[trigger] config_has_sanitizer(
                        old(self).project(),
                        s,
                    ) ==> final(self).state().fuzzers.contains((FuzzEngine::AflPlusPlus, s))
            },
    {
        let ghost start = *self;
        if self.try_add_fuzzer(FuzzEngine::AflPlusPlusNyx, Sanitizer::Address) {
            self.push_arg("--aflpp-nyx".to_owned());
            self.push_arg("--aflpp-occupy".to_owned());
            return;
        }
        if !self.try_add_fuzzer(FuzzEngine::AflPlusPlus, Sanitizer::NoSanitizer) {
            return;
        }
        self.try_add_fuzzer(FuzzEngine::AflPlusPlus, Sanitizer::CmpLog);
        self.try_add_fuzzer(FuzzEngine::AflPlusPlus, Sanitizer::Address);
        self.try_add_fuzzer(FuzzEngine::AflPlusPlus, Sanitizer::Undefined);
        self.try_add_fuzzer(FuzzEngine::AflPlusPlus, Sanitizer::Memory);
        self.try_add_fuzzer(FuzzEngine::AflPlusPlus, Sanitizer::Thread);
        proof {
            let l = seq![
                Sanitizer::CmpLog,
                Sanitizer::Address,
                Sanitizer::Undefined,
                Sanitizer::Memory,
                Sanitizer::Thread,
            ];
            assert(l.drop_last().drop_last().drop_last().drop_last().drop_last() =~= seq![]);
            assert(l.drop_last().drop_last().drop_last().drop_last() =~= seq![Sanitizer::CmpLog]);
            assert(l.drop_last().drop_last().drop_last() =~= seq![Sanitizer::CmpLog, Sanitizer::Address]);
            assert(l.drop_last().drop_last() =~= seq![Sanitizer::CmpLog, Sanitizer::Address, Sanitizer::Undefined]);
            assert(l.drop_last() =~= seq![Sanitizer::CmpLog, Sanitizer::Address, Sanitizer::Undefined, Sanitizer::Memory]);
            reveal_with_fuel(try_add_each, 6);
        }
        self.push_arg("--aflpp-occupy".to_owned());
        proof {
            if !(config_has_engine(start.project(), FuzzEngine::AflPlusPlusNyx) && config_has_sanitizer(
                start.project(),
                Sanitizer::Address,
            )) && config_has_engine(start.project(), FuzzEngine::AflPlusPlus) && config_has_sanitizer(
                start.project(),
                Sanitizer::NoSanitizer,
            ) && start.state().assigned + 6 <= start.total() {
                lemma_aflpp_sanitizer_instances(start.project(), start.total(), start.state(), Sanitizer::NoSanitizer);
                assert forall|s: Sanitizer|
                    (s == Sanitizer::CmpLog || s == Sanitizer::Address || s == Sanitizer::Undefined || s
                        == Sanitizer::Memory || s == Sanitizer::Thread) && #[trigger] config_has_sanitizer(
                        start.project(),
                        s,
                    ) implies self.state().fuzzers.contains((FuzzEngine::AflPlusPlus, s)) by {
                    lemma_aflpp_sanitizer_instances(start.project(), start.total(), start.state(), s);
                }
            }
        }
    }
}


/// The ensembler's name for an engine's flags.
pub open spec fn engine_flag_name(e: FuzzEngine) -> Seq<char> {
    match e {
        FuzzEngine::LibFuzzer => "libfuzzer"@,
        FuzzEngine::AflPlusPlus => "aflpp"@,
        FuzzEngine::AflPlusPlusNyx => "aflpp"@,
        FuzzEngine::HonggFuzz => "honggfuzz"@,
        FuzzEngine::SemSan => "semsan"@,
        FuzzEngine::NativeGo => "native-go"@,
        FuzzEngine::NoEngine => seq![],
    }
}

/// The ensembler's name for a sanitizer's binary flag; none for plain
/// builds, and none for the address sanitizer of a Nyx project, whose
/// shared directory serves as the plain binary.
pub open spec fn sanitizer_flag_name(s: Sanitizer, config: ProjectConfig) -> Option<Seq<char>> {
    match s {
        Sanitizer::NoSanitizer | Sanitizer::Coverage | Sanitizer::ValueProfile => None,
        Sanitizer::Address => if config_has_engine(config, FuzzEngine::AflPlusPlusNyx) {
            None
        } else {
            Some("asan"@)
        },
        Sanitizer::Undefined => Some("ubsan"@),
        Sanitizer::Memory => Some("msan"@),
        Sanitizer::Thread => Some("tsan"@),
        Sanitizer::CmpLog => Some("cmplog"@),
        Sanitizer::SemSan(_) => Some("secondary"@),
    }
}

/// `--<engine>-binary` or `--<engine>-<sanitizer>-binary`.
pub open spec fn binary_flag(e: FuzzEngine, s: Sanitizer, config: ProjectConfig) -> Seq<char> {
    match sanitizer_flag_name(s, config) {
        None => "--"@ + engine_flag_name(e) + "-binary"@,
        Some(x) => "--"@ + engine_flag_name(e) + "-"@ + x + "-binary"@,
    }
}

fn engine_flag(engine: FuzzEngine) -> (r: String)
    requires
        engine != FuzzEngine::NoEngine,
    ensures
        r@ == engine_flag_name(engine),
{
    match engine {
        FuzzEngine::LibFuzzer => "libfuzzer".to_owned(),
        FuzzEngine::AflPlusPlus | FuzzEngine::AflPlusPlusNyx => "aflpp".to_owned(),
        FuzzEngine::HonggFuzz => "honggfuzz".to_owned(),
        FuzzEngine::SemSan => "semsan".to_owned(),
        FuzzEngine::NativeGo => "native-go".to_owned(),
        FuzzEngine::NoEngine => "".to_owned(),
    }
}

fn sanitizer_flag(sanitizer: Sanitizer, config: &ProjectConfig) -> (r: Option<String>)
    ensures
        match r {
            Some(x) => sanitizer_flag_name(sanitizer, *config) == Some(x@),
            None => sanitizer_flag_name(sanitizer, *config) is None,
        },
{
    match sanitizer {
        Sanitizer::NoSanitizer | Sanitizer::Coverage | Sanitizer::ValueProfile => None,
        Sanitizer::Address => if config.has_engine(&FuzzEngine::AflPlusPlusNyx) {
            None
        } else {
            Some("asan".to_owned())
        },
        Sanitizer::Undefined => Some("ubsan".to_owned()),
        Sanitizer::Memory => Some("msan".to_owned()),
        Sanitizer::Thread => Some("tsan".to_owned()),
        Sanitizer::CmpLog => Some("cmplog".to_owned()),
        Sanitizer::SemSan(_) => Some("secondary".to_owned()),
    }
}

/// The ensembler flag that names the binary of an instance.
pub fn fuzzer_flag(engine: FuzzEngine, sanitizer: Sanitizer, config: &ProjectConfig) -> (r: String)
    requires
        engine != FuzzEngine::NoEngine,
    ensures
        r@ == binary_flag(engine, sanitizer, *config),
{
    let e = engine_flag(engine);
    let mut r = concat("--", e.as_str());
    match sanitizer_flag(sanitizer, config) {
        None => {
            crate::text::push_str(&mut r, "-binary");
        },
        Some(x) => {
            crate::text::push_str(&mut r, "-");
            crate::text::push_str(&mut r, x.as_str());
            crate::text::push_str(&mut r, "-binary");
        },
    }
    r
}

/// Appends the flag and the binary path of an instance to `args`.
pub fn add_fuzzer(
    engine: FuzzEngine,
    sanitizer: Sanitizer,
    args: &mut Vec<String>,
    harness: &str,
    config: &ProjectConfig,
)
    requires
        engine != FuzzEngine::NoEngine,
        harness_binary(engine, sanitizer, harness@, *config) is Some,
    ensures
        strings_view(final(args)@) == strings_view(old(args)@).push(binary_flag(engine, sanitizer, *config)).push(
            harness_binary(engine, sanitizer, harness@, *config).unwrap(),
        ),
{
    let flag = fuzzer_flag(engine, sanitizer, config);
    let bin = match get_harness_binary(&engine, &sanitizer, harness, config) {
        Some(b) => b,
        None => "".to_owned(),
    };
    args.push(flag);
    args.push(bin);
    assert(strings_view(args@) =~= strings_view(old(args)@).push(binary_flag(engine, sanitizer, *config)).push(
        harness_binary(engine, sanitizer, harness@, *config).unwrap(),
    ));
}

/// The flags and binaries of all instances, in order.
pub open spec fn instance_args(fuzzers: Seq<(FuzzEngine, Sanitizer)>, harness: Seq<char>, config: ProjectConfig) -> Seq<Seq<char>>
    decreases fuzzers.len(),
{
    if fuzzers.len() == 0 {
        seq![]
    } else {
        let (e, s) = fuzzers.last();
        instance_args(fuzzers.drop_last(), harness, config).push(binary_flag(e, s, config)).push(
            harness_binary(e, s, harness, config).unwrap(),
        )
    }
}

/// The ensembler's command line: the instances, the extra arguments, the
/// dictionary if any, the duration and the workspace.
pub open spec fn ensemble_command(
    st: LaunchState,
    config: ProjectConfig,
    dictionary: Option<String>,
    harness: Seq<char>,
    max_duration_secs: u64,
    workspace: Seq<char>,
) -> Seq<Seq<char>> {
    instance_args(st.fuzzers, harness, config) + st.args + (match dictionary {
        Some(d) => seq!["--dictionary"@, d@],
        None => seq![],
    }) + seq!["--max-duration"@, dec_str(max_duration_secs as nat), "--workspace"@, workspace]
}

/// Sanitizer runtime options for every instance.
pub fn sanitizer_options_env() -> (r: EnvVars)
    ensures
        r@ == Map::<Seq<char>, Seq<char>>::empty().insert(
            "ASAN_OPTIONS"@,
            "strict_string_checks=1:detect_invalid_pointer_pairs=2:detect_stack_use_after_return=1:check_initialization_order=1:strict_init_order=1:abort_on_error=1:symbolize=0"@,
        ).insert(
            "TSAN_OPTIONS"@,
            "suppressions=/workdir/tsan_suppressions:halt_on_error=1:abort_on_error=1"@,
        ),
{
    let mut r = EnvVars::new();
    r.insert(
        "ASAN_OPTIONS".to_owned(),
        "strict_string_checks=1:detect_invalid_pointer_pairs=2:detect_stack_use_after_return=1:check_initialization_order=1:strict_init_order=1:abort_on_error=1:symbolize=0".to_owned(),
    );
    r.insert(
        "TSAN_OPTIONS".to_owned(),
        "suppressions=/workdir/tsan_suppressions:halt_on_error=1:abort_on_error=1".to_owned(),
    );
    r
}

impl FuzzerConfiguration {
    /// The arguments of the ensembler for `harness`, fuzzing for
    /// `max_duration_secs` seconds in `workspace`.
    pub fn ensemble_args(&self, harness: &str, max_duration_secs: u64, workspace: &str) -> (r: Vec<String>)
        requires
            self.wf(),
            self.all_launchable(),
        ensures
            strings_view(r@) == ensemble_command(
                self.state(),
                self.project(),
                self.harness().dictionary,
                harness@,
                max_duration_secs,
                workspace@,
            ),
    {
        let mut args: Vec<String> = Vec::new();
        let mut i: usize = 0;
        while i < self.supported_fuzzers.len()
            invariant
                self.wf(),
                self.all_launchable(),
                i <= self.supported_fuzzers@.len(),
                strings_view(args@) == instance_args(
                    self.supported_fuzzers@.subrange(0, i as int),
                    harness@,
                    self.config,
                ),
            decreases self.supported_fuzzers@.len() - i,
        {
            let (e, s) = self.supported_fuzzers[i];
            proof {
                assert(self.state().fuzzers[i as int] == (e, s));
                assert(launchable(e, s));
                let sub = self.supported_fuzzers@.subrange(0, i + 1);
                assert(sub.drop_last() =~= self.supported_fuzzers@.subrange(0, i as int));
                assert(sub.last() == (e, s));
            }
            add_fuzzer(e, s, &mut args, harness, &self.config);
            i = i + 1;
        }
        assert(self.supported_fuzzers@.subrange(0, i as int) =~= self.supported_fuzzers@);
        let ghost before_extra = strings_view(args@);
        let mut j: usize = 0;
        while j < self.extra_args.len()
            invariant
                j <= self.extra_args@.len(),
                strings_view(args@) == before_extra + strings_view(self.extra_args@).subrange(0, j as int),
            decreases self.extra_args@.len() - j,
        {
            let x = self.extra_args[j].clone();
            let ghost a0 = args@;
            args.push(x);
            proof {
                assert(strings_view(args@) =~= strings_view(a0).push(x@));
                assert(x@ == strings_view(self.extra_args@)[j as int]);
                assert(strings_view(self.extra_args@).subrange(0, j + 1) =~= strings_view(
                    self.extra_args@,
                ).subrange(0, j as int).push(x@));
            }
            j = j + 1;
            assert(strings_view(args@) =~= before_extra + strings_view(self.extra_args@).subrange(0, j as int));
        }
        assert(strings_view(self.extra_args@).subrange(0, j as int) =~= strings_view(self.extra_args@));
        let ghost before_dict = strings_view(args@);
        match &self.harness_config.dictionary {
            Some(d) => {
                args.push("--dictionary".to_owned());
                args.push(d.clone());
            },
            None => {},
        }
        args.push("--max-duration".to_owned());
        args.push(decimal(max_duration_secs));
        args.push("--workspace".to_owned());
        args.push(workspace.to_owned());
        proof {
            let dict_part: Seq<Seq<char>> = match &self.harness_config.dictionary {
                Some(d) => seq!["--dictionary"@, d@],
                None => seq![],
            };
            assert(strings_view(args@) =~= before_dict + dict_part + seq![
                "--max-duration"@,
                dec_str(max_duration_secs as nat),
                "--workspace"@,
                workspace@,
            ]);
        }
        args
    }
}

} // verus!

verus! {

/// Trying each sanitizer of `list` for an engine the project has, with a
/// core free for each, adds every one the project was built for, keeps the
/// instances already there, and takes no more than one core for each.
pub proof fn lemma_try_add_each_adds(
    config: ProjectConfig,
    total: int,
    st: LaunchState,
    e: FuzzEngine,
    list: Seq<Sanitizer>,
)
    requires
        config_has_engine(config, e),
        st.assigned + list.len() <= total,
    ensures
        try_add_each(config, total, st, e, list).assigned <= st.assigned + list.len(),
        forall|x: (FuzzEngine, Sanitizer)|
            st.fuzzers.contains(x) ==> #[trigger] try_add_each(config, total, st, e, list).fuzzers.contains(x),
        forall|i: int|
            0 <= i < list.len() && config_has_sanitizer(config, #[trigger] list[i]) ==> try_add_each(
                config,
                total,
                st,
                e,
                list,
            ).fuzzers.contains((e, list[i])),
    decreases list.len(),
{
    if list.len() > 0 {
        let prev = list.drop_last();
        lemma_try_add_each_adds(config, total, st, e, prev);
        let mid = try_add_each(config, total, st, e, prev);
        let r = try_add_each(config, total, st, e, list);
        assert(r == try_add(config, total, mid, e, list.last()).0);
        assert(forall|x: (FuzzEngine, Sanitizer)| mid.fuzzers.contains(x) ==> r.fuzzers.contains(x)) by {
            assert forall|x: (FuzzEngine, Sanitizer)| mid.fuzzers.contains(x) implies r.fuzzers.contains(x) by {
                let k = choose|k: int| 0 <= k < mid.fuzzers.len() && mid.fuzzers[k] == x;
                if r.fuzzers != mid.fuzzers {
                    assert(r.fuzzers == mid.fuzzers.push((e, list.last())));
                    assert(r.fuzzers[k] == x);
                }
            }
        }
        assert forall|i: int|
            0 <= i < list.len() && config_has_sanitizer(config, #[trigger] list[i]) implies r.fuzzers.contains(
            (e, list[i]),
        ) by {
            if i < list.len() - 1 {
                assert(prev[i] == list[i]);
                assert(mid.fuzzers.contains((e, prev[i])));
            } else {
                assert(r.fuzzers == mid.fuzzers.push((e, list.last())));
                assert(r.fuzzers[mid.fuzzers.len() as int] == (e, list[i]));
            }
        }
    }
}

/// A project built for AFL++ (and not for AFL++ Nyx with ASan) on a machine
/// with enough free cores gets a plain AFL++ instance and one AFL++ instance
/// for each of CmpLog, ASan, UBSan, MSan and TSan that it was built for.
pub proof fn lemma_aflpp_sanitizer_instances(config: ProjectConfig, total: int, st: LaunchState, s: Sanitizer)
    requires
        !(config_has_engine(config, FuzzEngine::AflPlusPlusNyx) && config_has_sanitizer(config, Sanitizer::Address)),
        config_has_engine(config, FuzzEngine::AflPlusPlus),
        config_has_sanitizer(config, Sanitizer::NoSanitizer),
        st.assigned + 6 <= total,
    ensures
        aflpp_step(config, total, st).fuzzers.contains((FuzzEngine::AflPlusPlus, Sanitizer::NoSanitizer)),
        (s == Sanitizer::CmpLog || s == Sanitizer::Address || s == Sanitizer::Undefined || s == Sanitizer::Memory
            || s == Sanitizer::Thread) && config_has_sanitizer(config, s) ==> aflpp_step(
            config,
            total,
            st,
        ).fuzzers.contains((FuzzEngine::AflPlusPlus, s)),
{
    let st2 = try_add(config, total, st, FuzzEngine::AflPlusPlus, Sanitizer::NoSanitizer).0;
    let l = seq![Sanitizer::CmpLog, Sanitizer::Address, Sanitizer::Undefined, Sanitizer::Memory, Sanitizer::Thread];
    assert(st2.fuzzers == st.fuzzers.push((FuzzEngine::AflPlusPlus, Sanitizer::NoSanitizer)));
    assert(st2.fuzzers[st.fuzzers.len() as int] == (FuzzEngine::AflPlusPlus, Sanitizer::NoSanitizer));
    lemma_try_add_each_adds(config, total, st2, FuzzEngine::AflPlusPlus, l);
    let st3 = try_add_each(config, total, st2, FuzzEngine::AflPlusPlus, l);
    assert(aflpp_step(config, total, st).fuzzers == st3.fuzzers);
    assert(st3.fuzzers.contains((FuzzEngine::AflPlusPlus, Sanitizer::NoSanitizer)));
    if s == Sanitizer::CmpLog {
        assert(l[0] == s);
    } else if s == Sanitizer::Address {
        assert(l[1] == s);
    } else if s == Sanitizer::Undefined {
        assert(l[2] == s);
    } else if s == Sanitizer::Memory {
        assert(l[3] == s);
    } else if s == Sanitizer::Thread {
        assert(l[4] == s);
    }
}

} // verus!
