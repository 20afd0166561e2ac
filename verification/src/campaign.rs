//! The decisions of a fuzzing campaign: its states, when stats are reported,
//! when the campaign ends, which known solutions are resolved, and what is
//! collected when it quits. The campaign's driver performs the outside work
//! (fuzzing environment, solution tracker, events) and hands back what came
//! of it.

use vstd::prelude::*;

use crate::types::{CampaignStartupParams, FuzzEngine, FuzzerStats, ProjectConfig, Sanitizer};
use crate::text::eq_str;

verus! {

/// Possible states of a campaign.
#[derive(Clone, Copy, Debug, PartialEq, Eq, Structural)]
pub enum CampaignState {
    /// Campaign has been scheduled but has not started fuzzing yet.
    Scheduled,
    /// Campaign is currently fuzzing.
    Fuzzing,
    /// Campaign has completed.
    Ended,
}

/// The position of a state in the campaign's life.
pub open spec fn rank(s: CampaignState) -> int {
    match s {
        CampaignState::Scheduled => 0,
        CampaignState::Fuzzing => 1,
        CampaignState::Ended => 2,
    }
}

/// A transition the campaign expects: from scheduled to fuzzing, or from any
/// state to ended.
pub open spec fn valid_transition(from: CampaignState, to: CampaignState) -> bool {
    (from == CampaignState::Scheduled && to == CampaignState::Fuzzing) || to == CampaignState::Ended
}

/// Whether the transition is one the campaign expects.
pub fn transition_is_valid(from: CampaignState, to: CampaignState) -> (r: bool)
    ensures
        r == valid_transition(from, to),
{
    match (from, to) {
        (CampaignState::Scheduled, CampaignState::Fuzzing) => true,
        (_, CampaignState::Ended) => true,
        _ => false,
    }
}

/// What to do with a batch of stats.
pub struct StatsPlan {
    /// The campaign moved from scheduled to fuzzing.
    pub started: bool,
    /// The stats are to be reported.
    pub report: bool,
    /// Instances failed to start: keep the environment and end.
    pub preserve: bool,
    /// The state the campaign left when it ended here (none when it had
    /// already ended, as nothing changed).
    pub failed_from: Option<CampaignState>,
    /// The stats show solutions, which are to be downloaded.
    pub fetch_solutions: bool,
}

/// What the downloaded solutions show against the stats.
pub struct SolutionsCheck {
    /// Hangs the stats counted that did not reproduce.
    pub unreproduced_hangs: u64,
    /// The stats counted crashes but none reproduced: keep the environment
    /// and end after processing.
    pub crashes_lost: bool,
}

/// The kind of a downloaded solution.
#[derive(Clone, Copy, Debug, PartialEq, Eq, Structural)]
pub enum SolutionKind {
    Crash,
    Timeout,
    Other,
}

/// Number of solutions of kind `k`.
pub open spec fn count_kind(kinds: Seq<SolutionKind>, k: SolutionKind) -> nat
    decreases kinds.len(),
{
    if kinds.len() == 0 {
        0
    } else {
        count_kind(kinds.drop_last(), k) + (if kinds.last() == k {
            1nat
        } else {
            0nat
        })
    }
}

proof fn lemma_count_kind_le(kinds: Seq<SolutionKind>, k: SolutionKind)
    ensures
        count_kind(kinds, k) <= kinds.len(),
    decreases kinds.len(),
{
    if kinds.len() > 0 {
        lemma_count_kind_le(kinds.drop_last(), k);
    }
}

/// Compares the stats with the solutions that were downloaded.
pub fn check_solutions(stats: &FuzzerStats, kinds: &Vec<SolutionKind>) -> (r: SolutionsCheck)
    ensures
        r.unreproduced_hangs == if count_kind(kinds@, SolutionKind::Timeout) < stats.saved_hangs {
            stats.saved_hangs - count_kind(kinds@, SolutionKind::Timeout)
        } else {
            0
        },
        r.crashes_lost == (stats.saved_crashes > 0 && count_kind(kinds@, SolutionKind::Crash) == 0),
{
    let mut hangs: u64 = 0;
    let mut crashes: u64 = 0;
    let mut i: usize = 0;
    while i < kinds.len()
        invariant
            i <= kinds@.len(),
            hangs == count_kind(kinds@.subrange(0, i as int), SolutionKind::Timeout),
            crashes == count_kind(kinds@.subrange(0, i as int), SolutionKind::Crash),
        decreases kinds@.len() - i,
    {
        proof {
            let sub = kinds@.subrange(0, i + 1);
            assert(sub.drop_last() =~= kinds@.subrange(0, i as int));
            lemma_count_kind_le(kinds@.subrange(0, i as int), SolutionKind::Timeout);
            lemma_count_kind_le(kinds@.subrange(0, i as int), SolutionKind::Crash);
        }
        match kinds[i] {
            SolutionKind::Timeout => hangs = hangs + 1,
            SolutionKind::Crash => crashes = crashes + 1,
            SolutionKind::Other => {},
        }
        i = i + 1;
    }
    assert(kinds@.subrange(0, i as int) =~= kinds@);
    SolutionsCheck {
        unreproduced_hangs: if hangs < stats.saved_hangs {
            stats.saved_hangs - hangs
        } else {
            0
        },
        crashes_lost: stats.saved_crashes > 0 && crashes == 0,
    }
}

/// What to collect when the campaign quits.
pub struct QuitPlan {
    /// Minimize and download the corpus.
    pub fetch_corpus: bool,
    /// Collect coverage (files, functions, report, summary).
    pub fetch_coverage: bool,
    /// Send the quit event.
    pub send_quit: bool,
}

/// The state of a campaign's decisions.
pub struct CampaignCore {
    state: CampaignState,
    last_reported_corpus: Option<u64>,
    quit: bool,
    kill: bool,
}

impl CampaignCore {
    /// The campaign's state.
    pub closed spec fn state_of(&self) -> CampaignState {
        self.state
    }

    /// The corpus size of the last stats that were reported.
    pub closed spec fn last_reported(&self) -> Option<u64> {
        self.last_reported_corpus
    }

    /// The campaign is to stop its loop.
    pub closed spec fn quitting(&self) -> bool {
        self.quit
    }

    /// The campaign is to stop without a quit event.
    pub closed spec fn killed(&self) -> bool {
        self.kill
    }

    /// A scheduled campaign that has reported nothing.
    pub fn new() -> (r: Self)
        ensures
            r.state_of() == CampaignState::Scheduled,
            r.last_reported() is None,
            !r.quitting(),
            !r.killed(),
    {
        CampaignCore { state: CampaignState::Scheduled, last_reported_corpus: None, quit: false, kill: false }
    }

    /// The campaign's state.
    pub fn state(&self) -> (r: CampaignState)
        ensures
            r == self.state_of(),
    {
        self.state
    }

    /// Whether the loop is to stop.
    pub fn is_quitting(&self) -> (r: bool)
        ensures
            r == self.quitting(),
    {
        self.quit
    }

    /// Whether the campaign was killed.
    pub fn is_killed(&self) -> (r: bool)
        ensures
            r == self.killed(),
    {
        self.kill
    }

    /// Moves to `new_state`; gives the state it left.
    fn new_state(&mut self, new_state: CampaignState) -> (prev: CampaignState)
        ensures
            prev == old(self).state_of(),
            final(self).state_of() == new_state,
            final(self).last_reported() == old(self).last_reported(),
            final(self).quitting() == old(self).quitting(),
            final(self).killed() == old(self).killed(),
    {
        let prev = self.state;
        self.state = new_state;
        prev
    }

    /// Ends the campaign; gives the state it left when that is a change.
    fn end_campaign(&mut self) -> (changed_from: Option<CampaignState>)
        ensures
            changed_from == if old(self).state_of() == CampaignState::Ended {
                None
            } else {
                Some(old(self).state_of())
            },
            final(self).state_of() == CampaignState::Ended,
            final(self).last_reported() == old(self).last_reported(),
            final(self).quitting() == old(self).quitting(),
            final(self).killed() == old(self).killed(),
    {
        let prev = self.new_state(CampaignState::Ended);
        if prev == CampaignState::Ended {
            None
        } else {
            Some(prev)
        }
    }

    /// Decides what to do with a batch of stats. `executing` says whether the
    /// fuzzers reported a positive execution rate. The campaign starts
    /// fuzzing on the first such batch; stats are reported the first time
    /// and then whenever they show solutions or a larger corpus; failed
    /// instances end the campaign; solutions are to be downloaded otherwise.
    pub fn process_stats(&mut self, executing: bool, stats: &FuzzerStats) -> (r: StatsPlan)
        ensures
            rank(final(self).state_of()) >= rank(old(self).state_of()),
            r.started == (old(self).state_of() == CampaignState::Scheduled && executing),
            r.started ==> valid_transition(CampaignState::Scheduled, CampaignState::Fuzzing),
            r.report == match old(self).last_reported() {
                None => true,
                Some(c) => stats.saved_crashes + stats.saved_hangs > 0 || stats.corpus_count > c,
            },
            final(self).last_reported() == if r.report {
                Some(stats.corpus_count)
            } else {
                old(self).last_reported()
            },
            r.preserve == (stats.failed_instances@.len() > 0),
            r.failed_from == if r.preserve && old(self).state_of() != CampaignState::Ended {
                Some(if r.started { CampaignState::Fuzzing } else { old(self).state_of() })
            } else {
                None
            },
            final(self).state_of() == if r.preserve {
                CampaignState::Ended
            } else if r.started {
                CampaignState::Fuzzing
            } else {
                old(self).state_of()
            },
            r.failed_from matches Some(p) ==> p != final(self).state_of(),
            r.fetch_solutions == (!r.preserve && stats.saved_crashes + stats.saved_hangs > 0),
            final(self).quitting() == old(self).quitting(),
            final(self).killed() == old(self).killed(),
    {
        let started = self.state == CampaignState::Scheduled && executing;
        if started {
            self.new_state(CampaignState::Fuzzing);
        }
        let found_solutions = stats.saved_crashes > 0 || stats.saved_hangs > 0;
        let report = match self.last_reported_corpus {
            None => true,
            Some(c) => found_solutions || stats.corpus_count > c,
        };
        if report {
            self.last_reported_corpus = Some(stats.corpus_count);
        }
        if stats.failed_instances.len() > 0 {
            let changed = self.end_campaign();
            return StatsPlan { started, report, preserve: true, failed_from: changed, fetch_solutions: false };
        }
        StatsPlan { started, report, preserve: false, failed_from: None, fetch_solutions: found_solutions }
    }

    /// After the downloaded solutions were submitted: any solution ends the
    /// campaign, since solutions tend to keep fuzzers from making progress.
    /// Gives the state the campaign left, when it changed.
    pub fn finish_solutions(&mut self, num_solutions: usize) -> (r: Option<CampaignState>)
        ensures
            rank(final(self).state_of()) >= rank(old(self).state_of()),
            r == if num_solutions > 0 && old(self).state_of() != CampaignState::Ended {
                Some(old(self).state_of())
            } else {
                None
            },
            final(self).state_of() == if num_solutions > 0 {
                CampaignState::Ended
            } else {
                old(self).state_of()
            },
            r matches Some(p) ==> p != final(self).state_of(),
            final(self).last_reported() == old(self).last_reported(),
            final(self).quitting() == old(self).quitting(),
            final(self).killed() == old(self).killed(),
    {
        if num_solutions > 0 {
            self.end_campaign()
        } else {
            None
        }
    }

    /// Ends the campaign (crashes that did not reproduce); gives the state it
    /// left, when it changed.
    pub fn end(&mut self) -> (r: Option<CampaignState>)
        ensures
            rank(final(self).state_of()) >= rank(old(self).state_of()),
            r == if old(self).state_of() != CampaignState::Ended {
                Some(old(self).state_of())
            } else {
                None
            },
            r matches Some(p) ==> p != final(self).state_of(),
            final(self).state_of() == CampaignState::Ended,
            final(self).last_reported() == old(self).last_reported(),
            final(self).quitting() == old(self).quitting(),
            final(self).killed() == old(self).killed(),
    {
        self.end_campaign()
    }

    /// Some known solution still reproduces: the campaign quits.
    pub fn quit_for_unresolved(&mut self)
        ensures
            rank(final(self).state_of()) >= rank(old(self).state_of()),
            final(self).quitting(),
            final(self).state_of() == old(self).state_of(),
            final(self).last_reported() == old(self).last_reported(),
            final(self).killed() == old(self).killed(),
    {
        self.quit = true;
    }

    /// A quit message arrived; `kill` (absent when the channel closed, which
    /// counts as no kill) asks to stop without a quit event.
    pub fn on_quit_message(&mut self, kill: Option<bool>)
        ensures
            rank(final(self).state_of()) >= rank(old(self).state_of()),
            final(self).quitting(),
            final(self).killed() == (kill == Some(true)),
            final(self).state_of() == old(self).state_of(),
            final(self).last_reported() == old(self).last_reported(),
    {
        self.quit = true;
        self.kill = match kill {
            Some(k) => k,
            None => false,
        };
    }

    /// The end of one loop iteration, after the environment was asked whether
    /// it is still fuzzing (`None` when it could not answer): a stopped
    /// environment ends the campaign, and an ended campaign quits. Gives the
    /// state the campaign left when it ended here.
    pub fn after_iteration(&mut self, still_fuzzing: Option<bool>) -> (r: Option<CampaignState>)
        ensures
            rank(final(self).state_of()) >= rank(old(self).state_of()),
            r == if still_fuzzing == Some(false) && old(self).state_of() != CampaignState::Ended {
                Some(old(self).state_of())
            } else {
                None
            },
            final(self).state_of() == if still_fuzzing == Some(false) {
                CampaignState::Ended
            } else {
                old(self).state_of()
            },
            r matches Some(p) ==> p != final(self).state_of(),
            final(self).quitting() == (old(self).quitting() || final(self).state_of()
                == CampaignState::Ended),
            final(self).killed() == old(self).killed(),
            final(self).last_reported() == old(self).last_reported(),
    {
        let mut r = None;
        if still_fuzzing == Some(false) {
            r = self.end_campaign();
        }
        if self.state == CampaignState::Ended {
            self.quit = true;
        }
        r
    }

    /// What to collect on quitting: the corpus when the campaign ended and
    /// was not killed, coverage too when the project measures it, and a quit
    /// event unless killed.
    pub fn quit_plan(&self, has_coverage: bool) -> (r: QuitPlan)
        ensures
            r.fetch_corpus == (self.state_of() == CampaignState::Ended && !self.killed()),
            r.fetch_coverage == (self.state_of() == CampaignState::Ended && !self.killed() && has_coverage),
            r.send_quit == !self.killed(),
    {
        let ended = self.state == CampaignState::Ended;
        QuitPlan {
            fetch_corpus: ended && !self.kill,
            fetch_coverage: ended && !self.kill && has_coverage,
            send_quit: !self.kill,
        }
    }
}

/// `s` occurs among the strings of `v`.
pub open spec fn has_id(v: Seq<String>, s: Seq<char>) -> bool {
    exists|i: int| 0 <= i < v.len() && (#[trigger] v[i])@ == s
}

fn contains_id(v: &Vec<String>, s: &String) -> (r: bool)
    ensures
        r == has_id(v@, s@),
{
    let mut i: usize = 0;
    while i < v.len()
        invariant
            i <= v@.len(),
            forall|j: int| 0 <= j < i ==> (#[trigger] v@[j])@ != s@,
        decreases v@.len() - i,
    {
        if eq_str(v[i].as_str(), s.as_str()) {
            assert((#[trigger] v@[i as int])@ == s@);
            return true;
        }
        i = i + 1;
    }
    false
}

/// How the campaign's known solutions fared when reproduced again.
pub struct KnownSolutions {
    /// Known solutions that no longer reproduce, each once, in first-seen order.
    pub resolved: Vec<String>,
    /// Some known solution still reproduces.
    pub unresolved: bool,
}

/// Sorts the known solution ids into those that no longer reproduce and
/// whether any still does.
pub fn classify_known_solutions(known: &Vec<String>, reproduced: &Vec<String>) -> (r: KnownSolutions)
    ensures
        r.unresolved == exists|i: int| 0 <= i < known@.len() && has_id(reproduced@, (#[trigger] known@[i])@),
        forall|j: int| 0 <= j < r.resolved@.len() ==> has_id(known@, (#[trigger] r.resolved@[j])@) && !has_id(reproduced@, r.resolved@[j]@),
        forall|i: int| 0 <= i < known@.len() && !has_id(reproduced@, (#[trigger] known@[i])@) ==> has_id(r.resolved@, known@[i]@),
        forall|a: int, b: int| 0 <= a < b < r.resolved@.len() ==> r.resolved@[a]@ != r.resolved@[b]@,
{
    let mut resolved: Vec<String> = Vec::new();
    let mut unresolved = false;
    let mut i: usize = 0;
    while i < known.len()
        invariant
            i <= known@.len(),
            unresolved == exists|x: int| 0 <= x < i && has_id(reproduced@, (#[trigger] known@[x])@),
            forall|j: int| 0 <= j < resolved@.len() ==> has_id(known@, (#[trigger] resolved@[j])@) && !has_id(reproduced@, resolved@[j]@),
            forall|x: int| 0 <= x < i && !has_id(reproduced@, (#[trigger] known@[x])@) ==> has_id(resolved@, known@[x]@),
            forall|a: int, b: int| 0 <= a < b < resolved@.len() ==> resolved@[a]@ != resolved@[b]@,
        decreases known@.len() - i,
    {
        let id = &known[i];
        let again = contains_id(reproduced, id);
        if again {
            unresolved = true;
        } else if !contains_id(&resolved, id) {
            let ghost r0 = resolved@;
            resolved.push(id.clone());
            proof {
                assert(resolved@[r0.len() as int]@ == known@[i as int]@);
                assert forall|j: int| 0 <= j < resolved@.len() implies has_id(known@, (#[trigger] resolved@[j])@) && !has_id(reproduced@, resolved@[j]@) by {
                    if j < r0.len() {
                        assert(resolved@[j] == r0[j]);
                    } else {
                        assert(known@[i as int]@ == resolved@[j]@);
                    }
                }
                assert forall|x: int| 0 <= x <= i && !has_id(reproduced@, (#[trigger] known@[x])@) implies has_id(resolved@, known@[x]@) by {
                    if x < i {
                        let w = choose|w: int| 0 <= w < r0.len() && (#[trigger] r0[w])@ == known@[x]@;
                        assert(resolved@[w] == r0[w]);
                    } else {
                        assert(resolved@[r0.len() as int]@ == known@[x]@);
                    }
                }
                assert forall|a: int, b: int| 0 <= a < b < resolved@.len() implies resolved@[a]@ != resolved@[b]@ by {
                    if b == r0.len() {
                        assert(resolved@[a] == r0[a]);
                    } else {
                        assert(resolved@[a] == r0[a]);
                        assert(resolved@[b] == r0[b]);
                    }
                }
            }
        }
        i = i + 1;
    }
    KnownSolutions { resolved, unresolved }
}

/// An event a campaign sends to the project that manages it; `S` is the
/// project's solution type. A campaign sends `Initialized` first.
#[derive(Debug)]
pub enum CampaignEvent<S> {
    /// The campaign for the harness started.
    Initialized(String),
    /// The campaign changed state (from, to).
    NewState(String, CampaignState, CampaignState),
    /// The campaign found a new solution.
    NewSolution(String, S),
    /// A known solution no longer reproduces.
    ResolvedSolution(String, S),
    /// New statistics.
    Stats(String, FuzzerStats),
    /// The campaign quits, with the corpus when it collected one.
    Quit(String, Option<Vec<u8>>),
}

/// The event that opens the campaign of `harness_name`.
pub fn initialized_event<S>(harness_name: &str) -> (r: CampaignEvent<S>)
    ensures
        match r {
            CampaignEvent::Initialized(h) => h@ == harness_name@,
            _ => false,
        },
{
    CampaignEvent::Initialized(harness_name.to_owned())
}

/// The event for a state change: a change from `changed_from` to `now` when
/// the state changed, none when it did not.
pub fn state_event<S>(harness_name: &str, changed_from: Option<CampaignState>, now: CampaignState) -> (r: Option<
    CampaignEvent<S>,
>)
    ensures
        match (changed_from, r) {
            (Some(p), Some(CampaignEvent::NewState(h, a, b))) => h@ == harness_name@ && a == p && b == now,
            (None, None) => true,
            _ => false,
        },
{
    match changed_from {
        Some(p) => Some(CampaignEvent::NewState(harness_name.to_owned(), p, now)),
        None => None,
    }
}

/// The two optional lists hold the same items.
pub open spec fn same_list<T>(a: Option<Vec<T>>, b: Option<Vec<T>>) -> bool {
    match (a, b) {
        (Some(x), Some(y)) => x@ == y@,
        (None, None) => true,
        _ => false,
    }
}

fn copy_engines(v: &Option<Vec<FuzzEngine>>) -> (r: Option<Vec<FuzzEngine>>)
    ensures
        same_list(r, *v),
{
    match v {
        Some(v) => {
            let mut r: Vec<FuzzEngine> = Vec::new();
            let mut i: usize = 0;
            while i < v.len()
                invariant
                    i <= v@.len(),
                    r@ == v@.subrange(0, i as int),
                decreases v@.len() - i,
            {
                r.push(v[i]);
                i = i + 1;
                assert(r@ =~= v@.subrange(0, i as int));
            }
            assert(v@.subrange(0, i as int) =~= v@);
            Some(r)
        },
        None => None,
    }
}

fn copy_sanitizers(v: &Option<Vec<Sanitizer>>) -> (r: Option<Vec<Sanitizer>>)
    ensures
        same_list(r, *v),
{
    match v {
        Some(v) => {
            let mut r: Vec<Sanitizer> = Vec::new();
            let mut i: usize = 0;
            while i < v.len()
                invariant
                    i <= v@.len(),
                    r@ == v@.subrange(0, i as int),
                decreases v@.len() - i,
            {
                r.push(v[i]);
                i = i + 1;
                assert(r@ =~= v@.subrange(0, i as int));
            }
            assert(v@.subrange(0, i as int) =~= v@);
            Some(r)
        },
        None => None,
    }
}

/// The startup parameters stored when a campaign starts: the environment's
/// cores, the campaign's duration, the project's engines and sanitizers, and
/// the commit fuzzed.
pub fn startup_params(num_cpus: usize, duration_secs: u64, config: &ProjectConfig, commit_hash: String) -> (r:
    CampaignStartupParams)
    ensures
        r.num_cpus == num_cpus,
        r.duration_secs == duration_secs,
        same_list(r.engines, config.engines),
        same_list(r.sanitizers, config.sanitizers),
        r.commit_hash == commit_hash,
{
    CampaignStartupParams {
        num_cpus,
        duration_secs,
        engines: copy_engines(&config.engines),
        sanitizers: copy_sanitizers(&config.sanitizers),
        commit_hash,
    }
}

} // verus!
