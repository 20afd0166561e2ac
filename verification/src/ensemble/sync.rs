//! The ensembler's rounds: which folders are synced where, how the number of
//! synced files is read from `rsync --stats`, how the instances' statistics
//! are summed up, and what a round does.

use vstd::prelude::*;

use crate::text::{
    chars_of, concat, has_prefix, lines, lines_of, parse_u64, parse_u64_in, split, split_bounds, starts_with,
    strings_view, trim, trim_bounds,
};
use crate::types::FuzzerStats;

verus! {

/// The arguments of the `rsync` that copies the files of `from` that `to`
/// lacks into `to`, comparing by SHA-1 checksums, and prints statistics.
pub fn rsync_args(from: &str, to: &str) -> (r: Vec<String>)
    ensures
        strings_view(r@) == seq![
            "--recursive"@,
            "--archive"@,
            "--checksum"@,
            "--checksum-choice=sha1"@,
            "--ignore-existing"@,
            "--stats"@,
            from@ + "/"@,
            to@,
        ],
{
    let mut r: Vec<String> = Vec::new();
    r.push("--recursive".to_owned());
    r.push("--archive".to_owned());
    r.push("--checksum".to_owned());
    r.push("--checksum-choice=sha1".to_owned());
    r.push("--ignore-existing".to_owned());
    r.push("--stats".to_owned());
    r.push(concat(from, "/"));
    r.push(to.to_owned());
    assert(strings_view(r@) =~= seq![
        "--recursive"@,
        "--archive"@,
        "--checksum"@,
        "--checksum-choice=sha1"@,
        "--ignore-existing"@,
        "--stats"@,
        from@ + "/"@,
        to@,
    ]);
    r
}

/// The line of `rsync --stats` that counts the transferred files begins so.
pub open spec fn transferred_label() -> Seq<char> {
    "Number of regular files transferred:"@
}

/// The first of `ls` that begins with the label, from position `i` on.
pub open spec fn first_labelled(ls: Seq<Seq<char>>, i: int) -> Option<Seq<char>>
    decreases ls.len() - i,
{
    if i < 0 || i >= ls.len() {
        None
    } else if starts_with(ls[i], transferred_label()) {
        Some(ls[i])
    } else {
        first_labelled(ls, i + 1)
    }
}

/// What `str::parse::<usize>` gives.
pub open spec fn parse_usize(s: Seq<char>) -> Option<usize> {
    match parse_u64(s) {
        Some(v) => if v <= usize::MAX {
            Some(v as usize)
        } else {
            None
        },
        None => None,
    }
}

/// The number of files `rsync --stats` reports as transferred: what follows
/// the first `:` of the first line that begins with the label, trimmed and
/// read as a number; 0 when there is no such line or it does not read as a
/// number (as with thousands separators).
pub open spec fn transferred(stdout: Seq<char>) -> usize {
    match first_labelled(lines(stdout), 0) {
        Some(l) => {
            let parts = split(l, ':');
            if parts.len() > 1 {
                match parse_usize(trim(parts[1])) {
                    Some(v) => v,
                    None => 0,
                }
            } else {
                0
            }
        },
        None => 0,
    }
}

/// The number of files that a run of `rsync --stats` printing `stdout`
/// transferred.
pub fn transferred_count(stdout: &str) -> (r: usize)
    ensures
        r == transferred(stdout@),
{
    let cs = chars_of(stdout);
    let ls = lines_of(&cs);
    let label = chars_of("Number of regular files transferred:");
    let ghost lv = lines(cs@);
    let mut i: usize = 0;
    while i < ls.len()
        invariant
            cs@ == stdout@,
            lv == lines(cs@),
            label@ == transferred_label(),
            ls@.len() == lv.len(),
            forall|k: int| 0 <= k < ls@.len() ==> (#[trigger] ls@[k])@ == lv[k],
            i <= ls@.len(),
            first_labelled(lv, 0) == first_labelled(lv, i as int),
        decreases ls@.len() - i,
    {
        if has_prefix(&ls[i], &label) {
            let line = &ls[i];
            assert(first_labelled(lv, i as int) == Some(line@));
            let bounds = split_bounds(line, ':');
            if bounds.len() > 1 {
                let (lo, hi) = bounds[1];
                let (a, b) = trim_bounds(line, lo, hi);
                let v = parse_u64_in(line, a, b);
                return match v {
                    Some(n) => {
                        if n <= usize::MAX as u64 {
                            n as usize
                        } else {
                            0
                        }
                    },
                    None => 0,
                };
            } else {
                return 0;
            }
        }
        i = i + 1;
    }
    0
}

/// What an instance gives the corpus sync: the corpus it pushes new inputs
/// from, the corpus it pulls new inputs into, and its solution folders.
pub type SyncFolders = (Option<String>, Option<String>, Vec<String>);

/// The syncs of a round, as `(from, to)` folder pairs, in order: each
/// instance's push corpus into the global corpus, then the global corpus
/// into each instance's pull corpus, then each solution folder into the
/// global solutions.
pub open spec fn sync_plan_spec(
    f: Seq<(Option<Seq<char>>, Option<Seq<char>>, Seq<Seq<char>>)>,
    corpus: Seq<char>,
    solutions: Seq<char>,
) -> Seq<(Seq<char>, Seq<char>)> {
    pushes(f, corpus, f.len() as int) + pulls(f, corpus, f.len() as int) + solution_syncs(
        f,
        solutions,
        f.len() as int,
    )
}

/// The pushes of the first `n` instances.
pub open spec fn pushes(
    f: Seq<(Option<Seq<char>>, Option<Seq<char>>, Seq<Seq<char>>)>,
    corpus: Seq<char>,
    n: int,
) -> Seq<(Seq<char>, Seq<char>)>
    decreases n,
{
    if n <= 0 {
        seq![]
    } else {
        pushes(f, corpus, n - 1) + match f[n - 1].0 {
            Some(p) => seq![(p, corpus)],
            None => seq![],
        }
    }
}

/// The pulls of the first `n` instances.
pub open spec fn pulls(
    f: Seq<(Option<Seq<char>>, Option<Seq<char>>, Seq<Seq<char>>)>,
    corpus: Seq<char>,
    n: int,
) -> Seq<(Seq<char>, Seq<char>)>
    decreases n,
{
    if n <= 0 {
        seq![]
    } else {
        pulls(f, corpus, n - 1) + match f[n - 1].1 {
            Some(p) => seq![(corpus, p)],
            None => seq![],
        }
    }
}

/// The solution syncs of the first `n` instances.
pub open spec fn solution_syncs(
    f: Seq<(Option<Seq<char>>, Option<Seq<char>>, Seq<Seq<char>>)>,
    solutions: Seq<char>,
    n: int,
) -> Seq<(Seq<char>, Seq<char>)>
    decreases n,
{
    if n <= 0 {
        seq![]
    } else {
        solution_syncs(f, solutions, n - 1) + f[n - 1].2.map_values(|d: Seq<char>| (d, solutions))
    }
}

/// The folders as plain values.
pub open spec fn folders_view(f: Seq<SyncFolders>) -> Seq<(Option<Seq<char>>, Option<Seq<char>>, Seq<Seq<char>>)> {
    f.map_values(
        |x: SyncFolders|
            (
                match x.0 {
                    Some(p) => Some(p@),
                    None => None,
                },
                match x.1 {
                    Some(p) => Some(p@),
                    None => None,
                },
                strings_view(x.2@),
            ),
    )
}

/// The pairs as plain values.
pub open spec fn pairs_view(v: Seq<(String, String)>) -> Seq<(Seq<char>, Seq<char>)> {
    v.map_values(|p: (String, String)| (p.0@, p.1@))
}

/// The syncs of a round, in order.
pub fn sync_plan(folders: &Vec<SyncFolders>, global_corpus: &str, global_solutions: &str) -> (r: Vec<(String, String)>)
    ensures
        pairs_view(r@) == sync_plan_spec(folders_view(folders@), global_corpus@, global_solutions@),
{
    let ghost f = folders_view(folders@);
    let mut r: Vec<(String, String)> = Vec::new();
    let mut i: usize = 0;
    while i < folders.len()
        invariant
            f == folders_view(folders@),
            i <= folders@.len(),
            pairs_view(r@) == pushes(f, global_corpus@, i as int),
        decreases folders@.len() - i,
    {
        let ghost r0 = pairs_view(r@);
        match &folders[i].0 {
            Some(p) => {
                r.push((p.clone(), global_corpus.to_owned()));
            },
            None => {},
        }
        assert(pairs_view(r@) =~= pushes(f, global_corpus@, i + 1));
        i = i + 1;
    }
    let ghost after_push = pairs_view(r@);
    i = 0;
    while i < folders.len()
        invariant
            f == folders_view(folders@),
            i <= folders@.len(),
            after_push == pushes(f, global_corpus@, f.len() as int),
            pairs_view(r@) == after_push + pulls(f, global_corpus@, i as int),
        decreases folders@.len() - i,
    {
        let ghost r0 = pairs_view(r@);
        assert(f[i as int].1 == match folders@[i as int].1 {
            Some(p) => Some(p@),
            None => None,
        });
        match &folders[i].1 {
            Some(p) => {
                r.push((global_corpus.to_owned(), p.clone()));
                assert(pairs_view(r@) =~= r0.push((global_corpus@, p@)));
            },
            None => {},
        }
        assert(pairs_view(r@) =~= after_push + pulls(f, global_corpus@, i + 1));
        i = i + 1;
    }
    let ghost after_pull = pairs_view(r@);
    i = 0;
    while i < folders.len()
        invariant
            f == folders_view(folders@),
            i <= folders@.len(),
            after_pull == pushes(f, global_corpus@, f.len() as int) + pulls(f, global_corpus@, f.len() as int),
            pairs_view(r@) == after_pull + solution_syncs(f, global_solutions@, i as int),
        decreases folders@.len() - i,
    {
        let dirs = &folders[i].2;
        let ghost before = pairs_view(r@);
        let mut j: usize = 0;
        while j < dirs.len()
            invariant
                f == folders_view(folders@),
                i < folders@.len(),
                *dirs == folders@[i as int].2,
                j <= dirs@.len(),
                pairs_view(r@) == before + strings_view(dirs@).subrange(0, j as int).map_values(
                    |d: Seq<char>| (d, global_solutions@),
                ),
            decreases dirs@.len() - j,
        {
            let ghost r0 = pairs_view(r@);
            r.push((dirs[j].clone(), global_solutions.to_owned()));
            assert(pairs_view(r@) =~= r0.push((dirs@[j as int]@, global_solutions@)));
            assert(strings_view(dirs@)[j as int] == dirs@[j as int]@);
            assert(pairs_view(r@) =~= before + strings_view(dirs@).subrange(0, j + 1).map_values(
                |d: Seq<char>| (d, global_solutions@),
            ));
            j = j + 1;
        }
        assert(f[i as int].2 == strings_view(dirs@));
        assert(strings_view(dirs@).subrange(0, j as int) =~= strings_view(dirs@));
        assert(pairs_view(r@) =~= after_pull + solution_syncs(f, global_solutions@, i + 1));
        i = i + 1;
    }
    r
}

/// The sum of the saved crashes of the first `n` statistics.
pub open spec fn crash_sum(s: Seq<FuzzerStats>, n: int) -> nat
    decreases n,
{
    if n <= 0 {
        0
    } else {
        crash_sum(s, n - 1) + s[n - 1].saved_crashes as nat
    }
}

/// The sum of the saved hangs of the first `n` statistics.
pub open spec fn hang_sum(s: Seq<FuzzerStats>, n: int) -> nat
    decreases n,
{
    if n <= 0 {
        0
    } else {
        hang_sum(s, n - 1) + s[n - 1].saved_hangs as nat
    }
}

proof fn lemma_sums_grow(s: Seq<FuzzerStats>, i: int, n: int)
    requires
        0 <= i <= n <= s.len(),
    ensures
        crash_sum(s, i) <= crash_sum(s, n),
        hang_sum(s, i) <= hang_sum(s, n),
    decreases n - i,
{
    if i < n {
        lemma_sums_grow(s, i, n - 1);
    }
}

/// The statistics of all instances together: their crashes and hangs summed
/// up, and the number of files in the global corpus.
pub fn aggregate_counts(stats: &Vec<FuzzerStats>, corpus_count: u64) -> (r: FuzzerStats)
    requires
        crash_sum(stats@, stats@.len() as int) <= u64::MAX,
        hang_sum(stats@, stats@.len() as int) <= u64::MAX,
    ensures
        r.saved_crashes == crash_sum(stats@, stats@.len() as int),
        r.saved_hangs == hang_sum(stats@, stats@.len() as int),
        r.corpus_count == corpus_count,
        r.failed_instances@.len() == 0,
{
    let mut r = FuzzerStats::new();
    let mut i: usize = 0;
    while i < stats.len()
        invariant
            i <= stats@.len(),
            crash_sum(stats@, stats@.len() as int) <= u64::MAX,
            hang_sum(stats@, stats@.len() as int) <= u64::MAX,
            r.saved_crashes == crash_sum(stats@, i as int),
            r.saved_hangs == hang_sum(stats@, i as int),
            r.corpus_count == 0,
            r.failed_instances@.len() == 0,
        decreases stats@.len() - i,
    {
        proof {
            lemma_sums_grow(stats@, i + 1, stats@.len() as int);
        }
        r.saved_crashes = r.saved_crashes + stats[i].saved_crashes;
        r.saved_hangs = r.saved_hangs + stats[i].saved_hangs;
        i = i + 1;
    }
    r.corpus_count = corpus_count;
    r
}

/// The names of the instances that have not started, in order.
pub open spec fn not_started_spec(names: Seq<Seq<char>>, started: Seq<bool>, n: int) -> Seq<Seq<char>>
    decreases n,
{
    if n <= 0 {
        seq![]
    } else {
        not_started_spec(names, started, n - 1) + if started[n - 1] {
            seq![]
        } else {
            seq![names[n - 1]]
        }
    }
}

/// The names of the instances that have not started, in order; `started[i]`
/// says whether instance `names[i]` has.
pub fn fuzzers_not_started(names: &Vec<String>, started: &Vec<bool>) -> (r: Vec<String>)
    requires
        names@.len() == started@.len(),
    ensures
        strings_view(r@) == not_started_spec(strings_view(names@), started@, names@.len() as int),
{
    let mut r: Vec<String> = Vec::new();
    let mut i: usize = 0;
    while i < names.len()
        invariant
            names@.len() == started@.len(),
            i <= names@.len(),
            strings_view(r@) == not_started_spec(strings_view(names@), started@, i as int),
        decreases names@.len() - i,
    {
        let ghost r0 = strings_view(r@);
        if !started[i] {
            r.push(names[i].clone());
        }
        assert(strings_view(r@) =~= not_started_spec(strings_view(names@), started@, i + 1));
        i = i + 1;
    }
    r
}

/// What wakes the ensembler up.
#[derive(Clone, Copy, Debug, PartialEq, Eq, Structural)]
pub enum EnsembleEvent {
    /// Time to sync the corpora.
    SyncTick,
    /// Time to report statistics.
    StatsTick,
    /// Time to stop (a last round follows).
    Quit,
}

/// What a round does.
#[derive(Clone, Copy, Debug, PartialEq, Eq, Structural)]
pub struct RoundPlan {
    /// Collect the instances that have not started.
    pub check_started: bool,
    /// Sync the corpora and solutions.
    pub sync: bool,
    /// The loop ends after this round.
    pub last: bool,
}

/// Seconds the instances get to start before the ones that have not are
/// reported.
pub open spec fn startup_grace_secs() -> u64 {
    600
}

/// The round for `event`, `elapsed_secs` after the ensembler started, with
/// `stats` as the aggregated statistics: a statistics tick syncs only when
/// there are solutions; the instances that have not started are collected
/// once the startup grace period is over; a quit ends the loop.
pub fn plan_round(event: EnsembleEvent, elapsed_secs: u64, stats: &FuzzerStats) -> (r: RoundPlan)
    ensures
        r.last == (event == EnsembleEvent::Quit),
        r.check_started == (elapsed_secs >= startup_grace_secs()),
        r.sync == (event != EnsembleEvent::StatsTick || stats.saved_hangs + stats.saved_crashes > 0),
{
    let only_stats = match event {
        EnsembleEvent::StatsTick => true,
        _ => false,
    };
    let last = match event {
        EnsembleEvent::Quit => true,
        _ => false,
    };
    RoundPlan { check_started: elapsed_secs >= 600, sync: !only_stats || stats.has_solutions(), last }
}

} // verus!
