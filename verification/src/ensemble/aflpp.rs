//! AFL++ instances: their command line, environment and stats file, and the
//! recommended mix of settings for secondary instances.

use vstd::prelude::*;

use crate::env::{pairs_view, set_all, EnvVars};
use crate::text::{
    chars_of, concat, dec_str, decimal, extend_strings, lines, lines_of, parse_or_zero,
    parse_u64_or_zero, push_decimal, push_str, split, split_bounds, string_of, strings_view,
    trim, trim_bounds,
};
use crate::types::{join_path, path_join};

verus! {

/// An AFL++ instance; instance 0 is the main one, the others secondary.
pub struct AflppFuzzer {
    pub seeds: Option<String>,
    /// Work directory of the AFL++ instances (the same for all of them).
    pub workspace: String,
    pub binary: String,
    pub id: u64,
    pub args: Vec<String>,
    pub env: EnvVars,
    pub nyx: bool,
    /// The output directory (empty until the instance starts).
    pub out_dir: String,
    /// The foreign corpus the main instance pulls from (empty until the
    /// instance starts).
    pub pull_corpus: String,
}

/// `<out>/<id>/<leaf>`.
pub open spec fn instance_path(out: Seq<char>, id: u64, leaf: Seq<char>) -> Seq<char> {
    path_join(path_join(out, dec_str(id as nat)), leaf)
}

/// The command line of an instance: a five second timeout, the seeds (or
/// `-` to resume), the output directory, Nyx mode, main (`-M`, pulling from
/// the foreign corpus) or secondary (`-S`) role, its own arguments, and the
/// binary.
pub open spec fn afl_fuzz_args(
    seeds: Option<Seq<char>>,
    out: Seq<char>,
    pull: Seq<char>,
    nyx: bool,
    id: u64,
    args: Seq<Seq<char>>,
    binary: Seq<char>,
) -> Seq<Seq<char>> {
    seq!["-t"@, "5000"@, "-i"@, match seeds {
        Some(s) => s,
        None => "-"@,
    }, "-o"@, out] + (if nyx {
        seq!["-Y"@]
    } else {
        seq![]
    }) + (if id == 0 {
        seq!["-M"@, dec_str(id as nat), "-F"@, pull]
    } else {
        seq!["-S"@, dec_str(id as nat)]
    }) + args + seq!["--"@, binary]
}

impl AflppFuzzer {
    /// An instance that has not started yet.
    pub fn new(
        seeds: Option<String>,
        workspace: String,
        binary: String,
        id: u64,
        args: Vec<String>,
        env: EnvVars,
        nyx: bool,
    ) -> (r: Self)
        ensures
            r.seeds == seeds,
            r.workspace == workspace,
            r.binary == binary,
            r.id == id,
            r.args == args,
            r.env == env,
            r.nyx == nyx,
            r.out_dir@ == Seq::<char>::empty(),
            r.pull_corpus@ == Seq::<char>::empty(),
    {
        AflppFuzzer {
            seeds,
            workspace,
            binary,
            id,
            args,
            env,
            nyx,
            out_dir: String::new(),
            pull_corpus: String::new(),
        }
    }

    /// Name of the fuzz engine.
    pub fn get_name(&self) -> (r: String)
        ensures
            r@ == "afl++"@,
    {
        "afl++".to_owned()
    }

    /// Name of the instance: `afl++-<id>`.
    pub fn get_instance_name(&self) -> (r: String)
        ensures
            r@ == "afl++-"@ + dec_str(self.id as nat),
    {
        let mut r = "afl++-".to_owned();
        push_decimal(&mut r, self.id);
        r
    }

    fn instance_file(&self, leaf: &str) -> (r: String)
        ensures
            r@ == instance_path(self.out_dir@, self.id, leaf@),
    {
        let id = decimal(self.id);
        let dir = join_path(self.out_dir.as_str(), id.as_str());
        join_path(dir.as_str(), leaf)
    }

    /// The stats file of the instance.
    pub fn stats_file(&self) -> (r: String)
        ensures
            r@ == instance_path(self.out_dir@, self.id, "fuzzer_stats"@),
    {
        self.instance_file("fuzzer_stats")
    }

    /// The corpus the main instance pushes new inputs from: its queue.
    pub fn get_push_corpus(&self) -> (r: Option<String>)
        ensures
            match r {
                Some(p) => self.id == 0 && p@ == instance_path(self.out_dir@, self.id, "queue"@),
                None => self.id != 0,
            },
    {
        if self.id == 0 {
            Some(self.instance_file("queue"))
        } else {
            None
        }
    }

    /// The corpus the main instance pulls new inputs from.
    pub fn get_pull_corpus(&self) -> (r: Option<String>)
        ensures
            r == if self.id == 0 {
                Some(self.pull_corpus)
            } else {
                None
            },
    {
        if self.id == 0 {
            Some(self.pull_corpus.clone())
        } else {
            None
        }
    }

    /// The solution directories: crashes, and hangs unless they are ignored.
    pub fn get_solutions(&self, ignore_hangs: bool) -> (r: Vec<String>)
        ensures
            strings_view(r@) == if ignore_hangs {
                seq![instance_path(self.out_dir@, self.id, "crashes"@)]
            } else {
                seq![
                    instance_path(self.out_dir@, self.id, "crashes"@),
                    instance_path(self.out_dir@, self.id, "hangs"@),
                ]
            },
    {
        let mut r: Vec<String> = Vec::new();
        r.push(self.instance_file("crashes"));
        if !ignore_hangs {
            r.push(self.instance_file("hangs"));
        }
        assert(strings_view(r@) =~= if ignore_hangs {
            seq![instance_path(self.out_dir@, self.id, "crashes"@)]
        } else {
            seq![
                instance_path(self.out_dir@, self.id, "crashes"@),
                instance_path(self.out_dir@, self.id, "hangs"@),
            ]
        });
        r
    }

    /// Prepares the start of the instance: sets the output directory and the
    /// foreign corpus inside the workspace, disables the UI (and enables
    /// child debugging when `debug`), and gives the arguments of `afl-fuzz`.
    pub fn prepare_start(&mut self, debug: bool) -> (r: Vec<String>)
        ensures
            final(self).out_dir@ == path_join(old(self).workspace@, "out"@),
            final(self).pull_corpus@ == path_join(old(self).workspace@, "pull_corpus"@),
            final(self).env@ == if debug {
                old(self).env@.insert("AFL_NO_UI"@, "1"@).insert("AFL_DEBUG_CHILD"@, "1"@)
            } else {
                old(self).env@.insert("AFL_NO_UI"@, "1"@)
            },
            final(self).seeds == old(self).seeds,
            final(self).workspace == old(self).workspace,
            final(self).binary == old(self).binary,
            final(self).id == old(self).id,
            final(self).args == old(self).args,
            final(self).nyx == old(self).nyx,
            strings_view(r@) == afl_fuzz_args(
                match old(self).seeds {
                    Some(s) => Some(s@),
                    None => None,
                },
                path_join(old(self).workspace@, "out"@),
                path_join(old(self).workspace@, "pull_corpus"@),
                old(self).nyx,
                old(self).id,
                strings_view(old(self).args@),
                old(self).binary@,
            ),
    {
        self.out_dir = join_path(self.workspace.as_str(), "out");
        self.pull_corpus = join_path(self.workspace.as_str(), "pull_corpus");
        let mut r: Vec<String> = Vec::new();
        r.push("-t".to_owned());
        r.push("5000".to_owned());
        r.push("-i".to_owned());
        match &self.seeds {
            Some(s) => r.push(s.clone()),
            None => r.push("-".to_owned()),
        }
        r.push("-o".to_owned());
        r.push(self.out_dir.clone());
        if self.nyx {
            r.push("-Y".to_owned());
        }
        if self.id == 0 {
            r.push("-M".to_owned());
            r.push(decimal(self.id));
            r.push("-F".to_owned());
            r.push(self.pull_corpus.clone());
        } else {
            r.push("-S".to_owned());
            r.push(decimal(self.id));
        }
        let ghost before_args = strings_view(r@);
        extend_strings(&mut r, &self.args);
        r.push("--".to_owned());
        r.push(self.binary.clone());
        proof {
            let sv = match old(self).seeds {
                Some(s) => Some(s@),
                None => None::<Seq<char>>,
            };
            let head = seq!["-t"@, "5000"@, "-i"@, match sv {
                Some(s) => s,
                None => "-"@,
            }, "-o"@, self.out_dir@] + (if self.nyx {
                seq!["-Y"@]
            } else {
                seq![]
            }) + (if self.id == 0 {
                seq!["-M"@, dec_str(self.id as nat), "-F"@, self.pull_corpus@]
            } else {
                seq!["-S"@, dec_str(self.id as nat)]
            });
            assert(before_args =~= head);
            assert(strings_view(r@) =~= head + strings_view(self.args@) + seq!["--"@, self.binary@]);
        }
        self.env.insert("AFL_NO_UI".to_owned(), "1".to_owned());
        if debug {
            self.env.insert("AFL_DEBUG_CHILD".to_owned(), "1".to_owned());
        }
        r
    }
}


/// A `key: value` line of an AFL++ stats file, both sides trimmed; the value
/// ends at a second colon.
pub open spec fn stat_entry(line: Seq<char>) -> (Seq<char>, Seq<char>) {
    let p = split(line, ':');
    (trim(p[0]), trim(p[1]))
}

/// Every line holds a colon.
pub open spec fn all_lines_have_colon(ls: Seq<Seq<char>>) -> bool {
    forall|i: int| 0 <= i < ls.len() ==> split(#[trigger] ls[i], ':').len() >= 2
}

/// The entries of the stats file, in order.
pub open spec fn stat_entries(ls: Seq<Seq<char>>) -> Seq<(Seq<char>, Seq<char>)> {
    ls.map_values(|l: Seq<char>| stat_entry(l))
}

/// The stats of an AFL++ stats file, a later entry replacing an earlier one
/// with the same key.
pub open spec fn afl_stats_map(contents: Seq<char>) -> Map<Seq<char>, Seq<char>> {
    set_all(Map::empty(), stat_entries(lines(contents)))
}

/// `s` ends with `%`.
pub open spec fn ends_with_percent(s: Seq<char>) -> bool {
    s.len() > 0 && s.last() == '%'
}

/// The stats file of instance `id` can be read: every line holds a colon,
/// the execution rate, corpus size, crashes and hangs are there, and for the
/// main instance the stability is there as a percentage.
pub open spec fn afl_stats_complete(contents: Seq<char>, id: u64) -> bool {
    let m = afl_stats_map(contents);
    &&& all_lines_have_colon(lines(contents))
    &&& m.dom().contains("execs_per_sec"@)
    &&& m.dom().contains("corpus_count"@)
    &&& m.dom().contains("saved_crashes"@)
    &&& m.dom().contains("saved_hangs"@)
    &&& id == 0 ==> m.dom().contains("stability"@) && ends_with_percent(m["stability"@])
}

/// What an AFL++ stats file reports.
pub struct AflStats {
    /// The execution rate as written.
    pub execs_per_sec: String,
    pub corpus_count: u64,
    pub saved_crashes: u64,
    pub saved_hangs: u64,
    /// For the main instance, the stability as written, without the `%`.
    pub stability: Option<String>,
}

/// The stats map of the contents; none when a line holds no colon.
fn stats_map(contents: &str) -> (r: Option<EnvVars>)
    ensures
        match r {
            Some(m) => all_lines_have_colon(lines(contents@)) && m@ == afl_stats_map(contents@),
            None => !all_lines_have_colon(lines(contents@)),
        },
{
    let cs = chars_of(contents);
    let ls = lines_of(&cs);
    let ghost lv = lines(contents@);
    let mut m = EnvVars::new();
    let mut i: usize = 0;
    while i < ls.len()
        invariant
            ls@.len() == lv.len(),
            lv == lines(contents@),
            forall|x: int| 0 <= x < ls@.len() ==> (#[trigger] ls@[x])@ == lv[x],
            i <= ls@.len(),
            forall|x: int| 0 <= x < i ==> split(#[trigger] lv[x], ':').len() >= 2,
            m@ == set_all(Map::empty(), stat_entries(lv.subrange(0, i as int))),
        decreases ls@.len() - i,
    {
        let line = &ls[i];
        let parts = split_bounds(line, ':');
        if parts.len() < 2 {
            assert(split(lv[i as int], ':').len() < 2);
            return None;
        }
        let (k0, k1) = trim_bounds(line, parts[0].0, parts[0].1);
        let (v0, v1) = trim_bounds(line, parts[1].0, parts[1].1);
        let key = string_of(line, k0, k1);
        let value = string_of(line, v0, v1);
        m.insert(key, value);
        proof {
            let sub = stat_entries(lv.subrange(0, i + 1));
            assert(sub.drop_last() =~= stat_entries(lv.subrange(0, i as int)));
            assert(sub.last() == stat_entry(lv[i as int]));
        }
        i = i + 1;
    }
    assert(lv.subrange(0, i as int) =~= lv);
    Some(m)
}

fn ends_with_pct(s: &String) -> (r: bool)
    ensures
        r == ends_with_percent(s@),
{
    let cs = chars_of(s.as_str());
    cs.len() > 0 && cs[cs.len() - 1] == '%'
}

/// Whether the stats file of instance `id` can be read.
pub fn afl_stats_well_formed(contents: &str, id: u64) -> (r: bool)
    ensures
        r == afl_stats_complete(contents@, id),
{
    let m = match stats_map(contents) {
        Some(m) => m,
        None => return false,
    };
    if !(m.contains_key("execs_per_sec") && m.contains_key("corpus_count") && m.contains_key(
        "saved_crashes",
    ) && m.contains_key("saved_hangs")) {
        return false;
    }
    if id == 0 {
        match m.get("stability") {
            Some(v) => ends_with_pct(&v),
            None => false,
        }
    } else {
        true
    }
}

/// The report of a readable stats file: execution rate text, corpus size,
/// crashes and hangs (zero when they do not parse), and for the main
/// instance the stability text without its `%`.
pub open spec fn afl_stats_report(contents: Seq<char>, id: u64) -> (Seq<char>, u64, u64, u64, Option<Seq<char>>) {
    let m = afl_stats_map(contents);
    (
        m["execs_per_sec"@],
        parse_or_zero(m["corpus_count"@]),
        parse_or_zero(m["saved_crashes"@]),
        parse_or_zero(m["saved_hangs"@]),
        if id == 0 {
            Some(m["stability"@].drop_last())
        } else {
            None
        },
    )
}

fn value_or_empty(m: &EnvVars, key: &str) -> (r: String)
    requires
        m@.dom().contains(key@),
    ensures
        r@ == m@[key@],
{
    match m.get(key) {
        Some(v) => v,
        None => String::new(),
    }
}

fn parse_value(m: &EnvVars, key: &str) -> (r: u64)
    requires
        m@.dom().contains(key@),
    ensures
        r == parse_or_zero(m@[key@]),
{
    let v = value_or_empty(m, key);
    let cs = chars_of(v.as_str());
    assert(cs@.subrange(0, cs@.len() as int) =~= cs@);
    parse_u64_or_zero(&cs, 0, cs.len())
}

/// Reads the stats file of instance `id`.
pub fn parse_afl_stats(contents: &str, id: u64) -> (r: AflStats)
    requires
        afl_stats_complete(contents@, id),
    ensures
        afl_stats_report(contents@, id) == (
            r.execs_per_sec@,
            r.corpus_count,
            r.saved_crashes,
            r.saved_hangs,
            match r.stability {
                Some(s) => Some(s@),
                None => None,
            },
        ),
{
    let m = match stats_map(contents) {
        Some(m) => m,
        None => EnvVars::new(),
    };
    let execs_per_sec = value_or_empty(&m, "execs_per_sec");
    let corpus_count = parse_value(&m, "corpus_count");
    let saved_crashes = parse_value(&m, "saved_crashes");
    let saved_hangs = parse_value(&m, "saved_hangs");
    let stability = if id == 0 {
        // Stability is inaccurate for sanitized binaries, so only the main
        // instance reports it.
        let v = value_or_empty(&m, "stability");
        let cs = chars_of(v.as_str());
        let n = cs.len();
        assert(cs@.subrange(0, n - 1) =~= v@.drop_last());
        Some(string_of(&cs, 0, n - 1))
    } else {
        None
    };
    AflStats { execs_per_sec, corpus_count, saved_crashes, saved_hangs, stability }
}

} // verus!
