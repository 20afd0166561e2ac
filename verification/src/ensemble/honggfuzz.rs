//! honggfuzz instances: their command line and the stats file they write.

use vstd::prelude::*;

use crate::text::{
    chars_of, decimal, dec_str, lines, lines_of, parse_u64, parse_u64_in, split, split_bounds,
    strings_view, trim, trim_bounds,
};
use crate::types::{join_path, path_join};

verus! {

/// A honggfuzz instance.
pub struct HonggFuzzer {
    pub binary: String,
    pub corpus: String,
    pub solutions: String,
    pub stats_file: String,
    pub num_threads: u64,
}

impl HonggFuzzer {
    /// An instance for `binary` working in `workspace` with `num_threads`
    /// threads.
    pub fn new(binary: String, workspace: &str, num_threads: u64) -> (r: Self)
        ensures
            r.binary == binary,
            r.corpus@ == path_join(workspace@, "corpus"@),
            r.solutions@ == path_join(workspace@, "solutions"@),
            r.stats_file@ == path_join(workspace@, "honggfuzz.stats"@),
            r.num_threads == num_threads,
    {
        HonggFuzzer {
            binary,
            corpus: join_path(workspace, "corpus"),
            solutions: join_path(workspace, "solutions"),
            stats_file: join_path(workspace, "honggfuzz.stats"),
            num_threads,
        }
    }

    /// Name of the fuzz engine and of the instance.
    pub fn get_name(&self) -> (r: String)
        ensures
            r@ == "honggfuzz"@,
    {
        "honggfuzz".to_owned()
    }

    /// The corpus new inputs are pushed from.
    pub fn get_push_corpus(&self) -> (r: Option<String>)
        ensures
            r == Some(self.corpus),
    {
        Some(self.corpus.clone())
    }

    /// honggfuzz pulls no corpus.
    pub fn get_pull_corpus(&self) -> (r: Option<String>)
        ensures
            r is None,
    {
        None
    }

    /// The solution directory.
    pub fn get_solutions(&self) -> (r: Vec<String>)
        ensures
            strings_view(r@) == seq![self.solutions@],
    {
        let mut r: Vec<String> = Vec::new();
        r.push(self.solutions.clone());
        assert(strings_view(r@) =~= seq![self.solutions@]);
        r
    }

    /// The arguments honggfuzz runs with.
    pub fn start_args(&self) -> (r: Vec<String>)
        ensures
            strings_view(r@) == seq![
                "--timeout"@,
                "10"@,
                "--verbose"@,
                "--quiet"@,
                "--statsfile"@,
                self.stats_file@,
                "--input"@,
                self.corpus@,
                "--crashdir"@,
                self.solutions@,
                "--threads"@,
                dec_str(self.num_threads as nat),
                "--"@,
                self.binary@,
            ],
    {
        let mut r: Vec<String> = Vec::new();
        r.push("--timeout".to_owned());
        r.push("10".to_owned());
        r.push("--verbose".to_owned());
        r.push("--quiet".to_owned());
        r.push("--statsfile".to_owned());
        r.push(self.stats_file.clone());
        r.push("--input".to_owned());
        r.push(self.corpus.clone());
        r.push("--crashdir".to_owned());
        r.push(self.solutions.clone());
        r.push("--threads".to_owned());
        r.push(decimal(self.num_threads));
        r.push("--".to_owned());
        r.push(self.binary.clone());
        assert(strings_view(r@) =~= seq![
            "--timeout"@,
            "10"@,
            "--verbose"@,
            "--quiet"@,
            "--statsfile"@,
            self.stats_file@,
            "--input"@,
            self.corpus@,
            "--crashdir"@,
            self.solutions@,
            "--threads"@,
            dec_str(self.num_threads as nat),
            "--"@,
            self.binary@,
        ]);
        r
    }
}

/// What a line of the honggfuzz stats file reports.
#[derive(Clone, Copy, Debug, PartialEq, Eq, Structural)]
pub struct HonggStats {
    pub execs_per_sec: u64,
    pub saved_crashes: u64,
    pub corpus_count: u64,
}

/// Every comma-separated field of the line holds a number (after trimming).
pub open spec fn all_fields_numeric(fields: Seq<Seq<char>>) -> bool {
    forall|k: int| 0 <= k < fields.len() ==> parse_u64(trim(#[trigger] fields[k])) is Some
}

/// A line of the stats file,
/// `unix_time, last_cov_update, total_exec, exec_per_sec, crashes, unique_crashes, hangs, edge_cov, block_cov, corpus_count`:
/// none for comment lines and for malformed or partly written lines.
pub open spec fn hongg_stats_of(line: Seq<char>) -> Option<HonggStats> {
    let fields = split(line, ',');
    if line.len() > 0 && line[0] == '#' {
        None
    } else if !all_fields_numeric(fields) || fields.len() < 10 {
        None
    } else {
        Some(
            HonggStats {
                execs_per_sec: parse_u64(trim(fields[3])).unwrap(),
                saved_crashes: parse_u64(trim(fields[5])).unwrap(),
                corpus_count: parse_u64(trim(fields[9])).unwrap(),
            },
        )
    }
}

/// Parses a line of the honggfuzz stats file.
pub fn parse_stats_line(line: &str) -> (r: Option<HonggStats>)
    ensures
        r == hongg_stats_of(line@),
{
    let cs = chars_of(line);
    if cs.len() > 0 && cs[0] == '#' {
        return None;
    }
    parse_stats_chars(&cs)
}

fn parse_stats_chars(cs: &Vec<char>) -> (r: Option<HonggStats>)
    requires
        !(cs@.len() > 0 && cs@[0] == '#'),
    ensures
        r == hongg_stats_of(cs@),
{
    let pieces = split_bounds(cs, ',');
    let ghost fields = split(cs@, ',');
    let mut values: Vec<u64> = Vec::new();
    let mut k: usize = 0;
    while k < pieces.len()
        invariant
            fields == split(cs@, ','),
            pieces@.len() == fields.len(),
            forall|x: int|
                0 <= x < pieces@.len() ==> (#[trigger] pieces@[x]).0 <= pieces@[x].1 <= cs@.len()
                    && cs@.subrange(pieces@[x].0 as int, pieces@[x].1 as int) == fields[x],
            k <= pieces@.len(),
            values@.len() == k,
            forall|x: int| 0 <= x < k ==> parse_u64(trim(#[trigger] fields[x])) == Some(values@[x]),
        decreases pieces@.len() - k,
    {
        let (lo, hi) = pieces[k];
        let (a, b) = trim_bounds(cs, lo, hi);
        match parse_u64_in(cs, a, b) {
            Some(v) => values.push(v),
            None => {
                assert(!all_fields_numeric(fields)) by {
                    assert(parse_u64(trim(fields[k as int])) is None);
                }
                return None;
            },
        }
        k = k + 1;
    }
    assert(all_fields_numeric(fields));
    if values.len() < 10 {
        return None;
    }
    Some(HonggStats { execs_per_sec: values[3], saved_crashes: values[5], corpus_count: values[9] })
}

/// The stats of the last line of the file that parses.
pub open spec fn last_hongg_stats(ls: Seq<Seq<char>>) -> Option<HonggStats>
    decreases ls.len(),
{
    if ls.len() == 0 {
        None
    } else if hongg_stats_of(ls.last()) is Some {
        hongg_stats_of(ls.last())
    } else {
        last_hongg_stats(ls.drop_last())
    }
}

fn vec_to_str_stats(line: &Vec<char>) -> (r: Option<HonggStats>)
    ensures
        r == hongg_stats_of(line@),
{
    if line.len() > 0 && line[0] == '#' {
        return None;
    }
    parse_stats_chars(line)
}

/// The most recent stats in the contents of a honggfuzz stats file.
pub fn latest_stats(contents: &str) -> (r: Option<HonggStats>)
    ensures
        r == last_hongg_stats(lines(contents@)),
{
    let cs = chars_of(contents);
    let ls = lines_of(&cs);
    let ghost lv = lines(contents@);
    let mut i = ls.len();
    assert(lv.subrange(0, i as int) =~= lv);
    while i > 0
        invariant
            i <= ls@.len(),
            ls@.len() == lv.len(),
            lv == lines(contents@),
            forall|x: int| 0 <= x < ls@.len() ==> (#[trigger] ls@[x])@ == lv[x],
            last_hongg_stats(lv) == last_hongg_stats(lv.subrange(0, i as int)),
        decreases i,
    {
        let st = vec_to_str_stats(&ls[i - 1]);
        proof {
            assert(lv.subrange(0, i as int).drop_last() =~= lv.subrange(0, i - 1));
            assert(lv.subrange(0, i as int).last() == lv[i - 1]);
        }
        if st.is_some() {
            return st;
        }
        i = i - 1;
    }
    assert(lv.subrange(0, 0) =~= Seq::<Seq<char>>::empty());
    None
}

/// Whether any line of a honggfuzz stats file parses, which shows that the
/// instance has started fuzzing.
pub fn has_started(contents: &str) -> (r: bool)
    ensures
        r == (last_hongg_stats(lines(contents@)) is Some),
{
    latest_stats(contents).is_some()
}

} // verus!
