//! The recommended mix of settings for the AFL++ instances that occupy the
//! spare cores: each setting goes to a share of the cores, picked at random
//! among the cores that do not have a setting of the same name yet.

use rand::Rng;
use vstd::math::min;
use vstd::prelude::*;

use crate::env::EnvVars;
use crate::ensemble::options::{compare_log_view, EnsembleOptions};
use crate::text::{chars_of, concat, eq_str, extend_strings, split, split_bounds, string_of, strings_view};

verus! {

/// Calls `rand::thread_rng().gen_range(0..n)` (`rand::Rng::gen_range` on the
/// thread-local generator). Claimed: the result lies in `0..n`, which is not
/// empty; which value comes is left open.
#[verifier::external_body]
fn random_below(n: usize) -> (r: usize)
    requires
        n > 0,
    ensures
        r < n,
{
    rand::thread_rng().gen_range(0..n)
}

/// A setting: a name (an environment variable, or an argument), an optional
/// value, and the share of cores, in hundredths, that get it.
pub struct AflSetting {
    pub name: String,
    pub value: Option<String>,
    pub percent: u64,
}

/// A setting as character sequences.
pub type SettingSpec = (Seq<char>, Option<Seq<char>>, u64);

impl AflSetting {
    /// The setting as character sequences.
    pub open spec fn spec(&self) -> SettingSpec {
        (
            self.name@,
            match self.value {
                Some(v) => Some(v@),
                None => None,
            },
            self.percent,
        )
    }
}

/// The settings as character sequences.
pub open spec fn settings_spec(v: Seq<AflSetting>) -> Seq<SettingSpec> {
    v.map_values(|s: AflSetting| s.spec())
}

/// The environment settings: trimming disabled on 65% of the cores, timeouts
/// kept on 50%, havoc expanded at once on 40%, and, when input lengths are
/// limited, a maximum input length of 128 on 10% and of 8192 on another 10%.
pub open spec fn env_settings(limit_input_len: bool) -> Seq<SettingSpec> {
    seq![
        ("AFL_DISABLE_TRIM"@, None, 65u64),
        ("AFL_KEEP_TIMEOUTS"@, None, 50u64),
        ("AFL_EXPAND_HAVOC_NOW"@, None, 40u64),
    ] + if limit_input_len {
        seq![
            ("AFL_INPUT_LEN_MAX"@, Some("128"@), 10u64),
            ("AFL_INPUT_LEN_MAX"@, Some("8192"@), 10u64),
        ]
    } else {
        seq![]
    }
}

/// The argument settings: `-L 0` and `-Z` on 10% each, `-P explore` on
/// 40% and `-P exploit` on 20%, `-a binary` and `-a ascii` on 30% each, and,
/// with a CmpLog binary, `-c <binary>` with `-l 2`, `-l 3` and `-l 2AT` on
/// 10% each.
pub open spec fn arg_settings(compare_log: Option<Seq<char>>) -> Seq<SettingSpec> {
    seq![
        ("-L"@, Some("0"@), 10u64),
        ("-Z"@, None, 10u64),
        ("-P"@, Some("explore"@), 40u64),
        ("-P"@, Some("exploit"@), 20u64),
        ("-a"@, Some("binary"@), 30u64),
        ("-a"@, Some("ascii"@), 30u64),
    ] + match compare_log {
        Some(b) => seq![
            ("-c "@ + b, Some("-l 2"@), 10u64),
            ("-c "@ + b, Some("-l 3"@), 10u64),
            ("-c "@ + b, Some("-l 2AT"@), 10u64),
        ],
        None => seq![],
    }
}

/// Number of argument settings that come before the power schedule.
pub open spec fn num_plain_arg_settings() -> int {
    6
}

/// The power schedules, given to the cores in turn.
pub open spec fn pow_schedule(i: int) -> Seq<char> {
    let k = i % 7;
    if k == 0 {
        "fast"@
    } else if k == 1 {
        "explore"@
    } else if k == 2 {
        "coe"@
    } else if k == 3 {
        "lin"@
    } else if k == 4 {
        "quad"@
    } else if k == 5 {
        "exploit"@
    } else {
        "rare"@
    }
}

/// Number of `true` entries.
pub open spec fn count_true(v: Seq<bool>) -> nat
    decreases v.len(),
{
    if v.len() == 0 {
        0
    } else {
        count_true(v.drop_last()) + (if v.last() {
            1nat
        } else {
            0nat
        })
    }
}

/// The number of cores, of `cores`, that a share of `percent` hundredths
/// covers, rounded down.
pub open spec fn share(cores: nat, percent: u64) -> nat {
    (cores * percent as nat / 100) as nat
}

/// Core `i` got a setting named `name` among the first `k` settings.
pub open spec fn used_upto(settings: Seq<SettingSpec>, sel: Seq<Seq<bool>>, k: int, name: Seq<char>, i: int) -> bool {
    exists|j: int| 0 <= j < k && settings[j].0 == name && (#[trigger] sel[j])[i]
}

/// Core `i` got a setting named like setting `k` before it.
pub open spec fn used_before(settings: Seq<SettingSpec>, sel: Seq<Seq<bool>>, k: int, i: int) -> bool {
    used_upto(settings, sel, k, settings[k].0, i)
}

/// The cores that got a setting named like setting `k` before it.
pub open spec fn used_before_seq(settings: Seq<SettingSpec>, sel: Seq<Seq<bool>>, k: int, cores: nat) -> Seq<bool> {
    Seq::new(cores, |i: int| used_before(settings, sel, k, i))
}

/// `sel[k][i]` says whether core `i` gets setting `k`: each setting goes to
/// as many cores as its share, or to all the cores left when fewer are, and
/// never to a core that already has a setting of the same name.
pub open spec fn valid_selection(cores: nat, settings: Seq<SettingSpec>, sel: Seq<Seq<bool>>) -> bool {
    &&& sel.len() == settings.len()
    &&& forall|k: int| 0 <= k < sel.len() ==> (#[trigger] sel[k]).len() == cores
    &&& forall|k: int, i: int|
        0 <= k < sel.len() && 0 <= i < cores && #[trigger] sel[k][i] ==> !used_before(settings, sel, k, i)
    &&& forall|k: int|
        0 <= k < sel.len() ==> count_true(#[trigger] sel[k]) == min(
            share(cores, settings[k].2) as int,
            cores - count_true(used_before_seq(settings, sel, k, cores)),
        )
}

/// The environment of core `i`: each setting it got, with its value or `1`.
pub open spec fn core_env(settings: Seq<SettingSpec>, sel: Seq<Seq<bool>>, i: int, upto: int) -> Map<Seq<char>, Seq<char>>
    decreases upto,
{
    if upto <= 0 {
        Map::empty()
    } else {
        let m = core_env(settings, sel, i, upto - 1);
        let st = settings[upto - 1];
        if sel[upto - 1][i] {
            m.insert(st.0, match st.1 {
                Some(v) => v,
                None => "1"@,
            })
        } else {
            m
        }
    }
}

/// The arguments of a setting: its name and its value, each split at spaces.
pub open spec fn setting_tokens(st: SettingSpec) -> Seq<Seq<char>> {
    split(st.0, ' ') + match st.1 {
        Some(v) => split(v, ' '),
        None => seq![],
    }
}

/// The arguments of the settings `from..upto` that core `i` got, in order.
pub open spec fn core_tokens(settings: Seq<SettingSpec>, sel: Seq<Seq<bool>>, i: int, from: int, upto: int) -> Seq<Seq<char>>
    decreases upto - from,
{
    if upto <= from {
        seq![]
    } else {
        core_tokens(settings, sel, i, from, upto - 1) + if sel[upto - 1][i] {
            setting_tokens(settings[upto - 1])
        } else {
            seq![]
        }
    }
}

/// The arguments of core `i`: its plain argument settings, its power
/// schedule, then its CmpLog settings.
pub open spec fn core_args(settings: Seq<SettingSpec>, sel: Seq<Seq<bool>>, i: int) -> Seq<Seq<char>> {
    core_tokens(settings, sel, i, 0, num_plain_arg_settings()) + seq!["-p"@, pow_schedule(i)]
        + core_tokens(settings, sel, i, num_plain_arg_settings(), settings.len() as int)
}

proof fn lemma_count_true_set(v: Seq<bool>, i: int)
    requires
        0 <= i < v.len(),
        !v[i],
    ensures
        count_true(v.update(i, true)) == count_true(v) + 1,
    decreases v.len(),
{
    if i < v.len() - 1 {
        lemma_count_true_set(v.drop_last(), i);
        assert(v.update(i, true).drop_last() =~= v.drop_last().update(i, true));
    } else {
        assert(v.update(i, true).drop_last() =~= v.drop_last());
    }
}

proof fn lemma_count_true_le(v: Seq<bool>)
    ensures
        count_true(v) <= v.len(),
    decreases v.len(),
{
    if v.len() > 0 {
        lemma_count_true_le(v.drop_last());
    }
}

proof fn lemma_count_true_all(v: Seq<bool>)
    requires
        count_true(v) == v.len(),
    ensures
        forall|i: int| 0 <= i < v.len() ==> v[i],
    decreases v.len(),
{
    if v.len() > 0 {
        lemma_count_true_le(v.drop_last());
        lemma_count_true_all(v.drop_last());
        assert forall|i: int| 0 <= i < v.len() implies v[i] by {
            if i < v.len() - 1 {
                assert(v.drop_last()[i] == v[i]);
            }
        }
    }
}

proof fn lemma_count_true_false(v: Seq<bool>)
    requires
        forall|i: int| 0 <= i < v.len() ==> !v[i],
    ensures
        count_true(v) == 0,
    decreases v.len(),
{
    if v.len() > 0 {
        lemma_count_true_false(v.drop_last());
    }
}

fn all_false(n: usize) -> (r: Vec<bool>)
    ensures
        r@.len() == n,
        forall|i: int| 0 <= i < n ==> !r@[i],
        count_true(r@) == 0,
{
    let mut r: Vec<bool> = Vec::new();
    let mut i: usize = 0;
    while i < n
        invariant
            i <= n,
            r@.len() == i,
            forall|x: int| 0 <= x < i ==> !r@[x],
        decreases n - i,
    {
        r.push(false);
        i = i + 1;
    }
    proof {
        lemma_count_true_false(r@);
    }
    r
}

/// The cores `used` does not hold, in increasing order.
fn free_cores(used: &Vec<bool>) -> (free: Vec<usize>)
    ensures
        forall|x: int| 0 <= x < free@.len() ==> (#[trigger] free@[x]) < used@.len() && !used@[free@[x] as int],
        free@.len() == 0 ==> forall|x: int| 0 <= x < used@.len() ==> used@[x],
{
    let mut free: Vec<usize> = Vec::new();
    let n = used.len();
    let mut i: usize = 0;
    while i < n
        invariant
            n == used@.len(),
            i <= n,
            forall|x: int| 0 <= x < free@.len() ==> (#[trigger] free@[x]) < n && !used@[free@[x] as int],
            free@.len() == 0 ==> forall|x: int| 0 <= x < i ==> used@[x],
        decreases n - i,
    {
        if !used[i] {
            free.push(i);
        }
        i = i + 1;
    }
    free
}

/// Picks up to `count` cores that `used` does not hold yet, at random; adds
/// them to `used` and gives them.
fn choose_cores(cores: usize, count: u64, used: &mut Vec<bool>) -> (chosen: Vec<bool>)
    requires
        old(used)@.len() == cores,
    ensures
        chosen@.len() == cores,
        final(used)@.len() == cores,
        forall|i: int|
            #![trigger final(used)@[i]]
            #![trigger old(used)@[i]]
            #![trigger chosen@[i]]
            0 <= i < cores ==> final(used)@[i] == (old(used)@[i] || chosen@[i]),
        forall|i: int| 0 <= i < cores && #[trigger] chosen@[i] ==> !old(used)@[i],
        count_true(chosen@) == min(count as int, cores - count_true(old(used)@)),
{
    let ghost u0 = used@;
    let mut chosen = all_false(cores);
    let mut t: u64 = 0;
    proof {
        lemma_count_true_le(used@);
    }
    loop
        invariant
            chosen@.len() == cores,
            used@.len() == cores,
            forall|i: int| 0 <= i < cores ==> used@[i] == (u0[i] || chosen@[i]),
            forall|i: int| 0 <= i < cores && #[trigger] chosen@[i] ==> !u0[i],
            count_true(chosen@) == t,
            count_true(used@) == count_true(u0) + t,
            count_true(u0) <= cores,
            t <= count,
        ensures
            chosen@.len() == cores,
            used@.len() == cores,
            forall|i: int| 0 <= i < cores ==> used@[i] == (u0[i] || chosen@[i]),
            forall|i: int| 0 <= i < cores && #[trigger] chosen@[i] ==> !u0[i],
            count_true(chosen@) == min(count as int, cores - count_true(u0)),
        decreases count - t,
    {
        if t >= count {
            proof {
                lemma_count_true_le(used@);
            }
            break ;
        }
        let free = free_cores(used);
        if free.len() == 0 {
            proof {
                lemma_count_true_all_true(used@);
            }
            break ;
        }
        let pick = free[random_below(free.len())];
        proof {
            lemma_count_true_set(used@, pick as int);
            lemma_count_true_set(chosen@, pick as int);
        }
        let ghost used0 = used@;
        let ghost chosen0 = chosen@;
        used.set(pick, true);
        chosen.set(pick, true);
        proof {
            assert(used@ == used0.update(pick as int, true));
            assert(chosen@ == chosen0.update(pick as int, true));
        }
        t = t + 1;
        proof {
            lemma_count_true_le(used@);
        }
    }
    chosen
}

proof fn lemma_count_true_all_true(v: Seq<bool>)
    requires
        forall|i: int| 0 <= i < v.len() ==> v[i],
    ensures
        count_true(v) == v.len(),
    decreases v.len(),
{
    if v.len() > 0 {
        lemma_count_true_all_true(v.drop_last());
    }
}


/// The selections as sequences.
pub open spec fn sel_view(sel: Seq<Vec<bool>>) -> Seq<Seq<bool>> {
    sel.map_values(|v: Vec<bool>| v@)
}

proof fn lemma_upto_stable(
    settings: Seq<SettingSpec>,
    a: Seq<Seq<bool>>,
    b: Seq<Seq<bool>>,
    k: int,
    name: Seq<char>,
    i: int,
)
    requires
        k <= a.len(),
        k <= b.len(),
        forall|j: int| 0 <= j < k ==> a[j] == b[j],
    ensures
        used_upto(settings, a, k, name, i) == used_upto(settings, b, k, name, i),
{
    if used_upto(settings, a, k, name, i) {
        let j = choose|j: int| 0 <= j < k && settings[j].0 == name && (#[trigger] a[j])[i];
        assert(b[j] == a[j]);
    }
    if used_upto(settings, b, k, name, i) {
        let j = choose|j: int| 0 <= j < k && settings[j].0 == name && (#[trigger] b[j])[i];
        assert(b[j] == a[j]);
    }
}

fn copy_bools(v: &Vec<bool>) -> (r: Vec<bool>)
    ensures
        r@ == v@,
{
    let mut r: Vec<bool> = Vec::new();
    let mut i: usize = 0;
    while i < v.len()
        invariant
            i <= v@.len(),
            r@ == v@.subrange(0, i as int),
        decreases v@.len() - i,
    {
        r.push(v[i]);
        i = i + 1;
        assert(r@ =~= v@.subrange(0, i as int));
    }
    assert(v@.subrange(0, i as int) =~= v@);
    r
}

/// The share of `cores` that `percent` hundredths cover.
fn share_of(cores: usize, percent: u64) -> (r: u64)
    requires
        percent <= 100,
    ensures
        r == share(cores as nat, percent),
{
    let c = cores as u128;
    let pc = percent as u128;
    assert(c * pc <= c * 100) by (nonlinear_arith)
        requires
            pc <= 100,
    ;
    assert(c * 100 <= 0xFFFF_FFFF_FFFF_FFFFu128 * 100);
    let p = c * pc;
    let q = p / 100;
    assert(q <= cores);
    q as u64
}

proof fn lemma_upto_step(settings: Seq<SettingSpec>, sel: Seq<Seq<bool>>, k: int, name: Seq<char>, i: int)
    requires
        0 <= k,
    ensures
        used_upto(settings, sel, k + 1, name, i) == (used_upto(settings, sel, k, name, i) || (
        settings[k].0 == name && sel[k][i])),
{
    if used_upto(settings, sel, k + 1, name, i) {
        let j = choose|j: int| 0 <= j < k + 1 && settings[j].0 == name && (#[trigger] sel[j])[i];
        if j < k {
            assert(used_upto(settings, sel, k, name, i));
        }
    }
    if used_upto(settings, sel, k, name, i) {
        let j = choose|j: int| 0 <= j < k && settings[j].0 == name && (#[trigger] sel[j])[i];
        assert(used_upto(settings, sel, k + 1, name, i));
    }
    if settings[k].0 == name && sel[k][i] {
        assert(used_upto(settings, sel, k + 1, name, i));
    }
}

fn find_name(names: &Vec<String>, name: &String) -> (r: Option<usize>)
    ensures
        match r {
            Some(e) => e < names@.len() && names@[e as int]@ == name@,
            None => forall|e: int| 0 <= e < names@.len() ==> (#[trigger] names@[e])@ != name@,
        },
{
    let mut pos: usize = 0;
    while pos < names.len()
        invariant
            pos <= names@.len(),
            forall|e: int| 0 <= e < pos ==> (#[trigger] names@[e])@ != name@,
        decreases names@.len() - pos,
    {
        if eq_str(names[pos].as_str(), name.as_str()) {
            return Some(pos);
        }
        pos = pos + 1;
    }
    None
}

/// Picks, setting by setting, the cores that get each setting.
fn select_cores(cores: usize, settings: &Vec<AflSetting>) -> (sel: Vec<Vec<bool>>)
    requires
        forall|k: int| 0 <= k < settings@.len() ==> (#[trigger] settings@[k]).percent <= 100,
    ensures
        valid_selection(cores as nat, settings_spec(settings@), sel_view(sel@)),
{
    let ghost ss = settings_spec(settings@);
    let mut sel: Vec<Vec<bool>> = Vec::new();
    let mut names: Vec<String> = Vec::new();
    let mut used: Vec<Vec<bool>> = Vec::new();
    let mut k: usize = 0;
    while k < settings.len()
        invariant
            ss == settings_spec(settings@),
            forall|x: int| 0 <= x < settings@.len() ==> (#[trigger] settings@[x]).percent <= 100,
            k <= settings@.len(),
            sel@.len() == k,
            forall|x: int| 0 <= x < k ==> (#[trigger] sel_view(sel@)[x]).len() == cores,
            forall|x: int, i: int|
                0 <= x < k && 0 <= i < cores && #[trigger] sel_view(sel@)[x][i] ==> !used_before(
                    ss,
                    sel_view(sel@),
                    x,
                    i,
                ),
            forall|x: int|
                0 <= x < k ==> count_true(#[trigger] sel_view(sel@)[x]) == min(
                    share(cores as nat, ss[x].2) as int,
                    cores - count_true(used_before_seq(ss, sel_view(sel@), x, cores as nat)),
                ),
            names@.len() == used@.len(),
            forall|e1: int, e2: int|
                0 <= e1 < names@.len() && 0 <= e2 < names@.len() && e1 != e2 ==> (#[trigger] names@[e1])@
                    != (#[trigger] names@[e2])@,
            forall|e: int| 0 <= e < used@.len() ==> (#[trigger] used@[e])@.len() == cores,
            forall|e: int, i: int|
                0 <= e < used@.len() && 0 <= i < cores ==> #[trigger] used@[e]@[i] == used_upto(
                    ss,
                    sel_view(sel@),
                    k as int,
                    names@[e]@,
                    i,
                ),
            forall|j: int|
                0 <= j < k ==> exists|e: int| 0 <= e < names@.len() && (#[trigger] names@[e])@ == (#[trigger] ss[j]).0,
        decreases settings@.len() - k,
    {
        let st = &settings[k];
        let ghost sv = sel_view(sel@);
        assert(ss[k as int] == st.spec());
        let found = find_name(&names, &st.name);
        let mut u = match found {
            Some(pos) => copy_bools(&used[pos]),
            None => all_false(cores),
        };
        let ghost u0 = u@;
        proof {
            assert forall|i: int| 0 <= i < cores implies u0[i] == used_before(ss, sv, k as int, i) by {
                if found is None {
                    if used_upto(ss, sv, k as int, st.name@, i) {
                        let j = choose|j: int| 0 <= j < k && ss[j].0 == st.name@ && (#[trigger] sv[j])[i];
                        let e = choose|e: int| 0 <= e < names@.len() && (#[trigger] names@[e])@ == ss[j].0;
                    }
                }
            }
            assert(u0 =~= used_before_seq(ss, sv, k as int, cores as nat));
        }
        let count = share_of(cores, st.percent);
        let chosen = choose_cores(cores, count, &mut u);
        let ghost u1 = u@;
        assert forall|i: int| 0 <= i < cores implies u1[i] == (u0[i] || chosen@[i]) by {
            if u0[i] {
                assert(u@[i]);
            }
            if chosen@[i] {
                assert(u@[i]);
            }
            if u@[i] {
                assert(u0[i] || chosen@[i]);
            }
        }
        let ghost names0 = names@;
        let ghost used0 = used@;
        sel.push(chosen);
        let ghost sv2 = sel_view(sel@);
        proof {
            assert(sv2 =~= sv.push(chosen@));
            assert forall|x: int| 0 <= x <= k implies #[trigger] used_before_seq(ss, sv2, x, cores as nat)
                =~= used_before_seq(ss, sv, x, cores as nat) by {
                assert forall|i: int| 0 <= i < cores implies used_before(ss, sv2, x, i) == used_before(ss, sv, x, i) by {
                    lemma_upto_stable(ss, sv, sv2, x, ss[x].0, i);
                }
            }
            assert forall|x: int, i: int|
                0 <= x < k + 1 && 0 <= i < cores && #[trigger] sv2[x][i] implies !used_before(ss, sv2, x, i) by {
                lemma_upto_stable(ss, sv, sv2, x, ss[x].0, i);
                if x == k {
                    assert(sv2[x] == chosen@);
                    assert(!u0[i]);
                } else {
                    assert(sv2[x] == sv[x]);
                }
            }
            assert forall|x: int| 0 <= x < k + 1 implies count_true(#[trigger] sv2[x]) == min(
                share(cores as nat, ss[x].2) as int,
                cores - count_true(used_before_seq(ss, sv2, x, cores as nat)),
            ) by {
                assert(used_before_seq(ss, sv2, x, cores as nat) =~= used_before_seq(ss, sv, x, cores as nat));
                if x == k {
                    assert(sv2[x] == chosen@);
                } else {
                    assert(sv2[x] == sv[x]);
                }
            }
            assert forall|name: Seq<char>, i: int| 0 <= i < cores implies #[trigger] used_upto(ss, sv2, k + 1, name, i) == (
                used_upto(ss, sv, k as int, name, i) || (ss[k as int].0 == name && chosen@[i])) by {
                lemma_upto_step(ss, sv2, k as int, name, i);
                lemma_upto_stable(ss, sv, sv2, k as int, name, i);
            }
        }
        match found {
            Some(pos) => {
                used.set(pos, u);
                proof {
                    assert forall|e: int, i: int| 0 <= e < used@.len() && 0 <= i < cores implies #[trigger] used@[e]@[i]
                        == used_upto(ss, sv2, k + 1, names@[e]@, i) by {
                        assert(used_upto(ss, sv2, k + 1, names@[e]@, i) == (
                        used_upto(ss, sv, k as int, names@[e]@, i) || (ss[k as int].0 == names@[e]@ && chosen@[i])));
                        if e != pos {
                            assert(used@[e] == used0[e]);
                            assert(names@[e]@ != names@[pos as int]@);
                        } else {
                            assert(used@[e]@ == u1);
                            assert(names@[e]@ == ss[k as int].0);
                            assert(u1[i] == (u0[i] || chosen@[i]));
                            assert(u0[i] == used_before(ss, sv, k as int, i));
                        }
                    }
                }
            },
            None => {
                names.push(st.name.clone());
                used.push(u);
                proof {
                    assert forall|e1: int, e2: int|
                        0 <= e1 < names@.len() && 0 <= e2 < names@.len() && e1 != e2 implies (#[trigger] names@[e1])@
                            != (#[trigger] names@[e2])@ by {
                        if e1 < names0.len() && e2 < names0.len() {
                            assert(names@[e1] == names0[e1]);
                            assert(names@[e2] == names0[e2]);
                        } else if e1 < names0.len() {
                            assert(names@[e1] == names0[e1]);
                        } else {
                            assert(names@[e2] == names0[e2]);
                        }
                    }
                    assert forall|e: int, i: int| 0 <= e < used@.len() && 0 <= i < cores implies #[trigger] used@[e]@[i]
                        == used_upto(ss, sv2, k + 1, names@[e]@, i) by {
                        assert(used_upto(ss, sv2, k + 1, names@[e]@, i) == (
                        used_upto(ss, sv, k as int, names@[e]@, i) || (ss[k as int].0 == names@[e]@ && chosen@[i])));
                        if e < names0.len() {
                            assert(used@[e] == used0[e]);
                            assert(names@[e] == names0[e]);
                        } else {
                            assert(names@[e]@ == st.name@);
                            if used_upto(ss, sv, k as int, st.name@, i) {
                                let j = choose|j: int| 0 <= j < k && ss[j].0 == st.name@ && (#[trigger] sv[j])[i];
                                let e2 = choose|e2: int| 0 <= e2 < names0.len() && (#[trigger] names0[e2])@ == ss[j].0;
                            }
                        }
                    }
                }
            },
        }
        proof {
            assert forall|j: int| 0 <= j < k + 1 implies exists|e: int|
                0 <= e < names@.len() && (#[trigger] names@[e])@ == (#[trigger] ss[j]).0 by {
                if j == k {
                    if found is Some {
                        let pos = found->0;
                        assert(names@[pos as int]@ == ss[j].0);
                    } else {
                        assert(names@[names@.len() - 1]@ == ss[j].0);
                    }
                } else {
                    let e = choose|e: int| 0 <= e < names0.len() && (#[trigger] names0[e])@ == ss[j].0;
                    assert(names@[e] == names0[e]);
                }
            }
        }
        k = k + 1;
    }
    proof {
        assert(sel_view(sel@).len() == settings_spec(settings@).len());
    }
    sel
}


/// The pieces of `s` split by `d`, as strings.
pub fn split_strings(s: &str, d: char) -> (r: Vec<String>)
    ensures
        strings_view(r@) == split(s@, d),
{
    let cs = chars_of(s);
    let bounds = split_bounds(&cs, d);
    let mut r: Vec<String> = Vec::new();
    let mut k: usize = 0;
    while k < bounds.len()
        invariant
            cs@ == s@,
            bounds@.len() == split(cs@, d).len(),
            forall|j: int|
                0 <= j < bounds@.len() ==> (#[trigger] bounds@[j]).0 <= bounds@[j].1 <= cs@.len() && cs@.subrange(
                    bounds@[j].0 as int,
                    bounds@[j].1 as int,
                ) == split(cs@, d)[j],
            k <= bounds@.len(),
            strings_view(r@) == split(cs@, d).subrange(0, k as int),
        decreases bounds@.len() - k,
    {
        let (lo, hi) = bounds[k];
        let piece = string_of(&cs, lo, hi);
        let ghost r0 = r@;
        r.push(piece);
        proof {
            assert(strings_view(r@) =~= strings_view(r0).push(piece@));
            assert(split(cs@, d).subrange(0, k + 1) =~= split(cs@, d).subrange(0, k as int).push(
                split(cs@, d)[k as int],
            ));
        }
        k = k + 1;
    }
    assert(split(cs@, d).subrange(0, k as int) =~= split(cs@, d));
    r
}

/// A setting with the given name, value and share.
fn setting(name: String, value: Option<&str>, percent: u64) -> (r: AflSetting)
    ensures
        r.spec() == (name@, match value {
            Some(v) => Some(v@),
            None => None,
        }, percent),
{
    let value = match value {
        Some(v) => Some(v.to_owned()),
        None => None,
    };
    AflSetting { name, value, percent }
}

/// The environment settings as values.
fn env_setting_list(limit_input_len: bool) -> (v: Vec<AflSetting>)
    ensures
        settings_spec(v@) == env_settings(limit_input_len),
        forall|k: int| 0 <= k < v@.len() ==> (#[trigger] v@[k]).percent <= 100,
{
    let mut v: Vec<AflSetting> = Vec::new();
    v.push(setting("AFL_DISABLE_TRIM".to_owned(), None, 65));
    v.push(setting("AFL_KEEP_TIMEOUTS".to_owned(), None, 50));
    v.push(setting("AFL_EXPAND_HAVOC_NOW".to_owned(), None, 40));
    if limit_input_len {
        v.push(setting("AFL_INPUT_LEN_MAX".to_owned(), Some("128"), 10));
        v.push(setting("AFL_INPUT_LEN_MAX".to_owned(), Some("8192"), 10));
    }
    assert(settings_spec(v@) =~= env_settings(limit_input_len));
    v
}

/// The argument settings as values.
fn arg_setting_list(compare_log: Option<&str>) -> (v: Vec<AflSetting>)
    ensures
        forall|k: int| 0 <= k < v@.len() ==> (#[trigger] v@[k]).percent <= 100,
        settings_spec(v@) == arg_settings(
            match compare_log {
                Some(b) => Some(b@),
                None => None,
            },
        ),
{
    let mut v: Vec<AflSetting> = Vec::new();
    v.push(setting("-L".to_owned(), Some("0"), 10));
    v.push(setting("-Z".to_owned(), None, 10));
    v.push(setting("-P".to_owned(), Some("explore"), 40));
    v.push(setting("-P".to_owned(), Some("exploit"), 20));
    v.push(setting("-a".to_owned(), Some("binary"), 30));
    v.push(setting("-a".to_owned(), Some("ascii"), 30));
    match compare_log {
        Some(b) => {
            v.push(setting(concat("-c ", b), Some("-l 2"), 10));
            v.push(setting(concat("-c ", b), Some("-l 3"), 10));
            v.push(setting(concat("-c ", b), Some("-l 2AT"), 10));
        },
        None => {},
    }
    assert(settings_spec(v@) =~= arg_settings(
        match compare_log {
            Some(b) => Some(b@),
            None => None,
        },
    ));
    v
}

/// The power schedule of core `i`.
fn power_schedule(i: usize) -> (r: String)
    ensures
        r@ == pow_schedule(i as int),
{
    let k = i % 7;
    if k == 0 {
        "fast".to_owned()
    } else if k == 1 {
        "explore".to_owned()
    } else if k == 2 {
        "coe".to_owned()
    } else if k == 3 {
        "lin".to_owned()
    } else if k == 4 {
        "quad".to_owned()
    } else if k == 5 {
        "exploit".to_owned()
    } else {
        "rare".to_owned()
    }
}

/// Appends the arguments of the settings `lo..hi` that core `i` got.
fn push_core_tokens(
    row: &mut Vec<String>,
    settings: &Vec<AflSetting>,
    sel: &Vec<Vec<bool>>,
    i: usize,
    lo: usize,
    hi: usize,
)
    requires
        lo <= hi <= settings@.len(),
        sel@.len() == settings@.len(),
        forall|k: int| 0 <= k < sel@.len() ==> i < (#[trigger] sel@[k])@.len(),
    ensures
        strings_view(final(row)@) == strings_view(old(row)@) + core_tokens(
            settings_spec(settings@),
            sel_view(sel@),
            i as int,
            lo as int,
            hi as int,
        ),
{
    let ghost ss = settings_spec(settings@);
    let ghost sv = sel_view(sel@);
    let ghost r0 = strings_view(row@);
    let mut k = lo;
    assert(core_tokens(ss, sv, i as int, lo as int, lo as int) =~= seq![]);
    while k < hi
        invariant
            lo <= k <= hi <= settings@.len(),
            sel@.len() == settings@.len(),
            forall|x: int| 0 <= x < sel@.len() ==> i < (#[trigger] sel@[x])@.len(),
            ss == settings_spec(settings@),
            sv == sel_view(sel@),
            strings_view(row@) == r0 + core_tokens(ss, sv, i as int, lo as int, k as int),
        decreases hi - k,
    {
        let ghost before = strings_view(row@);
        assert(sv[k as int] == sel@[k as int]@);
        if sel[k][i] {
            let st = &settings[k];
            assert(ss[k as int] == st.spec());
            let names = split_strings(st.name.as_str(), ' ');
            extend_strings(row, &names);
            match &st.value {
                Some(v) => {
                    let vals = split_strings(v.as_str(), ' ');
                    extend_strings(row, &vals);
                },
                None => {},
            }
            assert(strings_view(row@) =~= before + setting_tokens(ss[k as int]));
        }
        assert(strings_view(row@) =~= r0 + core_tokens(ss, sv, i as int, lo as int, k + 1));
        k = k + 1;
    }
}

/// The environment of core `i` for the settings `0..hi`.
fn core_env_vars(settings: &Vec<AflSetting>, sel: &Vec<Vec<bool>>, i: usize) -> (r: EnvVars)
    requires
        sel@.len() == settings@.len(),
        forall|k: int| 0 <= k < sel@.len() ==> i < (#[trigger] sel@[k])@.len(),
    ensures
        r@ == core_env(settings_spec(settings@), sel_view(sel@), i as int, settings@.len() as int),
{
    let ghost ss = settings_spec(settings@);
    let ghost sv = sel_view(sel@);
    let mut r = EnvVars::new();
    let mut k: usize = 0;
    while k < settings.len()
        invariant
            k <= settings@.len(),
            sel@.len() == settings@.len(),
            forall|x: int| 0 <= x < sel@.len() ==> i < (#[trigger] sel@[x])@.len(),
            ss == settings_spec(settings@),
            sv == sel_view(sel@),
            r@ == core_env(ss, sv, i as int, k as int),
        decreases settings@.len() - k,
    {
        assert(sv[k as int] == sel@[k as int]@);
        if sel[k][i] {
            let st = &settings[k];
            assert(ss[k as int] == st.spec());
            let value = match &st.value {
                Some(v) => v.clone(),
                None => "1".to_owned(),
            };
            r.insert(st.name.clone(), value);
        }
        k = k + 1;
    }
    r
}

/// The arguments and environments of `cores` AFL++ instances, for some
/// valid selection of the environment and argument settings.
pub open spec fn is_recommended(
    cores: nat,
    compare_log: Option<Seq<char>>,
    limit_input_len: bool,
    args: Seq<Seq<Seq<char>>>,
    envs: Seq<Map<Seq<char>, Seq<char>>>,
) -> bool {
    exists|se: Seq<Seq<bool>>, sa: Seq<Seq<bool>>|
        {
            &&& valid_selection(cores, env_settings(limit_input_len), se)
            &&& valid_selection(cores, arg_settings(compare_log), sa)
            &&& args.len() == cores
            &&& envs.len() == cores
            &&& forall|i: int|
                0 <= i < cores ==> #[trigger] args[i] == core_args(arg_settings(compare_log), sa, i) && envs[i]
                    == core_env(env_settings(limit_input_len), se, i, env_settings(limit_input_len).len() as int)
        }
}

/// The arguments of core `i`.
fn core_row(arg_list: &Vec<AflSetting>, arg_sel: &Vec<Vec<bool>>, i: usize) -> (row: Vec<String>)
    requires
        arg_sel@.len() == arg_list@.len(),
        arg_list@.len() >= num_plain_arg_settings(),
        forall|k: int| 0 <= k < arg_sel@.len() ==> i < (#[trigger] arg_sel@[k])@.len(),
    ensures
        strings_view(row@) == core_args(settings_spec(arg_list@), sel_view(arg_sel@), i as int),
{
    let mut row: Vec<String> = Vec::new();
    push_core_tokens(&mut row, arg_list, arg_sel, i, 0, 6);
    row.push("-p".to_owned());
    row.push(power_schedule(i));
    push_core_tokens(&mut row, arg_list, arg_sel, i, 6, arg_list.len());
    assert(strings_view(row@) =~= core_args(settings_spec(arg_list@), sel_view(arg_sel@), i as int));
    row
}

/// Recommended `afl-fuzz` settings for `cores` instances: for each instance
/// its extra arguments and its environment. `limit_input_len` adds the
/// settings that limit the length of inputs.
pub fn recommended_aflpp_settings(cores: usize, options: &EnsembleOptions, limit_input_len: bool) -> (r: (
    Vec<Vec<String>>,
    Vec<EnvVars>,
))
    ensures
        is_recommended(
            cores as nat,
            compare_log_view(*options),
            limit_input_len,
            r.0@.map_values(|v: Vec<String>| strings_view(v@)),
            r.1@.map_values(|e: EnvVars| e@),
        ),
{
    let env_list = env_setting_list(limit_input_len);
    let arg_list = arg_setting_list(options.compare_log_binary());
    let ghost es = env_settings(limit_input_len);
    let ghost as_ = arg_settings(compare_log_view(*options));
    assert(settings_spec(env_list@) == es);
    assert(settings_spec(arg_list@) == as_);
    let env_sel = select_cores(cores, &env_list);
    let arg_sel = select_cores(cores, &arg_list);
    let ghost se = sel_view(env_sel@);
    let ghost sa = sel_view(arg_sel@);
    assert forall|k: int| 0 <= k < env_sel@.len() implies cores == (#[trigger] env_sel@[k])@.len() by {
        assert(se[k] == env_sel@[k]@);
    }
    assert forall|k: int| 0 <= k < arg_sel@.len() implies cores == (#[trigger] arg_sel@[k])@.len() by {
        assert(sa[k] == arg_sel@[k]@);
    }
    let mut args: Vec<Vec<String>> = Vec::new();
    let mut envs: Vec<EnvVars> = Vec::new();
    let mut i: usize = 0;
    assert(args@.map_values(|v: Vec<String>| strings_view(v@)) =~= Seq::new(0, |x: int| core_args(as_, sa, x)));
    assert(envs@.map_values(|e: EnvVars| e@) =~= Seq::new(0, |x: int| core_env(es, se, x, es.len() as int)));
    while i < cores
        invariant
            i <= cores,
            env_sel@.len() == env_list@.len(),
            arg_sel@.len() == arg_list@.len(),
            arg_list@.len() >= num_plain_arg_settings(),
            forall|k: int| 0 <= k < env_sel@.len() ==> cores == (#[trigger] env_sel@[k])@.len(),
            forall|k: int| 0 <= k < arg_sel@.len() ==> cores == (#[trigger] arg_sel@[k])@.len(),
            se == sel_view(env_sel@),
            sa == sel_view(arg_sel@),
            es == settings_spec(env_list@),
            as_ == settings_spec(arg_list@),
            args@.map_values(|v: Vec<String>| strings_view(v@)) == Seq::new(i as nat, |x: int| core_args(as_, sa, x)),
            envs@.map_values(|e: EnvVars| e@) == Seq::new(i as nat, |x: int| core_env(es, se, x, es.len() as int)),
        decreases cores - i,
    {
        let row = core_row(&arg_list, &arg_sel, i);
        let env = core_env_vars(&env_list, &env_sel, i);
        let ghost a0 = args@;
        let ghost e0 = envs@;
        args.push(row);
        envs.push(env);
        proof {
            assert(args@.map_values(|v: Vec<String>| strings_view(v@)) =~= a0.map_values(
                |v: Vec<String>| strings_view(v@),
            ).push(strings_view(row@)));
            assert(envs@.map_values(|e: EnvVars| e@) =~= e0.map_values(|e: EnvVars| e@).push(env@));
            assert(Seq::new((i + 1) as nat, |x: int| core_args(as_, sa, x)) =~= Seq::new(
                i as nat,
                |x: int| core_args(as_, sa, x),
            ).push(core_args(as_, sa, i as int)));
            assert(Seq::new((i + 1) as nat, |x: int| core_env(es, se, x, es.len() as int)) =~= Seq::new(
                i as nat,
                |x: int| core_env(es, se, x, es.len() as int),
            ).push(core_env(es, se, i as int, es.len() as int)));
        }
        i = i + 1;
    }
    proof {
        let av = args@.map_values(|v: Vec<String>| strings_view(v@));
        let ev = envs@.map_values(|e: EnvVars| e@);
        assert forall|x: int| 0 <= x < cores implies #[trigger] av[x] == core_args(as_, sa, x) && ev[x]
            == core_env(es, se, x, es.len() as int) by {
            assert(av[x] == Seq::new(i as nat, |x: int| core_args(as_, sa, x))[x]);
            assert(ev[x] == Seq::new(i as nat, |x: int| core_env(es, se, x, es.len() as int))[x]);
        }
        assert(is_recommended(cores as nat, compare_log_view(*options), limit_input_len, av, ev));
    }
    (args, envs)
}

} // verus!

verus! {

/// A core never gets two settings of the same name: with a valid selection,
/// no two settings named alike both go to one core.
pub proof fn lemma_one_setting_per_name(
    cores: nat,
    settings: Seq<SettingSpec>,
    sel: Seq<Seq<bool>>,
    k1: int,
    k2: int,
    i: int,
)
    requires
        valid_selection(cores, settings, sel),
        0 <= k1 < k2 < settings.len(),
        0 <= i < cores,
        settings[k1].0 == settings[k2].0,
    ensures
        !(sel[k1][i] && sel[k2][i]),
{
    if sel[k1][i] && sel[k2][i] {
        assert(used_upto(settings, sel, k2, settings[k2].0, i));
    }
}

} // verus!

verus! {

/// A setting whose name no earlier setting has goes to exactly its share of
/// the cores.
pub proof fn lemma_first_of_name_gets_its_share(cores: nat, settings: Seq<SettingSpec>, sel: Seq<Seq<bool>>, k: int)
    requires
        valid_selection(cores, settings, sel),
        0 <= k < settings.len(),
        settings[k].2 <= 100,
        forall|j: int| 0 <= j < k ==> settings[j].0 != settings[k].0,
    ensures
        count_true(sel[k]) == share(cores, settings[k].2),
{
    let u = used_before_seq(settings, sel, k, cores);
    assert forall|i: int| 0 <= i < u.len() implies !u[i] by {
        if used_before(settings, sel, k, i) {
            let j = choose|j: int| 0 <= j < k && settings[j].0 == settings[k].0 && (#[trigger] sel[j])[i];
        }
    }
    lemma_count_true_false(u);
    let p = settings[k].2;
    assert(cores * p <= cores * 100) by (nonlinear_arith)
        requires
            p <= 100,
    ;
    assert(share(cores, p) <= cores);
}

} // verus!
