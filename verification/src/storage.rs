//! Persisted benchmark data: the key under which a calibration is saved,
//! the calibration profiles themselves, and the list of saved reports. The
//! reading and writing of browser storage happens outside this module; here
//! are the decisions made on the loaded values.

use vstd::prelude::*;
use vstd::string::*;

use std::collections::HashMap;

use crate::text::str_eq;

verus! {

/// The character of a decimal digit.
pub open spec fn digit_char(d: nat) -> char {
    if d == 0 {
        '0'
    } else if d == 1 {
        '1'
    } else if d == 2 {
        '2'
    } else if d == 3 {
        '3'
    } else if d == 4 {
        '4'
    } else if d == 5 {
        '5'
    } else if d == 6 {
        '6'
    } else if d == 7 {
        '7'
    } else if d == 8 {
        '8'
    } else {
        '9'
    }
}

/// The decimal notation of a number, without leading zeros.
pub open spec fn decimal(n: nat) -> Seq<char>
    decreases n,
{
    if n < 10 {
        seq![digit_char(n)]
    } else {
        decimal(n / 10).push(digit_char(n % 10))
    }
}

/// The key under which the calibration for a backend, SIMD setting and
/// viewport is saved.
pub open spec fn calibration_key_text(backend: Seq<char>, simd: bool, width: nat, height: nat) -> Seq<
    char,
> {
    "backend="@ + backend + ";simd="@ + (if simd {
        "1"@
    } else {
        "0"@
    }) + ";width="@ + decimal(width) + ";height="@ + decimal(height)
}

fn digit_str(d: u32) -> (s: &'static str)
    requires
        d < 10,
    ensures
        s@ == seq![digit_char(d as nat)],
{
    if d == 0 {
        proof {
            reveal_strlit("0");
        }
        "0"
    } else if d == 1 {
        proof {
            reveal_strlit("1");
        }
        "1"
    } else if d == 2 {
        proof {
            reveal_strlit("2");
        }
        "2"
    } else if d == 3 {
        proof {
            reveal_strlit("3");
        }
        "3"
    } else if d == 4 {
        proof {
            reveal_strlit("4");
        }
        "4"
    } else if d == 5 {
        proof {
            reveal_strlit("5");
        }
        "5"
    } else if d == 6 {
        proof {
            reveal_strlit("6");
        }
        "6"
    } else if d == 7 {
        proof {
            reveal_strlit("7");
        }
        "7"
    } else if d == 8 {
        proof {
            reveal_strlit("8");
        }
        "8"
    } else {
        proof {
            reveal_strlit("9");
        }
        "9"
    }
}

/// Appends the decimal notation of `n`.
fn append_decimal(out: &mut String, n: u32)
    ensures
        final(out)@ == old(out)@ + decimal(n as nat),
    decreases n,
{
    if n >= 10 {
        append_decimal(out, n / 10);
    }
    out.append(digit_str(n % 10));
    proof {
        if n >= 10 {
            assert(old(out)@ + decimal((n / 10) as nat) + seq![digit_char((n % 10) as nat)] =~= old(
                out,
            )@ + decimal(n as nat));
        } else {
            assert(decimal(n as nat) == seq![digit_char(n as nat)]);
        }
    }
}

/// The key under which the calibration for a backend, SIMD setting and
/// viewport is saved, such as `backend=hybrid;simd=1;width=800;height=600`.
pub fn calibration_key(backend: &str, simd: bool, width: u32, height: u32) -> (key: String)
    ensures
        key@ == calibration_key_text(backend@, simd, width as nat, height as nat),
{
    let mut key = String::from_str("backend=");
    key.append(backend);
    key.append(";simd=");
    key.append(if simd { "1" } else { "0" });
    key.append(";width=");
    append_decimal(&mut key, width);
    key.append(";height=");
    append_decimal(&mut key, height);
    key
}

/// Calibrated counts of one backend, SIMD setting and viewport, per group of
/// benchmarks that scale together.
pub struct CalibrationProfile {
    pub key: String,
    /// One count per group.
    pub counts: HashMap<u32, usize>,
}

/// The count recorded for a group, if any.
pub open spec fn count_of(counts: Map<u32, usize>, group: u32) -> Option<usize> {
    if counts.contains_key(group) {
        Some(counts[group])
    } else {
        None
    }
}

impl CalibrationProfile {
    /// The calibrated count of a group, if it was calibrated.
    pub fn count_for(&self, group: u32) -> (r: Option<usize>)
        ensures
            r == count_of(self.counts@, group),
    {
        broadcast use vstd::std_specs::hash::group_hash_axioms;

        match self.counts.get(&group) {
            Some(count) => Some(*count),
            None => None,
        }
    }
}

/// All saved calibration profiles.
pub struct CalibrationStore {
    pub profiles: Vec<CalibrationProfile>,
}

/// `i` is the first profile saved under `key`.
pub open spec fn is_first_match(ps: Seq<CalibrationProfile>, key: Seq<char>, i: int) -> bool {
    &&& 0 <= i < ps.len()
    &&& ps[i].key@ == key
    &&& forall|j: int| 0 <= j < i ==> #[trigger] ps[j].key@ != key
}

/// The first profile saved under `key`, if any.
pub open spec fn profile_for(ps: Seq<CalibrationProfile>, key: Seq<char>) -> Option<
    CalibrationProfile,
> {
    if exists|i: int| is_first_match(ps, key, i) {
        Some(ps[choose|i: int| is_first_match(ps, key, i)])
    } else {
        None
    }
}

/// The profiles after saving `p`: it replaces the first profile with its
/// key, or is added at the end.
pub open spec fn saved_profiles(ps: Seq<CalibrationProfile>, p: CalibrationProfile) -> Seq<
    CalibrationProfile,
> {
    if exists|i: int| is_first_match(ps, p.key@, i) {
        ps.update(choose|i: int| is_first_match(ps, p.key@, i), p)
    } else {
        ps.push(p)
    }
}

proof fn lemma_first_match_unique(ps: Seq<CalibrationProfile>, key: Seq<char>, i: int, j: int)
    requires
        is_first_match(ps, key, i),
        is_first_match(ps, key, j),
    ensures
        i == j,
{
    if i < j {
        assert(ps[i].key@ != key);
    } else if j < i {
        assert(ps[j].key@ != key);
    }
}

/// Position of the first profile saved under `key`.
fn first_profile_index(ps: &Vec<CalibrationProfile>, key: &str) -> (r: Option<usize>)
    ensures
        match r {
            Some(i) => is_first_match(ps@, key@, i as int),
            None => forall|j: int| 0 <= j < ps@.len() ==> #[trigger] ps@[j].key@ != key@,
        },
{
    let mut i: usize = 0;
    while i < ps.len()
        invariant
            i <= ps@.len(),
            forall|j: int| 0 <= j < i ==> #[trigger] ps@[j].key@ != key@,
        decreases ps@.len() - i,
    {
        if str_eq(ps[i].key.as_str(), key) {
            return Some(i);
        }
        i = i + 1;
    }
    None
}

/// The calibration profile saved under `key`, if any.
pub fn load_calibration_profile<'a>(store: &'a CalibrationStore, key: &str) -> (r: Option<
    &'a CalibrationProfile,
>)
    ensures
        match r {
            Some(p) => profile_for(store.profiles@, key@) == Some(*p),
            None => profile_for(store.profiles@, key@) is None,
        },
{
    match first_profile_index(&store.profiles, key) {
        Some(i) => {
            proof {
                let c = choose|c: int| is_first_match(store.profiles@, key@, c);
                lemma_first_match_unique(store.profiles@, key@, i as int, c);
            }
            Some(&store.profiles[i])
        },
        None => None,
    }
}

/// Saves a profile: it replaces the first profile with the same key, or is
/// added at the end.
pub fn save_calibration_profile(store: &mut CalibrationStore, profile: CalibrationProfile)
    ensures
        final(store).profiles@ == saved_profiles(old(store).profiles@, profile),
{
    let found = first_profile_index(&store.profiles, profile.key.as_str());
    match found {
        Some(i) => {
            proof {
                let c = choose|c: int| is_first_match(store.profiles@, profile.key@, c);
                lemma_first_match_unique(store.profiles@, profile.key@, i as int, c);
            }
            store.profiles.set(i, profile);
        },
        None => {
            store.profiles.push(profile);
        },
    }
}

/// Deletes the report at `idx`; reports whether there was one to delete.
pub fn delete_report<R>(reports: &mut Vec<R>, idx: usize) -> (deleted: bool)
    ensures
        deleted == (idx < old(reports)@.len()),
        deleted ==> final(reports)@ == old(reports)@.remove(idx as int),
        !deleted ==> final(reports)@ == old(reports)@,
{
    if idx < reports.len() {
        reports.remove(idx);
        true
    } else {
        false
    }
}


proof fn lemma_some_match_has_first(ps: Seq<CalibrationProfile>, key: Seq<char>, j: int)
    requires
        0 <= j < ps.len(),
        ps[j].key@ == key,
    ensures
        exists|i: int| is_first_match(ps, key, i),
    decreases j,
{
    if forall|l: int| 0 <= l < j ==> #[trigger] ps[l].key@ != key {
        assert(is_first_match(ps, key, j));
    } else {
        let l = choose|l: int| 0 <= l < j && #[trigger] ps[l].key@ == key;
        lemma_some_match_has_first(ps, key, l);
    }
}

proof fn lemma_same_keys_same_first(ps: Seq<CalibrationProfile>, qs: Seq<CalibrationProfile>, key: Seq<char>)
    requires
        ps.len() <= qs.len(),
        forall|m: int| 0 <= m < ps.len() ==> (#[trigger] qs[m].key@ == key <==> ps[m].key@ == key),
        forall|m: int| ps.len() <= m < qs.len() ==> #[trigger] qs[m].key@ != key,
    ensures
        forall|j: int| is_first_match(qs, key, j) <==> is_first_match(ps, key, j),
{
    assert forall|j: int| is_first_match(qs, key, j) implies is_first_match(ps, key, j) by {
        assert forall|m: int| 0 <= m < j implies #[trigger] ps[m].key@ != key by {
            assert(qs[m].key@ != key);
        }
    }
    assert forall|j: int| is_first_match(ps, key, j) implies is_first_match(qs, key, j) by {
        assert forall|m: int| 0 <= m < j implies #[trigger] qs[m].key@ != key by {
            assert(ps[m].key@ != key);
        }
    }
}

/// A saved profile is what a later load under its key finds, and profiles
/// under other keys are not affected.
pub proof fn law_saved_profile_is_loaded(ps: Seq<CalibrationProfile>, p: CalibrationProfile, key: Seq<char>)
    ensures
        profile_for(saved_profiles(ps, p), p.key@) == Some(p),
        key != p.key@ ==> profile_for(saved_profiles(ps, p), key) == profile_for(ps, key),
{
    let qs = saved_profiles(ps, p);
    if exists|i: int| is_first_match(ps, p.key@, i) {
        let i = choose|i: int| is_first_match(ps, p.key@, i);
        assert(is_first_match(qs, p.key@, i));
        let c = choose|c: int| is_first_match(qs, p.key@, c);
        lemma_first_match_unique(qs, p.key@, i, c);
        if key != p.key@ {
            assert forall|m: int| 0 <= m < ps.len() implies (#[trigger] qs[m].key@ == key <==> ps[m].key@
                == key) by {
                if m == i {
                    assert(qs[m] == p);
                } else {
                    assert(qs[m] == ps[m]);
                }
            }
            lemma_same_keys_same_first(ps, qs, key);
        }
    } else {
        let n = ps.len() as int;
        assert forall|j: int| 0 <= j < n implies #[trigger] qs[j].key@ != p.key@ by {
            assert(qs[j] == ps[j]);
            if ps[j].key@ == p.key@ {
                lemma_some_match_has_first(ps, p.key@, j);
            }
        }
        assert(is_first_match(qs, p.key@, n));
        let c = choose|c: int| is_first_match(qs, p.key@, c);
        lemma_first_match_unique(qs, p.key@, n, c);
        if key != p.key@ {
            assert forall|m: int| 0 <= m < ps.len() implies (#[trigger] qs[m].key@ == key <==> ps[m].key@
                == key) by {
                assert(qs[m] == ps[m]);
            }
            assert(qs[n] == p);
            lemma_same_keys_same_first(ps, qs, key);
        }
    }
}


/// No two profiles are saved under the same key.
pub open spec fn profile_keys_unique(ps: Seq<CalibrationProfile>) -> bool {
    forall|i: int, j: int| 0 <= i < j < ps.len() ==> ps[i].key@ != ps[j].key@
}

/// Saving a profile keeps at most one profile per key: it replaces the
/// profile saved under its key, and adds one only where there was none.
pub proof fn law_save_keeps_one_profile_per_key(ps: Seq<CalibrationProfile>, p: CalibrationProfile)
    requires
        profile_keys_unique(ps),
    ensures
        profile_keys_unique(saved_profiles(ps, p)),
        saved_profiles(ps, p).len() == ps.len() + if profile_for(ps, p.key@) is Some {
            0int
        } else {
            1int
        },
{
    let qs = saved_profiles(ps, p);
    if exists|i: int| is_first_match(ps, p.key@, i) {
        let i = choose|i: int| is_first_match(ps, p.key@, i);
        assert forall|a: int, b: int| 0 <= a < b < qs.len() implies qs[a].key@ != qs[b].key@ by {
            assert(qs[a].key@ == ps[a].key@);
            assert(qs[b].key@ == ps[b].key@);
        }
    } else {
        assert forall|a: int, b: int| 0 <= a < b < qs.len() implies qs[a].key@ != qs[b].key@ by {
            if b == ps.len() && ps[a].key@ == p.key@ {
                lemma_some_match_has_first(ps, p.key@, a);
            }
            if b < ps.len() {
                assert(qs[a] == ps[a] && qs[b] == ps[b]);
            }
        }
    }
}

proof fn lemma_decimal_shape(n: nat)
    ensures
        decimal(n).len() >= 1,
        n >= 10 ==> decimal(n).len() >= 2,
        forall|i: int| 0 <= i < decimal(n).len() ==> #[trigger] decimal(n)[i] != ';',
    decreases n,
{
    if n >= 10 {
        lemma_decimal_shape(n / 10);
        let d = decimal(n / 10);
        assert forall|i: int| 0 <= i < decimal(n).len() implies #[trigger] decimal(n)[i] != ';' by {
            if i < d.len() {
                assert(decimal(n)[i] == d[i]);
            }
        }
    }
}

proof fn lemma_decimal_injective(a: nat, b: nat)
    ensures
        decimal(a) == decimal(b) ==> a == b,
    decreases a,
{
    lemma_decimal_shape(a);
    lemma_decimal_shape(b);
    if decimal(a) == decimal(b) {
        if a >= 10 && b >= 10 {
            assert(decimal(a).drop_last() =~= decimal(a / 10));
            assert(decimal(b).drop_last() =~= decimal(b / 10));
            lemma_decimal_injective(a / 10, b / 10);
            assert(decimal(a).last() == digit_char(a % 10));
            assert(decimal(b).last() == digit_char(b % 10));
        } else if a < 10 && b < 10 {
            assert(decimal(a)[0] == digit_char(a));
            assert(decimal(b)[0] == digit_char(b));
        }
    }
}

/// Calibrations of different viewports are saved under different keys.
pub proof fn law_calibration_keys_tell_viewports_apart(
    backend: Seq<char>,
    simd: bool,
    w1: nat,
    h1: nat,
    w2: nat,
    h2: nat,
)
    ensures
        calibration_key_text(backend, simd, w1, h1) == calibration_key_text(backend, simd, w2, h2)
            ==> w1 == w2 && h1 == h2,
{
    reveal_strlit(";height=");
    let p = "backend="@ + backend + ";simd="@ + (if simd {
        "1"@
    } else {
        "0"@
    }) + ";width="@;
    let hs = ";height="@;
    let d1 = decimal(w1);
    let d2 = decimal(w2);
    let e1 = decimal(h1);
    let e2 = decimal(h2);
    let k1 = calibration_key_text(backend, simd, w1, h1);
    let k2 = calibration_key_text(backend, simd, w2, h2);
    assert(k1 =~= p + d1 + hs + e1);
    assert(k2 =~= p + d2 + hs + e2);
    lemma_decimal_shape(w1);
    lemma_decimal_shape(w2);
    if k1 == k2 {
        let l = p.len() as int;
        if d1.len() < d2.len() {
            assert(k1[l + d1.len()] == hs[0]);
            assert(k2[l + d1.len()] == d2[d1.len() as int]);
        } else if d2.len() < d1.len() {
            assert(k2[l + d2.len()] == hs[0]);
            assert(k1[l + d2.len()] == d1[d2.len() as int]);
        } else {
            assert(d1 =~= k1.subrange(l, l + d1.len()));
            assert(d2 =~= k2.subrange(l, l + d2.len()));
            lemma_decimal_injective(w1, w2);
            let t = l + d1.len() + hs.len();
            assert(e1 =~= k1.subrange(t, k1.len() as int));
            assert(e2 =~= k2.subrange(t, k2.len() as int));
            lemma_decimal_injective(h1, h2);
        }
    }
}

} // verus!
