//! What the dashboard shows besides the telemetry: the active power plan, read
//! from `powercfg /getactivescheme`, and whether GPU scheduling is on.
use vstd::prelude::*;
use crate::text::chars_of;
use vstd::string::StrSliceExecFns;

verus! {

/// The first position at or after `from` where `s` holds `c`, or -1.
pub open spec fn index_from(s: Seq<char>, c: char, from: int) -> int
    decreases s.len() - from,
{
    if from < 0 || from >= s.len() {
        -1
    } else if s[from] == c {
        from
    } else {
        index_from(s, c, from + 1)
    }
}

/// The plan name in `powercfg /getactivescheme` output: the text between the
/// first `(` and the next `)`, if both are there.
pub open spec fn plan_name_spec(out: Seq<char>) -> Option<Seq<char>> {
    let i = index_from(out, '(', 0);
    if i < 0 {
        None
    } else {
        let j = index_from(out, ')', i + 1);
        if j < 0 {
            None
        } else {
            Some(out.subrange(i + 1, j))
        }
    }
}

/// The first position at or after `from` where `v` holds `c`, or `None`.
fn find_char(v: &Vec<char>, c: char, from: usize) -> (res: Option<usize>)
    ensures
        match res {
            Some(k) => k as int == index_from(v@, c, from as int) && from <= k < v.len(),
            None => index_from(v@, c, from as int) == -1,
        },
{
    let mut k = from;
    while k < v.len()
        invariant
            from <= k,
            index_from(v@, c, from as int) == index_from(v@, c, k as int),
        decreases v.len() - k,
    {
        if v[k] == c {
            return Some(k);
        }
        k = k + 1;
    }
    None
}

/// The name of the active power plan in `powercfg /getactivescheme` output.
pub fn plan_name(out: &str) -> (res: Option<String>)
    ensures
        match res {
            Some(n) => plan_name_spec(out@) == Some(n@),
            None => plan_name_spec(out@) is None,
        },
{
    let v = chars_of(out);
    match find_char(&v, '(', 0) {
        None => None,
        Some(i) => match find_char(&v, ')', i + 1) {
            None => None,
            Some(j) => Some(String::from_str(out.substring_char(i + 1, j))),
        },
    }
}

/// How the dashboard shows GPU scheduling, from the `HwSchMode` registry value.
pub open spec fn hags_label_spec(value: Option<u32>) -> Seq<char> {
    match value {
        Some(v) => if v == 2 {
            "activé"@
        } else {
            "désactivé"@
        },
        None => "inconnu"@,
    }
}

/// How the dashboard shows GPU scheduling: `activé` when `HwSchMode` is 2,
/// `désactivé` for any other value, `inconnu` when it could not be read.
pub fn hags_label(value: Option<u32>) -> (res: &'static str)
    ensures
        res@ == hags_label_spec(value),
{
    match value {
        Some(v) => if v == 2 {
            "activé"
        } else {
            "désactivé"
        },
        None => "inconnu",
    }
}

} // verus!
