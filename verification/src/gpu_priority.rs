//! The registry values that raise the GPU and CPU priority of the "Games"
//! multimedia task, and the exact bytes handed to the registry for each.
use vstd::prelude::*;
use crate::backup::gpu_priority_touches;
use crate::keys::{join2, GAMES_SUFFIX, HKLM, MULTIMEDIA_SUBKEY};
use crate::encoding::{dword_bytes, units_le_bytes, wide, u16s_le, u32_le, utf16_encode};

verus! {

/// Data of a registry value: a 32-bit number (`REG_DWORD`) or a text (`REG_SZ`).
#[derive(Debug, Clone)]
pub enum RegData {
    Dword(u32),
    Sz(String),
}

/// One named value to write under a registry key.
#[derive(Debug, Clone)]
pub struct RegSetting {
    pub name: String,
    pub data: RegData,
}

/// Path, under `HKEY_LOCAL_MACHINE`, of the key that holds the "Games" task
/// profile: the "Games" task below the multimedia system profile.
pub fn games_task_key() -> (res: String)
    ensures
        res@ == MULTIMEDIA_SUBKEY@ + GAMES_SUFFIX@,
{
    join2(MULTIMEDIA_SUBKEY, GAMES_SUFFIX)
}

/// The setting `s` has name `name` and holds the number `v`.
pub open spec fn is_dword_setting(s: RegSetting, name: Seq<char>, v: u32) -> bool {
    &&& s.name@ == name
    &&& s.data matches RegData::Dword(x) && x == v
}

/// The setting `s` has name `name` and holds the text `t`.
pub open spec fn is_sz_setting(s: RegSetting, name: Seq<char>, t: Seq<char>) -> bool {
    &&& s.name@ == name
    &&& s.data matches RegData::Sz(x) && x@ == t
}

/// The four values written, in this order: numbers as `REG_DWORD`, texts as
/// `REG_SZ`; they are the values the backup lists for this step.
pub fn games_task_settings() -> (res: Vec<RegSetting>)
    ensures
        res@.len() == 4,
        is_dword_setting(res@[0], "GPU Priority"@, 8),
        is_dword_setting(res@[1], "Priority"@, 6),
        is_sz_setting(res@[2], "Scheduling Category"@, "High"@),
        is_sz_setting(res@[3], "SFIO Priority"@, "High"@),
        forall|i: int|
            0 <= i < 4 ==> #[trigger] gpu_priority_touches()[i] == (
                HKLM@ + MULTIMEDIA_SUBKEY@ + GAMES_SUFFIX@,
                res@[i].name@,
                false,
                1int,
            ),
{
    let mut res: Vec<RegSetting> = Vec::new();
    res.push(RegSetting { name: String::from_str("GPU Priority"), data: RegData::Dword(8) });
    res.push(RegSetting { name: String::from_str("Priority"), data: RegData::Dword(6) });
    res.push(
        RegSetting {
            name: String::from_str("Scheduling Category"),
            data: RegData::Sz(String::from_str("High")),
        },
    );
    res.push(
        RegSetting {
            name: String::from_str("SFIO Priority"),
            data: RegData::Sz(String::from_str("High")),
        },
    );
    res
}

/// The bytes that represent `d` in the registry.
pub open spec fn reg_data_spec(d: RegData) -> Seq<u8> {
    match d {
        RegData::Dword(v) => u32_le(v),
        RegData::Sz(s) => u16s_le(utf16_encode(s@).push(0u16)),
    }
}

/// The bytes that represent `d` in the registry: the four little-endian bytes
/// of a number, or the little-endian UTF-16 units of a text with its NUL terminator.
pub fn reg_data_bytes(d: &RegData) -> (res: Vec<u8>)
    ensures
        res@ == reg_data_spec(*d),
        d is Dword ==> res@.len() == 4,
        d matches RegData::Sz(s) ==> res@.len() == 2 * (utf16_encode(s@).len() + 1),
{
    match d {
        RegData::Dword(v) => dword_bytes(*v),
        RegData::Sz(s) => {
            let w = wide(s.as_str());
            units_le_bytes(&w)
        },
    }
}

/// All writes so far succeeded.
pub open spec fn all_written(done: Seq<bool>) -> bool {
    forall|i: int| 0 <= i < done.len() ==> done[i]
}

/// Which of the four settings to write next, given whether each write so far
/// succeeded: the next one while every write succeeded, none once a write
/// failed (the values already written stay) or all four are written.
pub fn next_setting(done: &Vec<bool>) -> (res: Option<usize>)
    ensures
        res == (if done@.len() < 4 && all_written(done@) {
            Some(done@.len() as usize)
        } else {
            None
        }),
{
    let mut i: usize = 0;
    while i < done.len()
        invariant
            i <= done.len(),
            forall|k: int| 0 <= k < i ==> done@[k],
        decreases done.len() - i,
    {
        if !done[i] {
            return None;
        }
        i = i + 1;
    }
    if done.len() < 4 {
        Some(done.len())
    } else {
        None
    }
}

/// Once a write has failed nothing more is written, at most four settings are
/// written, and while every write succeeded the next setting is the one after
/// those already written.
pub proof fn lemma_next_setting(done: Seq<bool>)
    ensures
        (exists|i: int| 0 <= i < done.len() && !done[i]) ==> !(done.len() < 4 && all_written(done)),
        done.len() >= 4 ==> !(done.len() < 4 && all_written(done)),
        (done.len() < 4 && forall|i: int| 0 <= i < done.len() ==> done[i]) ==> (done.len() < 4
            && all_written(done)),
{
}

} // verus!
