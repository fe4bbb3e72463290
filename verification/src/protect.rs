//! The maintenance daemon's decision at each tick: it re-trims the background
//! processes at every tick, and tells whether memory was under pressure.
use vstd::prelude::*;

verus! {

/// Seconds between two ticks of the maintenance daemon.
pub const PROTECT_INTERVAL_SECS: u64 = 30;

/// What the daemon does at one tick.
#[derive(Debug, Clone, Copy, PartialEq, Eq, Structural)]
pub struct ProtectTick {
    /// Whether to trim the background working sets (at every tick).
    pub trim: bool,
    /// Whether memory use was above 85 % of the total at this tick.
    pub pressure_high: bool,
}

/// Memory use is above 85 % of the total.
pub open spec fn pressure_high(used: u64, total: u64) -> bool {
    (used as int) * 100 > 85 * (total as int)
}

/// Whether the used memory exceeds 85 % of the total.
pub fn memory_pressure_high(used: u64, total: u64) -> (res: bool)
    ensures
        res == pressure_high(used, total),
{
    (used as u128) * 100 > 85 * (total as u128)
}

/// The daemon's decision for one reading of used and total memory: the
/// working sets are re-trimmed at every tick; the reading only tells whether
/// memory was under pressure.
pub fn protect_step(used: u64, total: u64) -> (res: ProtectTick)
    ensures
        res.trim,
        res.pressure_high == pressure_high(used, total),
{
    ProtectTick { trim: true, pressure_high: memory_pressure_high(used, total) }
}

/// Using more memory never turns a high-pressure reading into a normal one.
pub proof fn lemma_pressure_monotone(u1: u64, u2: u64, total: u64)
    requires
        u1 <= u2,
    ensures
        pressure_high(u1, total) ==> pressure_high(u2, total),
{
}

/// Memory is under pressure exactly when more than 17 parts in 20 of it are used.
pub proof fn lemma_pressure_threshold(used: u64, total: u64)
    ensures
        pressure_high(used, total) <==> (used as int) * 20 > (total as int) * 17,
{
}

} // verus!
