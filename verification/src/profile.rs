//! The hardware profile reported before tuning, from installed memory and CPU count.
use vstd::prelude::*;

verus! {

/// Detected hardware class.
#[derive(Debug, Clone, Copy, PartialEq, Eq, Structural)]
pub enum Profile {
    GamingRig,
    Workstation,
    Laptop,
    MinimalPC,
}

/// The class of a machine with `total_mb` MiB of memory and `cores` logical CPUs.
pub open spec fn classify_spec(total_mb: u64, cores: usize) -> Profile {
    if total_mb >= 32_000 && cores >= 16 {
        Profile::GamingRig
    } else if total_mb >= 16_000 && cores >= 8 {
        Profile::Workstation
    } else if total_mb >= 8_000 && cores >= 4 {
        Profile::Laptop
    } else {
        Profile::MinimalPC
    }
}

/// How capable a class is, from 0 (minimal) to 3 (gaming rig).
pub open spec fn rank(p: Profile) -> int {
    match p {
        Profile::GamingRig => 3,
        Profile::Workstation => 2,
        Profile::Laptop => 1,
        Profile::MinimalPC => 0,
    }
}

/// The text shown for each class.
pub open spec fn label_spec(p: Profile) -> Seq<char> {
    match p {
        Profile::GamingRig => "Gaming Rig"@,
        Profile::Workstation => "Workstation équilibrée"@,
        Profile::Laptop => "Laptop / polyvalent"@,
        Profile::MinimalPC => "MinimalPC — on serre les vis"@,
    }
}

/// The class of a machine with `total_mb` MiB of memory and `cores` logical CPUs.
pub fn classify_profile(total_mb: u64, cores: usize) -> (res: Profile)
    ensures
        res == classify_spec(total_mb, cores),
{
    if total_mb >= 32_000 && cores >= 16 {
        Profile::GamingRig
    } else if total_mb >= 16_000 && cores >= 8 {
        Profile::Workstation
    } else if total_mb >= 8_000 && cores >= 4 {
        Profile::Laptop
    } else {
        Profile::MinimalPC
    }
}

impl Profile {
    /// The text shown for this class.
    pub fn label(&self) -> (res: &'static str)
        ensures
            res@ == label_spec(*self),
    {
        match self {
            Profile::GamingRig => "Gaming Rig",
            Profile::Workstation => "Workstation équilibrée",
            Profile::Laptop => "Laptop / polyvalent",
            Profile::MinimalPC => "MinimalPC — on serre les vis",
        }
    }
}

/// The text of the class of a machine with `total_memory_bytes` bytes of memory
/// and `cores` logical CPUs (memory counted in whole MiB).
pub fn detect_profile(total_memory_bytes: u64, cores: usize) -> (res: &'static str)
    ensures
        res@ == label_spec(classify_spec(total_memory_bytes / 1024 / 1024, cores)),
{
    classify_profile(total_memory_bytes / 1024 / 1024, cores).label()
}

/// More memory and more CPUs never give a less capable class.
pub proof fn lemma_classify_monotone(m1: u64, c1: usize, m2: u64, c2: usize)
    requires
        m1 <= m2,
        c1 <= c2,
    ensures
        rank(classify_spec(m1, c1)) <= rank(classify_spec(m2, c2)),
{
}

/// A machine is a gaming rig with at least 32 000 MiB and 16 CPUs; otherwise a
/// workstation with at least 16 000 MiB and 8 CPUs; otherwise a laptop with at
/// least 8 000 MiB and 4 CPUs; otherwise minimal.
pub proof fn lemma_profile_thresholds(total_mb: u64, cores: usize)
    ensures
        (classify_spec(total_mb, cores) == Profile::GamingRig) <==> (total_mb >= 32_000 && cores
            >= 16),
        (classify_spec(total_mb, cores) == Profile::Workstation) <==> (!(total_mb >= 32_000 && cores
            >= 16) && total_mb >= 16_000 && cores >= 8),
        (classify_spec(total_mb, cores) == Profile::Laptop) <==> (!(total_mb >= 16_000 && cores
            >= 8) && total_mb >= 8_000 && cores >= 4),
        (classify_spec(total_mb, cores) == Profile::MinimalPC) <==> !(total_mb >= 8_000 && cores
            >= 4),
{
}

} // verus!
