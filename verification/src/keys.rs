//! Registry keys and backup files the tool works with. Keys are written in the
//! form `reg.exe` and PowerShell's `Registry::` provider both accept: a full
//! hive name, then the subkey path.
use vstd::prelude::*;

verus! {

/// Hive prefix of machine-wide keys.
pub const HKLM: &'static str = r"HKEY_LOCAL_MACHINE\";

/// Hive prefix of the current user's keys.
pub const HKCU: &'static str = r"HKEY_CURRENT_USER\";

/// Graphics driver settings (hardware-accelerated GPU scheduling), under HKLM.
pub const GRAPHICS_SUBKEY: &'static str = r"SYSTEM\CurrentControlSet\Control\GraphicsDrivers";

/// Multimedia system profile (network throttling, task priorities), under HKLM.
pub const MULTIMEDIA_SUBKEY: &'static str =
    r"SOFTWARE\Microsoft\Windows NT\CurrentVersion\Multimedia\SystemProfile";

/// The "Games" task, below the multimedia system profile.
pub const GAMES_SUFFIX: &'static str = r"\Tasks\Games";

/// Power schemes and the active scheme, under HKLM.
pub const POWER_SCHEMES_SUBKEY: &'static str =
    r"SYSTEM\CurrentControlSet\Control\Power\User\PowerSchemes";

/// Memory management (paging files), under HKLM.
pub const MEMORY_SUBKEY: &'static str =
    r"SYSTEM\CurrentControlSet\Control\Session Manager\Memory Management";

/// Prefetcher and Superfetch settings, below memory management.
pub const PREFETCH_SUFFIX: &'static str = r"\PrefetchParameters";

/// Per-interface TCP/IP settings (one subkey per interface), under HKLM.
pub const INTERFACES_SUBKEY: &'static str =
    r"SYSTEM\CurrentControlSet\Services\Tcpip\Parameters\Interfaces";

/// Memory integrity (hypervisor-enforced code integrity), under HKLM.
pub const HVCI_SUBKEY: &'static str =
    r"SYSTEM\CurrentControlSet\Control\DeviceGuard\Scenarios\HypervisorEnforcedCodeIntegrity";

/// Game capture settings, under HKCU.
pub const GAMEDVR_SUBKEY: &'static str = r"SOFTWARE\Microsoft\Windows\CurrentVersion\GameDVR";

/// Folder that holds the backup.
pub const VORTEX_DIR: &'static str = r"C:\ProgramData\Vortex";

/// Backup file of the graphics driver settings, inside the backup folder.
pub const GRAPHICS_FILE: &'static str = r"\backup_graphics.reg";

/// Backup file of the multimedia system profile, inside the backup folder.
pub const MULTIMEDIA_FILE: &'static str = r"\backup_multimedia.reg";

/// Backup file of the power schemes, inside the backup folder.
pub const POWER_SCHEMES_FILE: &'static str = r"\backup_powerschemes.reg";

/// Backup file of memory management, inside the backup folder.
pub const MEMORY_FILE: &'static str = r"\backup_memory.reg";

/// Backup file of the TCP/IP interfaces, inside the backup folder.
pub const INTERFACES_FILE: &'static str = r"\backup_tcpip.reg";

/// Backup file of the memory integrity setting, inside the backup folder.
pub const HVCI_FILE: &'static str = r"\backup_hvci.reg";

/// Backup file of the game capture settings, inside the backup folder.
pub const GAMEDVR_FILE: &'static str = r"\backup_gamedvr.reg";

/// File that records the active power plan, inside the backup folder.
pub const POWER_PLAN_FILE: &'static str = r"\backup_power.txt";

/// `a` followed by `b`, as a new string.
pub fn join2(a: &str, b: &str) -> (res: String)
    ensures
        res@ == a@ + b@,
{
    let mut s = String::from_str(a);
    s.append(b);
    s
}

/// `a`, `b` and `c` one after the other, as a new string.
pub fn join3(a: &str, b: &str, c: &str) -> (res: String)
    ensures
        res@ == a@ + b@ + c@,
{
    let mut s = String::from_str(a);
    s.append(b);
    s.append(c);
    s
}

} // verus!
