//! The PowerShell scripts that apply each setting, back it up and restore it,
//! and the rule by which each script's output is judged. Every tuning script
//! stops at its first error, so a failed write makes PowerShell exit with an
//! error and the run's report carries the error output.
use vstd::prelude::*;
use crate::backup::{backup_script, backup_spec, restore_script, restore_spec};
use crate::error::VortexError;
use crate::powershell::{report_spec, FAILURE_MARKER};
use crate::text::{contains_text, decimal, decimal_digits, has_substring, occurs_at};

verus! {

/// Paging file script, up to the first initial size.
pub const PAGING_HEAD: &'static str = r#"
$ErrorActionPreference = 'Stop'
$cs = Get-CimInstance -ClassName Win32_ComputerSystem
Set-CimInstance -InputObject $cs -Property @{AutomaticManagedPagefile = $false}
$csi = Get-CimInstance -ClassName Win32_PageFileSetting
if ($csi) { $csi | Set-CimInstance -Property @{InitialSize = "#;

/// Paging file script, between an initial size and the maximum size.
pub const PAGING_BETWEEN: &'static str = r#"; MaximumSize = "#;

/// Paging file script, between the settings update and the creation of a setting.
pub const PAGING_MIDDLE: &'static str = r#"} }
else { New-CimInstance -ClassName Win32_PageFileSetting -Property @{Name = 'C:\pagefile.sys'; InitialSize = "#;

/// Paging file script, after the last maximum size.
pub const PAGING_TAIL: &'static str = r#"} | Out-Null }
"#;

/// Memory integrity script, up to the value written.
pub const MEMORY_INTEGRITY_HEAD: &'static str = r#"
$ErrorActionPreference = 'Stop'
$path = 'HKLM:\SYSTEM\CurrentControlSet\Control\DeviceGuard\Scenarios\HypervisorEnforcedCodeIntegrity'
if (Test-Path $path) {
  Set-ItemProperty -Path $path -Name 'Enabled' -Type DWord -Value "#;

/// Memory integrity script, after the value written.
pub const MEMORY_INTEGRITY_TAIL: &'static str = r#"
}
"#;

/// Activates the Ultimate Performance plan (falling back on duplicating its
/// template and activating that), turns off USB selective suspend and sets the
/// CPU frequency settings to 100; a failing `powercfg` stops the script with an
/// `ERREUR` message.
pub const POWER_PLAN: &'static str = r#"
$ErrorActionPreference = 'Stop'
function Invoke-Powercfg {
  powercfg @args | Out-Null
  if ($LASTEXITCODE -ne 0) { throw "ERREUR powercfg $args" }
}
powercfg /setactive 8c5e7fda-e8bf-4a96-9a85-a6e23a8c635c | Out-Null
if ($LASTEXITCODE -ne 0) {
  Invoke-Powercfg -duplicatescheme e9a42b02-d5df-448d-aa00-03f14749eb61
  Invoke-Powercfg /setactive e9a42b02-d5df-448d-aa00-03f14749eb61
}
# Désactiver la mise en veille sur USB selectif (gaspillage CPU subsys)
Invoke-Powercfg /setacvalueindex scheme_current SUB_USB USBSELECTIVESUSPEND 0
Invoke-Powercfg /setdcvalueindex scheme_current SUB_USB USBSELECTIVESUSPEND 0
# CPU 100% min
Invoke-Powercfg /setacvalueindex scheme_current SUB_PROCESSOR PROCFREQMIN 100
Invoke-Powercfg /setdcvalueindex scheme_current SUB_PROCESSOR PROCFREQMAX 100
Invoke-Powercfg /setactive scheme_current
"#;

/// Turns on hardware-accelerated GPU scheduling.
pub const HAGS: &'static str = r#"
$ErrorActionPreference = 'Stop'
$path = 'HKLM:\SYSTEM\CurrentControlSet\Control\GraphicsDrivers'
Set-ItemProperty -Path $path -Name 'HwSchMode' -Type DWord -Value 2
"#;

/// Turns off Nagle's algorithm on every TCP/IP interface (each subkey of Interfaces).
pub const NAGLE: &'static str = r#"
$ErrorActionPreference = 'Stop'
$root = 'HKLM:\SYSTEM\CurrentControlSet\Services\Tcpip\Parameters\Interfaces'
Get-ChildItem -Path $root | ForEach-Object {
  Set-ItemProperty -Path $_.PSPath -Name 'TcpAckFrequency' -Type DWord -Value 1
  Set-ItemProperty -Path $_.PSPath -Name 'TCPNoDelay' -Type DWord -Value 1
  Set-ItemProperty -Path $_.PSPath -Name 'TcpDelAckTicks' -Type DWord -Value 0
}
"#;

/// Removes the network throttling of multimedia tasks.
pub const NETWORK_THROTTLING: &'static str = r#"
$ErrorActionPreference = 'Stop'
$path = 'HKLM:\SOFTWARE\Microsoft\Windows NT\CurrentVersion\Multimedia\SystemProfile'
Set-ItemProperty -Path $path -Name 'NetworkThrottlingIndex' -Type DWord -Value 0xffffffff
"#;

/// Turns off the prefetcher and Superfetch; a failed write stops the script.
pub const SUPERFETCH: &'static str = r#"
$ErrorActionPreference = 'Stop'
$b = 'HKLM:\SYSTEM\CurrentControlSet\Control\Session Manager\Memory Management\PrefetchParameters'
Set-ItemProperty -Path $b -Name 'EnablePrefetcher' -Type DWord -Value 0
Set-ItemProperty -Path $b -Name 'EnableSuperfetch' -Type DWord -Value 0
"#;

/// Turns off the Xbox Game Bar and game capture for the current user.
pub const XBOX_GAME_BAR: &'static str = r#"
$ErrorActionPreference = 'Stop'
$h1 = 'HKCU:\SOFTWARE\Microsoft\Windows\CurrentVersion\GameDVR'
New-Item -Path $h1 -Force | Out-Null
Set-ItemProperty -Path $h1 -Name 'AppCaptureEnabled' -Type DWord -Value 0
Set-ItemProperty -Path $h1 -Name 'GameDVR_Enabled' -Type DWord -Value 0
"#;

/// Size in MiB given to the paging file: one and a half times the installed
/// memory, and never less than 2 GiB.
pub open spec fn paging_file_mb_spec(total_memory_bytes: u64) -> int {
    let total_mb = total_memory_bytes / 1024 / 1024;
    let scaled = total_mb * 3 / 2;
    if scaled >= 2048 { scaled } else { 2048 }
}

/// Size in MiB given to the paging file for a machine with `total_memory_bytes`
/// of memory: the memory in whole MiB times 3/2 (rounded down), at least 2048.
pub fn paging_file_mb(total_memory_bytes: u64) -> (res: u64)
    ensures
        res == paging_file_mb_spec(total_memory_bytes),
{
    let total_mb = total_memory_bytes / 1024 / 1024;
    assert(total_mb * 3 < 0x1_0000_0000_0000_0000) by (nonlinear_arith)
        requires
            total_mb == total_memory_bytes / 1024 / 1024,
            total_memory_bytes < 0x1_0000_0000_0000_0000,
    ;
    let scaled = total_mb * 3 / 2;
    if scaled >= 2048 {
        scaled
    } else {
        2048
    }
}

/// The paging file gets at least 2048 MiB and at least one and a half times the
/// installed memory, and more memory never gives a smaller paging file.
pub proof fn lemma_paging_file_mb(a: u64, b: u64)
    ensures
        paging_file_mb_spec(a) >= 2048,
        paging_file_mb_spec(a) >= (a / 1024 / 1024) * 3 / 2,
        a <= b ==> paging_file_mb_spec(a) <= paging_file_mb_spec(b),
{
    if a <= b {
        assert(a / 1024 <= b / 1024) by (nonlinear_arith)
            requires
                a <= b,
        ;
        let x = a / 1024;
        let y = b / 1024;
        assert(x / 1024 <= y / 1024) by (nonlinear_arith)
            requires
                x <= y,
        ;
    }
}

/// The paging file gets exactly one and a half times the installed memory,
/// counted in whole MiB and rounded down, or 2048 MiB when that is more:
/// never more than the larger of the two.
pub proof fn lemma_paging_file_size(bytes: u64)
    ensures
        ({
            let mib = bytes / 1048576;
            let one_and_half = mib * 3 / 2;
            &&& one_and_half >= 2048 ==> paging_file_mb_spec(bytes) == one_and_half
            &&& one_and_half < 2048 ==> paging_file_mb_spec(bytes) == 2048
            &&& paging_file_mb_spec(bytes) <= if one_and_half > 2048 {
                one_and_half
            } else {
                2048
            }
        }),
{
    assert(bytes / 1024 / 1024 == bytes / 1048576) by (nonlinear_arith)
        requires
            bytes >= 0,
    ;
}

/// A PowerShell script that the tool runs.
#[derive(Debug, Clone, Copy, PartialEq, Eq, Structural)]
pub enum PsScript {
    /// Activates the Ultimate Performance power plan and keeps the CPU at full speed.
    UltimatePowerPlan,
    /// Gives the paging file a fixed size, in MiB.
    PagingFile(u64),
    /// Turns memory integrity off (`true`) or on (`false`).
    MemoryIntegrity(bool),
    /// Turns on hardware-accelerated GPU scheduling.
    EnableHags,
    /// Turns off Nagle's algorithm on every TCP/IP interface.
    DisableNagle,
    /// Removes the network throttling of multimedia tasks.
    NetworkThrottlingOff,
    /// Turns off the prefetcher and Superfetch.
    TrimSuperfetch,
    /// Turns off the Xbox Game Bar and game capture.
    DisableXboxGameBar,
    /// Creates the backup folder, then saves every key the tuning writes and the active plan.
    Backup,
    /// Restores each saved key whose backup exists and reactivates the saved plan.
    Restore,
}

/// How the output of a script decides whether its step succeeded.
#[derive(Debug, Clone, Copy, PartialEq, Eq, Structural)]
pub enum OutputRule {
    /// Any output means success.
    AnyOutput,
    /// Success only when the script printed nothing.
    EmptyOutput,
    /// Success unless the report carries the error output of a failed run or
    /// the word `ERREUR`.
    NoFailureReport,
}

/// The text of `script`.
pub open spec fn script_spec(script: PsScript) -> Seq<char> {
    match script {
        PsScript::UltimatePowerPlan => POWER_PLAN@,
        PsScript::PagingFile(mb) => {
            let d = decimal_digits(mb as nat);
            PAGING_HEAD@ + d + PAGING_BETWEEN@ + d + PAGING_MIDDLE@ + d + PAGING_BETWEEN@ + d
                + PAGING_TAIL@
        },
        PsScript::MemoryIntegrity(off) => MEMORY_INTEGRITY_HEAD@ + (if off {
            seq!['0']
        } else {
            seq!['1']
        }) + MEMORY_INTEGRITY_TAIL@,
        PsScript::EnableHags => HAGS@,
        PsScript::DisableNagle => NAGLE@,
        PsScript::NetworkThrottlingOff => NETWORK_THROTTLING@,
        PsScript::TrimSuperfetch => SUPERFETCH@,
        PsScript::DisableXboxGameBar => XBOX_GAME_BAR@,
        PsScript::Backup => backup_spec(),
        PsScript::Restore => restore_spec(),
    }
}

/// The rule that judges the output of `script`.
pub open spec fn rule_spec(script: PsScript) -> OutputRule {
    match script {
        PsScript::MemoryIntegrity(_) => OutputRule::EmptyOutput,
        PsScript::EnableHags => OutputRule::EmptyOutput,
        PsScript::DisableNagle => OutputRule::EmptyOutput,
        PsScript::NetworkThrottlingOff => OutputRule::EmptyOutput,
        PsScript::Restore => OutputRule::AnyOutput,
        _ => OutputRule::NoFailureReport,
    }
}

/// Whether `output` counts as success under `rule`.
pub open spec fn accepts(rule: OutputRule, output: Seq<char>) -> bool {
    match rule {
        OutputRule::AnyOutput => true,
        OutputRule::EmptyOutput => output.len() == 0,
        OutputRule::NoFailureReport => !has_substring(output, FAILURE_MARKER@) && !has_substring(
            output,
            "ERREUR"@,
        ),
    }
}

impl PsScript {
    /// The script for the paging file of a machine with `total_memory_bytes` of memory.
    pub fn paging_for_memory(total_memory_bytes: u64) -> (res: PsScript)
        ensures
            res == PsScript::PagingFile(paging_file_mb_spec(total_memory_bytes) as u64),
    {
        PsScript::PagingFile(paging_file_mb(total_memory_bytes))
    }

    /// The text of the script.
    pub fn text(&self) -> (res: String)
        ensures
            res@ == script_spec(*self),
    {
        match *self {
            PsScript::UltimatePowerPlan => String::from_str(POWER_PLAN),
            PsScript::PagingFile(mb) => {
                let d = decimal(mb);
                let mut s = String::from_str(PAGING_HEAD);
                s.append(d.as_str());
                s.append(PAGING_BETWEEN);
                s.append(d.as_str());
                s.append(PAGING_MIDDLE);
                s.append(d.as_str());
                s.append(PAGING_BETWEEN);
                s.append(d.as_str());
                s.append(PAGING_TAIL);
                s
            },
            PsScript::MemoryIntegrity(off) => {
                let mut s = String::from_str(MEMORY_INTEGRITY_HEAD);
                proof {
                    reveal_strlit("0");
                    reveal_strlit("1");
                }
                if off {
                    s.append("0");
                } else {
                    s.append("1");
                }
                s.append(MEMORY_INTEGRITY_TAIL);
                s
            },
            PsScript::EnableHags => String::from_str(HAGS),
            PsScript::DisableNagle => String::from_str(NAGLE),
            PsScript::NetworkThrottlingOff => String::from_str(NETWORK_THROTTLING),
            PsScript::TrimSuperfetch => String::from_str(SUPERFETCH),
            PsScript::DisableXboxGameBar => String::from_str(XBOX_GAME_BAR),
            PsScript::Backup => backup_script(),
            PsScript::Restore => restore_script(),
        }
    }

    /// The rule that judges this script's output.
    pub fn rule(&self) -> (res: OutputRule)
        ensures
            res == rule_spec(*self),
    {
        match *self {
            PsScript::MemoryIntegrity(_) => OutputRule::EmptyOutput,
            PsScript::EnableHags => OutputRule::EmptyOutput,
            PsScript::DisableNagle => OutputRule::EmptyOutput,
            PsScript::NetworkThrottlingOff => OutputRule::EmptyOutput,
            PsScript::Restore => OutputRule::AnyOutput,
            _ => OutputRule::NoFailureReport,
        }
    }

    /// Decides the step's outcome from the script's report: success when the
    /// rule accepts it, else the failure carrying the report.
    pub fn judge(&self, output: String) -> (res: Result<(), VortexError>)
        ensures
            res is Ok <==> accepts(rule_spec(*self), output@),
            res matches Err(e) ==> e matches VortexError::ScriptFailed(o) && o@ == output@,
    {
        let ok = match self.rule() {
            OutputRule::AnyOutput => true,
            OutputRule::EmptyOutput => output.as_str().unicode_len() == 0,
            OutputRule::NoFailureReport => !contains_text(output.as_str(), FAILURE_MARKER)
                && !contains_text(output.as_str(), "ERREUR"),
        };
        if ok {
            Ok(())
        } else {
            Err(VortexError::ScriptFailed(output))
        }
    }
}

/// A run of a tuning or backup script that failed is never judged a success:
/// its report carries the error output after the failure marker. (Restore is
/// judged a success whatever its run gives.)
pub proof fn lemma_failed_run_rejected(
    script: PsScript,
    stdout: Seq<char>,
    stderr: Seq<char>,
    stderr_lower: Seq<char>,
)
    requires
        script != PsScript::Restore,
    ensures
        !accepts(rule_spec(script), report_spec(stdout, stderr, stderr_lower, false)),
{
    reveal_strlit("\nSTDERR: ");
    let r = report_spec(stdout, stderr, stderr_lower, false);
    let m = FAILURE_MARKER@;
    assert(r == stdout + m + stderr);
    assert(r.subrange(stdout.len() as int, (stdout.len() + m.len()) as int) =~= m);
    assert(occurs_at(r, m, stdout.len() as int));
    assert(r.len() > 0);
}

/// The paging file gets a fixed size: the script sets the initial and the
/// maximum size both to the size in decimal, once for an existing paging file
/// setting and once for a new one.
pub proof fn lemma_paging_script_fixed_size(mb: u64)
    ensures
        ({
            let d = decimal_digits(mb as nat);
            let set = "InitialSize = "@ + d + "; MaximumSize = "@ + d + "}"@;
            exists|p1: int, p2: int|
                p1 < p2 && occurs_at(script_spec(PsScript::PagingFile(mb)), set, p1) && occurs_at(
                    script_spec(PsScript::PagingFile(mb)),
                    set,
                    p2,
                )
        }),
{
    reveal_strlit(r#"
$ErrorActionPreference = 'Stop'
$cs = Get-CimInstance -ClassName Win32_ComputerSystem
Set-CimInstance -InputObject $cs -Property @{AutomaticManagedPagefile = $false}
$csi = Get-CimInstance -ClassName Win32_PageFileSetting
if ($csi) { $csi | Set-CimInstance -Property @{InitialSize = "#);
    reveal_strlit(r#"} }
else { New-CimInstance -ClassName Win32_PageFileSetting -Property @{Name = 'C:\pagefile.sys'; InitialSize = "#);
    reveal_strlit(r#"; MaximumSize = "#);
    reveal_strlit(r#"} | Out-Null }
"#);
    reveal_strlit("InitialSize = ");
    reveal_strlit("; MaximumSize = ");
    reveal_strlit("}");
    let d = decimal_digits(mb as nat);
    let set = "InitialSize = "@ + d + "; MaximumSize = "@ + d + "}"@;
    let text = script_spec(PsScript::PagingFile(mb));
    let h = PAGING_HEAD@;
    let m = PAGING_MIDDLE@;
    let b = PAGING_BETWEEN@;
    let t = PAGING_TAIL@;
    let k: int = 14;
    assert(text == h + d + b + d + m + d + b + d + t);
    let p1 = h.len() - k;
    let p2 = h.len() + d.len() + b.len() + d.len() + m.len() - k;
    assert(h.subrange(p1, h.len() as int) =~= "InitialSize = "@);
    assert(m.subrange(m.len() - k, m.len() as int) =~= "InitialSize = "@);
    assert(m.subrange(0, 1) =~= "}"@);
    assert(t.subrange(0, 1) =~= "}"@);
    assert(text.subrange(p1, p1 + set.len()) =~= set);
    assert(text.subrange(p2, p2 + set.len()) =~= set);
    assert(occurs_at(text, set, p1));
    assert(occurs_at(text, set, p2));
    assert(p1 < p2);
}

/// Turning memory integrity off writes 0 to its `Enabled` value, turning it
/// on writes 1.
pub proof fn lemma_memory_integrity_value(off: bool)
    ensures
        has_substring(
            script_spec(PsScript::MemoryIntegrity(off)),
            "-Name 'Enabled' -Type DWord -Value "@ + (if off {
                "0"@
            } else {
                "1"@
            }),
        ),
{
    reveal_strlit(r#"
$ErrorActionPreference = 'Stop'
$path = 'HKLM:\SYSTEM\CurrentControlSet\Control\DeviceGuard\Scenarios\HypervisorEnforcedCodeIntegrity'
if (Test-Path $path) {
  Set-ItemProperty -Path $path -Name 'Enabled' -Type DWord -Value "#);
    reveal_strlit("-Name 'Enabled' -Type DWord -Value ");
    reveal_strlit("0");
    reveal_strlit("1");
    let h = MEMORY_INTEGRITY_HEAD@;
    let v = if off {
        seq!['0']
    } else {
        seq!['1']
    };
    let text = script_spec(PsScript::MemoryIntegrity(off));
    let w = "-Name 'Enabled' -Type DWord -Value "@ + (if off {
        "0"@
    } else {
        "1"@
    });
    let k: int = 35;
    assert(text == h + v + MEMORY_INTEGRITY_TAIL@);
    let p = h.len() - k;
    assert(h.subrange(p, h.len() as int) =~= "-Name 'Enabled' -Type DWord -Value "@);
    assert(text.subrange(p, p + w.len()) =~= w);
    assert(occurs_at(text, w, p));
}

/// A script that printed nothing has succeeded, whatever the script.
pub proof fn lemma_silent_run_accepted(script: PsScript)
    ensures
        accepts(rule_spec(script), Seq::<char>::empty()),
{
    reveal_strlit("\nSTDERR: ");
    reveal_strlit("ERREUR");
    assert(forall|q: int| !occurs_at(Seq::<char>::empty(), FAILURE_MARKER@, q));
    assert(forall|q: int| !occurs_at(Seq::<char>::empty(), "ERREUR"@, q));
}

} // verus!
