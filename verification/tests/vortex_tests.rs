use vortex::apply::{apply_plan, step_report, stops_apply, ApplyStep, ABORT_LINE};
use vortex::backup::{backup_script, restore_script, saved_keys, written_values};
use vortex::dashboard::{hags_label, plan_name};
use vortex::cli::{parse_mode, Mode};
use vortex::encoding::{dword_bytes, units_le_bytes, wide};
use vortex::error::VortexError;
use vortex::gpu_priority::{games_task_key, games_task_settings, next_setting, reg_data_bytes, RegData};
use vortex::powershell::{merge_report, powershell_args, powershell_report, FAILURE_MARKER};
use vortex::profile::{classify_profile, detect_profile, Profile};
use vortex::protect::{memory_pressure_high, protect_step, PROTECT_INTERVAL_SECS};
use vortex::scripts::{paging_file_mb, OutputRule, PsScript};
use vortex::telemetry::{sort_by_memory_desc, ProcessMini};
use vortex::text::{chars_of, contains_text, decimal, same_text};
use vortex::trim::{is_protected, trim_outcome, trim_targets, RunningProcess};

const GIB: u64 = 1024 * 1024 * 1024;

#[test]
fn contains_text_finds_and_misses() {
    assert!(contains_text("abc ERREUR def", "ERREUR"));
    assert!(contains_text("ERREUR", "ERREUR"));
    assert!(!contains_text("erreur", "ERREUR"));
    assert!(!contains_text("ERR", "ERREUR"));
    assert!(contains_text("", ""));
    assert!(contains_text("abc", ""));
    assert!(contains_text("ééERREUR", "ERREUR"));
}

#[test]
fn same_text_compares_characters() {
    assert!(same_text("dwm.exe", "dwm.exe"));
    assert!(!same_text("dwm.exe", "dwm.ex"));
    assert!(!same_text("DWM.EXE", "dwm.exe"));
    assert!(same_text("", ""));
}

#[test]
fn chars_of_keeps_order() {
    assert_eq!(chars_of("aé😀"), vec!['a', 'é', '😀']);
}

#[test]
fn decimal_renders_numbers() {
    assert_eq!(decimal(0), "0");
    assert_eq!(decimal(7), "7");
    assert_eq!(decimal(10), "10");
    assert_eq!(decimal(24576), "24576");
    assert_eq!(decimal(u64::MAX), "18446744073709551615");
}

#[test]
fn decimal_round_trips() {
    for n in [0u64, 1, 9, 10, 99, 100, 2048, 123456789, u64::MAX] {
        assert_eq!(decimal(n).parse::<u64>().unwrap(), n);
        assert_eq!(decimal(n), n.to_string());
    }
}

#[test]
fn wide_encodes_utf16_with_terminator() {
    assert_eq!(wide(""), vec![0u16]);
    assert_eq!(wide("ab"), vec![97u16, 98, 0]);
    assert_eq!(wide("é"), vec![0xE9u16, 0]);
    assert_eq!(wide("😀"), vec![0xD83Du16, 0xDE00, 0]);
    let s = "Scheduling Category";
    let mut expected: Vec<u16> = s.encode_utf16().collect();
    expected.push(0);
    assert_eq!(wide(s), expected);
}

#[test]
fn dword_bytes_are_little_endian() {
    assert_eq!(dword_bytes(8), vec![8u8, 0, 0, 0]);
    assert_eq!(dword_bytes(0x12345678), vec![0x78u8, 0x56, 0x34, 0x12]);
    assert_eq!(dword_bytes(u32::MAX), vec![0xFFu8; 4]);
    for v in [0u32, 6, 8, 0xDEADBEEF] {
        let b = dword_bytes(v);
        assert_eq!(u32::from_le_bytes([b[0], b[1], b[2], b[3]]), v);
    }
}

#[test]
fn units_le_bytes_splits_each_unit() {
    assert_eq!(units_le_bytes(&vec![0x0148u16, 0]), vec![0x48u8, 0x01, 0, 0]);
    assert_eq!(units_le_bytes(&vec![]), Vec::<u8>::new());
}

#[test]
fn reg_data_bytes_for_each_kind() {
    assert_eq!(reg_data_bytes(&RegData::Dword(8)), vec![8u8, 0, 0, 0]);
    assert_eq!(
        reg_data_bytes(&RegData::Sz("High".to_string())),
        vec![b'H', 0, b'i', 0, b'g', 0, b'h', 0, 0, 0]
    );
    assert_eq!(reg_data_bytes(&RegData::Sz(String::new())), vec![0u8, 0]);
}

#[test]
fn paging_size_is_one_and_a_half_ram_at_least_2048() {
    assert_eq!(paging_file_mb(16 * GIB), 24576);
    assert_eq!(paging_file_mb(8 * GIB), 12288);
    assert_eq!(paging_file_mb(GIB), 2048);
    assert_eq!(paging_file_mb(0), 2048);
    assert_eq!(paging_file_mb(1365 * 1024 * 1024), 2048);
    assert_eq!(paging_file_mb(1366 * 1024 * 1024), 2049);
    assert_eq!(paging_file_mb(u64::MAX), 17592186044415 * 3 / 2);
    assert!(paging_file_mb(4 * GIB) <= paging_file_mb(5 * GIB));
}

#[test]
fn judge_empty_output_rule() {
    assert!(PsScript::EnableHags.judge(String::new()).is_ok());
    match PsScript::EnableHags.judge("Access denied".to_string()) {
        Err(e) => assert_eq!(e.message(), "Access denied"),
        Ok(()) => panic!("non-empty output must fail"),
    }
    assert!(PsScript::DisableNagle.judge(" ".to_string()).is_err());
}

#[test]
fn powershell_args_wrap_script() {
    let a = powershell_args("Get-Date");
    assert_eq!(
        a,
        vec!["-NoProfile", "-NonInteractive", "-ExecutionPolicy", "Bypass", "-Command", "Get-Date"]
    );
}

#[test]
fn report_appends_stderr_on_failure() {
    assert_eq!(powershell_report(b"out", b"boom", false), "out\nSTDERR: boom");
    assert_eq!(powershell_report(b"out", b"", false), "out\nSTDERR: ");
}

#[test]
fn report_appends_stderr_when_it_mentions_erreur_in_any_case() {
    assert_eq!(powershell_report(b"", b"ERREUR fatale", true), "\nSTDERR: ERREUR fatale");
    assert_eq!(powershell_report(b"ok", b"Une Erreur", true), "ok\nSTDERR: Une Erreur");
}

#[test]
fn report_keeps_stdout_only_when_clean() {
    assert_eq!(powershell_report(b"done", b"warning", true), "done");
    assert_eq!(powershell_report(b"", b"", true), "");
}

#[test]
fn report_decodes_invalid_utf8_lossily() {
    assert_eq!(powershell_report(&[0x61, 0xFF, 0x62], b"", true), "a\u{FFFD}b");
}

#[test]
fn merge_report_uses_lowered_text_for_the_test() {
    assert_eq!(merge_report("a".to_string(), "X", "erreur", true), "a\nSTDERR: X");
    assert_eq!(merge_report("a".to_string(), "ERREUR", "ERREUR", true), "a");
}

#[test]
fn protected_names() {
    for n in ["explorer.exe", "dwm.exe", "csrss.exe", "winlogon.exe", "System", "smss.exe"] {
        assert!(is_protected(n));
    }
    assert!(!is_protected("Explorer.exe"));
    assert!(!is_protected("system"));
    assert!(!is_protected("chrome.exe"));
}

fn proc(pid: u32, name: &str) -> RunningProcess {
    RunningProcess { pid, name: name.to_string() }
}

#[test]
fn trim_targets_skip_self_and_system() {
    let procs = vec![
        proc(4, "System"),
        proc(100, "chrome.exe"),
        proc(200, "vortex.exe"),
        proc(300, "explorer.exe"),
        proc(400, "steam.exe"),
        proc(500, "dwm.exe"),
    ];
    assert_eq!(trim_targets(&procs, 200), vec![100, 400]);
    assert_eq!(trim_targets(&vec![], 1), Vec::<u32>::new());
}

#[test]
fn trim_outcome_needs_one_success() {
    assert!(trim_outcome(&vec![false, true, false]).is_ok());
    match trim_outcome(&vec![false, false]) {
        Err(e) => {
            assert!(matches!(e, VortexError::NoEligibleProcess));
            assert_eq!(e.message(), "aucun processus éligible trouvé");
        }
        Ok(()) => panic!("no success must fail"),
    }
    assert!(trim_outcome(&vec![]).is_err());
}

#[test]
fn classify_thresholds() {
    assert_eq!(classify_profile(32_000, 16), Profile::GamingRig);
    assert_eq!(classify_profile(31_999, 16), Profile::Workstation);
    assert_eq!(classify_profile(64_000, 15), Profile::Workstation);
    assert_eq!(classify_profile(16_000, 8), Profile::Workstation);
    assert_eq!(classify_profile(16_000, 7), Profile::Laptop);
    assert_eq!(classify_profile(8_000, 4), Profile::Laptop);
    assert_eq!(classify_profile(7_999, 64), Profile::MinimalPC);
    assert_eq!(classify_profile(0, 0), Profile::MinimalPC);
}

#[test]
fn classify_is_monotone_on_samples() {
    let mems = [0u64, 8_000, 16_000, 32_000];
    let cores = [1usize, 4, 8, 16];
    let rank = |p: Profile| match p {
        Profile::GamingRig => 3,
        Profile::Workstation => 2,
        Profile::Laptop => 1,
        Profile::MinimalPC => 0,
    };
    for &m1 in &mems {
        for &m2 in &mems {
            for &c1 in &cores {
                for &c2 in &cores {
                    if m1 <= m2 && c1 <= c2 {
                        assert!(rank(classify_profile(m1, c1)) <= rank(classify_profile(m2, c2)));
                    }
                }
            }
        }
    }
}

#[test]
fn detect_profile_labels() {
    assert_eq!(detect_profile(16 * GIB, 8), "Workstation équilibrée");
    assert_eq!(detect_profile(32 * GIB, 16), "Gaming Rig");
    assert_eq!(detect_profile(8 * GIB, 4), "Laptop / polyvalent");
    assert_eq!(detect_profile(4 * GIB, 2), "MinimalPC — on serre les vis");
    assert_eq!(Profile::Laptop.label(), "Laptop / polyvalent");
}

#[test]
fn parse_mode_names() {
    assert_eq!(parse_mode(None), Mode::Apply);
    assert_eq!(parse_mode(Some("apply")), Mode::Apply);
    assert_eq!(parse_mode(Some("restore")), Mode::Restore);
    assert_eq!(parse_mode(Some("info")), Mode::Info);
    assert_eq!(parse_mode(Some("protect")), Mode::Protect);
    assert_eq!(parse_mode(Some("dash")), Mode::Dash);
    assert_eq!(parse_mode(Some("help")), Mode::Help);
    assert_eq!(parse_mode(Some("APPLY")), Mode::Help);
    assert_eq!(parse_mode(Some("")), Mode::Help);
}

#[test]
fn apply_plan_starts_with_backup() {
    let plan = apply_plan();
    assert_eq!(plan.len(), 11);
    assert_eq!(plan[0], ApplyStep::Backup);
    assert_eq!(plan.iter().filter(|s| **s == ApplyStep::Backup).count(), 1);
    assert_eq!(plan[10], ApplyStep::BoostPriority);
}

#[test]
fn step_reports() {
    assert_eq!(step_report(ApplyStep::EnableHags, None), "✓ HAGS activé");
    assert_eq!(step_report(ApplyStep::GpuPriority, Some("refus")), "⚠ GPU prio: refus");
    assert_eq!(step_report(ApplyStep::Superfetch, None), "✓ Superfetch désactivé");
    for s in apply_plan() {
        assert!(step_report(s, None).starts_with('✓'));
        let w = step_report(s, Some("raison"));
        assert!(w.starts_with('⚠'));
        assert!(w.ends_with(": raison"));
    }
}

fn sample(name: &str, pid: u32, memory_bytes: u64) -> ProcessMini {
    ProcessMini { name: name.to_string(), pid, memory_bytes }
}

#[test]
fn sort_heaviest_first_and_stable() {
    let input = vec![
        sample("a", 1, 10),
        sample("b", 2, 30),
        sample("c", 3, 10),
        sample("d", 4, 20),
        sample("e", 5, 30),
    ];
    let out = sort_by_memory_desc(input);
    let pids: Vec<u32> = out.iter().map(|p| p.pid).collect();
    assert_eq!(pids, vec![2, 5, 4, 1, 3]);
    assert!(sort_by_memory_desc(vec![]).is_empty());
}

#[test]
fn sort_is_a_permutation() {
    let input: Vec<ProcessMini> =
        (0..20u32).map(|i| sample("p", i, ((i * 7919) % 13) as u64)).collect();
    let out = sort_by_memory_desc(input.clone());
    assert_eq!(out.len(), 20);
    for w in out.windows(2) {
        assert!(w[0].memory_bytes >= w[1].memory_bytes);
    }
    let mut a: Vec<u32> = out.iter().map(|p| p.pid).collect();
    a.sort();
    assert_eq!(a, (0..20u32).collect::<Vec<_>>());
}

#[test]
fn games_task_settings_match_documented_values() {
    assert_eq!(
        games_task_key(),
        r"SOFTWARE\Microsoft\Windows NT\CurrentVersion\Multimedia\SystemProfile\Tasks\Games"
    );
    let s = games_task_settings();
    assert_eq!(s.len(), 4);
    assert_eq!(s[0].name, "GPU Priority");
    assert!(matches!(s[0].data, RegData::Dword(8)));
    assert_eq!(s[1].name, "Priority");
    assert!(matches!(s[1].data, RegData::Dword(6)));
    assert_eq!(s[2].name, "Scheduling Category");
    assert!(matches!(&s[2].data, RegData::Sz(t) if t == "High"));
    assert_eq!(s[3].name, "SFIO Priority");
    assert!(matches!(&s[3].data, RegData::Sz(t) if t == "High"));
}

#[test]
fn paging_script_sets_fixed_size() {
    let script = PsScript::paging_for_memory(16 * GIB);
    assert_eq!(script, PsScript::PagingFile(24576));
    let text = script.text();
    let expected = format!(
        r#"
$ErrorActionPreference = 'Stop'
$cs = Get-CimInstance -ClassName Win32_ComputerSystem
Set-CimInstance -InputObject $cs -Property @{{AutomaticManagedPagefile = $false}}
$csi = Get-CimInstance -ClassName Win32_PageFileSetting
if ($csi) {{ $csi | Set-CimInstance -Property @{{InitialSize = {init}; MaximumSize = {max}}} }}
else {{ New-CimInstance -ClassName Win32_PageFileSetting -Property @{{Name = 'C:\pagefile.sys'; InitialSize = {init}; MaximumSize = {max}}} | Out-Null }}
"#,
        init = 24576,
        max = 24576
    );
    assert_eq!(text, expected);
    assert_eq!(text.matches("InitialSize = 24576; MaximumSize = 24576").count(), 2);
}

#[test]
fn memory_integrity_script_value() {
    let off = PsScript::MemoryIntegrity(true).text();
    let on = PsScript::MemoryIntegrity(false).text();
    assert!(off.contains("-Name 'Enabled' -Type DWord -Value 0\n}"));
    assert!(on.contains("-Name 'Enabled' -Type DWord -Value 1\n}"));
    assert!(off.starts_with("\n$ErrorActionPreference = 'Stop'\n$path = 'HKLM:\\SYSTEM\\CurrentControlSet"));
}

#[test]
fn tuning_scripts_stop_on_first_error() {
    for s in [
        PsScript::UltimatePowerPlan,
        PsScript::PagingFile(4096),
        PsScript::MemoryIntegrity(true),
        PsScript::EnableHags,
        PsScript::DisableNagle,
        PsScript::NetworkThrottlingOff,
        PsScript::TrimSuperfetch,
        PsScript::DisableXboxGameBar,
        PsScript::Backup,
    ] {
        assert!(s.text().starts_with("\n$ErrorActionPreference = 'Stop'\n"), "{:?}", s);
        assert!(!s.text().contains("SilentlyContinue"), "{:?}", s);
    }
}

#[test]
fn nagle_script_walks_every_interface() {
    let t = PsScript::DisableNagle.text();
    assert!(t.contains("Get-ChildItem -Path $root | ForEach-Object {"));
    assert!(t.contains("'TCPNoDelay' -Type DWord -Value 1"));
    assert!(t.contains("'TcpAckFrequency' -Type DWord -Value 1"));
    assert!(t.contains("'TcpDelAckTicks' -Type DWord -Value 0"));
}

#[test]
fn fixed_scripts_hold_their_commands() {
    assert!(PsScript::EnableHags.text().contains("-Name 'HwSchMode' -Type DWord -Value 2"));
    assert!(PsScript::NetworkThrottlingOff
        .text()
        .contains("'NetworkThrottlingIndex' -Type DWord -Value 0xffffffff"));
    assert!(PsScript::TrimSuperfetch.text().contains("'EnableSuperfetch' -Type DWord -Value 0"));
    assert!(PsScript::DisableXboxGameBar.text().contains("'GameDVR_Enabled' -Type DWord -Value 0"));
}

#[test]
fn judge_power_plan_rejects_failure_reports() {
    assert!(PsScript::UltimatePowerPlan.judge(String::new()).is_ok());
    assert!(PsScript::UltimatePowerPlan.judge("Le plan est actif".to_string()).is_ok());
    match PsScript::UltimatePowerPlan.judge("x\nERREUR: refus".to_string()) {
        Err(VortexError::ScriptFailed(o)) => assert_eq!(o, "x\nERREUR: refus"),
        other => panic!("unexpected {:?}", other),
    }
    let failed = powershell_report(b"", b"Access is denied.", false);
    assert!(PsScript::UltimatePowerPlan.judge(failed).is_err());
}

#[test]
fn judge_paging_and_xbox_reject_failed_runs() {
    assert!(PsScript::PagingFile(4096).judge(String::new()).is_ok());
    assert!(PsScript::DisableXboxGameBar.judge("ok".to_string()).is_ok());
    let failed = powershell_report(b"", b"Set-CimInstance : Access denied", false);
    assert!(PsScript::PagingFile(4096).judge(failed.clone()).is_err());
    assert!(PsScript::DisableXboxGameBar.judge(failed.clone()).is_err());
    assert!(PsScript::TrimSuperfetch.judge(failed.clone()).is_err());
    assert!(PsScript::Backup.judge(failed.clone()).is_err());
    assert!(PsScript::Restore.judge(failed).is_ok());
    assert_eq!(FAILURE_MARKER, "\nSTDERR: ");
}

#[test]
fn backup_creates_folder_before_writing() {
    let t = backup_script();
    let mkdir = t.find("New-Item -ItemType Directory -Force -Path 'C:\\ProgramData\\Vortex'").unwrap();
    let first_export = t.find("reg export").unwrap();
    let plan = t.find("Out-File").unwrap();
    assert!(mkdir < first_export && first_export < plan);
    assert_eq!(PsScript::Backup.text(), t);
    for (key, file) in saved_keys() {
        assert!(file.starts_with("C:\\ProgramData\\Vortex\\"));
        assert!(t.contains(&format!("reg export '{}' '{}' /y", key, file)));
    }
}

#[test]
fn protect_retrims_at_every_tick() {
    for (used, total) in [(0u64, 100u64), (85, 100), (86, 100), (0, 0), (1, 0), (u64::MAX, u64::MAX)] {
        assert!(protect_step(used, total).trim);
    }
    assert!(protect_step(86, 100).pressure_high);
    assert!(!protect_step(85, 100).pressure_high);
    assert!(!protect_step(0, 0).pressure_high);
    assert!(protect_step(1, 0).pressure_high);
    assert!(memory_pressure_high(14 * GIB, 16 * GIB));
    assert!(!memory_pressure_high(13 * GIB, 16 * GIB));
    assert_eq!(PROTECT_INTERVAL_SECS, 30);
}

#[test]
fn apply_stops_only_after_failed_backup() {
    assert!(stops_apply(ApplyStep::Backup, true));
    assert!(!stops_apply(ApplyStep::Backup, false));
    assert!(!stops_apply(ApplyStep::PowerPlan, true));
    assert!(ABORT_LINE.starts_with('✗'));
}

#[test]
fn plan_name_between_parentheses() {
    assert_eq!(
        plan_name("Power Scheme GUID: 381b4222-f694-41f0-9685-ff5bb260df2e  (Balanced)\n"),
        Some("Balanced".to_string())
    );
    assert_eq!(plan_name("GUID : 8c5e7fda  (Performances optimales)"), Some("Performances optimales".to_string()));
    assert_eq!(plan_name("no plan"), None);
    assert_eq!(plan_name("broken (plan"), None);
    assert_eq!(plan_name("()"), Some(String::new()));
}

#[test]
fn hags_labels() {
    assert_eq!(hags_label(Some(2)), "activé");
    assert_eq!(hags_label(Some(1)), "désactivé");
    assert_eq!(hags_label(None), "inconnu");
}

#[test]
fn wide_round_trips_through_from_utf16() {
    for s in ["", "abc", "Scheduling Category", "été", "😀 x 🎮", "\u{FFFF}\u{10000}"] {
        let w = wide(s);
        assert_eq!(*w.last().unwrap(), 0);
        assert_eq!(w.len(), s.encode_utf16().count() + 1);
        assert_eq!(String::from_utf16(&w[..w.len() - 1]).unwrap(), s);
        let expected: Vec<u16> = s.encode_utf16().chain([0u16]).collect();
        assert_eq!(w, expected);
    }
}

#[test]
fn power_plan_script_is_powershell() {
    let t = PsScript::UltimatePowerPlan.text();
    assert!(t.contains("powercfg /setactive 8c5e7fda-e8bf-4a96-9a85-a6e23a8c635c"));
    assert!(t.contains("if ($LASTEXITCODE -ne 0) {"));
    assert!(!t.contains("%ERRORLEVEL%"));
    assert!(t.contains("Invoke-Powercfg -duplicatescheme e9a42b02-d5df-448d-aa00-03f14749eb61\n"));
    assert!(t.contains("Invoke-Powercfg /setactive e9a42b02-d5df-448d-aa00-03f14749eb61"));
    assert!(t.contains("/setacvalueindex scheme_current SUB_USB USBSELECTIVESUSPEND 0"));
    assert!(t.contains("/setacvalueindex scheme_current SUB_PROCESSOR PROCFREQMIN 100"));
    assert!(t.contains("/setdcvalueindex scheme_current SUB_PROCESSOR PROCFREQMAX 100"));
    assert!(t.contains("throw \"ERREUR powercfg $args\""));
}

#[test]
fn rules_per_script() {
    assert_eq!(PsScript::UltimatePowerPlan.rule(), OutputRule::NoFailureReport);
    assert_eq!(PsScript::EnableHags.rule(), OutputRule::EmptyOutput);
    assert_eq!(PsScript::MemoryIntegrity(true).rule(), OutputRule::EmptyOutput);
    assert_eq!(PsScript::DisableNagle.rule(), OutputRule::EmptyOutput);
    assert_eq!(PsScript::NetworkThrottlingOff.rule(), OutputRule::EmptyOutput);
    assert_eq!(PsScript::PagingFile(2048).rule(), OutputRule::NoFailureReport);
    assert_eq!(PsScript::TrimSuperfetch.rule(), OutputRule::NoFailureReport);
    assert_eq!(PsScript::DisableXboxGameBar.rule(), OutputRule::NoFailureReport);
    assert_eq!(PsScript::Backup.rule(), OutputRule::NoFailureReport);
    assert_eq!(PsScript::Restore.rule(), OutputRule::AnyOutput);
}

#[test]
fn restore_is_always_a_success() {
    for out in ["", "ERREUR", "\nSTDERR: Access denied", "x"] {
        assert!(PsScript::Restore.judge(out.to_string()).is_ok());
    }
}

#[test]
fn backup_saves_every_written_key() {
    let saved = saved_keys();
    assert_eq!(saved.len(), 7);
    assert_eq!(saved[0].0, "HKEY_LOCAL_MACHINE\\SYSTEM\\CurrentControlSet\\Control\\GraphicsDrivers");
    for (key, _, _, entry) in written_values() {
        let k = &saved[entry].0;
        assert!(key == *k || key.starts_with(&format!("{}\\", k)), "{} is not under {}", key, k);
    }
}

#[test]
fn restore_goes_key_by_key() {
    let t = restore_script();
    assert_eq!(PsScript::Restore.text(), t);
    assert!(!t.contains("throw"));
    assert!(!t.contains("$ErrorActionPreference = 'Stop'"));
    let saved = saved_keys();
    let written = written_values();
    let mut last = 0;
    for (j, (_, file)) in saved.iter().enumerate() {
        let open = format!("if (Test-Path -LiteralPath '{}') {{\n", file);
        let start = t.find(&open).unwrap();
        assert!(start >= last);
        let import = format!("  reg import '{}' | Out-Null\n}}\n", file);
        let end = t[start..].find(&import).unwrap() + start;
        let block = &t[start..end];
        for (key, name, in_subkeys, entry) in &written {
            let line = if *in_subkeys {
                format!("  Get-ChildItem -Path 'Registry::{}' -ErrorAction SilentlyContinue | ForEach-Object {{ Remove-ItemProperty -LiteralPath $_.PSPath -Name '{}'", key, name)
            } else {
                format!("  Remove-ItemProperty -LiteralPath 'Registry::{}' -Name '{}'", key, name)
            };
            assert_eq!(block.contains(&line), *entry == j, "{}", line);
        }
        last = end;
    }
    let plan = t.find("if (Test-Path -LiteralPath 'C:\\ProgramData\\Vortex\\backup_power.txt') {").unwrap();
    assert!(plan >= last);
    assert!(t.contains("powercfg /setactive $Matches[1]"));
}

#[test]
fn written_values_cover_games_task() {
    let w = written_values();
    let games: Vec<&str> = w
        .iter()
        .filter(|(k, _, _, _)| k.ends_with("\\Tasks\\Games"))
        .map(|(_, n, _, _)| *n)
        .collect();
    let names: Vec<String> = games_task_settings().into_iter().map(|s| s.name).collect();
    assert_eq!(games, names);
}

#[test]
fn gpu_settings_written_in_order_until_a_failure() {
    assert_eq!(next_setting(&vec![]), Some(0));
    assert_eq!(next_setting(&vec![true]), Some(1));
    assert_eq!(next_setting(&vec![true, true, true]), Some(3));
    assert_eq!(next_setting(&vec![true, true, true, true]), None);
    assert_eq!(next_setting(&vec![true, false]), None);
    assert_eq!(next_setting(&vec![false]), None);
}
