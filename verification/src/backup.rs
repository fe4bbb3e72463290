//! The backup taken before tuning and the restore that undoes it: which
//! registry keys are saved, which values the tuning steps set by name, and the
//! PowerShell scripts that save and restore them.
use vstd::prelude::*;
use crate::keys::{
    join2, join3, GAMEDVR_FILE, GAMEDVR_SUBKEY, GAMES_SUFFIX, GRAPHICS_FILE, GRAPHICS_SUBKEY, HKCU,
    HKLM, HVCI_FILE, HVCI_SUBKEY, INTERFACES_FILE, INTERFACES_SUBKEY, MEMORY_FILE, MEMORY_SUBKEY,
    MULTIMEDIA_FILE, MULTIMEDIA_SUBKEY, POWER_PLAN_FILE, POWER_SCHEMES_FILE, POWER_SCHEMES_SUBKEY,
    PREFETCH_SUFFIX, VORTEX_DIR,
};
use crate::scripts::{accepts, rule_spec, PsScript};
use crate::text::{has_substring, lemma_absent_concat, occurs_at};

verus! {

/// A saved key: the registry key and the file it is exported to.
pub type Entry = (Seq<char>, Seq<char>);

/// A value that restore deletes before importing its key's backup: the key,
/// the value's name, whether it lies in every direct subkey of that key rather
/// than in the key itself, and the index of the saved entry that holds it.
pub type Touch = (Seq<char>, Seq<char>, bool, int);

/// The saved registry keys, each with its backup file in the backup folder.
pub open spec fn backup_entries() -> Seq<Entry> {
    seq![
        (HKLM@ + GRAPHICS_SUBKEY@, VORTEX_DIR@ + GRAPHICS_FILE@),
        (HKLM@ + MULTIMEDIA_SUBKEY@, VORTEX_DIR@ + MULTIMEDIA_FILE@),
        (HKLM@ + POWER_SCHEMES_SUBKEY@, VORTEX_DIR@ + POWER_SCHEMES_FILE@),
        (HKLM@ + MEMORY_SUBKEY@, VORTEX_DIR@ + MEMORY_FILE@),
        (HKLM@ + INTERFACES_SUBKEY@, VORTEX_DIR@ + INTERFACES_FILE@),
        (HKLM@ + HVCI_SUBKEY@, VORTEX_DIR@ + HVCI_FILE@),
        (HKCU@ + GAMEDVR_SUBKEY@, VORTEX_DIR@ + GAMEDVR_FILE@),
    ]
}

/// The registry values that the tuning steps set by name, grouped by step:
/// hardware GPU scheduling, the four "Games" task values, the active power
/// scheme, the paging files, the three per-interface Nagle values, network
/// throttling, the prefetcher and Superfetch, the two game capture values, and
/// memory integrity. Restore deletes each of them before it imports the
/// backup of the saved key that holds it, so a value that did not exist before
/// tuning does not survive. The power plan script also writes setting indexes
/// inside the schemes, and may create a scheme; those lie in the saved
/// power schemes key and only what its backup holds is imported back.
pub open spec fn tuning_touches() -> Seq<Touch> {
    let games = HKLM@ + MULTIMEDIA_SUBKEY@ + GAMES_SUFFIX@;
    let interfaces = HKLM@ + INTERFACES_SUBKEY@;
    let prefetch = HKLM@ + MEMORY_SUBKEY@ + PREFETCH_SUFFIX@;
    let gamedvr = HKCU@ + GAMEDVR_SUBKEY@;
    seq![
        (HKLM@ + GRAPHICS_SUBKEY@, "HwSchMode"@, false, 0),
        (games, "GPU Priority"@, false, 1),
        (games, "Priority"@, false, 1),
        (games, "Scheduling Category"@, false, 1),
        (games, "SFIO Priority"@, false, 1),
        (HKLM@ + POWER_SCHEMES_SUBKEY@, "ActivePowerScheme"@, false, 2),
        (HKLM@ + MEMORY_SUBKEY@, "PagingFiles"@, false, 3),
        (interfaces, "TcpAckFrequency"@, true, 4),
        (interfaces, "TCPNoDelay"@, true, 4),
        (interfaces, "TcpDelAckTicks"@, true, 4),
        (HKLM@ + MULTIMEDIA_SUBKEY@, "NetworkThrottlingIndex"@, false, 1),
        (prefetch, "EnablePrefetcher"@, false, 3),
        (prefetch, "EnableSuperfetch"@, false, 3),
        (gamedvr, "AppCaptureEnabled"@, false, 6),
        (gamedvr, "GameDVR_Enabled"@, false, 6),
        (HKLM@ + HVCI_SUBKEY@, "Enabled"@, false, 5),
    ]
}

/// Where each script's values lie in `tuning_touches` (from, to).
pub open spec fn touch_range(s: PsScript) -> (int, int) {
    match s {
        PsScript::EnableHags => (0, 1),
        PsScript::UltimatePowerPlan => (5, 6),
        PsScript::PagingFile(_) => (6, 7),
        PsScript::DisableNagle => (7, 10),
        PsScript::NetworkThrottlingOff => (10, 11),
        PsScript::TrimSuperfetch => (11, 13),
        PsScript::DisableXboxGameBar => (13, 15),
        PsScript::MemoryIntegrity(_) => (15, 16),
        PsScript::Backup => (0, 0),
        PsScript::Restore => (0, 0),
    }
}

/// The registry values that `s` writes.
pub open spec fn script_touches(s: PsScript) -> Seq<Touch> {
    tuning_touches().subrange(touch_range(s).0, touch_range(s).1)
}

/// The registry values that the "Games" task priority step writes.
pub open spec fn gpu_priority_touches() -> Seq<Touch> {
    tuning_touches().subrange(1, 5)
}

/// `key` is `root` or lies below it.
pub open spec fn is_under(key: Seq<char>, root: Seq<char>) -> bool {
    ||| key == root
    ||| root.len() < key.len() && key.subrange(0, root.len() as int) == root && key[root.len() as int]
        == '\\'
}

/// The backup saves `key` (with everything below it).
pub open spec fn is_saved(key: Seq<char>) -> bool {
    exists|j: int| 0 <= j < backup_entries().len() && is_under(key, #[trigger] backup_entries()[j].0)
}

// ---------------------------------------------------------------- backup script

/// First lines of the backup script: stop at the first error, then create the
/// backup folder, before anything is written into it.
pub open spec fn backup_head() -> Seq<char> {
    "\n$ErrorActionPreference = 'Stop'\nNew-Item -ItemType Directory -Force -Path '"@ + VORTEX_DIR@
        + "' | Out-Null\n"@
}

/// Line that clears the old backup files, before anything new is written.
pub open spec fn clear_line() -> Seq<char> {
    "Remove-Item -Path '"@ + VORTEX_DIR@ + "\\backup_*' -Force\n"@
}

/// The command that writes `key` into `file`, overwriting it.
pub open spec fn export_cmd(key: Seq<char>, file: Seq<char>) -> Seq<char> {
    "reg export '"@ + key + "' '"@ + file + "' /y"@
}

/// Text before the export command in the lines that save `key`.
pub open spec fn export_prefix(key: Seq<char>) -> Seq<char> {
    "if (Test-Path -LiteralPath 'Registry::"@ + key + "') {\n  "@
}

/// Lines that save `key` into `file` when the key exists; a failed export
/// stops the script.
pub open spec fn export_line(key: Seq<char>, file: Seq<char>) -> Seq<char> {
    export_prefix(key) + export_cmd(key, file)
        + " | Out-Null\n  if ($LASTEXITCODE -ne 0) { throw \"ERREUR reg export "@ + key + "\" }\n}\n"@
}

/// The export lines of all `entries`, in order.
pub open spec fn export_lines(entries: Seq<Entry>) -> Seq<char>
    decreases entries.len(),
{
    if entries.len() == 0 {
        Seq::empty()
    } else {
        export_lines(entries.drop_last()) + export_line(entries.last().0, entries.last().1)
    }
}

/// Last lines of the backup script: record the active power plan.
pub open spec fn save_plan_lines() -> Seq<char> {
    "powercfg /getactivescheme | Out-File -Encoding utf8 -FilePath '"@ + VORTEX_DIR@
        + POWER_PLAN_FILE@
        + "'\nif ($LASTEXITCODE -ne 0) { throw \"ERREUR powercfg /getactivescheme\" }\n"@
}

/// The backup script: create the folder, clear the old backup files, save
/// every key, record the plan.
pub open spec fn backup_spec() -> Seq<char> {
    backup_head() + clear_line() + export_lines(backup_entries()) + save_plan_lines()
}

// ---------------------------------------------------------------- restore script

/// Line that deletes a set value, so that only what the backup held comes back.
pub open spec fn removal_line(t: Touch) -> Seq<char> {
    if t.2 {
        "  Get-ChildItem -Path 'Registry::"@ + t.0
            + "' -ErrorAction SilentlyContinue | ForEach-Object { Remove-ItemProperty -LiteralPath $_.PSPath -Name '"@
            + t.1 + "' -ErrorAction SilentlyContinue }\n"@
    } else {
        "  Remove-ItemProperty -LiteralPath 'Registry::"@ + t.0 + "' -Name '"@ + t.1
            + "' -ErrorAction SilentlyContinue\n"@
    }
}

/// The removal lines of those `touches` held by saved entry `j`, in order.
pub open spec fn removals_for(touches: Seq<Touch>, j: int) -> Seq<char>
    decreases touches.len(),
{
    if touches.len() == 0 {
        Seq::empty()
    } else {
        removals_for(touches.drop_last(), j) + if touches.last().3 == j {
            removal_line(touches.last())
        } else {
            Seq::empty()
        }
    }
}

/// Opening line of the restore of one key: only when its backup file exists.
pub open spec fn block_head(file: Seq<char>) -> Seq<char> {
    "if (Test-Path -LiteralPath '"@ + file + "') {\n"@
}

/// Closing lines of the restore of one key: import its backup file.
pub open spec fn block_tail(file: Seq<char>) -> Seq<char> {
    "  reg import '"@ + file + "' | Out-Null\n}\n"@
}

/// The restore of saved entry `j`: when its backup file exists, delete the set
/// values it holds, then import the file.
pub open spec fn restore_block(j: int) -> Seq<char> {
    let file = backup_entries()[j].1;
    block_head(file) + removals_for(tuning_touches(), j) + block_tail(file)
}

/// The restores of the first `n` saved entries, in order.
pub open spec fn restore_blocks(n: nat) -> Seq<char>
    decreases n,
{
    if n == 0 {
        Seq::empty()
    } else {
        restore_blocks((n - 1) as nat) + restore_block(n - 1)
    }
}

/// Last lines of the restore script: reactivate the recorded power plan, if any.
pub open spec fn restore_plan_lines() -> Seq<char> {
    "if (Test-Path -LiteralPath '"@ + VORTEX_DIR@ + POWER_PLAN_FILE@ + "') {\n  $plan = Get-Content -LiteralPath '"@
        + VORTEX_DIR@ + POWER_PLAN_FILE@
        + "' | Select-Object -First 1\n  "@ + "if ($plan -match '([0-9a-fA-F]{8}-[0-9a-fA-F]{4}-[0-9a-fA-F]{4}-[0-9a-fA-F]{4}-[0-9a-fA-F]{12})') { powercfg /setactive $Matches[1] | Out-Null }"@ + "\n}\n"@
}

/// The restore script: key by key, whatever backup file exists is restored
/// (its set values deleted, then the file imported); then the recorded plan
/// is reactivated. Errors do not stop it.
pub open spec fn restore_spec() -> Seq<char> {
    "\n"@ + restore_blocks(backup_entries().len()) + restore_plan_lines()
}

// ---------------------------------------------------------------- executable

/// The view of saved keys held as strings.
pub open spec fn entries_view(v: Seq<(String, String)>) -> Seq<Entry> {
    v.map_values(|e: (String, String)| (e.0@, e.1@))
}

/// The view of set values held as strings.
pub open spec fn touches_view(v: Seq<(String, &'static str, bool, usize)>) -> Seq<Touch> {
    v.map_values(|t: (String, &'static str, bool, usize)| (t.0@, t.1@, t.2, t.3 as int))
}

/// The saved registry keys, each with its backup file.
pub fn saved_keys() -> (res: Vec<(String, String)>)
    ensures
        entries_view(res@) == backup_entries(),
{
    let mut res: Vec<(String, String)> = Vec::new();
    res.push((join2(HKLM, GRAPHICS_SUBKEY), join2(VORTEX_DIR, GRAPHICS_FILE)));
    res.push((join2(HKLM, MULTIMEDIA_SUBKEY), join2(VORTEX_DIR, MULTIMEDIA_FILE)));
    res.push((join2(HKLM, POWER_SCHEMES_SUBKEY), join2(VORTEX_DIR, POWER_SCHEMES_FILE)));
    res.push((join2(HKLM, MEMORY_SUBKEY), join2(VORTEX_DIR, MEMORY_FILE)));
    res.push((join2(HKLM, INTERFACES_SUBKEY), join2(VORTEX_DIR, INTERFACES_FILE)));
    res.push((join2(HKLM, HVCI_SUBKEY), join2(VORTEX_DIR, HVCI_FILE)));
    res.push((join2(HKCU, GAMEDVR_SUBKEY), join2(VORTEX_DIR, GAMEDVR_FILE)));
    assert(entries_view(res@) =~= backup_entries());
    res
}

/// The registry values the tuning steps set by name, each with the index of
/// the saved key that holds it.
pub fn written_values() -> (res: Vec<(String, &'static str, bool, usize)>)
    ensures
        touches_view(res@) == tuning_touches(),
{
    let mut res: Vec<(String, &'static str, bool, usize)> = Vec::new();
    res.push((join2(HKLM, GRAPHICS_SUBKEY), "HwSchMode", false, 0));
    res.push((join3(HKLM, MULTIMEDIA_SUBKEY, GAMES_SUFFIX), "GPU Priority", false, 1));
    res.push((join3(HKLM, MULTIMEDIA_SUBKEY, GAMES_SUFFIX), "Priority", false, 1));
    res.push((join3(HKLM, MULTIMEDIA_SUBKEY, GAMES_SUFFIX), "Scheduling Category", false, 1));
    res.push((join3(HKLM, MULTIMEDIA_SUBKEY, GAMES_SUFFIX), "SFIO Priority", false, 1));
    res.push((join2(HKLM, POWER_SCHEMES_SUBKEY), "ActivePowerScheme", false, 2));
    res.push((join2(HKLM, MEMORY_SUBKEY), "PagingFiles", false, 3));
    res.push((join2(HKLM, INTERFACES_SUBKEY), "TcpAckFrequency", true, 4));
    res.push((join2(HKLM, INTERFACES_SUBKEY), "TCPNoDelay", true, 4));
    res.push((join2(HKLM, INTERFACES_SUBKEY), "TcpDelAckTicks", true, 4));
    res.push((join2(HKLM, MULTIMEDIA_SUBKEY), "NetworkThrottlingIndex", false, 1));
    res.push((join3(HKLM, MEMORY_SUBKEY, PREFETCH_SUFFIX), "EnablePrefetcher", false, 3));
    res.push((join3(HKLM, MEMORY_SUBKEY, PREFETCH_SUFFIX), "EnableSuperfetch", false, 3));
    res.push((join2(HKCU, GAMEDVR_SUBKEY), "AppCaptureEnabled", false, 6));
    res.push((join2(HKCU, GAMEDVR_SUBKEY), "GameDVR_Enabled", false, 6));
    res.push((join2(HKLM, HVCI_SUBKEY), "Enabled", false, 5));
    assert(touches_view(res@) =~= tuning_touches());
    res
}
fn push_export_line(s: &mut String, key: &str, file: &str)
    ensures
        final(s)@ == old(s)@ + export_line(key@, file@),
{
    s.append("if (Test-Path -LiteralPath 'Registry::");
    s.append(key);
    s.append("') {\n  ");
    s.append("reg export '");
    s.append(key);
    s.append("' '");
    s.append(file);
    s.append("' /y");
    s.append(" | Out-Null\n  if ($LASTEXITCODE -ne 0) { throw \"ERREUR reg export ");
    s.append(key);
    s.append("\" }\n}\n");
    assert(s@ =~= old(s)@ + export_line(key@, file@));
}

fn push_removal_line(s: &mut String, key: &str, name: &str, in_subkeys: bool, entry: usize)
    ensures
        final(s)@ == old(s)@ + removal_line((key@, name@, in_subkeys, entry as int)),
{
    if in_subkeys {
        s.append("  Get-ChildItem -Path 'Registry::");
        s.append(key);
        s.append(
            "' -ErrorAction SilentlyContinue | ForEach-Object { Remove-ItemProperty -LiteralPath $_.PSPath -Name '",
        );
        s.append(name);
        s.append("' -ErrorAction SilentlyContinue }\n");
    } else {
        s.append("  Remove-ItemProperty -LiteralPath 'Registry::");
        s.append(key);
        s.append("' -Name '");
        s.append(name);
        s.append("' -ErrorAction SilentlyContinue\n");
    }
    assert(s@ =~= old(s)@ + removal_line((key@, name@, in_subkeys, entry as int)));
}

/// Appends the restore of saved entry `j` (its backup file is `file`).
fn push_restore_block(
    s: &mut String,
    file: &str,
    touches: &Vec<(String, &'static str, bool, usize)>,
    j: usize,
)
    requires
        touches_view(touches@) == tuning_touches(),
        file@ == backup_entries()[j as int].1,
    ensures
        final(s)@ == old(s)@ + restore_block(j as int),
{
    let ghost tv = touches_view(touches@);
    s.append("if (Test-Path -LiteralPath '");
    s.append(file);
    s.append("') {\n");
    let ghost prefix = s@;
    assert(prefix =~= old(s)@ + block_head(file@));
    let mut k: usize = 0;
    while k < touches.len()
        invariant
            tv == touches_view(touches@),
            k <= touches.len(),
            s@ == prefix + removals_for(tv.take(k as int), j as int),
        decreases touches.len() - k,
    {
        proof {
            assert(tv.take(k + 1).drop_last() =~= tv.take(k as int));
            assert(tv.take(k + 1).last() == tv[k as int]);
        }
        if touches[k].3 == j {
            push_removal_line(s, touches[k].0.as_str(), touches[k].1, touches[k].2, touches[k].3);
        }
        proof {
            assert(s@ =~= prefix + removals_for(tv.take(k + 1), j as int));
        }
        k = k + 1;
    }
    assert(tv.take(touches.len() as int) =~= tv);
    s.append("  reg import '");
    s.append(file);
    s.append("' | Out-Null\n}\n");
    assert(s@ =~= old(s)@ + restore_block(j as int));
}

/// The text of the backup script.
pub fn backup_script() -> (res: String)
    ensures
        res@ == backup_spec(),
{
    let mut s = String::from_str(
        "\n$ErrorActionPreference = 'Stop'\nNew-Item -ItemType Directory -Force -Path '",
    );
    s.append(VORTEX_DIR);
    s.append("' | Out-Null\n");
    s.append("Remove-Item -Path '");
    s.append(VORTEX_DIR);
    s.append("\\backup_*' -Force\n");
    assert(s@ =~= backup_head() + clear_line());
    let entries = saved_keys();
    let ghost ev = entries_view(entries@);
    let mut i: usize = 0;
    while i < entries.len()
        invariant
            ev == entries_view(entries@),
            i <= entries.len(),
            s@ == backup_head() + clear_line() + export_lines(ev.take(i as int)),
        decreases entries.len() - i,
    {
        proof {
            assert(ev.take(i + 1).drop_last() =~= ev.take(i as int));
            assert(ev.take(i + 1).last() == (entries@[i as int].0@, entries@[i as int].1@));
        }
        push_export_line(&mut s, entries[i].0.as_str(), entries[i].1.as_str());
        proof {
            assert(s@ =~= backup_head() + clear_line() + export_lines(ev.take(i + 1)));
        }
        i = i + 1;
    }
    assert(ev.take(entries.len() as int) =~= ev);
    s.append("powercfg /getactivescheme | Out-File -Encoding utf8 -FilePath '");
    s.append(VORTEX_DIR);
    s.append(POWER_PLAN_FILE);
    s.append("'\nif ($LASTEXITCODE -ne 0) { throw \"ERREUR powercfg /getactivescheme\" }\n");
    assert(s@ =~= backup_spec());
    s
}

/// The text of the restore script.
pub fn restore_script() -> (res: String)
    ensures
        res@ == restore_spec(),
{
    let mut s = String::from_str("\n");
    let entries = saved_keys();
    let touches = written_values();
    let ghost ev = entries_view(entries@);
    let mut j: usize = 0;
    while j < entries.len()
        invariant
            ev == entries_view(entries@),
            ev == backup_entries(),
            touches_view(touches@) == tuning_touches(),
            j <= entries.len(),
            s@ == "\n"@ + restore_blocks(j as nat),
        decreases entries.len() - j,
    {
        assert(entries@[j as int].1@ == backup_entries()[j as int].1);
        push_restore_block(&mut s, entries[j].1.as_str(), &touches, j);
        proof {
            assert(restore_blocks((j + 1) as nat) == restore_blocks(j as nat) + restore_block(j as int));
            assert(s@ =~= "\n"@ + restore_blocks((j + 1) as nat));
        }
        j = j + 1;
    }
    s.append("if (Test-Path -LiteralPath '");
    s.append(VORTEX_DIR);
    s.append(POWER_PLAN_FILE);
    s.append("') {\n  $plan = Get-Content -LiteralPath '");
    s.append(VORTEX_DIR);
    s.append(POWER_PLAN_FILE);
    s.append("' | Select-Object -First 1\n  ");
    s.append("if ($plan -match '([0-9a-fA-F]{8}-[0-9a-fA-F]{4}-[0-9a-fA-F]{4}-[0-9a-fA-F]{4}-[0-9a-fA-F]{12})') { powercfg /setactive $Matches[1] | Out-Null }");
    s.append("\n}\n");
    assert(s@ =~= restore_spec());
    s
}

// ---------------------------------------------------------------- laws

/// `root` followed by a suffix that starts with a backslash lies below `root`.
proof fn lemma_under_suffix(root: Seq<char>, suffix: Seq<char>)
    requires
        suffix.len() > 0,
        suffix[0] == '\\',
    ensures
        is_under(root + suffix, root),
{
    assert((root + suffix).subrange(0, root.len() as int) =~= root);
    assert((root + suffix)[root.len() as int] == suffix[0]);
}

/// Every value that a tuning step sets lies in the saved key its entry names;
/// the values of each script, and those of the "Games" task step, are among them.
pub proof fn lemma_written_values_are_saved()
    ensures
        forall|k: int|
            0 <= k < tuning_touches().len() ==> {
                let t = #[trigger] tuning_touches()[k];
                &&& 0 <= t.3 < backup_entries().len()
                &&& is_under(t.0, backup_entries()[t.3].0)
            },
        forall|k: int| 0 <= k < tuning_touches().len() ==> is_saved(#[trigger] tuning_touches()[k].0),
        forall|s: PsScript, i: int|
            0 <= i < script_touches(s).len() ==> tuning_touches().contains(
                #[trigger] script_touches(s)[i],
            ),
        forall|i: int|
            0 <= i < gpu_priority_touches().len() ==> tuning_touches().contains(
                #[trigger] gpu_priority_touches()[i],
            ),
{
    reveal_strlit(r"\Tasks\Games");
    reveal_strlit(r"\PrefetchParameters");
    let t = tuning_touches();
    let e = backup_entries();
    lemma_under_suffix(HKLM@ + MULTIMEDIA_SUBKEY@, GAMES_SUFFIX@);
    lemma_under_suffix(HKLM@ + MEMORY_SUBKEY@, PREFETCH_SUFFIX@);
    assert(HKLM@ + MULTIMEDIA_SUBKEY@ + GAMES_SUFFIX@ == (HKLM@ + MULTIMEDIA_SUBKEY@) + GAMES_SUFFIX@);
    assert forall|k: int| 0 <= k < t.len() implies {
        let x = #[trigger] t[k];
        &&& 0 <= x.3 < e.len()
        &&& is_under(x.0, e[x.3].0)
    } by {}
    assert forall|k: int| 0 <= k < t.len() implies is_saved(#[trigger] t[k].0) by {
        assert(is_under(t[k].0, e[t[k].3].0));
    }
    assert forall|s: PsScript, i: int| 0 <= i < script_touches(s).len() implies t.contains(
        #[trigger] script_touches(s)[i],
    ) by {
        let lo = touch_range(s).0;
        assert(script_touches(s)[i] == t[lo + i]);
    }
    assert forall|i: int| 0 <= i < gpu_priority_touches().len() implies t.contains(
        #[trigger] gpu_priority_touches()[i],
    ) by {
        assert(gpu_priority_touches()[i] == t[1 + i]);
    }
}

/// Each entry's export lines stand in the export lines of the whole list.
proof fn lemma_export_lines_contain(entries: Seq<Entry>, j: int)
    requires
        0 <= j < entries.len(),
    ensures
        exists|p: int|
            occurs_at(
                export_lines(entries),
                export_line(entries[j].0, entries[j].1),
                p,
            ),
    decreases entries.len(),
{
    let all = export_lines(entries);
    let init = entries.drop_last();
    let l = export_line(entries[j].0, entries[j].1);
    if j == entries.len() - 1 {
        let p = export_lines(init).len() as int;
        assert(all.subrange(p, p + l.len()) =~= l);
        assert(occurs_at(all, l, p));
    } else {
        assert(init[j] == entries[j]);
        lemma_export_lines_contain(init, j);
        let p = choose|p: int| occurs_at(export_lines(init), l, p);
        assert(all.subrange(p, p + l.len()) =~= export_lines(init).subrange(p, p + l.len()));
        assert(occurs_at(all, l, p));
    }
}

/// Each value's removal line stands in the removal lines of its entry.
proof fn lemma_removals_for_contain(touches: Seq<Touch>, k: int)
    requires
        0 <= k < touches.len(),
    ensures
        exists|p: int| occurs_at(removals_for(touches, touches[k].3), removal_line(touches[k]), p),
    decreases touches.len(),
{
    let j = touches[k].3;
    let all = removals_for(touches, j);
    let init = touches.drop_last();
    let l = removal_line(touches[k]);
    if k == touches.len() - 1 {
        let p = removals_for(init, j).len() as int;
        assert(all.subrange(p, p + l.len()) =~= l);
        assert(occurs_at(all, l, p));
    } else {
        assert(init[k] == touches[k]);
        lemma_removals_for_contain(init, k);
        let p = choose|p: int| occurs_at(removals_for(init, j), l, p);
        assert(all.subrange(p, p + l.len()) =~= removals_for(init, j).subrange(p, p + l.len()));
        assert(occurs_at(all, l, p));
    }
}

/// Each entry's restore stands in the restores of the first `n` entries.
proof fn lemma_restore_blocks_contain(n: nat, j: int)
    requires
        0 <= j < n,
    ensures
        exists|p: int| occurs_at(restore_blocks(n), restore_block(j), p),
    decreases n,
{
    let all = restore_blocks(n);
    let init = restore_blocks((n - 1) as nat);
    let l = restore_block(j);
    if j == n - 1 {
        let p = init.len() as int;
        assert(all.subrange(p, p + l.len()) =~= l);
        assert(occurs_at(all, l, p));
    } else {
        lemma_restore_blocks_contain((n - 1) as nat, j);
        let p = choose|p: int| occurs_at(init, l, p);
        assert(all.subrange(p, p + l.len()) =~= init.subrange(p, p + l.len()));
        assert(occurs_at(all, l, p));
    }
}

/// The backup script creates the backup folder before anything else, every
/// backup file lies in that folder, and it exports every saved key.
pub proof fn lemma_backup_script()
    ensures
        backup_spec().subrange(0, backup_head().len() as int) == backup_head(),
        forall|j: int|
            0 <= j < backup_entries().len() ==> is_under(#[trigger] backup_entries()[j].1, VORTEX_DIR@),
        is_under(VORTEX_DIR@ + POWER_PLAN_FILE@, VORTEX_DIR@),
        forall|j: int|
            0 <= j < backup_entries().len() ==> has_substring(
                backup_spec(),
                export_line(#[trigger] backup_entries()[j].0, backup_entries()[j].1),
            ),
{
    assert(backup_spec().subrange(0, backup_head().len() as int) =~= backup_head());
    reveal_strlit(r"\backup_graphics.reg");
    reveal_strlit(r"\backup_multimedia.reg");
    reveal_strlit(r"\backup_powerschemes.reg");
    reveal_strlit(r"\backup_memory.reg");
    reveal_strlit(r"\backup_tcpip.reg");
    reveal_strlit(r"\backup_hvci.reg");
    reveal_strlit(r"\backup_gamedvr.reg");
    reveal_strlit(r"\backup_power.txt");
    lemma_under_suffix(VORTEX_DIR@, GRAPHICS_FILE@);
    lemma_under_suffix(VORTEX_DIR@, MULTIMEDIA_FILE@);
    lemma_under_suffix(VORTEX_DIR@, POWER_SCHEMES_FILE@);
    lemma_under_suffix(VORTEX_DIR@, MEMORY_FILE@);
    lemma_under_suffix(VORTEX_DIR@, INTERFACES_FILE@);
    lemma_under_suffix(VORTEX_DIR@, HVCI_FILE@);
    lemma_under_suffix(VORTEX_DIR@, GAMEDVR_FILE@);
    lemma_under_suffix(VORTEX_DIR@, POWER_PLAN_FILE@);
    let e = backup_entries();
    assert forall|j: int| 0 <= j < e.len() implies has_substring(
        backup_spec(),
        export_line(#[trigger] e[j].0, e[j].1),
    ) by {
        lemma_export_lines_contain(e, j);
        let l = export_line(e[j].0, e[j].1);
        let p = choose|p: int| occurs_at(export_lines(e), l, p);
        let h = (backup_head() + clear_line()).len() as int;
        assert(backup_spec().subrange(h + p, h + p + l.len()) =~= export_lines(e).subrange(
            p,
            p + l.len(),
        ));
        assert(occurs_at(backup_spec(), l, h + p));
    }
}

/// The restore script restores every saved key on its own: when the key's
/// backup file exists, it deletes the set values the key holds and then
/// imports the file; every set value is deleted in the restore of the key that
/// holds it. Whatever its output, a restore run is judged a success.
pub proof fn lemma_restore_script()
    ensures
        forall|j: int|
            0 <= j < backup_entries().len() ==> has_substring(restore_spec(), #[trigger] restore_block(j)),
        forall|j: int|
            0 <= j < backup_entries().len() ==> #[trigger] restore_block(j) == block_head(
                backup_entries()[j].1,
            ) + removals_for(tuning_touches(), j) + block_tail(backup_entries()[j].1),
        forall|k: int|
            0 <= k < tuning_touches().len() ==> has_substring(
                restore_block(tuning_touches()[k].3),
                removal_line(#[trigger] tuning_touches()[k]),
            ),
        forall|out: Seq<char>| #[trigger] accepts(rule_spec(PsScript::Restore), out),
{
    reveal_strlit("\n");
    let e = backup_entries();
    let t = tuning_touches();
    assert forall|j: int| 0 <= j < e.len() implies has_substring(
        restore_spec(),
        #[trigger] restore_block(j),
    ) by {
        lemma_restore_blocks_contain(e.len(), j);
        let l = restore_block(j);
        let b = restore_blocks(e.len());
        let p = choose|p: int| occurs_at(b, l, p);
        assert(restore_spec() == "\n"@ + b + restore_plan_lines());
        assert(restore_spec().subrange(1 + p, 1 + p + l.len()) =~= b.subrange(p, p + l.len()));
        assert(occurs_at(restore_spec(), l, 1 + p));
    }
    assert forall|k: int| 0 <= k < t.len() implies has_substring(
        restore_block(t[k].3),
        removal_line(#[trigger] t[k]),
    ) by {
        lemma_removals_for_contain(t, k);
        let j = t[k].3;
        let l = removal_line(t[k]);
        let r = removals_for(t, j);
        let p = choose|p: int| occurs_at(r, l, p);
        let h = block_head(e[j].1).len() as int;
        assert(restore_block(j).subrange(h + p, h + p + l.len()) =~= r.subrange(p, p + l.len()));
        assert(occurs_at(restore_block(j), l, h + p));
    }
}

/// The lines that save one key contain no `Remove-Item` and end a line.
#[verifier::rlimit(100)]
proof fn lemma_export_line_clean(j: int)
    requires
        0 <= j < backup_entries().len(),
    ensures
        forall|q: int|
            !occurs_at(export_line(backup_entries()[j].0, backup_entries()[j].1), "Remove-Item"@, q),
        export_line(backup_entries()[j].0, backup_entries()[j].1).last() == '\n',
{
    reveal_strlit("if (Test-Path -LiteralPath 'Registry::");
    reveal_strlit("') {\n  ");
    reveal_strlit("reg export '");
    reveal_strlit("' '");
    reveal_strlit("' /y");
    reveal_strlit(" | Out-Null\n  if ($LASTEXITCODE -ne 0) { throw \"ERREUR reg export ");
    reveal_strlit("\" }\n}\n");
    reveal_strlit(r"HKEY_LOCAL_MACHINE\");
    reveal_strlit(r"HKEY_CURRENT_USER\");
    reveal_strlit(r"SYSTEM\CurrentControlSet\Control\GraphicsDrivers");
    reveal_strlit(r"SOFTWARE\Microsoft\Windows NT\CurrentVersion\Multimedia\SystemProfile");
    reveal_strlit(r"SYSTEM\CurrentControlSet\Control\Power\User\PowerSchemes");
    reveal_strlit(r"SYSTEM\CurrentControlSet\Control\Session Manager\Memory Management");
    reveal_strlit(r"SYSTEM\CurrentControlSet\Services\Tcpip\Parameters\Interfaces");
    reveal_strlit(r"SYSTEM\CurrentControlSet\Control\DeviceGuard\Scenarios\HypervisorEnforcedCodeIntegrity");
    reveal_strlit(r"SOFTWARE\Microsoft\Windows\CurrentVersion\GameDVR");
    reveal_strlit(r"C:\ProgramData\Vortex");
    reveal_strlit(r"\backup_graphics.reg");
    reveal_strlit(r"\backup_multimedia.reg");
    reveal_strlit(r"\backup_powerschemes.reg");
    reveal_strlit(r"\backup_memory.reg");
    reveal_strlit(r"\backup_tcpip.reg");
    reveal_strlit(r"\backup_hvci.reg");
    reveal_strlit(r"\backup_gamedvr.reg");
    reveal_strlit(r"\backup_power.txt");
    reveal_strlit("Remove-Item");
    let s = export_line(backup_entries()[j].0, backup_entries()[j].1);
    let w = "Remove-Item"@;
    assert forall|q: int| !occurs_at(s, w, q) by {
        if occurs_at(s, w, q) {
            assert(s.subrange(q, q + w.len())[0] == w[0]);
            assert(s.subrange(q, q + w.len())[2] == w[2]);
            assert(s[q] == 'R');
            assert(s[q + 2] == 'm');
        }
    }
}

/// The save lines of the first `k` keys contain no `Remove-Item`, and end a
/// line unless empty.
proof fn lemma_export_lines_clean(k: int)
    requires
        0 <= k <= backup_entries().len(),
    ensures
        forall|q: int| !occurs_at(export_lines(backup_entries().take(k)), "Remove-Item"@, q),
        k == 0 || export_lines(backup_entries().take(k)).last() == '\n',
    decreases k,
{
    reveal_strlit("Remove-Item");
    let e = backup_entries();
    if k == 0 {
        assert(export_lines(e.take(0)) =~= Seq::<char>::empty());
    } else {
        lemma_export_lines_clean(k - 1);
        lemma_export_line_clean(k - 1);
        assert(e.take(k).drop_last() =~= e.take(k - 1));
        assert(e.take(k).last() == e[k - 1]);
        let a = export_lines(e.take(k - 1));
        let b = export_line(e[k - 1].0, e[k - 1].1);
        assert(export_lines(e.take(k)) == a + b);
        lemma_absent_concat(a, b, "Remove-Item"@);
        assert((a + b).last() == b.last());
    }
}

/// The line that records the power plan contains no `Remove-Item`.
proof fn lemma_save_plan_clean()
    ensures
        forall|q: int| !occurs_at(save_plan_lines(), "Remove-Item"@, q),
{
    reveal_strlit("powercfg /getactivescheme | Out-File -Encoding utf8 -FilePath '");
    reveal_strlit("'\nif ($LASTEXITCODE -ne 0) { throw \"ERREUR powercfg /getactivescheme\" }\n");
    reveal_strlit(r"C:\ProgramData\Vortex");
    reveal_strlit(r"\backup_power.txt");
    reveal_strlit("Remove-Item");
    let s = save_plan_lines();
    let w = "Remove-Item"@;
    assert forall|q: int| !occurs_at(s, w, q) by {
        if occurs_at(s, w, q) {
            assert(s.subrange(q, q + w.len())[0] == w[0]);
            assert(s.subrange(q, q + w.len())[2] == w[2]);
            assert(s[q] == 'R');
            assert(s[q + 2] == 'm');
        }
    }
}

/// Every backup file is kept: for each saved key, the backup script runs
/// `reg export '<key>' '<file>' /y`, and no `Remove-Item` comes after it, so
/// the file the export writes is still there when the script ends.
pub proof fn lemma_backup_keeps_every_file()
    ensures
        forall|j: int|
            0 <= j < backup_entries().len() ==> exists|p: int|
                {
                    &&& occurs_at(
                        backup_spec(),
                        "reg export '"@ + (#[trigger] backup_entries()[j]).0 + "' '"@
                            + backup_entries()[j].1 + "' /y"@,
                        p,
                    )
                    &&& forall|q: int| p <= q ==> !occurs_at(backup_spec(), "Remove-Item"@, q)
                },
{
    reveal_strlit("Remove-Item");
    let e = backup_entries();
    let w = "Remove-Item"@;
    let front = backup_head() + clear_line();
    let o = front.len() as int;
    let lines = export_lines(e);
    let region = lines + save_plan_lines();
    assert(e.take(e.len() as int) =~= e);
    lemma_export_lines_clean(e.len() as int);
    lemma_save_plan_clean();
    lemma_absent_concat(lines, save_plan_lines(), w);
    assert(backup_spec() == front + region);
    assert forall|q: int| o <= q implies !occurs_at(backup_spec(), w, q) by {
        if occurs_at(backup_spec(), w, q) {
            assert(region.subrange(q - o, q - o + w.len()) =~= backup_spec().subrange(
                q,
                q + w.len(),
            ));
            assert(occurs_at(region, w, q - o));
        }
    }
    assert forall|j: int| 0 <= j < e.len() implies exists|p: int|
        {
            &&& occurs_at(
                backup_spec(),
                "reg export '"@ + (#[trigger] e[j]).0 + "' '"@ + e[j].1 + "' /y"@,
                p,
            )
            &&& forall|q: int| p <= q ==> !occurs_at(backup_spec(), w, q)
        } by {
        let c = export_cmd(e[j].0, e[j].1);
        let l = export_line(e[j].0, e[j].1);
        lemma_export_lines_contain(e, j);
        let p1 = choose|p: int| occurs_at(lines, l, p);
        let a = export_prefix(e[j].0).len() as int;
        assert(l.subrange(a, a + c.len()) =~= c);
        let p = o + p1 + a;
        assert(backup_spec().subrange(p, p + c.len()) =~= lines.subrange(p1 + a, p1 + a + c.len()));
        assert(lines.subrange(p1 + a, p1 + a + c.len()) =~= l.subrange(a, a + c.len()));
        assert(occurs_at(backup_spec(), c, p));
    }
}

/// Restore reactivates the recorded plan: after every key's restore, and only
/// when the plan file exists, it runs `powercfg /setactive` on the GUID found
/// in the recorded line whenever that line matches the GUID pattern.
pub proof fn lemma_restore_reactivates_plan()
    ensures
        exists|p: int|
            {
                &&& occurs_at(
                    restore_spec(),
                    "if (Test-Path -LiteralPath '"@ + VORTEX_DIR@ + POWER_PLAN_FILE@ + "') {\n"@,
                    p,
                )
                &&& occurs_at(
                    restore_spec(),
                    "if ($plan -match '([0-9a-fA-F]{8}-[0-9a-fA-F]{4}-[0-9a-fA-F]{4}-[0-9a-fA-F]{4}-[0-9a-fA-F]{12})') { powercfg /setactive $Matches[1] | Out-Null }"@,
                    p + ("if (Test-Path -LiteralPath '"@ + VORTEX_DIR@ + POWER_PLAN_FILE@ + "') {\n  $plan = Get-Content -LiteralPath '"@
                        + VORTEX_DIR@ + POWER_PLAN_FILE@ + "' | Select-Object -First 1\n  "@).len(),
                )
                &&& p == 1 + restore_blocks(backup_entries().len()).len()
            },
{
    let b = restore_blocks(backup_entries().len());
    let t = restore_plan_lines();
    let p: int = 1 + b.len() as int;

    reveal_strlit("\n");
    assert(restore_spec() == "\n"@ + b + t);
    let g = "if (Test-Path -LiteralPath '"@ + VORTEX_DIR@ + POWER_PLAN_FILE@ + "') {\n"@;
    let h = "if (Test-Path -LiteralPath '"@ + VORTEX_DIR@ + POWER_PLAN_FILE@ + "') {\n  $plan = Get-Content -LiteralPath '"@
        + VORTEX_DIR@ + POWER_PLAN_FILE@ + "' | Select-Object -First 1\n  "@;
    let sw = "if ($plan -match '([0-9a-fA-F]{8}-[0-9a-fA-F]{4}-[0-9a-fA-F]{4}-[0-9a-fA-F]{4}-[0-9a-fA-F]{12})') { powercfg /setactive $Matches[1] | Out-Null }"@;
    reveal_strlit("') {\n  $plan = Get-Content -LiteralPath '");
    reveal_strlit("') {\n");
    let gl: int = g.len() as int;
    let hl: int = h.len() as int;
    let sl: int = sw.len() as int;
    assert(t.subrange(0, gl) =~= g);
    assert(restore_spec().subrange(p, p + gl) =~= t.subrange(0, gl));
    assert(t.subrange(hl, hl + sl) =~= sw);
    assert(restore_spec().subrange(p + hl, p + hl + sl) =~= t.subrange(hl, hl + sl));
    assert(occurs_at(restore_spec(), g, p));
    assert(occurs_at(restore_spec(), sw, p + hl));
}

} // verus!
