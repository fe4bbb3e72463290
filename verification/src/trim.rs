//! Which running processes get their working set trimmed, and when a trimming
//! pass counts as done.
use vstd::prelude::*;
use crate::error::VortexError;
use crate::text::same_text;

verus! {

/// A running process as the trimming pass sees it.
#[derive(Debug, Clone)]
pub struct RunningProcess {
    pub pid: u32,
    pub name: String,
}

/// The system processes that are never trimmed.
pub open spec fn is_protected_name(name: Seq<char>) -> bool {
    ||| name == "explorer.exe"@
    ||| name == "dwm.exe"@
    ||| name == "csrss.exe"@
    ||| name == "winlogon.exe"@
    ||| name == "System"@
    ||| name == "smss.exe"@
}

/// A process is trimmed unless it is the tool itself or a protected system process.
pub open spec fn is_trim_target(p: RunningProcess, current_pid: u32) -> bool {
    p.pid != current_pid && !is_protected_name(p.name@)
}

/// The pids of the processes in `procs` that are trimmed, in their order.
pub open spec fn target_pids(procs: Seq<RunningProcess>, current_pid: u32) -> Seq<u32>
    decreases procs.len(),
{
    if procs.len() == 0 {
        Seq::empty()
    } else {
        let rest = target_pids(procs.drop_last(), current_pid);
        if is_trim_target(procs.last(), current_pid) {
            rest.push(procs.last().pid)
        } else {
            rest
        }
    }
}

/// Whether `name` is one of the protected system processes.
pub fn is_protected(name: &str) -> (res: bool)
    ensures
        res == is_protected_name(name@),
{
    same_text(name, "explorer.exe") || same_text(name, "dwm.exe") || same_text(name, "csrss.exe")
        || same_text(name, "winlogon.exe") || same_text(name, "System") || same_text(
        name,
        "smss.exe",
    )
}

/// The pids to trim, in the order of `procs`: every process but the tool itself
/// (`current_pid`) and the protected system processes.
pub fn trim_targets(procs: &Vec<RunningProcess>, current_pid: u32) -> (res: Vec<u32>)
    ensures
        res@ == target_pids(procs@, current_pid),
{
    let mut res: Vec<u32> = Vec::new();
    let mut i: usize = 0;
    while i < procs.len()
        invariant
            i <= procs.len(),
            res@ == target_pids(procs@.take(i as int), current_pid),
        decreases procs.len() - i,
    {
        proof {
            assert(procs@.take(i + 1).drop_last() =~= procs@.take(i as int));
            assert(procs@.take(i + 1).last() == procs@[i as int]);
        }
        let p = &procs[i];
        if p.pid != current_pid && !is_protected(p.name.as_str()) {
            res.push(p.pid);
        }
        i = i + 1;
    }
    assert(procs@.take(procs.len() as int) =~= procs@);
    res
}

/// Every trimmed pid belongs to a process that is neither the tool nor a
/// protected system process, and every such process is trimmed.
pub proof fn lemma_target_pids(procs: Seq<RunningProcess>, current_pid: u32)
    ensures
        forall|k: int| 0 <= k < target_pids(procs, current_pid).len() ==> {
            let pid = #[trigger] target_pids(procs, current_pid)[k];
            &&& pid != current_pid
            &&& exists|j: int|
                0 <= j < procs.len() && procs[j].pid == pid && is_trim_target(
                    #[trigger] procs[j],
                    current_pid,
                )
        },
        forall|j: int|
            0 <= j < procs.len() && is_trim_target(#[trigger] procs[j], current_pid)
                ==> target_pids(procs, current_pid).contains(procs[j].pid),
        target_pids(procs, current_pid).len() <= procs.len(),
    decreases procs.len(),
{
    if procs.len() > 0 {
        let init = procs.drop_last();
        lemma_target_pids(init, current_pid);
        let t = target_pids(procs, current_pid);
        let r = target_pids(init, current_pid);
        assert forall|k: int| 0 <= k < t.len() implies {
            let pid = #[trigger] t[k];
            &&& pid != current_pid
            &&& exists|j: int|
                0 <= j < procs.len() && procs[j].pid == pid && is_trim_target(
                    #[trigger] procs[j],
                    current_pid,
                )
        } by {
            if k < r.len() {
                assert(t[k] == r[k]);
                let pid = r[k];
                let j = choose|j: int|
                    0 <= j < init.len() && init[j].pid == pid && is_trim_target(
                        #[trigger] init[j],
                        current_pid,
                    );
                assert(procs[j] == init[j]);
            } else {
                assert(procs[procs.len() - 1] == procs.last());
            }
        }
        assert forall|j: int|
            0 <= j < procs.len() && is_trim_target(#[trigger] procs[j], current_pid) implies t.contains(
            procs[j].pid,
        ) by {
            if j < procs.len() - 1 {
                assert(procs[j] == init[j]);
                let k = choose|k: int| 0 <= k < r.len() && r[k] == procs[j].pid;
                assert(t[k] == r[k]);
            } else {
                assert(t[t.len() - 1] == procs[j].pid);
            }
        }
    }
}

/// A trimming pass succeeds when at least one process was trimmed; `trimmed`
/// tells, for each target, whether trimming it worked.
pub fn trim_outcome(trimmed: &Vec<bool>) -> (res: Result<(), VortexError>)
    ensures
        res is Ok <==> exists|i: int| 0 <= i < trimmed@.len() && trimmed@[i],
        res matches Err(e) ==> e is NoEligibleProcess,
{
    let mut i: usize = 0;
    while i < trimmed.len()
        invariant
            i <= trimmed.len(),
            forall|k: int| 0 <= k < i ==> !trimmed@[k],
        decreases trimmed.len() - i,
    {
        if trimmed[i] {
            return Ok(());
        }
        i = i + 1;
    }
    Err(VortexError::NoEligibleProcess)
}

/// The process is neither the tool nor one of the system processes
/// `explorer.exe`, `dwm.exe`, `csrss.exe`, `winlogon.exe`, `System`, `smss.exe`.
pub open spec fn is_ordinary(p: RunningProcess, current_pid: u32) -> bool {
    &&& p.pid != current_pid
    &&& p.name@ != "explorer.exe"@
    &&& p.name@ != "dwm.exe"@
    &&& p.name@ != "csrss.exe"@
    &&& p.name@ != "winlogon.exe"@
    &&& p.name@ != "System"@
    &&& p.name@ != "smss.exe"@
}

/// The tool itself and the system processes are never trimmed: every trimmed
/// pid belongs to an ordinary process. Every ordinary process is trimmed.
pub proof fn lemma_trim_spares_system(procs: Seq<RunningProcess>, current_pid: u32)
    ensures
        forall|k: int|
            0 <= k < target_pids(procs, current_pid).len() ==> exists|j: int|
                0 <= j < procs.len() && procs[j].pid == #[trigger] target_pids(
                    procs,
                    current_pid,
                )[k] && is_ordinary(#[trigger] procs[j], current_pid),
        forall|j: int|
            0 <= j < procs.len() && is_ordinary(#[trigger] procs[j], current_pid)
                ==> target_pids(procs, current_pid).contains(procs[j].pid),
{
    lemma_target_pids(procs, current_pid);
    let t = target_pids(procs, current_pid);
    assert forall|k: int| 0 <= k < t.len() implies exists|j: int|
        0 <= j < procs.len() && procs[j].pid == #[trigger] t[k] && is_ordinary(
            #[trigger] procs[j],
            current_pid,
        ) by {
        let pid = t[k];
        let j = choose|j: int|
            0 <= j < procs.len() && procs[j].pid == pid && is_trim_target(
                #[trigger] procs[j],
                current_pid,
            );
        assert(is_trim_target(procs[j], current_pid));
        assert(is_ordinary(procs[j], current_pid));
    }
}

} // verus!
