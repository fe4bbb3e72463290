//! The order of the steps of `apply`, and the line reported for each outcome.
use vstd::prelude::*;

verus! {

/// One step of `apply`.
#[derive(Debug, Clone, Copy, PartialEq, Eq, Structural)]
pub enum ApplyStep {
    Backup,
    EnableHags,
    GpuPriority,
    PowerPlan,
    PagingFile,
    TrimBackground,
    DisableNagle,
    NetworkThrottling,
    Superfetch,
    XboxGameBar,
    BoostPriority,
}

/// The steps of `apply`, in the order they run.
pub open spec fn plan_spec() -> Seq<ApplyStep> {
    seq![
        ApplyStep::Backup,
        ApplyStep::EnableHags,
        ApplyStep::GpuPriority,
        ApplyStep::PowerPlan,
        ApplyStep::PagingFile,
        ApplyStep::TrimBackground,
        ApplyStep::DisableNagle,
        ApplyStep::NetworkThrottling,
        ApplyStep::Superfetch,
        ApplyStep::XboxGameBar,
        ApplyStep::BoostPriority,
    ]
}

/// The line reported when a step succeeds.
pub open spec fn success_line(step: ApplyStep) -> Seq<char> {
    match step {
        ApplyStep::Backup => "✓ État sauvegardé"@,
        ApplyStep::EnableHags => "✓ HAGS activé"@,
        ApplyStep::GpuPriority => "✓ Priorité GPU élevée"@,
        ApplyStep::PowerPlan => "✓ Ultimate Performance"@,
        ApplyStep::PagingFile => "✓ Paging adapté à ta RAM"@,
        ApplyStep::TrimBackground => "✓ Working sets compressés"@,
        ApplyStep::DisableNagle => "✓ Nagle désactivé"@,
        ApplyStep::NetworkThrottling => "✓ Throttling réseau off"@,
        ApplyStep::Superfetch => "✓ Superfetch désactivé"@,
        ApplyStep::XboxGameBar => "✓ Xbox Game Bar désactivée"@,
        ApplyStep::BoostPriority => "✓ Vortex en haute priorité"@,
    }
}

/// The name a failed step is reported under.
pub open spec fn failure_label(step: ApplyStep) -> Seq<char> {
    match step {
        ApplyStep::Backup => "backup"@,
        ApplyStep::EnableHags => "HAGS"@,
        ApplyStep::GpuPriority => "GPU prio"@,
        ApplyStep::PowerPlan => "Power"@,
        ApplyStep::PagingFile => "Paging"@,
        ApplyStep::TrimBackground => "Trim RAM"@,
        ApplyStep::DisableNagle => "Nagle"@,
        ApplyStep::NetworkThrottling => "Net throttling"@,
        ApplyStep::Superfetch => "Superfetch"@,
        ApplyStep::XboxGameBar => "Xbox Game Bar"@,
        ApplyStep::BoostPriority => "Vortex prio"@,
    }
}

/// The line reported for a step: its success line, or, when it failed with
/// `error`, a warning naming the step and giving the reason.
pub open spec fn report_spec(step: ApplyStep, error: Option<Seq<char>>) -> Seq<char> {
    match error {
        None => success_line(step),
        Some(e) => "⚠ "@ + failure_label(step) + ": "@ + e,
    }
}

/// The view of an optional error message.
pub open spec fn error_view(error: Option<&str>) -> Option<Seq<char>> {
    match error {
        None => None,
        Some(e) => Some(e@),
    }
}

/// The steps of `apply`, in the order they run: the backup comes first.
pub fn apply_plan() -> (res: Vec<ApplyStep>)
    ensures
        res@ == plan_spec(),
{
    let res = vec![
        ApplyStep::Backup,
        ApplyStep::EnableHags,
        ApplyStep::GpuPriority,
        ApplyStep::PowerPlan,
        ApplyStep::PagingFile,
        ApplyStep::TrimBackground,
        ApplyStep::DisableNagle,
        ApplyStep::NetworkThrottling,
        ApplyStep::Superfetch,
        ApplyStep::XboxGameBar,
        ApplyStep::BoostPriority,
    ];
    assert(res@ =~= plan_spec());
    res
}

/// The text of a step's success line.
fn success_text(step: ApplyStep) -> (res: &'static str)
    ensures
        res@ == success_line(step),
{
    match step {
        ApplyStep::Backup => "✓ État sauvegardé",
        ApplyStep::EnableHags => "✓ HAGS activé",
        ApplyStep::GpuPriority => "✓ Priorité GPU élevée",
        ApplyStep::PowerPlan => "✓ Ultimate Performance",
        ApplyStep::PagingFile => "✓ Paging adapté à ta RAM",
        ApplyStep::TrimBackground => "✓ Working sets compressés",
        ApplyStep::DisableNagle => "✓ Nagle désactivé",
        ApplyStep::NetworkThrottling => "✓ Throttling réseau off",
        ApplyStep::Superfetch => "✓ Superfetch désactivé",
        ApplyStep::XboxGameBar => "✓ Xbox Game Bar désactivée",
        ApplyStep::BoostPriority => "✓ Vortex en haute priorité",
    }
}

/// The name under which a failed step is reported.
fn failure_text(step: ApplyStep) -> (res: &'static str)
    ensures
        res@ == failure_label(step),
{
    match step {
        ApplyStep::Backup => "backup",
        ApplyStep::EnableHags => "HAGS",
        ApplyStep::GpuPriority => "GPU prio",
        ApplyStep::PowerPlan => "Power",
        ApplyStep::PagingFile => "Paging",
        ApplyStep::TrimBackground => "Trim RAM",
        ApplyStep::DisableNagle => "Nagle",
        ApplyStep::NetworkThrottling => "Net throttling",
        ApplyStep::Superfetch => "Superfetch",
        ApplyStep::XboxGameBar => "Xbox Game Bar",
        ApplyStep::BoostPriority => "Vortex prio",
    }
}

/// The line reported for `step`; `error` is the reason it failed, if it did.
pub fn step_report(step: ApplyStep, error: Option<&str>) -> (res: String)
    ensures
        res@ == report_spec(step, error_view(error)),
{
    match error {
        None => String::from_str(success_text(step)),
        Some(e) => {
            let mut s = String::from_str("⚠ ");
            s.append(failure_text(step));
            s.append(": ");
            s.append(e);
            s
        },
    }
}

/// Line reported when `apply` stops because the backup failed.
pub const ABORT_LINE: &'static str = "✗ Sauvegarde impossible : aucun réglage n'a été modifié.";

/// Whether `apply` stops once `step` has ended, `failed` telling whether it
/// failed: only a failed backup stops it, so no setting changes without a backup.
pub fn stops_apply(step: ApplyStep, failed: bool) -> (res: bool)
    ensures
        res == (failed && step == ApplyStep::Backup),
{
    failed && matches!(step, ApplyStep::Backup)
}

/// The backup runs before every other step, and only once.
pub proof fn lemma_backup_first()
    ensures
        plan_spec()[0] == ApplyStep::Backup,
        forall|i: int| 0 < i < plan_spec().len() ==> plan_spec()[i] != ApplyStep::Backup,
{
}

/// Every step reports a line: a success line starting with "✓", or a warning
/// starting with "⚠" that ends with the reason.
pub proof fn lemma_every_step_reports(step: ApplyStep, error: Option<Seq<char>>)
    ensures
        error is None ==> report_spec(step, error)[0] == '✓',
        error matches Some(e) ==> report_spec(step, error)[0] == '⚠' && report_spec(
            step,
            error,
        ).subrange(report_spec(step, error).len() - e.len(), report_spec(step, error).len() as int)
            == e,
{
    match error {
        None => {
            match step {
                ApplyStep::Backup => { reveal_strlit("✓ État sauvegardé"); },
                ApplyStep::EnableHags => { reveal_strlit("✓ HAGS activé"); },
                ApplyStep::GpuPriority => { reveal_strlit("✓ Priorité GPU élevée"); },
                ApplyStep::PowerPlan => { reveal_strlit("✓ Ultimate Performance"); },
                ApplyStep::PagingFile => { reveal_strlit("✓ Paging adapté à ta RAM"); },
                ApplyStep::TrimBackground => { reveal_strlit("✓ Working sets compressés"); },
                ApplyStep::DisableNagle => { reveal_strlit("✓ Nagle désactivé"); },
                ApplyStep::NetworkThrottling => { reveal_strlit("✓ Throttling réseau off"); },
                ApplyStep::Superfetch => { reveal_strlit("✓ Superfetch désactivé"); },
                ApplyStep::XboxGameBar => { reveal_strlit("✓ Xbox Game Bar désactivée"); },
                ApplyStep::BoostPriority => { reveal_strlit("✓ Vortex en haute priorité"); },
            }
        },
        Some(e) => {
            reveal_strlit("⚠ ");
            let r = report_spec(step, error);
            let head = "⚠ "@ + failure_label(step) + ": "@;
            assert(r == head + e);
            assert(r[0] == head[0]);
            assert(r.subrange(r.len() - e.len(), r.len() as int) =~= e);
        },
    }
}

} // verus!
