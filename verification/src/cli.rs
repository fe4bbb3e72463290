//! The command-line modes.
use vstd::prelude::*;
use crate::text::same_text;

verus! {

/// What the program does, chosen by its first argument.
#[derive(Debug, Clone, Copy, PartialEq, Eq, Structural)]
pub enum Mode {
    /// Back up, then apply every setting (the default).
    Apply,
    /// Restore the backed-up settings.
    Restore,
    /// Print the telemetry as JSON.
    Info,
    /// Run the maintenance daemon.
    Protect,
    /// Show the live dashboard.
    Dash,
    /// Print the usage.
    Help,
}

/// The mode named by `arg`; no argument means `Apply`, an unknown one `Help`.
pub open spec fn mode_spec(arg: Option<Seq<char>>) -> Mode {
    match arg {
        None => Mode::Apply,
        Some(a) => if a == "apply"@ {
            Mode::Apply
        } else if a == "restore"@ {
            Mode::Restore
        } else if a == "info"@ {
            Mode::Info
        } else if a == "protect"@ {
            Mode::Protect
        } else if a == "dash"@ {
            Mode::Dash
        } else {
            Mode::Help
        },
    }
}

/// The view of an optional argument.
pub open spec fn arg_view(arg: Option<&str>) -> Option<Seq<char>> {
    match arg {
        None => None,
        Some(a) => Some(a@),
    }
}

/// The mode named by the first command-line argument.
pub fn parse_mode(arg: Option<&str>) -> (res: Mode)
    ensures
        res == mode_spec(arg_view(arg)),
{
    match arg {
        None => Mode::Apply,
        Some(a) => if same_text(a, "apply") {
            Mode::Apply
        } else if same_text(a, "restore") {
            Mode::Restore
        } else if same_text(a, "info") {
            Mode::Info
        } else if same_text(a, "protect") {
            Mode::Protect
        } else if same_text(a, "dash") {
            Mode::Dash
        } else {
            Mode::Help
        },
    }
}

/// Apply runs only with no argument or with exactly `apply`; each of
/// `restore`, `info`, `protect` and `dash` chooses its mode; every other
/// argument prints the usage.
pub proof fn lemma_mode_choice(arg: Option<Seq<char>>)
    ensures
        (mode_spec(arg) == Mode::Apply) <==> (arg == None::<Seq<char>> || arg == Some("apply"@)),
        (mode_spec(arg) == Mode::Restore) <==> arg == Some("restore"@),
        (mode_spec(arg) == Mode::Info) <==> arg == Some("info"@),
        (mode_spec(arg) == Mode::Protect) <==> arg == Some("protect"@),
        (mode_spec(arg) == Mode::Dash) <==> arg == Some("dash"@),
        (mode_spec(arg) == Mode::Help) <==> (arg != None::<Seq<char>> && arg != Some("apply"@)
            && arg != Some("restore"@) && arg != Some("info"@) && arg != Some("protect"@) && arg
            != Some("dash"@)),
{
    reveal_strlit("apply");
    reveal_strlit("restore");
    reveal_strlit("info");
    reveal_strlit("protect");
    reveal_strlit("dash");
    assert("apply"@.len() == 5 && "restore"@.len() == 7 && "info"@.len() == 4);
    assert("protect"@.len() == 7 && "dash"@.len() == 4);
    assert("restore"@[0] == 'r' && "protect"@[0] == 'p');
    assert("info"@[0] == 'i' && "dash"@[0] == 'd');
    assert("apply"@ != "restore"@ && "apply"@ != "info"@ && "apply"@ != "protect"@ && "apply"@
        != "dash"@);
    assert("restore"@ != "info"@ && "restore"@ != "protect"@ && "restore"@ != "dash"@);
    assert("info"@ != "protect"@ && "info"@ != "dash"@ && "protect"@ != "dash"@);
}

} // verus!
