//! Errors that the tuning steps report.
use vstd::prelude::*;

verus! {

/// Why a tuning step failed.
#[derive(Debug)]
pub enum VortexError {
    /// No background process could have its working set trimmed.
    NoEligibleProcess,
    /// A PowerShell script reported a failure; this is its output.
    ScriptFailed(String),
}

impl VortexError {
    /// The text shown to the user for this error.
    pub fn message(&self) -> (res: String)
        ensures
            self is NoEligibleProcess ==> res@ == "aucun processus éligible trouvé"@,
            self matches VortexError::ScriptFailed(out) ==> res@ == out@,
    {
        match self {
            VortexError::NoEligibleProcess => String::from_str("aucun processus éligible trouvé"),
            VortexError::ScriptFailed(out) => out.clone(),
        }
    }
}

} // verus!
