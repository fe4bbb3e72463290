//! Running a PowerShell script: the command line handed to `powershell`, and the
//! text made from what the process printed.
use vstd::prelude::*;
use vstd::utf8::{decode_utf8, valid_utf8};
use crate::text::{contains_text, has_substring};

verus! {

/// The separator placed between the output and the error output of a failed run.
pub const FAILURE_MARKER: &'static str = "\nSTDERR: ";

/// What `String::from_utf8_lossy` makes of `bytes`.
pub uninterp spec fn utf8_lossy(bytes: Seq<u8>) -> Seq<char>;

/// What `str::to_lowercase` makes of `text`.
pub uninterp spec fn lowercase(text: Seq<char>) -> Seq<char>;

/// Calls `String::from_utf8_lossy`. Trusted: the result is the named
/// `utf8_lossy` of the bytes, and, as std documents, the decoded text itself
/// when the bytes are valid UTF-8. What it makes of invalid sequences (each
/// replaced by U+FFFD) is left to the name.
#[verifier::external_body]
fn decode_lossy(bytes: &[u8]) -> (res: String)
    ensures
        res@ == utf8_lossy(bytes@),
        valid_utf8(bytes@) ==> res@ == decode_utf8(bytes@),
{
    String::from_utf8_lossy(bytes).into_owned()
}

/// Calls `str::to_lowercase`. Trusted: the result is the named `lowercase` of
/// the text; the Unicode case mapping itself is left to the name.
#[verifier::external_body]
fn to_lower(text: &str) -> (res: String)
    ensures
        res@ == lowercase(text@),
{
    text.to_lowercase()
}

/// The arguments given to `powershell` to run `script`.
pub fn powershell_args(script: &str) -> (res: Vec<String>)
    ensures
        res@.len() == 6,
        res@[0]@ == "-NoProfile"@,
        res@[1]@ == "-NonInteractive"@,
        res@[2]@ == "-ExecutionPolicy"@,
        res@[3]@ == "Bypass"@,
        res@[4]@ == "-Command"@,
        res@[5]@ == script@,
{
    let mut res: Vec<String> = Vec::new();
    res.push(String::from_str("-NoProfile"));
    res.push(String::from_str("-NonInteractive"));
    res.push(String::from_str("-ExecutionPolicy"));
    res.push(String::from_str("Bypass"));
    res.push(String::from_str("-Command"));
    res.push(String::from_str(script));
    res
}

/// The report of a run: the standard output, followed by the error output
/// when the process failed or its error output, lower-cased, mentions "erreur".
pub open spec fn report_spec(
    stdout: Seq<char>,
    stderr: Seq<char>,
    stderr_lower: Seq<char>,
    success: bool,
) -> Seq<char> {
    if !success || has_substring(stderr_lower, "erreur"@) {
        stdout + FAILURE_MARKER@ + stderr
    } else {
        stdout
    }
}

/// Builds the report of a run from its decoded output, its decoded error
/// output, that error output lower-cased, and whether the process succeeded.
pub fn merge_report(stdout: String, stderr: &str, stderr_lower: &str, success: bool) -> (res: String)
    ensures
        res@ == report_spec(stdout@, stderr@, stderr_lower@, success),
{
    let mut s = stdout;
    if !success || contains_text(stderr_lower, "erreur") {
        s.append(FAILURE_MARKER);
        s.append(stderr);
    }
    s
}

/// Builds the report of a run from the raw bytes the process printed.
pub fn powershell_report(stdout: &[u8], stderr: &[u8], success: bool) -> (res: String)
    ensures
        res@ == report_spec(
            utf8_lossy(stdout@),
            utf8_lossy(stderr@),
            lowercase(utf8_lossy(stderr@)),
            success,
        ),
{
    let out = decode_lossy(stdout);
    let err = decode_lossy(stderr);
    let lower = to_lower(err.as_str());
    merge_report(out, err.as_str(), lower.as_str(), success)
}

} // verus!
