//! Dispatch: resolve a package manager's executable on the search path and
//! decide what the caller must do next — spawn the resolved executable with
//! the forwarded arguments, or print one diagnostic line and exit with
//! status 1.
//!
//! The resolution itself is done by the `which` crate; what to do with its
//! outcome is decided here, for every outcome it can produce.

use vstd::prelude::*;
use crate::detect::entry_views;
use crate::detect::spec_detect;
use crate::detect::detect_pm;

verus! {

#[verifier::external_type_specification]
#[verifier::external_body]
pub struct ExPathBuf(std::path::PathBuf);

#[verifier::external_type_specification]
#[verifier::external_body]
pub struct ExWhichError(which::Error);

/// What the caller must do after planning a dispatch.
pub enum Dispatch {
    /// Spawn the executable at this path with the forwarded arguments, wait
    /// for it, and exit with its exit code.
    Run(std::path::PathBuf),
    /// Print this line to the error stream and exit with status 1.
    Fail(String),
}

/// The diagnostic line for an executable that the search path does not hold.
pub open spec fn spec_not_found_message(name: Seq<char>) -> Seq<char> {
    "Couldn't find "@ + name + " on the path. Exiting."@
}

/// Builds the diagnostic line for an executable missing from the search path.
pub fn not_found_message(name: &str) -> (msg: String)
    ensures
        msg@ == spec_not_found_message(name@),
{
    let mut msg = "Couldn't find ".to_owned();
    msg.append(name);
    msg.append(" on the path. Exiting.");
    msg
}

/// The diagnostic line for a directory in which no lockfile was recognized.
pub open spec fn spec_no_pm_message() -> Seq<char> {
    "Couldn't detect package manager. Exiting."@
}

/// Builds the diagnostic line for a directory with no recognized lockfile.
pub fn no_pm_message() -> (msg: String)
    ensures
        msg@ == spec_no_pm_message(),
{
    "Couldn't detect package manager. Exiting.".to_owned()
}

/// Relies on which::which: `Ok` holds the path of an executable with the
/// given name found on the process's search path, `Err` means the search
/// found none (or could not be made at all). The outcome depends on the
/// environment and the disk, so nothing more is promised of it.
#[verifier::external_body]
fn which_lookup(name: &String) -> (found: Result<std::path::PathBuf, which::Error>) {
    which::which(name.as_str())
}

/// Decides what to do with the outcome of one search-path lookup: run what
/// was found, or fail with the exact not-found diagnostic. Retries nothing.
pub fn plan_dispatch(pm_name: &String, found: Result<std::path::PathBuf, which::Error>) -> (outcome:
    Dispatch)
    ensures
        found matches Ok(path) ==> outcome == Dispatch::Run(path),
        found is Err ==> (outcome matches Dispatch::Fail(msg) && msg@ == spec_not_found_message(
            pm_name@,
        )),
{
    match found {
        Ok(path) => Dispatch::Run(path),
        Err(_) => Dispatch::Fail(not_found_message(pm_name.as_str())),
    }
}

/// Searches the path for the named package manager. Whatever the search
/// returns, a failure carries the exact not-found diagnostic.
pub fn resolve_pm(pm_name: &String) -> (outcome: Dispatch)
    ensures
        outcome matches Dispatch::Fail(msg) ==> msg@ == spec_not_found_message(pm_name@),
{
    let found = which_lookup(pm_name);
    plan_dispatch(pm_name, found)
}

/// The whole decision the tool makes for one invocation: detect the package
/// manager from the directory listing, then resolve its executable. Every
/// failure carries the exact diagnostic line for its cause.
pub fn plan_invocation(entries: &Vec<Option<String>>) -> (outcome: Dispatch)
    ensures
        spec_detect(entry_views(entries@)) is None ==> (outcome matches Dispatch::Fail(msg)
            && msg@ == spec_no_pm_message()),
        spec_detect(entry_views(entries@)) matches Some(pm) ==> (outcome matches Dispatch::Fail(msg)
            ==> msg@ == spec_not_found_message(pm.spec_name())),
{
    match detect_pm(entries) {
        Some(pm) => {
            let name = pm.get_name();
            resolve_pm(&name)
        },
        None => Dispatch::Fail(no_pm_message()),
    }
}

} // verus!
