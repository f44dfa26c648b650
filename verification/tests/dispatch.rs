use pmrun::dispatch::Dispatch;
use pmrun::dispatch::no_pm_message;
use pmrun::dispatch::not_found_message;
use pmrun::dispatch::plan_dispatch;
use pmrun::dispatch::plan_invocation;
use pmrun::dispatch::resolve_pm;

fn listing(entries: &[Option<&str>]) -> Vec<Option<String>> {
    entries.iter().map(|e| e.map(|s| s.to_string())).collect()
}

#[test]
fn not_found_message_is_exact() {
    assert_eq!(not_found_message("npm"), "Couldn't find npm on the path. Exiting.");
    assert_eq!(not_found_message("pnpm"), "Couldn't find pnpm on the path. Exiting.");
}

#[test]
fn no_pm_message_is_exact() {
    assert_eq!(no_pm_message(), "Couldn't detect package manager. Exiting.");
}

#[test]
fn plan_dispatch_runs_what_was_found() {
    let name = String::from("npm");
    let path = std::path::PathBuf::from("/usr/bin/npm");
    match plan_dispatch(&name, Ok(path.clone())) {
        Dispatch::Run(found) => assert_eq!(found, path),
        Dispatch::Fail(msg) => panic!("unexpected failure: {}", msg),
    }
}

#[test]
fn plan_dispatch_fails_with_exact_diagnostic() {
    let name = String::from("yarn");
    match plan_dispatch(&name, Err(which::Error::CannotFindBinaryPath)) {
        Dispatch::Run(_) => panic!("nothing should run"),
        Dispatch::Fail(msg) => {
            assert_eq!(msg, "Couldn't find yarn on the path. Exiting.");
        }
    }
}

#[test]
fn resolve_missing_tool_fails_with_exact_diagnostic() {
    let name = String::from("surely-no-such-package-manager-here");
    match resolve_pm(&name) {
        Dispatch::Run(path) => panic!("unexpectedly resolved {:?}", path),
        Dispatch::Fail(msg) => {
            assert_eq!(
                msg,
                "Couldn't find surely-no-such-package-manager-here on the path. Exiting."
            );
        }
    }
}

#[test]
fn resolve_present_tool_finds_it() {
    let name = String::from("sh");
    match resolve_pm(&name) {
        Dispatch::Run(path) => assert!(path.ends_with("sh")),
        Dispatch::Fail(msg) => panic!("unexpected failure: {}", msg),
    }
}

#[test]
fn plan_invocation_without_lockfile_fails_with_detection_diagnostic() {
    let entries = listing(&[Some("README.md"), Some("Cargo.toml")]);
    match plan_invocation(&entries) {
        Dispatch::Run(path) => panic!("unexpectedly resolved {:?}", path),
        Dispatch::Fail(msg) => {
            assert_eq!(msg, "Couldn't detect package manager. Exiting.");
        }
    }
}

#[test]
fn plan_invocation_with_npm_lockfile_targets_npm() {
    let entries = listing(&[Some("package-lock.json")]);
    match plan_invocation(&entries) {
        Dispatch::Run(path) => {
            // npm was on the search path here; the resolved file carries its name
            assert!(path.file_name().is_some());
        }
        Dispatch::Fail(msg) => {
            assert_eq!(msg, "Couldn't find npm on the path. Exiting.");
        }
    }
}
