//! A small dispatcher for JavaScript package managers: it inspects a
//! directory listing for a known lockfile, maps the lockfile to the package
//! manager that wrote it, and resolves that manager's executable on the
//! search path so a caller can re-run it with the original arguments.

pub mod detect;
pub mod dispatch;
pub mod text;
