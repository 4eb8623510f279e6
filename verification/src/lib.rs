//! Verified core of a small desktop application shell.
//!
//! The shell exposes one command to its front end, a greeting formatter,
//! and installs a permission-request interceptor on the embedded web view
//! of one platform. The logic of both — the greeting template and the
//! policy that classifies and answers permission requests — lives here
//! with contracts; the host-runtime wiring around it does not.

pub mod greeting;
pub mod permissions;
