//! Names under which the application registers its directories.
use vstd::prelude::*;

verus! {

/// Reverse-domain qualifier of the application.
pub const APP_QUALIFIER: &'static str = "com";

/// Organisation that publishes the application.
pub const APP_ORGANIZATION: &'static str = "CG1995";

/// Human-readable application name.
pub const APP_NAME: &'static str = "Super Lite Status Bar";

/// File-system friendly application name.
pub const APP_SLUG: &'static str = "super-lite-status-bar";

} // verus!
