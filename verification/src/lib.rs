//! A validation core for structured, nested data.
//!
//! A value is checked against a composable set of rules; every violation is
//! collected into a [`error::Report`] together with a [`path::Path`] that says
//! where inside the nested value it occurred.  Validation never stops at the
//! first failure: every reachable field is visited exactly once per call.

pub mod decimal;
pub mod error;
pub mod path;
pub mod record;
pub mod rules;
pub mod util;
pub mod validate;

pub use error::Error;
pub use error::Report;
pub use path::Path;
pub use path::PathComponent;
pub use validate::Unvalidated;
pub use validate::Valid;
pub use validate::Validate;
