//! Call marshalling between extension code and a host engine: dynamic values,
//! the untagged pointer convention, call signatures of any arity up to a fixed
//! maximum, liveness checks on object handles, call diagnostics, and the filter
//! that decides which parts of the host's API get signatures at all.
pub mod variant;
pub mod marshal;
pub mod call_error;
pub mod liveness;
pub mod signature;
pub mod exclusion;
