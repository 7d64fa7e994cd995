//! A two-party token escrow: deal records, per-party obligations, custody
//! accounts reached through program-derived addresses, and the lifecycle
//! operations `create`, `deposit`, `withdraw`, `close` and `check`.
use vstd::prelude::*;

pub mod custody;
pub mod deal;
pub mod error;
pub mod lifecycle;
pub mod token;
pub mod vault;

verus! {

} // verus!
