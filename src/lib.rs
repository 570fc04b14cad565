//! Startup protocol of a provider that locates its registry through a
//! discovery broker, checks that the registry speaks the expected transport,
//! and publishes its own entities there before it is considered ready.
use vstd::prelude::*;

pub mod bootstrap;
pub mod discovery;
pub mod model;
pub mod registration;
pub mod trace;

verus! {

} // verus!
