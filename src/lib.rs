//! A self-refreshing cache of a remotely fetched JSON Web Key Set.
//!
//! The decisions of the cache are verified here: the state machine of the
//! cached key set and what each reader does with it, the retry and deadline
//! policy of a fetch, and the conversion of PEM certificates into RSA keys.
//! The runtime that performs fetches, waits and sleeps drives these
//! decisions.
use vstd::prelude::*;

pub mod pem;
pub mod policy;
pub mod retry;
pub mod state;

pub use policy::{RequestError, TimeoutSpec};

verus! {

} // verus!
