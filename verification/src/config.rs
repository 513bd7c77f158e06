//! The settings the pipeline runs with. Loading them from the environment
//! is the caller's concern; the library only consumes the plain values.

use vstd::prelude::*;

verus! {

/// Gateway location and the two account credentials a run needs.
#[derive(Debug)]
pub struct AppConfig {
    pub horizon_url: String,
    pub sender_secret: String,
    pub receiver_address: String,
}

} // verus!
