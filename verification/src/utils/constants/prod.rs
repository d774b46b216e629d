//! Settings of the deployed service.

use vstd::prelude::*;

verus! {

/// The address the deployed service listens on.
pub const APP_ADDRESS: &'static str = "0.0.0.0:3000";

} // verus!
