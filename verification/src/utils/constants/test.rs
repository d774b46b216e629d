//! Settings of the service under test.

use vstd::prelude::*;

verus! {

/// The address a service under test listens on: any free port.
pub const APP_ADDRESS: &'static str = "127.0.0.1:0";

} // verus!
