//! What the module tells the host about itself.

use vstd::prelude::*;

verus! {

/// The version of the protocol that this module speaks.
pub const API_VERSION: u32 = 1;

/// The version of the protocol, for the host's glue to compare with its own.
pub fn get_api_version() -> (version: u32)
    ensures
        version == API_VERSION,
{
    API_VERSION
}

} // verus!
