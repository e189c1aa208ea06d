//! Where the service listens.

use vstd::prelude::*;

verus! {

/// The port of the listener.
pub const LISTEN_PORT: u16 = 3030;

/// The address of the listener: the loopback interface.
pub fn listen_address() -> (octets: [u8; 4])
    ensures
        octets@ == seq![127u8, 0u8, 0u8, 1u8],
{
    [127, 0, 0, 1]
}

} // verus!
