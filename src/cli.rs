use vstd::prelude::*;

verus! {

/// Startup settings of the simulator: where to listen and which script
/// defines the device.
pub struct Args {
    /// IP address to listen on
    pub ip: String,
    /// TCP port to listen on
    pub port: u16,
    /// Path of the device script
    pub script: String,
}

} // verus!
