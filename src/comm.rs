//! The backend interface a diagnostic session runs on: a passthrough driver, or
//! any substitute such as a simulator.
use vstd::prelude::*;
use crate::transport::TransportConfig;

verus! {

/// An open logical channel. It cannot be copied or cloned, and releasing it
/// consumes it, so a channel is released at most once.
#[derive(Debug)]
pub struct ChannelHandle {
    id: u32,
}

impl ChannelHandle {
    /// Wraps the identifier a driver gave a newly opened channel.
    pub fn new(id: u32) -> (r: ChannelHandle)
        ensures
            r.id() == id,
    {
        ChannelHandle { id }
    }

    pub closed spec fn id(&self) -> u32 {
        self.id
    }

    /// The driver's identifier of the channel.
    pub fn raw_id(&self) -> (r: u32)
        ensures
            r == self.id(),
    {
        self.id
    }
}

/// How a backend call failed.
#[derive(Clone, Copy, Debug, PartialEq, Eq, Structural)]
pub enum CommError {
    /// Nothing arrived within the timeout.
    Timeout,
    /// The driver reported a read or write failure.
    Io,
    /// The driver refused the parameters.
    Rejected,
}

/// What a session needs of a backend. Every read and write carries a timeout in
/// milliseconds. Implementations report failures as `CommError` values and never
/// panic: a session's teardown, which also runs when it is dropped, relies on it.
pub trait CommServer {
    /// Opens a channel with the given addressing and timing.
    fn connect(&mut self, config: &TransportConfig) -> Result<ChannelHandle, CommError>;

    /// Releases a channel.
    fn disconnect(&mut self, channel: ChannelHandle) -> Result<(), CommError>;

    /// Sends one diagnostic message.
    fn write_frame(&mut self, channel: &ChannelHandle, data: &[u8], timeout_ms: u32) -> Result<
        (),
        CommError,
    >;

    /// Receives one diagnostic message.
    fn read_frame(&mut self, channel: &ChannelHandle, timeout_ms: u32) -> Result<Vec<u8>, CommError>;

    /// Vendor or protocol specific operation on a device; returns the driver's
    /// status code (0 for success) and may fill `output`.
    fn ioctl(&mut self, device: u32, id: u32, output: &mut u32) -> u32;
}

/// Operation identifier that reads the adapter's battery voltage in millivolts.
pub const IOCTL_READ_VBATT: u32 = 0x03;

/// The battery voltage for an ioctl status and reading: the reading when the
/// status is 0, else the status as the error.
pub fn battery_voltage_result(status: u32, millivolts: u32) -> (r: Result<u32, u32>)
    ensures
        status == 0 ==> r == Ok::<u32, u32>(millivolts),
        status != 0 ==> r == Err::<u32, u32>(status),
{
    if status == 0 {
        Ok(millivolts)
    } else {
        Err(status)
    }
}

} // verus!
