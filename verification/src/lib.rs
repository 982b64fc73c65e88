//! Host-side acquisition core for a four-channel, 1 GS/s, 8-bit PCIe
//! oscilloscope. The crate models the device bring-up and configuration
//! sequences as register transaction plans, provides the ring buffer and ring
//! cursor used for sample streaming, the level/hysteresis edge trigger, and
//! the sampler state machine that composes them into a trigger-and-capture
//! loop. All register values, packet encodings and buffer contents are
//! specified and verified; the process that carries the transactions to the
//! hardware lives outside this crate.

use vstd::prelude::*;

pub use capture::{RingBuffer, RingCursor, RingSlice};
pub use config::{Bandwidth, ChannelConfiguration, Coupling, DeviceConfiguration, Termination};
pub use device::{Device, Streamer, Transaction};
pub use params::{
    Amplification, ChannelCalibration, ChannelParameters, CoarseAttenuation, DeviceCalibration,
    DeviceParameters, FineAttenuation, Filtering, OffsetMagnitude, OffsetValue,
};
pub use trigger::{Edge, EdgeFilter, Trigger};

pub mod capture;
pub mod config;
pub mod device;
pub mod params;
pub mod regs;
pub mod sampler;
pub mod trigger;

verus! {

/// Error taxonomy of the acquisition core.
#[derive(Debug, Clone, Copy, PartialEq, Eq, Structural)]
pub enum Error {
    /// No device was found.
    NotFound,
    /// A transport operation against the device failed; carries the OS error
    /// number.
    Xdma(i32),
    /// Setting up the ring buffer memory failed.
    Vmap,
    /// Any other failure.
    Other,
}

pub type Result<T> = core::result::Result<T, Error>;

impl Error {
    /// A short description of the error, in place of a `Display` impl.
    pub fn describe(&self) -> (r: &'static str)
        ensures
            r@.len() > 0,
    {
        let r = match self {
            Error::NotFound => "device not connected",
            Error::Xdma(_) => "XDMA transport error",
            Error::Vmap => "ring buffer memory error",
            Error::Other => "unknown error",
        };
        proof {
            reveal_strlit("device not connected");
            reveal_strlit("XDMA transport error");
            reveal_strlit("ring buffer memory error");
            reveal_strlit("unknown error");
        }
        r
    }
}

} // verus!
