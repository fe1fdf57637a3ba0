//! Hardware interfaces for IR control
//!
//! The library itself drives no hardware: the GPIO transmitter and receiver
//! of a Raspberry Pi are provided by the program around it, which implements
//! these traits.

use vstd::prelude::*;
use vstd::string::StringExecFns;

use crate::error::{Error, Result};

verus! {

/// Trait for IR transmitter implementations
pub trait IrTransmitter {
    /// Send IR signal
    ///
    /// # Arguments
    /// * `data` - Data to send
    /// * `carrier_freq` - Carrier frequency in Hz
    /// * `repeat` - Number of times to repeat the transmission
    fn send(&mut self, data: &[u8], carrier_freq: u32, repeat: u16) -> Result<()>;

    /// Clean up resources when done
    fn cleanup(&mut self) -> Result<()>;
}

/// Trait for IR receiver implementations
pub trait IrReceiver {
    /// Receive IR signal
    ///
    /// # Arguments
    /// * `timeout_ms` - Timeout in milliseconds
    ///
    /// # Returns
    /// * `Vec<u16>` - Raw timings in microseconds
    fn receive(&mut self, timeout_ms: u32) -> Result<Vec<u16>>;

    /// Clean up resources when done
    fn cleanup(&mut self) -> Result<()>;
}

/// Create a default IR sender based on available hardware: the library has no
/// hardware transmitter of its own, so this reports the feature as unsupported
pub fn create_default_transmitter() -> (r: Result<Box<dyn IrTransmitter>>)
    ensures
        r matches Err(Error::UnsupportedFeature { feature, model: None }) && feature@
            == "Hardware IR transmitter"@,
{
    Err(Error::UnsupportedFeature {
        feature: String::from_str("Hardware IR transmitter"),
        model: None,
    })
}

/// Create a default IR receiver based on available hardware: the library has
/// no hardware receiver of its own, so this reports the feature as unsupported
pub fn create_default_receiver() -> (r: Result<Box<dyn IrReceiver>>)
    ensures
        r matches Err(Error::UnsupportedFeature { feature, model: None }) && feature@
            == "Hardware IR receiver"@,
{
    Err(Error::UnsupportedFeature {
        feature: String::from_str("Hardware IR receiver"),
        model: None,
    })
}

/// Whether `elapsed_ns` nanoseconds exceed a timeout of `timeout_ms`
/// milliseconds.
pub fn past_timeout(elapsed_ns: u128, timeout_ms: u32) -> (r: bool)
    ensures
        r == (elapsed_ns > timeout_ms as int * 1_000_000),
{
    elapsed_ns > (timeout_ms as u128) * 1_000_000
}

/// The longest quiet gap within a signal, in nanoseconds (30 ms): a longer
/// one ends the capture.
pub const SIGNAL_END_GAP_NS: u128 = 30_000_000;

/// Whether the capture of a signal ends: the line has been quiet for longer
/// than 30 ms since the last change, or the capture has run past the timeout.
pub fn capture_finished(gap_ns: u128, total_ns: u128, timeout_ms: u32) -> (r: bool)
    ensures
        r == (gap_ns > SIGNAL_END_GAP_NS || total_ns > timeout_ms as int * 1_000_000),
{
    gap_ns > SIGNAL_END_GAP_NS || past_timeout(total_ns, timeout_ms)
}

/// A timing as the receiver records it: the whole microseconds of a duration
/// given in nanoseconds, kept in 16 bits (longer durations wrap around).
pub open spec fn recorded_timing(ns: u128) -> u16 {
    ((ns / 1000) % 65536) as u16
}

/// The timings of an IR signal captured from a receiver pin: the durations
/// between level changes, and the level last seen.
pub struct SignalCapture {
    timings: Vec<u16>,
    last_level: bool,
}

impl View for SignalCapture {
    type V = (Seq<u16>, bool);

    closed spec fn view(&self) -> (Seq<u16>, bool) {
        (self.timings@, self.last_level)
    }
}

impl SignalCapture {
    /// Starts a capture at the first reading of a signal, with its level.
    pub fn new(level: bool) -> (r: Self)
        ensures
            r@ == (Seq::<u16>::empty(), level),
    {
        SignalCapture { timings: Vec::new(), last_level: level }
    }

    /// Records a reading of the pin, `since_change_ns` nanoseconds after the
    /// last change: a change of level records that duration and returns true.
    pub fn record(&mut self, level: bool, since_change_ns: u128) -> (changed: bool)
        ensures
            changed == (level != old(self)@.1),
            changed ==> final(self)@ == (old(self)@.0.push(recorded_timing(since_change_ns)), level),
            !changed ==> final(self)@ == old(self)@,
    {
        if level != self.last_level {
            let micros: u128 = since_change_ns / 1000;
            self.timings.push((micros % 65536) as u16);
            self.last_level = level;
            true
        } else {
            false
        }
    }

    /// The timings captured.
    pub fn into_timings(self) -> (r: Vec<u16>)
        ensures
            r@ == self@.0,
    {
        self.timings
    }
}

/// Half a carrier cycle in whole microseconds: a cycle is one million
/// microseconds divided by the frequency (rounded down), and half of it is
/// rounded down again.
pub fn carrier_half_cycle_us(carrier_freq: u32) -> (r: u32)
    requires
        carrier_freq > 0,
    ensures
        r == 1_000_000u32 / carrier_freq / 2,
{
    let cycle_time_us: u32 = 1_000_000 / carrier_freq;
    cycle_time_us / 2
}

} // verus!
