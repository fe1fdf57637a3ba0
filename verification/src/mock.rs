//! Mock hardware implementation for testing Panasonic AC functionality
//!
//! The mock devices record what they are given behind shared locks, so that a
//! mock and its clones (such as the one inside a send function made by
//! [`create_mock_sender`]) see the same history. What a lock holds at a given
//! moment can be changed through any of the clones that share it, so each
//! contract below states what holds of every value the lock may hold: which
//! history a getter returns, what `send` records and which signal `receive`
//! hands out are left open, and only the lock's invariant is known of them.

use std::sync::Arc;

use vstd::prelude::*;
use vstd::rwlock::{RwLock, RwLockPredicate};
use vstd::string::StringExecFns;

use crate::device::sender_total;
use crate::encoder::{Encoder, IrSignal, PanasonicEncoder};
use crate::error::{Error, Result};

verus! {

/// Trait for IR transmission hardware
pub trait IrTransmitter {
    /// Send IR data
    fn send(&mut self, data: &[u8], freq: u32, repeat: u16) -> Result<()>;

    /// Cleanup resources when done
    fn cleanup(&mut self) -> Result<()>;
}

/// Trait for IR reception hardware
pub trait IrReceiver {
    /// Receive IR timings with a timeout
    fn receive(&mut self, timeout_ms: u32) -> Result<Vec<u16>>;

    /// Cleanup resources when done
    fn cleanup(&mut self) -> Result<()>;
}

/// The lock invariant of the transmitter's records: any value.
pub struct AnyValue;

impl<T> RwLockPredicate<T> for AnyValue {
    open spec fn inv(self, v: T) -> bool {
        true
    }
}

/// Whether the mock receiver can hand out timings for a queued signal: it has
/// timings, or its data is short enough that the timings fit in memory.
pub open spec fn encodable(signal: IrSignal) -> bool {
    signal.timings is Some || 16 * signal.data@.len() + 4 <= usize::MAX
}

/// The lock invariant of the receiver's queue: every queued signal is encodable.
pub struct EncodableQueue;

impl RwLockPredicate<Vec<IrSignal>> for EncodableQueue {
    open spec fn inv(self, q: Vec<IrSignal>) -> bool {
        forall|i: int| 0 <= i < q@.len() ==> encodable(#[trigger] q@[i])
    }
}

/// Replaces what a lock holds.
fn store<T, P: RwLockPredicate<T>>(lock: &RwLock<T, P>, value: T)
    requires
        lock.inv(value),
{
    let (_, handle) = lock.acquire_write();
    handle.release_write(value);
}

/// Reads a flag behind a lock.
fn read_flag(lock: &RwLock<bool, AnyValue>) -> bool {
    let handle = lock.acquire_read();
    let flag = *handle.borrow();
    handle.release_read();
    flag
}

/// Mock IR transmitter for testing
#[derive(Clone)]
pub struct MockTransmitter {
    /// Transmitted data
    sent_data: Arc<RwLock<Vec<Vec<u8>>, AnyValue>>,
    /// Transmitted frequencies
    sent_freq: Arc<RwLock<Vec<u32>, AnyValue>>,
    /// Transmitted repeat counts
    sent_repeat: Arc<RwLock<Vec<u16>, AnyValue>>,
    /// Flag to simulate failure
    should_fail: Arc<RwLock<bool, AnyValue>>,
}

impl MockTransmitter {
    /// Create a new mock transmitter
    pub fn new() -> (r: Self) {
        Self {
            sent_data: Arc::new(RwLock::new(Vec::new(), Ghost(AnyValue))),
            sent_freq: Arc::new(RwLock::new(Vec::new(), Ghost(AnyValue))),
            sent_repeat: Arc::new(RwLock::new(Vec::new(), Ghost(AnyValue))),
            should_fail: Arc::new(RwLock::new(false, Ghost(AnyValue))),
        }
    }

    /// Set whether the transmitter should fail
    pub fn set_should_fail(&self, fail: bool) {
        store(&self.should_fail, fail);
    }

    /// Get the transmitted data
    pub fn get_sent_data(&self) -> (r: Vec<Vec<u8>>) {
        let (v, handle) = self.sent_data.acquire_write();
        let r = v.clone();
        handle.release_write(v);
        r
    }

    /// Get the transmitted frequencies
    pub fn get_sent_freq(&self) -> (r: Vec<u32>) {
        let (v, handle) = self.sent_freq.acquire_write();
        let r = v.clone();
        handle.release_write(v);
        r
    }

    /// Get the transmitted repeat counts
    pub fn get_sent_repeat(&self) -> (r: Vec<u16>) {
        let (v, handle) = self.sent_repeat.acquire_write();
        let r = v.clone();
        handle.release_write(v);
        r
    }

    /// Get the number of transmissions
    pub fn get_send_count(&self) -> (r: usize) {
        let (v, handle) = self.sent_data.acquire_write();
        let r = v.len();
        handle.release_write(v);
        r
    }

    /// Clear the transmission history
    pub fn clear_history(&self) {
        store(&self.sent_data, Vec::new());
        store(&self.sent_freq, Vec::new());
        store(&self.sent_repeat, Vec::new());
    }
}

impl IrTransmitter for MockTransmitter {
    /// Records the data, frequency and repeat count, or fails with the
    /// simulated failure when the transmitter is set to fail.
    fn send(&mut self, data: &[u8], freq: u32, repeat: u16) -> (r: Result<()>)
        ensures
            r is Ok || (r matches Err(Error::HardwareError(msg)) && msg@
                == "Simulated transmitter failure"@),
    {
        // Check if we should simulate failure
        if read_flag(&self.should_fail) {
            return Err(Error::HardwareError(String::from_str("Simulated transmitter failure")));
        }

        // Record the transmission
        let (mut sent, handle) = self.sent_data.acquire_write();
        sent.push(vstd::slice::slice_to_vec(data));
        handle.release_write(sent);
        let (mut freqs, handle) = self.sent_freq.acquire_write();
        freqs.push(freq);
        handle.release_write(freqs);
        let (mut repeats, handle) = self.sent_repeat.acquire_write();
        repeats.push(repeat);
        handle.release_write(repeats);

        Ok(())
    }

    fn cleanup(&mut self) -> (r: Result<()>)
        ensures
            r is Ok,
    {
        // Nothing to clean up in mock
        Ok(())
    }
}

impl Default for MockTransmitter {
    fn default() -> (r: Self) {
        Self::new()
    }
}

/// Mock IR receiver for testing
#[derive(Clone)]
pub struct MockReceiver {
    /// Queue of signals to return
    signal_queue: Arc<RwLock<Vec<IrSignal>, EncodableQueue>>,
    /// Flag to simulate failure
    should_fail: Arc<RwLock<bool, AnyValue>>,
}

impl MockReceiver {
    /// Create a new mock receiver
    pub fn new() -> (r: Self) {
        Self {
            signal_queue: Arc::new(RwLock::new(Vec::new(), Ghost(EncodableQueue))),
            should_fail: Arc::new(RwLock::new(false, Ghost(AnyValue))),
        }
    }

    /// Set whether the receiver should fail
    pub fn set_should_fail(&self, fail: bool) {
        store(&self.should_fail, fail);
    }

    /// Queue a signal to be returned by receive (a signal without timings must
    /// be short enough for its timings to fit in memory)
    pub fn queue_signal(&self, signal: IrSignal)
        requires
            encodable(signal),
    {
        let (mut queue, handle) = self.signal_queue.acquire_write();
        queue.push(signal);
        assert forall|i: int| 0 <= i < queue@.len() implies encodable(#[trigger] queue@[i]) by {}
        handle.release_write(queue);
    }

    /// Queue a raw data signal to be returned
    pub fn queue_data(&self, data: &[u8], _freq: u32) -> (r: Result<()>)
        requires
            16 * data@.len() + 4 <= usize::MAX,
        ensures
            r is Ok,
    {
        let encoder = PanasonicEncoder::new();
        let signal = encoder.encode(data)?;
        self.queue_signal(signal);
        Ok(())
    }

    /// Clear the signal queue
    pub fn clear_queue(&self) {
        store(&self.signal_queue, Vec::new());
    }
}

impl IrReceiver for MockReceiver {
    /// Hands out the timings of the first queued signal (generated from its
    /// data when it has none), or fails when set to fail or when the queue is
    /// empty.
    fn receive(&mut self, _timeout_ms: u32) -> (r: Result<Vec<u16>>)
        ensures
            r matches Err(e) ==> (e matches Error::HardwareError(msg) && (msg@
                == "Simulated receiver failure"@ || msg@ == "No more signals in queue"@)),
    {
        // Check if we should simulate failure
        if read_flag(&self.should_fail) {
            return Err(Error::HardwareError(String::from_str("Simulated receiver failure")));
        }

        // Get the next signal from the queue
        let (mut queue, handle) = self.signal_queue.acquire_write();
        if queue.len() == 0 {
            handle.release_write(queue);
            return Err(Error::HardwareError(String::from_str("No more signals in queue")));
        }

        let ghost before = queue@;
        let signal = queue.remove(0);
        assert(encodable(before[0]));
        assert forall|i: int| 0 <= i < queue@.len() implies encodable(#[trigger] queue@[i]) by {
            assert(queue@[i] == before[i + 1]);
            assert(encodable(before[i + 1]));
        }
        handle.release_write(queue);

        // Return the timings or generate them if needed
        if let Some(timings) = signal.timings {
            Ok(timings)
        } else {
            // Generate timings from data
            let encoder = PanasonicEncoder::new();
            let signal_with_timings = encoder.encode(signal.data.as_slice())?;
            if let Some(timings) = signal_with_timings.timings {
                Ok(timings)
            } else {
                Err(Error::HardwareError(String::from_str("Failed to generate timings")))
            }
        }
    }

    fn cleanup(&mut self) -> (r: Result<()>)
        ensures
            r is Ok,
    {
        // Nothing to clean up in mock
        Ok(())
    }
}

impl Default for MockReceiver {
    fn default() -> (r: Self) {
        Self::new()
    }
}

/// Create a function that sends IR signals to a mock transmitter
///
/// This is useful for testing without real hardware.
///
/// # Returns
/// * A tuple containing:
///   - A send function compatible with PanasonicAc::new()
///   - The mock transmitter for inspecting what was sent
pub fn create_mock_sender() -> (r: (impl Fn(&[u8], u32, u16) -> Result<()> + 'static, MockTransmitter))
    ensures
        sender_total(r.0),
{
    let transmitter = MockTransmitter::new();
    let tx_clone = transmitter.clone();

    // We need to capture by value to satisfy the Fn trait (not FnMut)
    let sender = move |data: &[u8], freq: u32, repeat: u16| -> (r: Result<()>)
        {
            // Create a new clone for each call to avoid mutating tx_clone
            let mut tx = tx_clone.clone();
            tx.send(data, freq, repeat)
        };

    (sender, transmitter)
}

} // verus!
