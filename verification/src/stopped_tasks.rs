//! Which of the long-running tasks of the device manager have stopped.

use vstd::prelude::*;

verus! {

/// A set of stopped tasks: the event loop, the message traffic, or both.
#[derive(Debug, Clone, Copy, PartialEq, Eq, Structural)]
pub struct StoppedTasks {
    pub bits: u8,
}

/// The bit of the event loop.
pub const EVENT_LOOP_BIT: u8 = 1u8;

/// The bit of the message traffic.
pub const MESSAGE_TRAFFIC_BIT: u8 = 2u8;

impl StoppedTasks {
    /// No task has stopped.
    pub fn empty() -> (r: StoppedTasks)
        ensures
            r.bits == 0,
    {
        StoppedTasks { bits: 0 }
    }

    /// Only the event loop has stopped.
    pub fn event_loop() -> (r: StoppedTasks)
        ensures
            r.bits == EVENT_LOOP_BIT,
    {
        StoppedTasks { bits: EVENT_LOOP_BIT }
    }

    /// Only the message traffic has stopped.
    pub fn message_traffic() -> (r: StoppedTasks)
        ensures
            r.bits == MESSAGE_TRAFFIC_BIT,
    {
        StoppedTasks { bits: MESSAGE_TRAFFIC_BIT }
    }

    /// The tasks of a bit pattern, unknown bits dropped.
    pub fn from_bits_truncate(bits: u8) -> (r: StoppedTasks)
        ensures
            r.bits == bits & 3u8,
    {
        StoppedTasks { bits: bits & 3u8 }
    }

    /// The tasks of both sets.
    pub fn union(self, other: StoppedTasks) -> (r: StoppedTasks)
        ensures
            r.bits == self.bits | other.bits,
    {
        StoppedTasks { bits: self.bits | other.bits }
    }

    /// The bit pattern of the set.
    pub fn bits(&self) -> (r: u8)
        ensures
            r == self.bits,
    {
        self.bits
    }
}

/// The stopped tasks of the device manager, shared between its tasks.
pub struct AtomicStoppedTasks(std::sync::atomic::AtomicU8);

impl AtomicStoppedTasks {
    /// No task has stopped yet.
    pub fn new() -> (r: Self) {
        AtomicStoppedTasks(std::sync::atomic::AtomicU8::new(0))
    }

    /// Records the set of stopped tasks.
    pub fn store(&self, value: StoppedTasks) {
        self.0.store(value.bits(), std::sync::atomic::Ordering::SeqCst);
    }

    /// The recorded set of stopped tasks, of which another task may have
    /// changed any part: only known tasks are in it.
    pub fn load(&self) -> (r: StoppedTasks)
        ensures
            r.bits & 3u8 == r.bits,
    {
        let bits = self.0.load(std::sync::atomic::Ordering::SeqCst);
        let r = StoppedTasks::from_bits_truncate(bits);
        let b = r.bits;
        assert(b & 3u8 == b) by (bit_vector)
            requires b == bits & 3u8;
        r
    }
}

/// Whether stopping may stop waiting for tasks: exactly one of the two tasks
/// (the message traffic or the event loop) has stopped.
pub fn stop_wait_is_over(stopped: StoppedTasks) -> (r: bool)
    ensures
        r == (stopped.bits == MESSAGE_TRAFFIC_BIT || stopped.bits == EVENT_LOOP_BIT),
{
    stopped.bits == MESSAGE_TRAFFIC_BIT || stopped.bits == EVENT_LOOP_BIT
}

/// Whether stopping must still cancel the event loop: unless only the event
/// loop has stopped.
pub fn must_cancel_event_loop(stopped: StoppedTasks) -> (r: bool)
    ensures
        r == (stopped.bits != EVENT_LOOP_BIT),
{
    stopped.bits != EVENT_LOOP_BIT
}

/// How a cancellable wait ended: `completed` when the whole time passed, not
/// when the wait was interrupted.
#[derive(Debug, Clone, Copy, PartialEq, Eq, Structural)]
pub struct SleepResult {
    pub completed: bool,
}

} // verus!
