//! Pushing a kernel image over a serial line to the board's loader.
//!
//! The loader expects the image size as four little-endian bytes, answers
//! `OK`, and then reads that many bytes of image.
use vstd::prelude::*;

verus! {

/// Why a push failed.
#[derive(Debug, PartialEq, Eq, Structural)]
pub enum Error {
    /// The image does not fit the loader's 32-bit size field.
    KernelImageTooLarge(u64),
    /// The loader did not acknowledge the size.
    NoOkReceived,
}

/// Where and how to push.
#[derive(Debug)]
pub struct Args {
    /// Path to the kernel image.
    pub image: String,
    /// Path to the serial device.
    pub device: String,
    /// Baud rate of the serial device.
    pub baud_rate: u32,
    /// Stay attached to the serial device afterwards.
    pub attach: bool,
}

/// The image size as the loader's size field, or why it does not fit.
pub fn image_size_field(size: u64) -> (r: Result<u32, Error>)
    ensures
        size <= u32::MAX ==> r == Ok::<u32, Error>(size as u32),
        size > u32::MAX ==> r == Err::<u32, Error>(Error::KernelImageTooLarge(size)),
{
    if size <= 0xffff_ffffu64 {
        Ok(size as u32)
    } else {
        Err(Error::KernelImageTooLarge(size))
    }
}

/// The little-endian bytes of `v`.
pub open spec fn le_bytes(v: u32) -> Seq<u8> {
    seq![(v % 0x100) as u8, ((v / 0x100) % 0x100) as u8, ((v / 0x1_0000) % 0x100) as u8,
        (v / 0x100_0000) as u8]
}

/// The size announcement sent to the loader.
pub fn size_message(size: u32) -> (r: Vec<u8>)
    ensures
        r@ == le_bytes(size),
{
    let mut v: Vec<u8> = Vec::new();
    v.push((size % 0x100) as u8);
    v.push(((size / 0x100) % 0x100) as u8);
    v.push(((size / 0x1_0000) % 0x100) as u8);
    v.push((size / 0x100_0000) as u8);
    assert(v@ =~= le_bytes(size));
    v
}

/// Checks the loader's answer to the size announcement: its first two
/// bytes must be `OK`.
pub fn check_ack(answer: &[u8]) -> (r: Result<(), Error>)
    requires
        answer@.len() >= 2,
    ensures
        r is Ok <==> (answer@[0] == 0x4fu8 && answer@[1] == 0x4bu8),
        r matches Err(e) ==> e == Error::NoOkReceived,
{
    if answer[0] == 0x4f && answer[1] == 0x4b {
        Ok(())
    } else {
        Err(Error::NoOkReceived)
    }
}

/// Number of read timeouts tolerated while draining the line.
pub const DRAIN_TIMEOUT_RETRIES: u32 = 3;

/// The outcome of one read while draining the line before a push.
#[derive(Clone, Copy, Debug, PartialEq, Eq, Structural)]
pub enum DrainEvent {
    /// The read returned `n` bytes (possibly none).
    Data(usize),
    /// The read timed out.
    TimedOut,
    /// The read failed otherwise.
    Failed,
}

/// What to do after one read while draining.
#[derive(Clone, Copy, Debug, PartialEq, Eq, Structural)]
pub enum DrainAction {
    /// Echo the first `n` bytes read, then read again.
    Echo(usize),
    /// Read again.
    Retry,
    /// The line is quiet: start pushing.
    Done,
    /// Give up with the read's error.
    Fail,
}

/// Draining the line before a push: everything the board still sends is
/// echoed, and the push starts after the fourth timeout in a row.
#[derive(Clone, Copy, Debug, PartialEq, Eq, Structural)]
pub struct Drain {
    /// Timeouts still tolerated.
    pub timeout_retries: u32,
}

impl Drain {
    pub fn new() -> (r: Drain)
        ensures
            r.timeout_retries == DRAIN_TIMEOUT_RETRIES,
    {
        Drain { timeout_retries: DRAIN_TIMEOUT_RETRIES }
    }

    /// The action for one read, and the state for the next.
    pub fn step(&mut self, e: DrainEvent) -> (r: DrainAction)
        ensures
            e matches DrainEvent::Data(n) ==> (n == 0 ==> r == DrainAction::Retry) && (n > 0 ==> r == DrainAction::Echo(n)),
            e is Data ==> *final(self) == *old(self),
            e is TimedOut && old(self).timeout_retries == 0 ==> r == DrainAction::Done && *final(self) == *old(self),
            e is TimedOut && old(self).timeout_retries > 0 ==> r == DrainAction::Retry
                && final(self).timeout_retries == old(self).timeout_retries - 1,
            e is Failed ==> r == DrainAction::Fail && *final(self) == *old(self),
    {
        match e {
            DrainEvent::Data(n) => if n == 0 { DrainAction::Retry } else { DrainAction::Echo(n) },
            DrainEvent::TimedOut => {
                if self.timeout_retries == 0 {
                    DrainAction::Done
                } else {
                    self.timeout_retries = self.timeout_retries - 1;
                    DrainAction::Retry
                }
            },
            DrainEvent::Failed => DrainAction::Fail,
        }
    }
}

/// The byte that ends an attached terminal session (Ctrl-C).
pub const INTERRUPT_BYTE: u8 = 3;

/// Whether a byte typed on the host is forwarded to the board; Ctrl-C
/// ends the session instead.
pub fn forwards(b: u8) -> (r: bool)
    ensures
        r == (b != INTERRUPT_BYTE),
{
    b != INTERRUPT_BYTE
}

} // verus!
