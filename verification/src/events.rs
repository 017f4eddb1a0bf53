//! The readiness-event vocabulary: raw readiness bits as the host kernel's
//! notification facility reports them, and their interpretation.

use vstd::prelude::*;

verus! {

/// Readable readiness bit, as epoll(7) defines it.
pub const READABLE: u32 = 0x001;
/// Writable readiness bit, as epoll(7) defines it.
pub const WRITABLE: u32 = 0x004;
/// Error-condition bit, as epoll(7) defines it.
pub const ERROR: u32 = 0x008;
/// Hangup bit, as epoll(7) defines it.
pub const HANGUP: u32 = 0x010;
/// Remote (peer half-close) hangup bit, as epoll(7) defines it.
pub const REMOTE_HANGUP: u32 = 0x2000;

/// The fixed interest set that every registration uses for its whole
/// lifetime: both data directions plus both hangup conditions. Error
/// conditions are always reported and need not be requested.
pub const INTEREST: u32 = READABLE | WRITABLE | HANGUP | REMOTE_HANGUP;

/// A readiness notification as the facility hands it out: the registration's
/// identifying datum and the readiness bits that are set.
#[derive(Clone, Copy, PartialEq, Eq, Structural, Debug)]
pub struct RawEvent {
    pub data: u64,
    pub bits: u32,
}

/// Whether every bit of `mask` is set in `bits`.
pub open spec fn has(bits: u32, mask: u32) -> bool {
    bits & mask == mask
}

/// Whether the readiness bits signal the end of the connection: a hangup,
/// a peer half-close, or an error condition.
pub open spec fn is_termination(bits: u32) -> bool {
    has(bits, HANGUP) || has(bits, REMOTE_HANGUP) || has(bits, ERROR)
}

/// Test whether every bit of `mask` is set in `bits`.
pub fn contains(bits: u32, mask: u32) -> (r: bool)
    ensures
        r == has(bits, mask),
{
    bits & mask == mask
}

/// Test whether the readiness bits signal the end of the connection.
pub fn is_termination_event(bits: u32) -> (r: bool)
    ensures
        r == is_termination(bits),
{
    contains(bits, HANGUP) || contains(bits, REMOTE_HANGUP) || contains(bits, ERROR)
}

} // verus!
