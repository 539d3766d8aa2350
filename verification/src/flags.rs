//! The per-call message flag set: a bit set over the closed family of
//! OS-defined options the batched datagram calls accept.
//!
//! The numeric value of each option is never assigned here: it is read from
//! the OS's C library bindings, so the one translation point between named
//! options and OS bits is the handful of trusted readers below.

use vstd::prelude::*;

verus! {

/// Relies on libc::MSG_DONTWAIT: the non-blocking option, 0x40 on the
/// Linux-family targets this crate is built for.
#[verifier::external_body]
fn os_msg_dontwait() -> (r: i32)
    ensures
        r == 0x40,
{
    libc::MSG_DONTWAIT
}

/// Relies on libc::MSG_CMSG_CLOEXEC: close-on-exec for received descriptors,
/// 0x40000000 on the Linux-family targets this crate is built for.
#[verifier::external_body]
fn os_msg_cmsg_cloexec() -> (r: i32)
    ensures
        r == 0x40000000,
{
    libc::MSG_CMSG_CLOEXEC
}

/// Relies on libc::MSG_ERRQUEUE: read from the error queue, 0x2000 on the
/// Linux-family targets this crate is built for.
#[verifier::external_body]
fn os_msg_errqueue() -> (r: i32)
    ensures
        r == 0x2000,
{
    libc::MSG_ERRQUEUE
}

/// Relies on libc::MSG_PEEK: read without consuming, 0x2 on the Linux-family
/// targets this crate is built for.
#[verifier::external_body]
fn os_msg_peek() -> (r: i32)
    ensures
        r == 0x2,
{
    libc::MSG_PEEK
}

/// Relies on libc::MSG_TRUNC: report the full datagram size even when the
/// buffer is smaller, 0x20 on the Linux-family targets this crate is built
/// for.
#[verifier::external_body]
fn os_msg_trunc() -> (r: i32)
    ensures
        r == 0x20,
{
    libc::MSG_TRUNC
}

/// Relies on libc::MSG_WAITFORONE: return as soon as one message is ready,
/// 0x10000 on the Linux-family targets this crate is built for.
#[verifier::external_body]
fn os_msg_waitforone() -> (r: i32)
    ensures
        r == 0x10000,
{
    libc::MSG_WAITFORONE
}

/// An immutable set of OS-defined per-call options for the batched datagram
/// calls. Sets combine by union; the default is the empty set. `bits` is the
/// exact integer the OS call receives, each named option contributing the
/// OS's own bit for it.
#[derive(Clone, Copy, Debug, PartialEq, Eq, Structural)]
pub struct MsgFlags {
    pub bits: i32,
}

impl MsgFlags {
    /// The empty option set.
    pub fn empty() -> (r: MsgFlags)
        ensures
            r.bits == 0,
    {
        MsgFlags { bits: 0 }
    }

    /// Return immediately instead of blocking, whether or not a datagram is
    /// available.
    pub fn dontwait() -> (r: MsgFlags)
        ensures
            r.bits == 0x40,
    {
        MsgFlags { bits: os_msg_dontwait() }
    }

    /// Set close-on-exec on any file descriptor received as ancillary data.
    pub fn cmsg_cloexec() -> (r: MsgFlags)
        ensures
            r.bits == 0x40000000,
    {
        MsgFlags { bits: os_msg_cmsg_cloexec() }
    }

    /// Read queued errors from the socket error queue.
    pub fn errqueue() -> (r: MsgFlags)
        ensures
            r.bits == 0x2000,
    {
        MsgFlags { bits: os_msg_errqueue() }
    }

    /// Read a datagram without removing it from the receive queue.
    pub fn peek() -> (r: MsgFlags)
        ensures
            r.bits == 0x2,
    {
        MsgFlags { bits: os_msg_peek() }
    }

    /// Report a datagram's real length even when it was truncated to the
    /// buffer capacity.
    pub fn trunc() -> (r: MsgFlags)
        ensures
            r.bits == 0x20,
    {
        MsgFlags { bits: os_msg_trunc() }
    }

    /// Make a batched receive return once at least one message has arrived
    /// rather than waiting to fill the whole batch.
    pub fn waitforone() -> (r: MsgFlags)
        ensures
            r.bits == 0x10000,
    {
        MsgFlags { bits: os_msg_waitforone() }
    }

    /// The union of two option sets.
    pub fn union(self, other: MsgFlags) -> (r: MsgFlags)
        ensures
            r.bits == self.bits | other.bits,
    {
        MsgFlags { bits: self.bits | other.bits }
    }

    /// Whether every option of `other` is also set in `self`.
    pub fn contains(self, other: MsgFlags) -> (r: bool)
        ensures
            r == (self.bits & other.bits == other.bits),
    {
        self.bits & other.bits == other.bits
    }

    /// The raw integer the OS call takes for this option set.
    pub fn bits(self) -> (r: i32)
        ensures
            r == self.bits,
    {
        self.bits
    }
}

impl Default for MsgFlags {
    /// The default option set is empty.
    fn default() -> (r: MsgFlags)
        ensures
            r.bits == 0,
    {
        MsgFlags { bits: 0 }
    }
}

} // verus!
