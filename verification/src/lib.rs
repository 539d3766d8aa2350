//! Batched UDP datagram I/O: a safe facade over the operating system's
//! batched send/receive calls.
//!
//! The crate models the per-message envelope, the per-call flag set, the
//! platform cap on how many messages one call may carry, and the translation
//! of a raw syscall return code into a success count or an OS failure.
//! The caller owns the socket and the buffers; an unverified shim performs
//! the actual system call and hands its raw outcome back to the verified
//! completion routine.

pub mod batch;
pub mod envelope;
pub mod flags;

pub use batch::cvt;
pub use batch::finish_batch;
pub use batch::max_len;
pub use batch::plan_recv;
pub use batch::submit_count;
pub use batch::timeout_fits;
pub use batch::timespec_of;
pub use batch::try_timespec;
pub use batch::OsError;
pub use batch::RecvPlan;
pub use batch::TimeSpec;
pub use batch::NANOS_PER_SEC;
pub use envelope::MMsgHdr;
pub use flags::MsgFlags;
