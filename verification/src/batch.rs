//! The platform cap, timeout conversion, and syscall-result translation
//! shared by the batched send and receive paths.

use vstd::prelude::*;
use crate::envelope::MMsgHdr;
use crate::flags::MsgFlags;

verus! {

/// The platform cap on how many envelopes one batched call may carry.
/// `int_capped` selects the platform family whose C library rejects any
/// count at or above the largest signed 32-bit value (a documented OS
/// defect): there the cap is that value less one. Everywhere else it is the
/// largest value the call's signed result type can report.
pub open spec fn spec_max_len(int_capped: bool) -> int {
    if int_capped {
        i32::MAX - 1
    } else {
        isize::MAX as int
    }
}

/// The platform cap on the envelope count of one batched call; see
/// [`spec_max_len`]. The caller supplies `int_capped` from its build target,
/// the one platform-conditional fact this crate does not decide itself.
pub fn max_len(int_capped: bool) -> (r: usize)
    ensures
        r == spec_max_len(int_capped),
{
    if int_capped {
        (i32::MAX as usize) - 1
    } else {
        isize::MAX as usize
    }
}

/// How many envelopes of a batch of `n` one call actually submits: all of
/// them, unless the platform cap bounds them.
pub open spec fn spec_submit_count(n: int, int_capped: bool) -> int {
    if n <= spec_max_len(int_capped) {
        n
    } else {
        spec_max_len(int_capped)
    }
}

/// The number of envelopes of a batch of `n` that one call submits to the
/// OS; envelopes beyond it are left for the caller to resubmit.
pub fn submit_count(n: usize, int_capped: bool) -> (r: usize)
    ensures
        r == spec_submit_count(n as int, int_capped),
        r <= n,
        r <= spec_max_len(int_capped),
{
    let m = max_len(int_capped);
    if n <= m {
        n
    } else {
        m
    }
}

/// A failure reported by the operating system: the batched call returned the
/// sentinel value `-1`, and `errno` holds the error code captured right after
/// the call.
#[derive(Clone, Copy, Debug, PartialEq, Eq, Structural)]
pub struct OsError {
    pub errno: i32,
}

/// Translates a raw return code of a batched syscall into a success count or
/// an OS failure.
///
/// The OS contract for these calls is: `-1` means failure (with the error
/// code left in `errno`), any non-negative value is the number of messages
/// processed. No other return value is specified, so no other is accepted
/// here; `os_errno` is the error code the caller captured right after the
/// call, and is only meaningful when `ret` is `-1`.
pub fn cvt(ret: i32, os_errno: i32) -> (r: Result<i32, OsError>)
    requires
        ret >= -1,
    ensures
        ret == -1 ==> r == Err::<i32, OsError>(OsError { errno: os_errno }),
        ret >= 0 ==> r == Ok::<i32, OsError>(ret),
{
    if ret == -1 {
        Err(OsError { errno: os_errno })
    } else {
        Ok(ret)
    }
}

/// Nanoseconds in one second; a timeout's sub-second component is below it.
pub const NANOS_PER_SEC: u32 = 1_000_000_000;

/// The OS time-specification pair a receive timeout is converted to: whole
/// seconds and sub-second nanoseconds, both in the OS's signed 64-bit
/// fields.
#[derive(Clone, Copy, Debug, PartialEq, Eq, Structural)]
pub struct TimeSpec {
    pub tv_sec: i64,
    pub tv_nsec: i64,
}

/// Whether a timeout of `secs` whole seconds is representable in the OS's
/// signed 64-bit seconds field.
pub open spec fn spec_timeout_fits(secs: u64) -> bool {
    secs <= i64::MAX as u64
}

/// Whether a timeout of `secs` whole seconds fits the OS time structure.
/// A caller that finds it does not has a defect of its own: the operation
/// must then abort rather than report a recoverable error.
pub fn timeout_fits(secs: u64) -> (r: bool)
    ensures
        r == spec_timeout_fits(secs),
{
    secs <= i64::MAX as u64
}

/// Converts a timeout into the OS pair. The unrepresentable seconds value is
/// ruled out up front — it is a programmer error, and the calling shim
/// aborts on it instead of calling here.
pub fn timespec_of(secs: u64, nanos: u32) -> (r: TimeSpec)
    requires
        spec_timeout_fits(secs),
        nanos < NANOS_PER_SEC,
    ensures
        r.tv_sec == secs as i64,
        r.tv_nsec == nanos as i64,
{
    TimeSpec { tv_sec: secs as i64, tv_nsec: nanos as i64 }
}

/// Total form of the conversion: `None` exactly when the seconds component
/// cannot be represented in the OS's signed 64-bit seconds field.
pub fn try_timespec(secs: u64, nanos: u32) -> (r: Option<TimeSpec>)
    requires
        nanos < NANOS_PER_SEC,
    ensures
        r is Some <==> spec_timeout_fits(secs),
        spec_timeout_fits(secs) ==> r == Some((TimeSpec {
            tv_sec: secs as i64,
            tv_nsec: nanos as i64,
        })),
{
    if timeout_fits(secs) {
        Some(timespec_of(secs, nanos))
    } else {
        None
    }
}

/// Everything the unverified shim needs to issue one batched receive call:
/// how many envelopes of the batch to submit, the raw per-call flag bits,
/// and the converted timeout, if one was given.
#[derive(Clone, Copy, Debug, PartialEq, Eq, Structural)]
pub struct RecvPlan {
    pub submit: usize,
    pub flag_bits: i32,
    pub timeout: Option<TimeSpec>,
}

/// Plans one batched receive over a batch of `n_msgs` envelopes: caps the
/// submitted count at the platform limit, lowers the flag set to its raw
/// bits, and converts the timeout. A timeout whose seconds do not fit the OS
/// field is a programmer error and is ruled out here; the calling shim
/// aborts on it first.
pub fn plan_recv(n_msgs: usize, flags: MsgFlags, timeout: Option<(u64, u32)>, int_capped: bool) -> (r:
    RecvPlan)
    requires
        timeout matches Some(t) ==> spec_timeout_fits(t.0) && t.1 < NANOS_PER_SEC,
    ensures
        r.submit == spec_submit_count(n_msgs as int, int_capped),
        r.flag_bits == flags.bits,
        timeout is None ==> r.timeout is None,
        timeout matches Some(t) ==> r.timeout == Some((TimeSpec {
            tv_sec: t.0 as i64,
            tv_nsec: t.1 as i64,
        })),
{
    let submit = submit_count(n_msgs, int_capped);
    let ts = match timeout {
        None => None,
        Some((s, n)) => Some(timespec_of(s, n)),
    };
    RecvPlan { submit, flag_bits: flags.bits(), timeout: ts }
}

/// What a successful batched call of count `count` leaves in an envelope
/// array: the first `count` envelopes carry the OS-reported transferred
/// lengths, with buffers and flags as they were; every envelope from
/// `count` on is exactly as it was.
pub open spec fn batch_applied(
    before: Seq<MMsgHdr>,
    after: Seq<MMsgHdr>,
    count: int,
    lens: Seq<u32>,
) -> bool {
    &&& after.len() == before.len()
    &&& forall|i: int|
        0 <= i < count && i < after.len() ==> (#[trigger] after[i])@.bufs == before[i]@.bufs
            && after[i]@.flag_bits == before[i]@.flag_bits && after[i]@.transferred == lens[i] as int
    &&& forall|i: int| count <= i < after.len() ==> #[trigger] after[i] == before[i]
}

/// Completes one batched call: translates the raw return code and, on
/// success, stores the OS-reported per-message length into each of the first
/// `count` envelopes. Envelopes from the count on — and all of them on
/// failure — are left untouched.
///
/// `submitted` is how many envelopes were actually handed to the OS, `ret`
/// the raw return code, `os_errno` the error code captured right after the
/// call, and `lens` the per-message lengths the OS wrote for the submitted
/// envelopes. The OS contract for these calls bounds a non-negative `ret` by
/// the submitted count; the unverified shim checks that before calling
/// here.
pub fn finish_batch(
    msgs: &mut Vec<MMsgHdr>,
    submitted: usize,
    ret: i32,
    os_errno: i32,
    lens: &Vec<u32>,
) -> (r: Result<usize, OsError>)
    requires
        ret >= -1,
        submitted <= old(msgs).len(),
        ret >= 0 ==> ret as int <= submitted as int && ret as int <= lens@.len(),
    ensures
        ret == -1 ==> r == Err::<usize, OsError>(OsError { errno: os_errno }) && final(msgs)@
            == old(msgs)@,
        ret >= 0 ==> r == Ok::<usize, OsError>(ret as usize) && batch_applied(
            old(msgs)@,
            final(msgs)@,
            ret as int,
            lens@,
        ),
{
    let count = match cvt(ret, os_errno) {
        Err(e) => {
            return Err(e);
        },
        Ok(n) => n as usize,
    };
    let mut j: usize = 0;
    while j < count
        invariant
            j <= count,
            count <= submitted <= msgs@.len(),
            count <= lens@.len(),
            msgs@.len() == old(msgs)@.len(),
            forall|i: int|
                0 <= i < j ==> (#[trigger] msgs@[i])@.bufs == old(msgs)@[i]@.bufs && msgs@[i]@.flag_bits
                    == old(msgs)@[i]@.flag_bits && msgs@[i]@.transferred == lens@[i] as int,
            forall|i: int| j <= i < msgs@.len() ==> #[trigger] msgs@[i] == old(msgs)@[i],
        decreases count - j,
    {
        let l = lens[j];
        let m = &mut msgs[j];
        m.msg_len = l;
        j += 1;
    }
    Ok(count)
}

/// Law: one batched call touches no envelope at or beyond the platform cap.
/// If a call of count `count` — necessarily at most the cap — produced
/// `after` from `before`, every envelope whose index is at least the cap is
/// exactly as it was, ready to be resubmitted.
pub proof fn lemma_cap_leaves_excess_untouched(
    before: Seq<MMsgHdr>,
    after: Seq<MMsgHdr>,
    count: int,
    lens: Seq<u32>,
    int_capped: bool,
    i: int,
)
    requires
        batch_applied(before, after, count, lens),
        count <= spec_max_len(int_capped),
        spec_max_len(int_capped) <= i < before.len(),
    ensures
        after[i] == before[i],
{
}

/// Law: the count a completed batch reports never exceeds the batch size.
/// A non-negative count bounded by the submitted portion of a batch of `n`
/// envelopes lies in `[0, n]`.
pub proof fn lemma_count_bounded(n: int, int_capped: bool, count: int)
    requires
        0 <= count,
        count <= spec_submit_count(n, int_capped),
    ensures
        0 <= count <= n,
{
}

} // verus!
