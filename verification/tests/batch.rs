use mmsg::{cvt, finish_batch, max_len, plan_recv, submit_count, timeout_fits, timespec_of,
    try_timespec, MMsgHdr, MsgFlags, OsError, TimeSpec};

#[test]
fn cvt_translates_success_counts() {
    assert_eq!(cvt(0, 0), Ok(0));
    assert_eq!(cvt(3, 0), Ok(3));
    assert_eq!(cvt(3, 11), Ok(3));
}

#[test]
fn cvt_translates_the_failure_sentinel() {
    assert_eq!(cvt(-1, libc::EAGAIN), Err(OsError { errno: libc::EAGAIN }));
    assert_eq!(cvt(-1, libc::EINTR), Err(OsError { errno: libc::EINTR }));
}

#[test]
fn max_len_is_the_result_type_maximum() {
    assert_eq!(max_len(false), isize::MAX as usize);
}

#[test]
fn max_len_steps_below_int_max_on_the_capped_family() {
    assert_eq!(max_len(true), i32::MAX as usize - 1);
}

#[test]
fn submit_count_is_the_batch_size_below_the_cap() {
    assert_eq!(submit_count(0, false), 0);
    assert_eq!(submit_count(3, false), 3);
    assert_eq!(submit_count(3, true), 3);
}

#[test]
fn submit_count_is_capped_for_oversized_batches() {
    assert_eq!(submit_count(usize::MAX, true), i32::MAX as usize - 1);
    assert_eq!(submit_count(usize::MAX, false), isize::MAX as usize);
    assert_eq!(submit_count(i32::MAX as usize, true), i32::MAX as usize - 1);
}

#[test]
fn timespec_conversion_splits_seconds_and_nanoseconds() {
    let t = timespec_of(7, 250_000_000);
    assert_eq!(t, TimeSpec { tv_sec: 7, tv_nsec: 250_000_000 });
}

#[test]
fn representable_timeouts_fit() {
    assert!(timeout_fits(0));
    assert!(timeout_fits(i64::MAX as u64));
    assert_eq!(
        try_timespec(5, 999_999_999),
        Some(TimeSpec { tv_sec: 5, tv_nsec: 999_999_999 })
    );
}

#[test]
fn an_unrepresentable_timeout_is_refused_not_converted() {
    assert!(!timeout_fits(u64::MAX));
    assert!(!timeout_fits(i64::MAX as u64 + 1));
    assert_eq!(try_timespec(u64::MAX, 0), None);
    assert_eq!(try_timespec(i64::MAX as u64 + 1, 0), None);
}

#[test]
fn a_zero_buffer_envelope_is_legal() {
    let env = MMsgHdr::new(Vec::new(), MsgFlags::default());
    assert_eq!(env.buffer_count(), 0);
    assert_eq!(env.msg_len(), 0);

    // Participating in a call for which the OS reported zero bytes leaves a
    // transferred length of zero.
    let mut msgs = vec![env];
    let lens = vec![0u32];
    let count = finish_batch(&mut msgs, 1, 1, 0, &lens).unwrap();
    assert_eq!(count, 1);
    assert_eq!(msgs[0].msg_len(), 0);
}

#[test]
fn an_empty_batch_completes_with_count_zero() {
    let mut msgs: Vec<MMsgHdr> = Vec::new();
    let lens: Vec<u32> = Vec::new();
    assert_eq!(submit_count(msgs.len(), false), 0);
    let count = finish_batch(&mut msgs, 0, 0, 0, &lens).unwrap();
    assert_eq!(count, 0);
}

#[test]
fn a_fresh_envelope_keeps_its_buffers_and_flags() {
    let bufs = vec![vec![1u8, 2, 3], vec![4u8, 5]];
    let env = MMsgHdr::new(bufs.clone(), MsgFlags::peek());
    assert_eq!(env.buffers, bufs);
    assert_eq!(env.flags, MsgFlags::peek());
    assert_eq!(env.buffer_count(), 2);
    assert_eq!(env.msg_len(), 0);
}

#[test]
fn plan_recv_caps_lowers_and_converts() {
    let flags = MsgFlags::dontwait().union(MsgFlags::waitforone());
    let plan = plan_recv(4, flags, Some((2, 500_000_000)), false);
    assert_eq!(plan.submit, 4);
    assert_eq!(plan.flag_bits, libc::MSG_DONTWAIT | libc::MSG_WAITFORONE);
    assert_eq!(plan.timeout, Some(TimeSpec { tv_sec: 2, tv_nsec: 500_000_000 }));

    let plan = plan_recv(10, MsgFlags::default(), None, false);
    assert_eq!(plan.submit, 10);
    assert_eq!(plan.flag_bits, 0);
    assert_eq!(plan.timeout, None);
}

#[test]
fn finish_batch_applies_lengths_to_the_first_count_envelopes() {
    let mut msgs = vec![
        MMsgHdr::new(vec![vec![0u8; 16]], MsgFlags::default()),
        MMsgHdr::new(vec![vec![0u8; 16]], MsgFlags::default()),
        MMsgHdr::new(vec![vec![0u8; 16]], MsgFlags::default()),
    ];
    let lens = vec![9u32, 5, 7];
    let count = finish_batch(&mut msgs, 3, 2, 0, &lens).unwrap();
    assert_eq!(count, 2);
    assert_eq!(msgs[0].msg_len(), 9);
    assert_eq!(msgs[1].msg_len(), 5);
    // The envelope past the count is untouched and resubmittable.
    assert_eq!(msgs[2].msg_len(), 0);
    assert_eq!(msgs[2].buffers, vec![vec![0u8; 16]]);
}

#[test]
fn envelopes_past_the_submitted_portion_are_untouched() {
    let mut msgs = Vec::new();
    for _ in 0..5 {
        msgs.push(MMsgHdr::new(vec![vec![0u8; 8]], MsgFlags::default()));
    }
    // Only three of five were submitted, and all three completed.
    let lens = vec![8u32, 8, 8];
    let count = finish_batch(&mut msgs, 3, 3, 0, &lens).unwrap();
    assert_eq!(count, 3);
    assert_eq!(msgs[3].msg_len(), 0);
    assert_eq!(msgs[4].msg_len(), 0);
}

#[test]
fn a_failed_call_reports_the_os_error_and_touches_nothing() {
    let mut msgs = vec![MMsgHdr::new(vec![vec![0u8; 8]], MsgFlags::default())];
    let lens = Vec::new();
    let r = finish_batch(&mut msgs, 1, -1, libc::EWOULDBLOCK, &lens);
    assert_eq!(r, Err(OsError { errno: libc::EWOULDBLOCK }));
    assert_eq!(msgs[0].msg_len(), 0);
    assert_eq!(msgs[0].buffers, vec![vec![0u8; 8]]);
}

#[test]
fn three_envelopes_of_five_hundred_bytes_round_trip() {
    // A sender submits three 500-byte envelopes, filled with 'A', 'B', 'C'.
    let mut out = vec![
        MMsgHdr::new(vec![vec![b'A'; 500]], MsgFlags::default()),
        MMsgHdr::new(vec![vec![b'B'; 500]], MsgFlags::default()),
        MMsgHdr::new(vec![vec![b'C'; 500]], MsgFlags::default()),
    ];
    let submit = submit_count(out.len(), false);
    assert_eq!(submit, 3);
    // The OS accepted all three and reported 500 bytes sent for each.
    let sent = finish_batch(&mut out, submit, 3, 0, &vec![500u32, 500, 500]).unwrap();
    assert_eq!(sent, 3);

    // The receiver offers three fresh 1500-byte envelopes, non-blocking.
    let mut inc = vec![
        MMsgHdr::new(vec![vec![0u8; 1500]], MsgFlags::default()),
        MMsgHdr::new(vec![vec![0u8; 1500]], MsgFlags::default()),
        MMsgHdr::new(vec![vec![0u8; 1500]], MsgFlags::default()),
    ];
    let plan = plan_recv(inc.len(), MsgFlags::dontwait(), None, false);
    assert_eq!(plan.submit, 3);
    assert_eq!(plan.flag_bits, libc::MSG_DONTWAIT);
    // Each datagram fit its buffer, so each transferred length is the full
    // datagram size.
    let count = finish_batch(&mut inc, plan.submit, 3, 0, &vec![500u32, 500, 500]).unwrap();
    assert_eq!(count, 3);
    assert_eq!(inc[0].msg_len(), 500);
    assert_eq!(inc[1].msg_len(), 500);
    assert_eq!(inc[2].msg_len(), 500);
}
