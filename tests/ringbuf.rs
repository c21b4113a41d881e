use std::cell::RefCell;
use std::rc::Rc;
use std::time::Duration;

use bpf_ringbuf::{
    parse_ret, poll_timeout_ms, BpfMap, BuildAction, BuildEvent, Error, MapType, RingBuffer,
    RingBufferBuilder, RingBufferCallback, EINTR,
};

type Cb<'a> = Box<dyn FnMut(&[u8]) -> i32 + 'a>;

fn assert_send<T: Send>() {}

/// Check that `RingBuffer` is `Send`.
#[test]
fn perfbuffer_is_send() {
    assert_send::<RingBuffer<Box<dyn FnMut(&[u8]) -> i32 + Send>>>();
}

fn ringbuf_map(fd: i32) -> BpfMap {
    BpfMap::new(fd, MapType::RingBuf)
}

fn noop<'a>() -> Cb<'a> {
    Box::new(|_: &[u8]| 0)
}

#[test]
fn map_reports_fd_and_kind() {
    let m = BpfMap::new(17, MapType::Hash);
    assert_eq!(m.fd(), 17);
    assert_eq!(m.map_type(), MapType::Hash);
}

#[test]
fn add_rejects_other_kinds_and_keeps_registrations() {
    let mut b: RingBufferBuilder<Cb> = RingBufferBuilder::new();
    assert!(b.add(&ringbuf_map(3), noop()).is_ok());
    for kind in [MapType::Hash, MapType::Array, MapType::PerfEventArray, MapType::UserRingBuf] {
        let r = b.add(&BpfMap::new(9, kind), noop());
        assert!(matches!(r, Err(Error::InvalidInput(_))));
    }
    assert!(b.add(&ringbuf_map(5), noop()).is_ok());
    let mut s = match b.build() {
        Ok(s) => s,
        Err(e) => panic!("build failed: {:?}", e),
    };
    assert_eq!(s.action(), BuildAction::Create { fd: 3, index: 0 });
    assert_eq!(
        s.report(BuildEvent::Created(Ok(0x1000))),
        BuildAction::Add { handle: 0x1000, fd: 5, index: 1 }
    );
    assert_eq!(s.report(BuildEvent::Added(0)), BuildAction::Finish);
    let rb = s.finish().unwrap();
    assert_eq!(rb.len(), 2);
}

#[test]
fn add_chains() {
    let mut b: RingBufferBuilder<Cb> = RingBufferBuilder::new();
    b.add(&ringbuf_map(1), noop()).unwrap().add(&ringbuf_map(2), noop()).unwrap();
    let mut s = b.build().ok().unwrap();
    assert_eq!(s.report(BuildEvent::Created(Ok(8))), BuildAction::Add { handle: 8, fd: 2, index: 1 });
}

#[test]
fn build_of_empty_builder_fails_every_time() {
    for _ in 0..100 {
        let b: RingBufferBuilder<Cb> = RingBufferBuilder::new();
        assert!(matches!(b.build(), Err(Error::InvalidInput(_))));
    }
}

#[test]
fn build_with_every_call_succeeding_finishes() {
    for n in 1..6 {
        let mut b: RingBufferBuilder<Cb> = RingBufferBuilder::new();
        for fd in 0..n {
            b.add(&ringbuf_map(10 + fd), noop()).unwrap();
        }
        let mut s = b.build().ok().unwrap();
        let mut action = s.action();
        assert_eq!(action, BuildAction::Create { fd: 10, index: 0 });
        let mut creates = 0;
        let mut adds = 0;
        loop {
            action = match action {
                BuildAction::Create { .. } => {
                    creates += 1;
                    s.report(BuildEvent::Created(Ok(0x2000)))
                }
                BuildAction::Add { handle, fd, index } => {
                    assert_eq!(handle, 0x2000);
                    assert_eq!(fd, 10 + index as i32);
                    adds += 1;
                    s.report(BuildEvent::Added(0))
                }
                BuildAction::Finish => break,
                BuildAction::Fail { error, .. } => panic!("unexpected failure {:?}", error),
            };
        }
        assert_eq!(creates, 1);
        assert_eq!(adds, n - 1);
        let rb = s.finish().unwrap();
        assert_eq!(rb.handle(), 0x2000);
        assert_eq!(rb.len(), n as usize);
        drop(rb);
    }
}

#[test]
fn failed_creation_is_a_system_error_with_nothing_to_release() {
    let mut b: RingBufferBuilder<Cb> = RingBufferBuilder::new();
    b.add(&ringbuf_map(4), noop()).unwrap();
    b.add(&ringbuf_map(6), noop()).unwrap();
    let mut s = b.build().ok().unwrap();
    assert_eq!(
        s.report(BuildEvent::Created(Err(-12))),
        BuildAction::Fail { error: Error::System(-12), release: None }
    );
    assert!(s.finish().is_none());
}

#[test]
fn failed_addition_releases_the_merged_object() {
    let mut b: RingBufferBuilder<Cb> = RingBufferBuilder::new();
    for fd in [4, 6, 8] {
        b.add(&ringbuf_map(fd), noop()).unwrap();
    }
    let mut s = b.build().ok().unwrap();
    s.report(BuildEvent::Created(Ok(0x3000)));
    assert_eq!(
        s.report(BuildEvent::Added(-22)),
        BuildAction::Fail { error: Error::System(-22), release: Some(0x3000) }
    );
    // Once failed, nothing moves on.
    assert_eq!(
        s.report(BuildEvent::Added(0)),
        BuildAction::Fail { error: Error::System(-22), release: Some(0x3000) }
    );
    assert!(s.finish().is_none());
}

#[test]
fn event_that_does_not_answer_the_action_changes_nothing() {
    let mut b: RingBufferBuilder<Cb> = RingBufferBuilder::new();
    b.add(&ringbuf_map(4), noop()).unwrap();
    b.add(&ringbuf_map(6), noop()).unwrap();
    let mut s = b.build().ok().unwrap();
    assert_eq!(s.report(BuildEvent::Added(0)), BuildAction::Create { fd: 4, index: 0 });
    s.report(BuildEvent::Created(Ok(1)));
    assert_eq!(
        s.report(BuildEvent::Created(Ok(2))),
        BuildAction::Add { handle: 1, fd: 6, index: 1 }
    );
}

#[test]
fn cells_dispatch_to_their_own_handler() {
    let seen: Rc<RefCell<Vec<(usize, Vec<u8>)>>> = Rc::new(RefCell::new(Vec::new()));
    let mut b: RingBufferBuilder<Cb> = RingBufferBuilder::new();
    for i in 0..3usize {
        let seen = seen.clone();
        b.add(
            &ringbuf_map(20 + i as i32),
            Box::new(move |data: &[u8]| {
                seen.borrow_mut().push((i, data.to_vec()));
                i as i32
            }),
        )
        .unwrap();
    }
    let mut s = b.build().ok().unwrap();
    assert_eq!(s.cell_mut(2).call(&[1, 2, 3]), 2);
    assert_eq!(s.cell_mut(0).call(&[]), 0);
    assert_eq!(s.cell_mut(1).call(&[9]), 1);
    assert_eq!(
        *seen.borrow(),
        vec![(2, vec![1, 2, 3]), (0, vec![]), (1, vec![9])]
    );
}

#[test]
fn handler_called_once_per_record() {
    let count = Rc::new(RefCell::new(0));
    let c = count.clone();
    let mut cell = RingBufferCallback::new(move |_: &[u8]| {
        *c.borrow_mut() += 1;
        0
    });
    for k in 0..7u8 {
        assert_eq!(cell.call(&[k; 4]), 0);
    }
    assert_eq!(*count.borrow(), 7);
}

#[test]
fn timeout_of_whole_and_partial_milliseconds() {
    assert_eq!(poll_timeout_ms(0, 0), 0);
    assert_eq!(poll_timeout_ms(1, 500_000_000), 1500);
    assert_eq!(poll_timeout_ms(0, 999_999), 0);
    assert_eq!(poll_timeout_ms(2, 1_000_000), 2001);
}

#[test]
fn timeout_of_largest_duration_waits_forever() {
    let d = Duration::MAX;
    assert_eq!(poll_timeout_ms(d.as_secs(), d.subsec_nanos()), -1);
}

#[test]
fn timeout_beyond_32_bits_is_cut() {
    let d = Duration::from_millis(1u64 << 32 | 5);
    assert_eq!(poll_timeout_ms(d.as_secs(), d.subsec_nanos()), 5);
    assert_eq!(poll_timeout_ms(u64::MAX, 0), (u64::MAX as u128 * 1000) as i32);
    let d = Duration::from_millis(i32::MAX as u64 + 1);
    assert_eq!(poll_timeout_ms(d.as_secs(), d.subsec_nanos()), i32::MIN);
}

#[test]
fn return_codes_translate() {
    assert_eq!(parse_ret(0), Ok(()));
    assert_eq!(parse_ret(42), Ok(()));
    assert_eq!(parse_ret(-EINTR), Ok(()));
    assert_eq!(parse_ret(-1), Err(Error::System(-1)));
    assert_eq!(parse_ret(-22), Err(Error::System(-22)));
    assert_eq!(parse_ret(i32::MIN), Err(Error::System(i32::MIN)));
}
