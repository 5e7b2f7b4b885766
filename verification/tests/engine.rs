use named_pipe::pipe::{ConnectStatus, NamedPipe, ReadSubmit, WriteSubmit};
use named_pipe::pool::BufferPool;
use named_pipe::state::{Event, Io, Registry, State, Token};
use named_pipe::{would_block, Error};

fn registered(id: u32, reg_id: u64, token: usize) -> NamedPipe {
    let mut pipe = NamedPipe::new(id);
    let reg = Registry { id: reg_id };
    pipe.register(&reg, Token(token)).unwrap();
    pipe
}

fn with_pending_read(pipe: &mut NamedPipe, events: &mut Vec<Event>) {
    let buf = pipe.schedule_read_start().expect("read direction should be idle");
    assert!(pipe.schedule_read_finish(buf, ReadSubmit::Enqueued, events));
}

#[test]
fn ptr_from() {
    let pipe = NamedPipe::new(0);
    assert_eq!(
        pipe.id,
        NamedPipe::ptr_from_conn_overlapped(pipe.connect_slot()),
        "`ptr_from_conn_overlapped` incorrect"
    );
    assert_eq!(
        pipe.id,
        NamedPipe::ptr_from_read_overlapped(pipe.read_slot()),
        "`ptr_from_read_overlapped` incorrect"
    );
    assert_eq!(
        pipe.id,
        NamedPipe::ptr_from_write_overlapped(pipe.write_slot()),
        "`ptr_from_write_overlapped` incorrect"
    );
}

#[test]
fn slots_are_distinct() {
    let pipe = NamedPipe::new(41);
    assert_ne!(pipe.connect_slot(), pipe.read_slot());
    assert_ne!(pipe.read_slot(), pipe.write_slot());
    assert_ne!(pipe.connect_slot(), pipe.write_slot());
}

#[test]
fn would_block_is_would_block() {
    assert_eq!(would_block(), Error::WouldBlock);
}

#[test]
fn pool_never_grows_beyond_capacity() {
    let mut pool = BufferPool::with_capacity(2);
    pool.put(vec![1, 2, 3]);
    pool.put(vec![4]);
    pool.put(vec![5, 6]);
    pool.put(vec![7, 8, 9]);
    assert_eq!(pool.buffers.len(), 2);
    // buffers come back out empty, however full they went in
    assert!(pool.get(64).is_empty());
    assert!(pool.get(64).is_empty());
    // an exhausted pool hands out a fresh empty buffer
    assert!(pool.get(64).is_empty());
    assert_eq!(pool.buffers.len(), 0);
}

#[test]
fn unassociated_read_write_always_not_ready() {
    let mut pipe = NamedPipe::new(1);
    for _ in 0..3 {
        let mut dest = vec![0u8; 8];
        assert_eq!(pipe.read(&mut dest), Err(Error::WouldBlock));
        assert_eq!(dest, vec![0u8; 8]);
        assert_eq!(pipe.write_start(&vec![1, 2, 3]).unwrap_err(), Error::WouldBlock);
        assert!(matches!(pipe.io.read, State::Idle));
        assert!(matches!(pipe.io.write, State::Idle));
        assert!(pipe.io.token.is_none());
        assert!(!pipe.connecting);
    }
}

#[test]
fn second_connect_not_ready_and_one_completion() {
    let mut pipe = NamedPipe::new(2);
    assert_eq!(pipe.connect_start(), Ok(()));
    assert_eq!(pipe.connect(ConnectStatus::Enqueued), Err(Error::WouldBlock));
    assert!(pipe.connecting);
    assert!(pipe.connect_held);
    // a second connect while one is in flight: refused, first undisturbed
    assert_eq!(pipe.connect_start(), Err(Error::WouldBlock));
    assert!(pipe.connecting);
    assert!(pipe.connect_held);
    // exactly one completion handler fires and releases the held unit
    let mut events = Vec::new();
    pipe.connect_done(Ok(()), &mut events);
    assert!(!pipe.connecting);
    assert!(!pipe.connect_held);
    assert!(events.is_empty());
}

#[test]
fn connect_immediate_success_runs_post_association() {
    let mut pipe = registered(3, 9, 5);
    assert_eq!(pipe.connect_start(), Ok(()));
    assert_eq!(pipe.connect(ConnectStatus::Done), Ok(()));
    assert!(!pipe.connecting);
    // post-association: schedule the first read, then predict writability
    let mut events = Vec::new();
    with_pending_read(&mut pipe, &mut events);
    pipe.post_register(true, &mut events);
    assert_eq!(
        events,
        vec![Event { token: Token(5), readable: false, writable: true }]
    );
}

#[test]
fn deferred_connect_error_surfaces_via_take_error() {
    let mut pipe = registered(4, 1, 7);
    pipe.connect_start().unwrap();
    assert_eq!(pipe.connect(ConnectStatus::Enqueued), Err(Error::WouldBlock));
    let mut events = Vec::new();
    pipe.connect_done(Err(Error::Os(31)), &mut events);
    // the failure wakes the caller with a writable event...
    assert_eq!(
        events,
        vec![Event { token: Token(7), readable: false, writable: true }]
    );
    // ...and is surfaced exactly once, through take_error
    assert_eq!(pipe.take_error(), Ok(Some(Error::Os(31))));
    assert_eq!(pipe.take_error(), Ok(None));
}

#[test]
fn connect_submission_error_propagates_and_frees_slot() {
    let mut pipe = NamedPipe::new(5);
    pipe.connect_start().unwrap();
    assert_eq!(
        pipe.connect(ConnectStatus::Failed(Error::Os(5))),
        Err(Error::Os(5))
    );
    assert!(!pipe.connecting);
    assert_eq!(pipe.connect_start(), Ok(()));
}

#[test]
fn round_trip_with_small_buffers() {
    let mut pipe = registered(6, 2, 1);
    let mut events = Vec::new();

    // Writer: bytes split across two write calls, each enqueued and later
    // completed in full; the transport sees exactly what was submitted.
    let mut transport: Vec<u8> = Vec::new();
    for chunk in [&b"hello "[..], &b"pipe world"[..]] {
        let owned = pipe.write_start(&chunk.to_vec()).expect("write accepted");
        assert_eq!(owned.as_slice(), chunk);
        transport.extend_from_slice(&owned);
        let n = owned.len();
        assert_eq!(
            pipe.maybe_schedule_write(owned, 0, WriteSubmit::Enqueued),
            Ok(None)
        );
        assert!(pipe.write_done(Ok(n), &mut events).is_none());
    }
    assert_eq!(transport, b"hello pipe world".to_vec());

    // Reader: the transported bytes arrive as one completion and are read
    // back with a caller buffer of only three bytes.
    with_pending_read(&mut pipe, &mut events);
    pipe.read_done(Ok(transport.clone()), &mut events);
    let mut out: Vec<u8> = Vec::new();
    loop {
        let mut dest = vec![0u8; 3];
        match pipe.read(&mut dest) {
            Ok(n) => out.extend_from_slice(&dest[..n]),
            Err(Error::WouldBlock) => break,
            Err(e) => panic!("unexpected read error: {:?}", e),
        }
    }
    // every byte written comes back, in order, nothing more and nothing less
    assert_eq!(out, transport);
}

#[test]
fn read_while_pending_is_not_ready() {
    let mut pipe = registered(12, 6, 8);
    let mut events = Vec::new();
    with_pending_read(&mut pipe, &mut events);
    let mut dest = vec![0u8; 4];
    assert_eq!(pipe.read(&mut dest), Err(Error::WouldBlock));
    assert!(matches!(pipe.io.read, State::Pending(_, _)));
    assert!(pipe.read_held);
}

#[test]
fn broken_pipe_reads_as_eof_exactly_once() {
    let mut pipe = registered(7, 3, 2);
    let mut events = Vec::new();
    with_pending_read(&mut pipe, &mut events);
    pipe.read_done(Err(Error::BrokenPipe), &mut events);
    let mut dest = vec![0u8; 4];
    // a clean zero-byte end of stream, exactly once
    assert_eq!(pipe.read(&mut dest), Ok(0));
    assert!(matches!(pipe.io.read, State::Idle));
    assert_eq!(pipe.read(&mut dest), Err(Error::WouldBlock));
    // and normal scheduling resumes afterwards
    with_pending_read(&mut pipe, &mut events);
}

#[test]
fn genuine_read_error_propagates_then_reschedules() {
    let mut pipe = registered(13, 6, 9);
    let mut events = Vec::new();
    with_pending_read(&mut pipe, &mut events);
    pipe.read_done(Err(Error::Os(10)), &mut events);
    let mut dest = vec![0u8; 4];
    assert_eq!(pipe.read(&mut dest), Err(Error::Os(10)));
    assert!(matches!(pipe.io.read, State::Idle));
}

#[test]
fn schedule_read_while_listening_leaves_direction_idle() {
    let mut pipe = registered(14, 7, 3);
    let mut events = Vec::new();
    let buf = pipe.schedule_read_start().expect("idle");
    assert!(!pipe.schedule_read_finish(buf, ReadSubmit::Listening, &mut events));
    assert!(matches!(pipe.io.read, State::Idle));
    assert!(!pipe.read_held);
    assert!(events.is_empty());
    // "no one listening" predicts no writability either
    pipe.post_register(false, &mut events);
    assert!(events.is_empty());
}

#[test]
fn schedule_read_failure_declares_readable() {
    let mut pipe = registered(15, 7, 4);
    let mut events = Vec::new();
    let buf = pipe.schedule_read_start().expect("idle");
    assert!(pipe.schedule_read_finish(buf, ReadSubmit::Failed(Error::Os(7)), &mut events));
    assert_eq!(
        events,
        vec![Event { token: Token(4), readable: true, writable: false }]
    );
    let mut dest = vec![0u8; 4];
    assert_eq!(pipe.read(&mut dest), Err(Error::Os(7)));
}

#[test]
fn second_write_rejected_until_first_drained() {
    let mut pipe = registered(8, 4, 3);
    let mut events = Vec::new();
    let first = pipe.write_start(&b"abcdef".to_vec()).unwrap();
    assert_eq!(
        pipe.maybe_schedule_write(first, 0, WriteSubmit::Enqueued),
        Ok(None)
    );
    // a second write before the first completion is drained: refused
    assert_eq!(pipe.write_start(&b"xyz".to_vec()).unwrap_err(), Error::WouldBlock);
    // the first write's bytes are preserved, in order
    assert!(matches!(
        &pipe.io.write,
        State::Pending(buf, pos) if buf.as_slice() == b"abcdef" && *pos == 0
    ));
    // partial completion: four of six bytes accepted, remainder resubmitted
    let (rest, pos) = pipe.write_done(Ok(4), &mut events).expect("partial write");
    assert_eq!((rest.as_slice(), pos), (&b"abcdef"[..], 4));
    assert!(events.is_empty());
    assert_eq!(
        pipe.maybe_schedule_write(rest, pos, WriteSubmit::Enqueued),
        Ok(None)
    );
    assert!(pipe.write_done(Ok(2), &mut events).is_none());
    assert_eq!(
        events,
        vec![Event { token: Token(3), readable: false, writable: true }]
    );
    // only now is a new write accepted
    assert!(pipe.write_start(&b"xyz".to_vec()).is_ok());
}

#[test]
fn immediate_write_reports_count_and_still_drains() {
    let mut pipe = registered(9, 5, 6);
    let owned = pipe.write_start(&b"hi".to_vec()).unwrap();
    assert_eq!(
        pipe.maybe_schedule_write(owned, 0, WriteSubmit::Immediate(2)),
        Ok(Some(2))
    );
    // what the caller is told: the immediate count, or optimistically all
    assert_eq!(NamedPipe::write_reported(Some(2), 2), 2);
    assert_eq!(NamedPipe::write_reported(None, 5), 5);
    // a write is outstanding until its completion is drained
    assert_eq!(pipe.write_start(&b"zz".to_vec()).unwrap_err(), Error::WouldBlock);
    let mut events = Vec::new();
    assert!(pipe.write_done(Ok(0), &mut events).is_none());
    assert!(matches!(pipe.io.write, State::Idle));
    assert_eq!(
        events,
        vec![Event { token: Token(6), readable: false, writable: true }]
    );
}

#[test]
fn write_submission_error_propagates_and_deferred_error_is_consumed() {
    let mut pipe = registered(10, 5, 7);
    let owned = pipe.write_start(&b"abc".to_vec()).unwrap();
    assert_eq!(
        pipe.maybe_schedule_write(owned, 0, WriteSubmit::Failed(Error::Os(3))),
        Err(Error::Os(3))
    );
    assert!(matches!(pipe.io.write, State::Idle));
    // a failure recorded by the completion path is consumed by the next write
    let mut events = Vec::new();
    pipe.write_submit_failed(Error::Os(8), &mut events);
    assert_eq!(pipe.write_start(&b"abc".to_vec()).unwrap_err(), Error::Os(8));
    assert!(matches!(pipe.io.write, State::Idle));
    // and the one after proceeds
    assert!(pipe.write_start(&b"abc".to_vec()).is_ok());
}

#[test]
fn teardown_cancels_read_and_connect_but_never_write() {
    let mut pipe = registered(11, 5, 4);
    let mut events = Vec::new();
    assert_eq!(pipe.teardown(), (false, false));
    // a pending read gets a cancel
    with_pending_read(&mut pipe, &mut events);
    assert_eq!(pipe.teardown(), (false, true));
    pipe.read_done(Ok(vec![]), &mut events);
    let mut dest = vec![0u8; 1];
    assert_eq!(pipe.read(&mut dest), Ok(0));
    // a pending write (no pending read) gets no cancel at all
    let owned = pipe.write_start(&b"zz".to_vec()).unwrap();
    pipe.maybe_schedule_write(owned, 0, WriteSubmit::Enqueued).unwrap();
    assert_eq!(pipe.teardown(), (false, false));
    // an in-flight connect gets a cancel
    pipe.connect_start().unwrap();
    assert_eq!(pipe.connect(ConnectStatus::Enqueued), Err(Error::WouldBlock));
    assert_eq!(pipe.teardown(), (true, false));
}

#[test]
fn association_checks() {
    let mut pipe = NamedPipe::new(16);
    let reg_a = Registry { id: 1 };
    let reg_b = Registry { id: 2 };
    assert_eq!(pipe.deregister(&reg_a), Err(Error::NotFound));
    assert_eq!(pipe.reregister(&reg_a, Token(1)), Err(Error::NotFound));
    pipe.register(&reg_a, Token(1)).unwrap();
    assert_eq!(pipe.io.token, Some(Token(1)));
    // double registration
    assert_eq!(pipe.register(&reg_a, Token(2)), Err(Error::AlreadyExists));
    // a different registry instance is refused
    assert_eq!(pipe.register(&reg_b, Token(2)), Err(Error::AlreadyExists));
    assert_eq!(pipe.reregister(&reg_b, Token(2)), Err(Error::AlreadyExists));
    assert_eq!(pipe.deregister(&reg_b), Err(Error::AlreadyExists));
    // reregistering with the same instance replaces the token
    pipe.reregister(&reg_a, Token(9)).unwrap();
    assert_eq!(pipe.io.token, Some(Token(9)));
    pipe.deregister(&reg_a).unwrap();
    assert_eq!(pipe.io.token, None);
    assert_eq!(pipe.deregister(&reg_a), Err(Error::NotFound));
}

#[test]
fn notifications_only_when_associated() {
    let unassociated = Io {
        token: None,
        registry: None,
        read: State::Idle,
        write: State::Idle,
        connect_error: None,
    };
    let mut events = Vec::new();
    unassociated.notify_readable(&mut events);
    unassociated.notify_writable(&mut events);
    assert!(events.is_empty());

    let associated = Io {
        token: Some(Token(3)),
        registry: Some(1),
        read: State::Idle,
        write: State::Idle,
        connect_error: None,
    };
    let reg = Registry { id: 1 };
    assert_eq!(associated.check_association(&reg, true), Ok(()));
    associated.notify_readable(&mut events);
    associated.notify_writable(&mut events);
    assert_eq!(
        events,
        vec![
            Event { token: Token(3), readable: true, writable: false },
            Event { token: Token(3), readable: false, writable: true },
        ]
    );
}

#[test]
fn flush_is_a_no_op() {
    let pipe = NamedPipe::new(17);
    assert_eq!(pipe.flush(), Ok(()));
}
