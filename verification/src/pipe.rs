//! The engine core: the completion-slot layout, the connect protocol, and
//! the read/write facade over the per-direction state machine.
//!
//! The engine is passive. Wherever the I/O flow would submit an
//! asynchronous request to the system, the operation here is split in two:
//! the first half decides whether to submit and hands the driver what it
//! needs, the second half takes the submission outcome back as a plain
//! value and finishes the transition. Completion handlers likewise take the
//! delivered outcome as a value. Everything the engine decides is therefore
//! stated in contracts and verified for every outcome the system may
//! report.

use vstd::prelude::*;

use crate::pool::BufferPool;
use crate::pool::accepts_one;
use crate::pool::lends_one;
use crate::state::Event;
use crate::state::Io;
use crate::state::Registry;
use crate::state::State;
use crate::state::Token;
use crate::Error;
use crate::would_block;
use vstd::pervasive::unreached;

verus! {

/// Length a freshly allocated I/O buffer starts from.
pub const DEFAULT_BUFFER_SIZE: usize = 4096;

/// Bound on how many spare buffers an engine keeps pooled.
pub const POOL_CAPACITY: usize = 8;

/// Outcome the system reports for an asynchronous connect submission.
pub enum ConnectStatus {
    /// The connection was established immediately.
    Done,
    /// The request was accepted; a completion will be delivered later.
    Enqueued,
    /// The submission itself failed.
    Failed(Error),
}

/// Outcome the system reports for an asynchronous read submission.
pub enum ReadSubmit {
    /// The request was accepted; a completion will be delivered later.
    Enqueued,
    /// No client is connected yet, so nothing was submitted.
    Listening,
    /// The submission itself failed.
    Failed(Error),
}

/// Outcome the system reports for an asynchronous write submission.
pub enum WriteSubmit {
    /// This many bytes were accepted immediately; a completion will still
    /// be delivered and must be drained later.
    Immediate(usize),
    /// The request was accepted; a completion will be delivered later.
    Enqueued,
    /// The submission itself failed.
    Failed(Error),
}

/// Slot number of the connect completion slot of the instance `id`.
pub open spec fn spec_connect_slot(id: u32) -> int {
    3 * (id as int)
}

/// Slot number of the read completion slot of the instance `id`.
pub open spec fn spec_read_slot(id: u32) -> int {
    3 * (id as int) + 1
}

/// Slot number of the write completion slot of the instance `id`.
pub open spec fn spec_write_slot(id: u32) -> int {
    3 * (id as int) + 2
}

/// The instance a slot number belongs to.
pub open spec fn spec_slot_owner(slot: int) -> int {
    slot / 3
}

/// Layout law: each instance's three completion slots are distinct, and
/// the owner recovered from any of them is that instance itself.
pub proof fn lemma_slot_recovery(id: u32)
    ensures
        spec_slot_owner(spec_connect_slot(id)) == id,
        spec_slot_owner(spec_read_slot(id)) == id,
        spec_slot_owner(spec_write_slot(id)) == id,
        spec_connect_slot(id) != spec_read_slot(id),
        spec_read_slot(id) != spec_write_slot(id),
        spec_connect_slot(id) != spec_write_slot(id),
{
    let n = id as int;
    assert((3 * n) / 3 == n && (3 * n + 1) / 3 == n && (3 * n + 2) / 3 == n)
        by (nonlinear_arith);
}

/// The engine core.
///
/// It owns the per-direction state machine, the connect-in-progress flag,
/// the buffer pool, and one explicit record per direction saying whether an
/// extra ownership unit is retained for an operation that is still
/// outstanding. Completion requests carry slot numbers derived from `id` at
/// a fixed offset per direction, so a completion notification alone
/// recovers the owning instance.
pub struct NamedPipe {
    /// Identity of this instance; the three completion-slot numbers are
    /// recovered from it and it from them.
    pub id: u32,
    /// Set exactly while a connect attempt is in progress.
    pub connecting: bool,
    pub io: Io,
    pub pool: BufferPool,
    /// True while an ownership unit is retained for an outstanding connect,
    /// released exactly once by the connect completion handler.
    pub connect_held: bool,
    /// True while an ownership unit is retained for an outstanding read.
    pub read_held: bool,
    /// True while an ownership unit is retained for an outstanding write.
    pub write_held: bool,
}

/// Everything but the buffer pool is unchanged.
pub open spec fn same_outside_pool(pre: NamedPipe, post: NamedPipe) -> bool {
    &&& post.id == pre.id
    &&& post.connecting == pre.connecting
    &&& post.connect_held == pre.connect_held
    &&& post.read_held == pre.read_held
    &&& post.write_held == pre.write_held
    &&& post.io == pre.io
}

/// Everything outside the read direction and the buffer pool is unchanged.
pub open spec fn same_outside_read(pre: NamedPipe, post: NamedPipe) -> bool {
    &&& post.id == pre.id
    &&& post.connecting == pre.connecting
    &&& post.connect_held == pre.connect_held
    &&& post.write_held == pre.write_held
    &&& post.io.token == pre.io.token
    &&& post.io.registry == pre.io.registry
    &&& post.io.write == pre.io.write
    &&& post.io.connect_error == pre.io.connect_error
}

/// Everything outside the write direction and the buffer pool is unchanged.
pub open spec fn same_outside_write(pre: NamedPipe, post: NamedPipe) -> bool {
    &&& post.id == pre.id
    &&& post.connecting == pre.connecting
    &&& post.connect_held == pre.connect_held
    &&& post.read_held == pre.read_held
    &&& post.io.token == pre.io.token
    &&& post.io.registry == pre.io.registry
    &&& post.io.read == pre.io.read
    &&& post.io.connect_error == pre.io.connect_error
}

impl NamedPipe {
    /// Internal consistency: cursors stay within their buffers, an
    /// ownership unit is retained exactly while the matching operation is
    /// outstanding, a unit for a connect only while one is in progress, a
    /// delivery token only together with an association, and the pool keeps
    /// its own invariant.
    pub open spec fn wf(self) -> bool {
        &&& (self.io.read matches State::Ready(data, cur) ==> cur <= data@.len())
        &&& (self.io.write matches State::Pending(data, pos) ==> pos <= data@.len())
        &&& (self.io.write matches State::Ready(data, pos) ==> pos <= data@.len())
        &&& self.read_held == (self.io.read is Pending)
        &&& self.write_held == (self.io.write is Pending || self.io.write is Ready)
        &&& (self.connect_held ==> self.connecting)
        &&& (self.io.token is Some ==> self.io.registry is Some)
        &&& self.pool.wf()
    }

    /// The bytes currently buffered for readers: the unconsumed tail of a
    /// completed read, if any.
    pub open spec fn buffered(self) -> Seq<u8> {
        match self.io.read {
            State::Ready(data, cur) => data@.skip(cur as int),
            _ => Seq::empty(),
        }
    }

    /// How many extra ownership units are retained for operations that are
    /// still outstanding.
    pub open spec fn held_units(self) -> int {
        (if self.connect_held { 1int } else { 0int })
            + (if self.read_held { 1int } else { 0int })
            + (if self.write_held { 1int } else { 0int })
    }

    /// A fresh engine: unassociated, both directions idle, no connect in
    /// progress, no ownership unit retained, an empty pool.
    pub fn new(id: u32) -> (r: NamedPipe)
        ensures
            r.wf(),
            r.id == id,
            !r.connecting,
            r.io.token is None,
            r.io.registry is None,
            r.io.read is Idle,
            r.io.write is Idle,
            r.io.connect_error is None,
            !r.connect_held,
            !r.read_held,
            !r.write_held,
            r.pool.buffers@.len() == 0,
            r.pool.capacity == POOL_CAPACITY,
    {
        NamedPipe {
            id,
            connecting: false,
            io: Io {
                token: None,
                registry: None,
                read: State::Idle,
                write: State::Idle,
                connect_error: None,
            },
            pool: BufferPool::with_capacity(POOL_CAPACITY),
            connect_held: false,
            read_held: false,
            write_held: false,
        }
    }

    /// Number of this instance's connect completion slot.
    pub fn connect_slot(&self) -> (r: u64)
        ensures
            r == spec_connect_slot(self.id),
    {
        3 * (self.id as u64)
    }

    /// Number of this instance's read completion slot.
    pub fn read_slot(&self) -> (r: u64)
        ensures
            r == spec_read_slot(self.id),
    {
        3 * (self.id as u64) + 1
    }

    /// Number of this instance's write completion slot.
    pub fn write_slot(&self) -> (r: u64)
        ensures
            r == spec_write_slot(self.id),
    {
        3 * (self.id as u64) + 2
    }

    /// Recovers the owning instance from its connect slot's number.
    pub fn ptr_from_conn_overlapped(slot: u64) -> (r: u32)
        requires
            spec_slot_owner(slot as int) <= u32::MAX,
        ensures
            r == spec_slot_owner(slot as int),
    {
        (slot / 3) as u32
    }

    /// Recovers the owning instance from its read slot's number.
    pub fn ptr_from_read_overlapped(slot: u64) -> (r: u32)
        requires
            spec_slot_owner(slot as int) <= u32::MAX,
        ensures
            r == spec_slot_owner(slot as int),
    {
        (slot / 3) as u32
    }

    /// Recovers the owning instance from its write slot's number.
    pub fn ptr_from_write_overlapped(slot: u64) -> (r: u32)
        requires
            spec_slot_owner(slot as int) <= u32::MAX,
        ensures
            r == spec_slot_owner(slot as int),
    {
        (slot / 3) as u32
    }

    /// First half of `connect`: claims the connect slot. While a connect is
    /// already in progress this fails with `WouldBlock` and changes
    /// nothing, so a concurrent attempt never disturbs the one in flight.
    /// On success the caller submits the asynchronous connect and feeds the
    /// outcome to `connect`.
    pub fn connect_start(&mut self) -> (r: Result<(), Error>)
        requires
            old(self).wf(),
        ensures
            final(self).wf(),
            old(self).connecting ==> r == Err::<(), Error>(Error::WouldBlock)
                && *final(self) == *old(self),
            !old(self).connecting ==> r == Ok::<(), Error>(())
                && *final(self) == (NamedPipe { connecting: true, ..*old(self) }),
    {
        if self.connecting {
            Err(would_block())
        } else {
            self.connecting = true;
            Ok(())
        }
    }

    /// Second half of `connect`: interprets the submission outcome.
    ///
    /// Immediate success clears the in-progress flag (the caller then runs
    /// the post-association sequence). An enqueued request retains an
    /// ownership unit for the eventual completion handler and reports
    /// `WouldBlock`. A failed submission clears the flag and propagates the
    /// error.
    pub fn connect(&mut self, status: ConnectStatus) -> (r: Result<(), Error>)
        requires
            old(self).wf(),
            old(self).connecting,
            !old(self).connect_held,
        ensures
            final(self).wf(),
            final(self).id == old(self).id,
            final(self).io == old(self).io,
            final(self).pool == old(self).pool,
            final(self).read_held == old(self).read_held,
            final(self).write_held == old(self).write_held,
            final(self).held_units() == old(self).held_units() + (if status is Enqueued {
                1int
            } else {
                0int
            }),
            match status {
                ConnectStatus::Done => r == Ok::<(), Error>(()) && !final(self).connecting
                    && !final(self).connect_held,
                ConnectStatus::Enqueued => r == Err::<(), Error>(Error::WouldBlock)
                    && final(self).connecting && final(self).connect_held,
                ConnectStatus::Failed(e) => r == Err::<(), Error>(e) && !final(self).connecting
                    && !final(self).connect_held,
            },
    {
        match status {
            ConnectStatus::Done => {
                self.connecting = false;
                Ok(())
            }
            ConnectStatus::Enqueued => {
                self.connect_held = true;
                Err(would_block())
            }
            ConnectStatus::Failed(e) => {
                self.connecting = false;
                Err(e)
            }
        }
    }

    /// Completion handler for the connect slot. Releases the ownership unit
    /// retained at submission — exactly once per accepted connect — and
    /// clears the in-progress flag. A failure is deferred: it is parked for
    /// `take_error` and a writable event wakes the caller to collect it. On
    /// success the caller runs the post-association sequence.
    pub fn connect_done(&mut self, status: Result<(), Error>, events: &mut Vec<Event>)
        requires
            old(self).wf(),
            old(self).connect_held,
        ensures
            final(self).wf(),
            !final(self).connecting,
            !final(self).connect_held,
            final(self).id == old(self).id,
            final(self).pool == old(self).pool,
            final(self).read_held == old(self).read_held,
            final(self).write_held == old(self).write_held,
            final(self).io.token == old(self).io.token,
            final(self).io.registry == old(self).io.registry,
            final(self).io.read == old(self).io.read,
            final(self).io.write == old(self).io.write,
            final(self).held_units() == old(self).held_units() - 1,
            status is Ok ==> final(self).io.connect_error == old(self).io.connect_error
                && final(events)@ == old(events)@,
            status matches Err(e) ==> final(self).io.connect_error == Some(e)
                && final(events)@ == old(self).io.after_notify_writable(old(events)@),
    {
        self.connecting = false;
        self.connect_held = false;
        match status {
            Ok(()) => {}
            Err(e) => {
                self.io.connect_error = Some(e);
                self.io.notify_writable(events);
            }
        }
    }

    /// Takes and clears the deferred connect error, if one is parked. After
    /// a writable notification that follows a `connect`, this tells the
    /// caller whether the connection actually succeeded.
    pub fn take_error(&mut self) -> (r: Result<Option<Error>, Error>)
        requires
            old(self).wf(),
        ensures
            final(self).wf(),
            r == Ok::<Option<Error>, Error>(old(self).io.connect_error),
            *final(self) == (NamedPipe {
                io: Io { connect_error: None, ..old(self).io },
                ..*old(self)
            }),
    {
        let e = self.io.connect_error.take();
        Ok(e)
    }

    /// Associates the pipe with a poller: refuses a pipe attached to a
    /// different registry instance or one that is already registered,
    /// otherwise stores the registry identity and the delivery token. On
    /// success the caller runs the post-association sequence.
    pub fn register(&mut self, registry: &Registry, token: Token) -> (r: Result<(), Error>)
        requires
            old(self).wf(),
        ensures
            final(self).wf(),
            old(self).io.registry is Some && old(self).io.registry != Some(registry.id)
                ==> r == Err::<(), Error>(Error::AlreadyExists) && *final(self) == *old(self),
            (old(self).io.registry is None || old(self).io.registry == Some(registry.id))
                && old(self).io.token is Some
                ==> r == Err::<(), Error>(Error::AlreadyExists) && *final(self) == *old(self),
            (old(self).io.registry is None || old(self).io.registry == Some(registry.id))
                && old(self).io.token is None
                ==> r == Ok::<(), Error>(()) && *final(self) == (NamedPipe {
                    io: Io {
                        registry: Some(registry.id),
                        token: Some(token),
                        ..old(self).io
                    },
                    ..*old(self)
                }),
    {
        match self.io.check_association(registry, false) {
            Ok(()) => {}
            Err(e) => {
                return Err(e);
            }
        }
        if self.io.token.is_some() {
            return Err(Error::AlreadyExists);
        }
        self.io.registry = Some(registry.id);
        self.io.token = Some(token);
        Ok(())
    }

    /// Replaces the delivery token of a pipe already associated with this
    /// registry instance. On success the caller re-runs the
    /// post-association sequence.
    pub fn reregister(&mut self, registry: &Registry, token: Token) -> (r: Result<(), Error>)
        requires
            old(self).wf(),
        ensures
            final(self).wf(),
            old(self).io.registry is Some && old(self).io.registry != Some(registry.id)
                ==> r == Err::<(), Error>(Error::AlreadyExists) && *final(self) == *old(self),
            old(self).io.registry is None
                ==> r == Err::<(), Error>(Error::NotFound) && *final(self) == *old(self),
            old(self).io.registry == Some(registry.id)
                ==> r == Ok::<(), Error>(()) && *final(self) == (NamedPipe {
                    io: Io { token: Some(token), ..old(self).io },
                    ..*old(self)
                }),
    {
        match self.io.check_association(registry, true) {
            Ok(()) => {}
            Err(e) => {
                return Err(e);
            }
        }
        self.io.token = Some(token);
        Ok(())
    }

    /// Dissociates the pipe from the poller: clears the delivery token, so
    /// every subsequent read or write fails with `WouldBlock` until the
    /// pipe is registered again. A pipe that is not registered here is
    /// refused.
    pub fn deregister(&mut self, registry: &Registry) -> (r: Result<(), Error>)
        requires
            old(self).wf(),
        ensures
            final(self).wf(),
            old(self).io.registry is Some && old(self).io.registry != Some(registry.id)
                ==> r == Err::<(), Error>(Error::AlreadyExists) && *final(self) == *old(self),
            old(self).io.registry is None
                ==> r == Err::<(), Error>(Error::NotFound) && *final(self) == *old(self),
            old(self).io.registry == Some(registry.id) && old(self).io.token is None
                ==> r == Err::<(), Error>(Error::NotFound) && *final(self) == *old(self),
            old(self).io.registry == Some(registry.id) && old(self).io.token is Some
                ==> r == Ok::<(), Error>(()) && *final(self) == (NamedPipe {
                    io: Io { token: None, ..old(self).io },
                    ..*old(self)
                }),
    {
        match self.io.check_association(registry, true) {
            Ok(()) => {}
            Err(e) => {
                return Err(e);
            }
        }
        if self.io.token.is_none() {
            return Err(Error::NotFound);
        }
        self.io.token = None;
        Ok(())
    }

    /// Accepted writes are already handed to the system, so there is
    /// nothing to flush.
    pub fn flush(&self) -> (r: Result<(), Error>)
        ensures
            r == Ok::<(), Error>(()),
    {
        Ok(())
    }

    /// The cancellation decision taken at teardown: a best-effort cancel is
    /// issued for an in-flight connect and for an in-flight read, but never
    /// for an in-flight write — bytes the system has already accepted must
    /// not be dropped. Returns whether to cancel (connect, read), in that
    /// order.
    pub fn teardown(&self) -> (r: (bool, bool))
        ensures
            r.0 == self.connecting,
            r.1 == (self.io.read is Pending),
    {
        let cancel_connect = self.connecting;
        let cancel_read = matches!(self.io.read, State::Pending(_, _));
        (cancel_connect, cancel_read)
    }

    /// Checks a buffer out of this engine's pool, for the next
    /// asynchronous operation.
    fn get_buffer(&mut self) -> (r: Vec<u8>)
        requires
            old(self).pool.wf(),
        ensures
            same_outside_pool(*old(self), *final(self)),
            final(self).pool.wf(),
            lends_one(old(self).pool, final(self).pool),
            r@.len() == 0,
    {
        self.pool.get(DEFAULT_BUFFER_SIZE)
    }

    /// Returns a finished operation's buffer to this engine's pool.
    fn put_buffer(&mut self, buf: Vec<u8>)
        requires
            old(self).pool.wf(),
        ensures
            same_outside_pool(*old(self), *final(self)),
            final(self).pool.wf(),
            accepts_one(old(self).pool, final(self).pool),
    {
        self.pool.put(buf)
    }

    /// Non-blocking read into the front of `dest`.
    ///
    /// An unassociated pipe, an idle read direction, and an operation still
    /// in flight all report `WouldBlock` and change nothing. Arrived data
    /// is copied out from the cursor — as many bytes as `dest` holds — and
    /// the cursor advances; a fully consumed buffer returns to the pool and
    /// leaves the direction idle, for the caller to schedule the next read.
    /// A failed operation leaves the direction idle the same way and
    /// surfaces its error, except that a broken pipe — the remote end
    /// closed — reads as a clean zero-byte end of stream.
    pub fn read(&mut self, dest: &mut Vec<u8>) -> (r: Result<usize, Error>)
        requires
            old(self).wf(),
        ensures
            final(self).wf(),
            same_outside_read(*old(self), *final(self)),
            old(self).io.token is None ==> r == Err::<usize, Error>(Error::WouldBlock)
                && *final(self) == *old(self) && final(dest)@ == old(dest)@,
            old(self).io.token is Some && (old(self).io.read is Idle || old(self).io.read
                is Pending) ==> r == Err::<usize, Error>(Error::WouldBlock)
                && *final(self) == *old(self) && final(dest)@ == old(dest)@,
            old(self).io.token is Some && old(self).io.read is Ready ==> ({
                let n = if old(dest)@.len() <= old(self).buffered().len() {
                    old(dest)@.len() as int
                } else {
                    old(self).buffered().len() as int
                };
                &&& r == Ok::<usize, Error>(n as usize)
                &&& final(dest)@ == old(self).buffered().take(n) + old(dest)@.skip(n)
                &&& final(self).buffered() == old(self).buffered().skip(n)
                &&& (n < old(self).buffered().len() ==> final(self).io.read is Ready
                    && final(self).pool == old(self).pool)
                &&& (n == old(self).buffered().len() ==> final(self).io.read is Idle
                    && accepts_one(old(self).pool, final(self).pool))
            }),
            old(self).io.token is Some ==> (old(self).io.read matches State::Failed(e) ==> ({
                &&& final(self).io.read is Idle
                &&& final(self).pool == old(self).pool
                &&& final(dest)@ == old(dest)@
                &&& (e == Error::BrokenPipe ==> r == Ok::<usize, Error>(0))
                &&& (e != Error::BrokenPipe ==> r == Err::<usize, Error>(e))
            })),
    {
        if self.io.token.is_none() {
            return Err(would_block());
        }
        let cur_read = self.io.read.take();
        match cur_read {
            State::Idle => Err(would_block()),
            State::Pending(buf, amt) => {
                self.io.read = State::Pending(buf, amt);
                Err(would_block())
            }
            State::Ready(data, cur) => {
                let avail = data.len() - cur;
                let n = if dest.len() < avail {
                    dest.len()
                } else {
                    avail
                };
                let mut i: usize = 0;
                while i < n
                    invariant
                        i <= n,
                        n <= dest@.len(),
                        cur + n <= data@.len(),
                        cur + n <= usize::MAX,
                        dest@.len() == old(dest)@.len(),
                        forall|j: int| 0 <= j < i ==> dest@[j] == data@[cur + j],
                        forall|j: int| i <= j < dest@.len() ==> dest@[j] == old(dest)@[j],
                    decreases n - i,
                {
                    dest[i] = data[cur + i];
                    i += 1;
                }
                proof {
                    assert(dest@ =~= data@.skip(cur as int).take(n as int) + old(
                        dest,
                    )@.skip(n as int));
                }
                let next = cur + n;
                if next != data.len() {
                    self.io.read = State::Ready(data, next);
                    proof {
                        assert(self.buffered() =~= data@.skip(cur as int).skip(n as int));
                    }
                } else {
                    self.put_buffer(data);
                    proof {
                        assert(self.buffered() =~= data@.skip(cur as int).skip(n as int));
                    }
                }
                Ok(n)
            }
            State::Failed(e) => {
                if e == Error::BrokenPipe {
                    Ok(0)
                } else {
                    Err(e)
                }
            }
        }
    }

    /// First half of `write`. An unassociated pipe reports `WouldBlock` and
    /// changes nothing; so does a write whose completion has not been
    /// drained yet — the engine enforces one write in flight at a time
    /// across all holders. A deferred write failure is consumed and
    /// propagated. Otherwise the caller's bytes are copied, in order and in
    /// full, into a pooled buffer handed back to be submitted from offset
    /// zero, with the outcome fed to `maybe_schedule_write`.
    pub fn write_start(&mut self, data: &Vec<u8>) -> (r: Result<Vec<u8>, Error>)
        requires
            old(self).wf(),
        ensures
            final(self).wf(),
            same_outside_write(*old(self), *final(self)),
            old(self).io.token is None ==> r == Err::<Vec<u8>, Error>(Error::WouldBlock)
                && *final(self) == *old(self),
            old(self).io.token is Some && (old(self).io.write is Pending || old(self).io.write
                is Ready) ==> r == Err::<Vec<u8>, Error>(Error::WouldBlock)
                && *final(self) == *old(self),
            old(self).io.token is Some ==> (old(self).io.write matches State::Failed(e)
                ==> r == Err::<Vec<u8>, Error>(e) && final(self).io.write is Idle
                && final(self).pool == old(self).pool),
            old(self).io.token is Some && old(self).io.write is Idle ==> ({
                &&& r matches Ok(buf) && buf@ == data@
                &&& final(self).io.write is Idle
                &&& lends_one(old(self).pool, final(self).pool)
            }),
    {
        if self.io.token.is_none() {
            return Err(would_block());
        }
        let cur_write = self.io.write.take();
        match cur_write {
            State::Idle => {}
            State::Failed(e) => {
                return Err(e);
            }
            State::Pending(buf, pos) => {
                self.io.write = State::Pending(buf, pos);
                return Err(would_block());
            }
            State::Ready(buf, pos) => {
                self.io.write = State::Ready(buf, pos);
                return Err(would_block());
            }
        }
        let mut owned = self.get_buffer();
        let mut i: usize = 0;
        while i < data.len()
            invariant
                i <= data@.len(),
                owned@.len() == i,
                forall|j: int| 0 <= j < i ==> owned@[j] == data@[j],
            decreases data@.len() - i,
        {
            owned.push(data[i]);
            i += 1;
        }
        proof {
            assert(owned@ =~= data@);
        }
        Ok(owned)
    }

    /// Interprets the outcome of an asynchronous write submitted from
    /// `buf[pos..]`, the second half of `write`.
    ///
    /// Bytes accepted immediately leave the buffer parked as `Ready` — the
    /// completion still arrives and must be drained — and their count is
    /// reported. An enqueued request parks the buffer as `Pending` and
    /// reports `None`, which the caller turns into an optimistic "all
    /// written". Either way an ownership unit is retained for the
    /// completion handler. A failed submission propagates its error and
    /// leaves the direction idle.
    pub fn maybe_schedule_write(
        &mut self,
        buf: Vec<u8>,
        pos: usize,
        status: WriteSubmit,
    ) -> (r: Result<Option<usize>, Error>)
        requires
            old(self).wf(),
            old(self).io.write is Idle,
            pos <= buf@.len(),
        ensures
            final(self).wf(),
            same_outside_write(*old(self), *final(self)),
            final(self).pool == old(self).pool,
            final(self).held_units() == old(self).held_units() + (if status is Failed {
                0int
            } else {
                1int
            }),
            match status {
                WriteSubmit::Immediate(n) => r == Ok::<Option<usize>, Error>(Some(n))
                    && final(self).io.write == State::Ready(buf, pos) && final(self).write_held,
                WriteSubmit::Enqueued => r == Ok::<Option<usize>, Error>(None)
                    && final(self).io.write == State::Pending(buf, pos) && final(self).write_held,
                WriteSubmit::Failed(e) => r == Err::<Option<usize>, Error>(e)
                    && final(self).io.write is Idle && !final(self).write_held,
            },
    {
        match status {
            WriteSubmit::Immediate(n) => {
                self.io.write = State::Ready(buf, pos);
                self.write_held = true;
                Ok(Some(n))
            }
            WriteSubmit::Enqueued => {
                self.io.write = State::Pending(buf, pos);
                self.write_held = true;
                Ok(None)
            }
            WriteSubmit::Failed(e) => Err(e),
        }
    }

    /// What a caller is told was written: the synchronously accepted count
    /// when there is one, otherwise — optimistically — the whole requested
    /// length; the actual count is reconciled internally when the
    /// completion arrives.
    pub fn write_reported(outcome: Option<usize>, requested: usize) -> (r: usize)
        ensures
            r == (match outcome {
                Some(n) => n,
                None => requested,
            }),
    {
        match outcome {
            Some(n) => n,
            None => requested,
        }
    }

    /// First half of the internal read scheduler, run whenever the read
    /// direction may be idle. If it is, a buffer is checked out for the
    /// next asynchronous read and handed to the caller to submit, the
    /// outcome fed to `schedule_read_finish`; otherwise a read is already
    /// scheduled or completed and there is nothing to do.
    pub fn schedule_read_start(&mut self) -> (r: Option<Vec<u8>>)
        requires
            old(self).wf(),
        ensures
            final(self).wf(),
            same_outside_read(*old(self), *final(self)),
            final(self).io.read == old(self).io.read,
            !(old(self).io.read is Idle) ==> r is None && *final(self) == *old(self),
            old(self).io.read is Idle ==> (r matches Some(buf) && buf@.len() == 0)
                && lends_one(old(self).pool, final(self).pool),
    {
        match &self.io.read {
            State::Idle => {}
            _ => {
                return None;
            }
        }
        Some(self.get_buffer())
    }

    /// Second half of the internal read scheduler: interprets the
    /// submission outcome. Returns whether a read is now active — pending,
    /// or failed with the error parked for the next `read` call — as
    /// opposed to "no client is connected yet", which leaves the direction
    /// idle for a later attempt. An enqueued request retains an ownership
    /// unit for the completion handler; a failure immediately declares the
    /// pipe readable, so a caller comes to collect the error.
    pub fn schedule_read_finish(
        &mut self,
        buf: Vec<u8>,
        status: ReadSubmit,
        events: &mut Vec<Event>,
    ) -> (r: bool)
        requires
            old(self).wf(),
            old(self).io.read is Idle,
        ensures
            final(self).wf(),
            same_outside_read(*old(self), *final(self)),
            final(self).pool == old(self).pool,
            final(self).held_units() == old(self).held_units() + (if status is Enqueued {
                1int
            } else {
                0int
            }),
            match status {
                ReadSubmit::Enqueued => r && final(self).io.read == State::Pending(buf, 0)
                    && final(self).read_held && final(events)@ == old(events)@,
                ReadSubmit::Listening => !r && final(self).io.read is Idle
                    && !final(self).read_held && final(events)@ == old(events)@,
                ReadSubmit::Failed(e) => r && final(self).io.read == State::Failed(e)
                    && !final(self).read_held
                    && final(events)@ == old(self).io.after_notify_readable(old(events)@),
            },
    {
        match status {
            ReadSubmit::Enqueued => {
                self.io.read = State::Pending(buf, 0);
                self.read_held = true;
                true
            }
            ReadSubmit::Listening => false,
            ReadSubmit::Failed(e) => {
                self.io.read = State::Failed(e);
                self.io.notify_readable(events);
                true
            }
        }
    }

    /// Tail of the post-association sequence, run when the pipe becomes
    /// (re-)associated with a poller or a connect completes: given whether
    /// the read scheduler reported an active read, predicts initial
    /// writability — a pipe with an active read and no outstanding write is
    /// declared writable at once instead of waiting for a first completion.
    pub fn post_register(&self, read_active: bool, events: &mut Vec<Event>)
        ensures
            read_active && self.io.write is Idle ==> final(events)@
                == self.io.after_notify_writable(old(events)@),
            !(read_active && self.io.write is Idle) ==> final(events)@ == old(events)@,
    {
        if read_active {
            if matches!(self.io.write, State::Idle) {
                self.io.notify_writable(events);
            }
        }
    }

    /// Completion handler for the read slot. The pending read's buffer
    /// comes back as the bytes that arrived, or as the error the operation
    /// failed with; either way the ownership unit retained at submission is
    /// released — exactly once — and the pipe is declared readable.
    pub fn read_done(&mut self, status: Result<Vec<u8>, Error>, events: &mut Vec<Event>)
        requires
            old(self).wf(),
            old(self).io.read is Pending,
        ensures
            final(self).wf(),
            same_outside_read(*old(self), *final(self)),
            final(self).pool == old(self).pool,
            !final(self).read_held,
            final(self).held_units() == old(self).held_units() - 1,
            status matches Ok(data) ==> final(self).io.read == State::Ready(data, 0)
                && final(self).buffered() == data@,
            status matches Err(e) ==> final(self).io.read == State::Failed(e),
            final(events)@ == old(self).io.after_notify_readable(old(events)@),
    {
        let _pending = self.io.read.take();
        self.read_held = false;
        match status {
            Ok(data) => {
                self.io.read = State::Ready(data, 0);
                proof {
                    assert(self.buffered() =~= self.io.read->Ready_0@);
                }
            }
            Err(e) => {
                self.io.read = State::Failed(e);
            }
        }
        self.io.notify_readable(events);
    }

    /// Completion handler for the write slot.
    ///
    /// A write that had completed immediately at submission was already
    /// reported, so its buffer is simply dropped and the pipe declared
    /// writable. For an enqueued write, the accepted count advances the
    /// position: a fully written buffer returns to the pool and the pipe is
    /// declared writable, while a partial write hands back the buffer and
    /// the new position for the caller to resubmit through
    /// `maybe_schedule_write`. A failed operation parks its error for the
    /// next `write` call and declares the pipe writable so a caller comes
    /// to collect it. In every case the ownership unit retained at
    /// submission is released exactly once.
    pub fn write_done(&mut self, status: Result<usize, Error>, events: &mut Vec<Event>) -> (r:
        Option<(Vec<u8>, usize)>)
        requires
            old(self).wf(),
            old(self).write_held,
            old(self).io.write matches State::Pending(buf, pos) ==> (status matches Ok(n)
                ==> pos + n <= buf@.len()),
        ensures
            final(self).wf(),
            same_outside_write(*old(self), *final(self)),
            !final(self).write_held,
            final(self).held_units() == old(self).held_units() - 1,
            old(self).io.write is Ready ==> r is None && final(self).io.write is Idle
                && final(self).pool == old(self).pool
                && final(events)@ == old(self).io.after_notify_writable(old(events)@),
            old(self).io.write matches State::Pending(buf, pos) ==> (match status {
                Ok(n) => {
                    &&& (pos + n == buf@.len() ==> r is None && final(self).io.write is Idle
                        && accepts_one(old(self).pool, final(self).pool)
                        && final(events)@ == old(self).io.after_notify_writable(old(events)@))
                    &&& (pos + n < buf@.len() ==> r == Some((buf, (pos + n) as usize))
                        && final(self).io.write is Idle
                        && final(self).pool == old(self).pool
                        && final(events)@ == old(events)@)
                },
                Err(e) => r is None && final(self).io.write == State::Failed(e)
                    && final(self).pool == old(self).pool
                    && final(events)@ == old(self).io.after_notify_writable(old(events)@),
            }),
    {
        let cur_write = self.io.write.take();
        self.write_held = false;
        match cur_write {
            State::Ready(_buf, _pos) => {
                self.io.notify_writable(events);
                None
            }
            State::Pending(buf, pos) => {
                match status {
                    Ok(n) => {
                        proof {
                            assert(pos + n <= buf@.len());
                        }
                        let blen = buf.len();
                        let new_pos = pos + n;
                        if new_pos == blen {
                            self.put_buffer(buf);
                            self.io.notify_writable(events);
                            None
                        } else {
                            Some((buf, new_pos))
                        }
                    }
                    Err(e) => {
                        self.io.write = State::Failed(e);
                        self.io.notify_writable(events);
                        None
                    }
                }
            }
            State::Idle => unreached(),
            State::Failed(_) => unreached(),
        }
    }

    /// Records that resubmitting the remainder of a partially completed
    /// write failed: the error is parked for the next `write` call and the
    /// pipe is declared writable so a caller comes to collect it.
    pub fn write_submit_failed(&mut self, e: Error, events: &mut Vec<Event>)
        requires
            old(self).wf(),
            old(self).io.write is Idle,
        ensures
            final(self).wf(),
            same_outside_write(*old(self), *final(self)),
            final(self).pool == old(self).pool,
            final(self).io.write == State::Failed(e),
            !final(self).write_held,
            final(events)@ == old(self).io.after_notify_writable(old(events)@),
    {
        self.io.write = State::Failed(e);
        self.io.notify_writable(events);
    }
}

/// Round-trip law: however reads split the buffered stream, the pieces
/// reassemble to exactly that stream. Taking the first `n` bytes and then
/// the rest loses, duplicates and reorders nothing; and dropping `n1`
/// bytes and then `n2` more is the same as dropping `n1 + n2` at once —
/// with the middle piece being exactly the bytes in between — so the rule
/// extends to any number of consecutive reads.
pub proof fn lemma_round_trip(data: Seq<u8>, n: int, n1: int, n2: int)
    requires
        0 <= n <= data.len(),
        0 <= n1,
        0 <= n2,
        n1 + n2 <= data.len(),
    ensures
        data.take(n) + data.skip(n) == data,
        data.skip(n1).take(n2) == data.subrange(n1, n1 + n2),
        data.skip(n1).skip(n2) == data.skip(n1 + n2),
{
    assert(data.take(n) + data.skip(n) =~= data);
    assert(data.skip(n1).take(n2) =~= data.subrange(n1, n1 + n2));
    assert(data.skip(n1).skip(n2) =~= data.skip(n1 + n2));
}

} // verus!
