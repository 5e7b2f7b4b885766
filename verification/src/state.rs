//! Per-direction progress of the pipe, the delivery token, and readiness
//! notifications.

use vstd::prelude::*;

use crate::Error;

verus! {

/// An opaque identifier correlating a readiness notification with the
/// object that registered for it.
#[derive(Clone, Copy, Debug, PartialEq, Eq, Structural)]
pub struct Token(pub usize);

/// Stands for one poller/registry instance; two values with the same
/// identity denote the same instance.
#[derive(Clone, Copy, Debug, PartialEq, Eq, Structural)]
pub struct Registry {
    pub id: u64,
}

/// A readiness notification handed to the poller.
#[derive(Clone, Copy, Debug, PartialEq, Eq, Structural)]
pub struct Event {
    pub token: Token,
    pub readable: bool,
    pub writable: bool,
}

/// Progress of one direction (read or write) of the pipe.
pub enum State {
    /// No operation outstanding, no buffered result.
    Idle,
    /// An asynchronous operation has been submitted and has not completed;
    /// the buffer is owned by this state until it does. The second field is
    /// the offset the operation was submitted from (ignored for reads).
    Pending(Vec<u8>, usize),
    /// A completed operation's buffer. For reads, data has arrived and the
    /// cursor marks how much of it a caller has already consumed; for
    /// writes, the bytes were accepted immediately and the completion has
    /// not been drained yet.
    Ready(Vec<u8>, usize),
    /// The last operation failed and the error has not been surfaced to a
    /// caller yet.
    Failed(Error),
}

impl State {
    /// Moves the state out, leaving `Idle` behind.
    pub fn take(&mut self) -> (r: State)
        ensures
            r == *old(self),
            *final(self) is Idle,
    {
        let mut s = State::Idle;
        core::mem::swap(self, &mut s);
        s
    }
}

/// The lock-guarded heart of the engine: the delivery token, both direction
/// states, and a connect failure deferred for `take_error`.
pub struct Io {
    /// `Some` exactly while the pipe is associated with a poller.
    pub token: Option<Token>,
    /// Identity of the registry instance the pipe is associated with.
    pub registry: Option<u64>,
    pub read: State,
    pub write: State,
    /// A connect failure captured at completion time, surfaced only through
    /// `take_error`.
    pub connect_error: Option<Error>,
}

impl Io {
    /// The event list after a readable notification: a readable event for
    /// the pipe's token is appended, unless the pipe is unassociated.
    pub open spec fn after_notify_readable(self, q: Seq<Event>) -> Seq<Event> {
        match self.token {
            Some(t) => q.push((Event { token: t, readable: true, writable: false })),
            None => q,
        }
    }

    /// The event list after a writable notification: a writable event for
    /// the pipe's token is appended, unless the pipe is unassociated.
    pub open spec fn after_notify_writable(self, q: Seq<Event>) -> Seq<Event> {
        match self.token {
            Some(t) => q.push((Event { token: t, readable: false, writable: true })),
            None => q,
        }
    }

    /// Validates that this pipe may be driven through `registry`: a pipe
    /// already associated with a different registry instance is refused, and
    /// when the caller requires an existing association, its absence is
    /// refused as not found.
    pub fn check_association(&self, registry: &Registry, required: bool) -> (r: Result<(), Error>)
        ensures
            r == (if self.registry is Some && self.registry != Some(registry.id) {
                Err::<(), Error>(Error::AlreadyExists)
            } else if self.registry is None && required {
                Err::<(), Error>(Error::NotFound)
            } else {
                Ok::<(), Error>(())
            }),
    {
        match self.registry {
            Some(id) => {
                if id != registry.id {
                    Err(Error::AlreadyExists)
                } else {
                    Ok(())
                }
            }
            None => {
                if required {
                    Err(Error::NotFound)
                } else {
                    Ok(())
                }
            }
        }
    }

    /// Appends a readable readiness event for this pipe's token, if the
    /// pipe is associated with a poller.
    pub fn notify_readable(&self, events: &mut Vec<Event>)
        ensures
            final(events)@ == self.after_notify_readable(old(events)@),
    {
        if let Some(t) = self.token {
            events.push(Event { token: t, readable: true, writable: false });
        }
    }

    /// Appends a writable readiness event for this pipe's token, if the
    /// pipe is associated with a poller.
    pub fn notify_writable(&self, events: &mut Vec<Event>)
        ensures
            final(events)@ == self.after_notify_writable(old(events)@),
    {
        if let Some(t) = self.token {
            events.push(Event { token: t, readable: false, writable: true });
        }
    }
}

} // verus!
