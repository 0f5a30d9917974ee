//! The life of a stream as a state machine over mathematical values:
//! unopened, then open on one native resource, then closed for good.

use vstd::prelude::*;
use crate::channel::ChannelCount;
use crate::error::Error;
use crate::request::{Direction, OpenRequestView};

verus! {

/// Where a stream stands in its life.
#[derive(Debug, Clone, Copy, PartialEq, Eq, Structural)]
pub enum State {
    /// Made, and not yet answered by the server.
    Unopened,
    /// Open on the native resource with this handle, which is not null.
    Open(usize),
    /// Released. Terminal.
    Closed,
    /// The server refused the stream. Terminal.
    Failed,
}

/// One blocking transfer to make on the native resource: all of `len` bytes
/// move, or the transfer fails.
#[derive(Debug, Clone, Copy, PartialEq, Eq, Structural)]
pub struct Transfer {
    /// The native resource to use.
    pub handle: usize,
    /// How many bytes to move; never zero.
    pub len: usize,
    /// Write to the server, or read from it.
    pub direction: Direction,
}

/// What the native call's return code means for a transfer in `direction`:
/// a write succeeds on zero alone, a read on any code that is not negative.
pub open spec fn spec_outcome(direction: Direction, code: i32) -> Result<(), Error> {
    let accepted = match direction {
        Direction::Playback => code == 0,
        Direction::Record => code >= 0,
    };
    if accepted {
        Ok(())
    } else {
        Err(Error::Io)
    }
}

impl Transfer {
    /// Judges the return code of the native call that made this transfer.
    /// There is no partial outcome: the whole buffer moved, or the transfer
    /// failed.
    pub fn outcome(&self, code: i32) -> (r: Result<(), Error>)
        ensures
            r == spec_outcome(self.direction, code),
    {
        let accepted = match self.direction {
            Direction::Playback => code == 0,
            Direction::Record => code >= 0,
        };
        if accepted {
            Ok(())
        } else {
            Err(Error::Io)
        }
    }
}

/// A stream as a mathematical value.
pub struct ClientView {
    /// What the server is, or was, asked for.
    pub request: OpenRequestView,
    /// The shape of every frame that passes through the stream.
    pub shape: ChannelCount,
    pub state: State,
}

impl ClientView {
    /// The stream after the server answered the request with `handle`; null
    /// means that it refused. Only an unopened stream takes the answer.
    pub open spec fn connect(self, handle: usize) -> ClientView {
        match self.state {
            State::Unopened => ClientView {
                state: if handle != 0 {
                    State::Open(handle)
                } else {
                    State::Failed
                },
                ..self
            },
            _ => self,
        }
    }

    /// What is to be asked of the server now: the request while the stream
    /// is unopened, and nothing once it was answered.
    pub open spec fn pending(self) -> Option<OpenRequestView> {
        if self.state is Unopened {
            Some(self.request)
        } else {
            None
        }
    }

    /// What `connect` reports: success exactly when an unopened stream is
    /// given a handle that is not null.
    pub open spec fn connected(self, handle: usize) -> Result<(), Error> {
        if self.state is Unopened && handle != 0 {
            Ok(())
        } else {
            Err(Error::Connection)
        }
    }

    /// The handle that closing the stream hands back for release.
    pub open spec fn released(self) -> Option<usize> {
        match self.state {
            State::Open(handle) => Some(handle),
            _ => None,
        }
    }

    /// The stream after `close`.
    pub open spec fn close(self) -> ClientView {
        match self.state {
            State::Open(_) => ClientView { state: State::Closed, ..self },
            _ => self,
        }
    }

    /// The number of bytes in a buffer of `frames` frames.
    pub open spec fn byte_len(self, frames: usize) -> nat {
        frames as nat * self.shape.spec_sample_size()
    }

    /// The transfer that moves `frames` frames, if the stream is open. An
    /// empty buffer needs none. A buffer of more bytes than the machine can
    /// address cannot be moved.
    pub open spec fn transfer(self, frames: usize) -> Result<Option<Transfer>, Error> {
        match self.state {
            State::Open(handle) => if frames == 0 {
                Ok(None)
            } else if self.byte_len(frames) <= usize::MAX {
                Ok(
                    Some(
                        Transfer {
                            handle,
                            len: self.byte_len(frames) as usize,
                            direction: self.request.direction,
                        },
                    ),
                )
            } else {
                Err(Error::Io)
            },
            _ => Err(Error::Io),
        }
    }
}

/// Something that happens to a stream.
pub enum Event {
    /// The server answered the request with this handle; null is a refusal.
    Answered(usize),
    /// A buffer of this many frames is to be moved.
    Buffer(usize),
    /// The stream is closed, by its owner or at the end of its life.
    Close,
}

impl ClientView {
    /// The stream after one event. Moving a buffer leaves it as it is,
    /// whatever the outcome of the transfer.
    pub open spec fn after(self, event: Event) -> ClientView {
        match event {
            Event::Answered(handle) => self.connect(handle),
            Event::Buffer(_) => self,
            Event::Close => self.close(),
        }
    }

    /// The stream after a run of events.
    pub open spec fn after_all(self, events: Seq<Event>) -> ClientView
        decreases events.len(),
    {
        if events.len() == 0 {
            self
        } else {
            self.after_all(events.drop_last()).after(events.last())
        }
    }

    /// The handles handed back for release over a run of events, in order.
    pub open spec fn released_in(self, events: Seq<Event>) -> Seq<usize>
        decreases events.len(),
    {
        if events.len() == 0 {
            Seq::empty()
        } else {
            let earlier = self.released_in(events.drop_last());
            match (events.last(), self.after_all(events.drop_last()).released()) {
                (Event::Close, Some(handle)) => earlier.push(handle),
                _ => earlier,
            }
        }
    }
}

/// A stream is open only through a successful open: an answer from the
/// server opens an unopened stream that is given a handle, and changes no
/// other stream. Once answered, a stream asks nothing more of the server.
pub proof fn lemma_open_only_by_connect(stream: ClientView, handle: usize)
    ensures
        stream.state is Unopened && handle != 0 ==> stream.connect(handle).state == State::Open(
            handle,
        ),
        stream.state is Unopened && handle == 0 ==> stream.connect(handle).state is Failed,
        !(stream.state is Unopened) ==> stream.connect(handle) == stream,
        stream.connect(handle).request == stream.request,
        stream.connect(handle).shape == stream.shape,
        stream.connect(handle).pending() is None,
{
}

/// Closed and failed streams are terminal: no answer and no close moves them,
/// and nothing is transferred on them.
pub proof fn lemma_terminal_states(stream: ClientView, handle: usize, frames: usize)
    requires
        stream.state is Closed || stream.state is Failed,
    ensures
        stream.connect(handle) == stream,
        stream.close() == stream,
        stream.released() is None,
        stream.pending() is None,
        stream.transfer(frames) == Err::<Option<Transfer>, Error>(Error::Io),
{
}

/// Closing releases exactly once: the first close of an open stream hands
/// out its handle, and a stream that was closed hands out none, however
/// often it is closed again.
pub proof fn lemma_close_releases_once(stream: ClientView)
    ensures
        stream.released() is Some <==> stream.state is Open,
        stream.state is Open ==> stream.close().state is Closed,
        stream.close().released() is None,
        stream.close().close() == stream.close(),
        stream.close().request == stream.request,
        stream.close().shape == stream.shape,
{
}

/// A failed transfer reports an I/O error and leaves the stream as it was:
/// open on the handle that the transfer used, which closing hands out once.
pub proof fn lemma_failed_transfer_keeps_handle(stream: ClientView, frames: usize, code: i32)
    requires
        stream.transfer(frames) is Ok,
        stream.transfer(frames)->Ok_0 is Some,
        spec_outcome(stream.request.direction, code) is Err,
    ensures
        spec_outcome(stream.request.direction, code) == Err::<(), Error>(Error::Io),
        stream.released() == Some(stream.transfer(frames)->Ok_0->Some_0.handle),
        stream.close().released() is None,
{
}

/// Over any run of events a stream hands back at most one handle for
/// release, and once it has, it is closed: no later event releases again or
/// moves a buffer.
pub proof fn lemma_release_at_most_once(stream: ClientView, events: Seq<Event>)
    ensures
        stream.released_in(events).len() <= 1,
        stream.released_in(events).len() == 1 ==> stream.after_all(events).state is Closed,
        stream.released_in(events).len() == 1 ==> forall|frames: usize|
            stream.after_all(events).transfer(frames) is Err,
    decreases events.len(),
{
    if events.len() > 0 {
        lemma_release_at_most_once(stream, events.drop_last());
    }
}

/// Whatever a stream that began unopened works on or releases is a handle
/// that the server gave it, never null: the handle it is open on, and any
/// handle it has handed back.
pub proof fn lemma_handle_came_from_server(stream: ClientView, events: Seq<Event>)
    requires
        stream.state is Unopened,
    ensures
        stream.after_all(events).state matches State::Open(handle) ==> handle != 0
            && events.contains(Event::Answered(handle)),
        forall|i: int|
            0 <= i < stream.released_in(events).len() ==> stream.released_in(events)[i] != 0
                && events.contains(Event::Answered(#[trigger] stream.released_in(events)[i])),
    decreases events.len(),
{
    if events.len() > 0 {
        let earlier = events.drop_last();
        lemma_handle_came_from_server(stream, earlier);
        assert forall|event: Event| earlier.contains(event) implies events.contains(event) by {
            let k = choose|k: int| 0 <= k < earlier.len() && earlier[k] == event;
            assert(events[k] == event);
        }
        let before = stream.released_in(earlier);
        let now = stream.released_in(events);
        assert forall|i: int| 0 <= i < now.len() implies now[i] != 0 && events.contains(
            Event::Answered(#[trigger] now[i]),
        ) by {
            if i < before.len() {
                assert(now[i] == before[i]);
            } else {
                assert(stream.after_all(earlier).state == State::Open(now[i]));
            }
        }
        if stream.after_all(events).state is Open {
            let handle = stream.after_all(events).state->Open_0;
            if !(stream.after_all(earlier).state is Open) {
                assert(events[events.len() - 1] == Event::Answered(handle));
            }
        }
    }
}

/// Closing at the end of any run of events leaves no resource behind: the
/// stream is not open afterwards, and if it was open, the handle it was open
/// on is the one handle released over the whole run.
pub proof fn lemma_close_leaves_no_resource(stream: ClientView, events: Seq<Event>)
    ensures
        !(stream.after_all(events.push(Event::Close)).state is Open),
        stream.after_all(events).state matches State::Open(handle) ==> stream.released_in(
            events.push(Event::Close),
        ) == seq![handle],
        !(stream.after_all(events).state is Open) ==> stream.released_in(
            events.push(Event::Close),
        ) == stream.released_in(events),
{
    let done = events.push(Event::Close);
    assert(done.drop_last() == events);
    lemma_release_at_most_once(stream, events);
    if stream.after_all(events).state is Open {
        assert(stream.released_in(done) == seq![stream.after_all(events).state->Open_0]);
    }
}

} // verus!
