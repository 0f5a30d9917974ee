//! A stream that plays: frames go from the caller to the server.

use vstd::prelude::*;
use crate::channel::ChannelCount;
use crate::client::SimpleClient;
use crate::error::Error;
use crate::lifecycle::{ClientView, State, Transfer};
use crate::request::{
    device_text, refused, spec_request, Direction, OpenRequest, SampleSpec,
};

verus! {

/// A playback stream over one connection.
#[derive(Debug)]
pub struct Playback {
    client: SimpleClient,
}

impl View for Playback {
    type V = ClientView;

    closed spec fn view(&self) -> ClientView {
        self.client@
    }
}

impl Playback {
    #[verifier::type_invariant]
    spec fn plays(self) -> bool {
        self.client@.request.direction == Direction::Playback
    }

    /// Prepares a playback stream of `shape` frames at `rate` frames per
    /// second, named `name` and described by `desc`, on `device` or on the
    /// server's default device. A text that holds the terminator character
    /// is a configuration error, and then there is no request to send.
    pub fn new(name: &str, desc: &str, device: Option<&str>, rate: u32, shape: ChannelCount) -> (r:
        Result<Playback, Error>)
        ensures
            match r {
                Ok(stream) => {
                    &&& !refused(name@, desc@, device_text(device))
                    &&& stream@ == (ClientView {
                        request: spec_request(
                            name@,
                            desc@,
                            Direction::Playback,
                            device_text(device),
                            rate,
                            shape,
                        ),
                        shape,
                        state: State::Unopened,
                    })
                },
                Err(e) => refused(name@, desc@, device_text(device)) && e == Error::Configuration,
            },
    {
        match SimpleClient::new(name, desc, Direction::Playback, device, rate, shape) {
            Ok(client) => Ok(Playback { client }),
            Err(e) => Err(e),
        }
    }

    /// What to ask of the server now: the request, which asks for playback,
    /// while the stream is unopened, and nothing once it was answered.
    pub fn request(&self) -> (request: Option<&OpenRequest>)
        ensures
            match request {
                Some(request) => self@.pending() == Some(request@) && request@.direction
                    == Direction::Playback,
                None => self@.pending() is None,
            },
    {
        proof {
            use_type_invariant(self);
        }
        self.client.request()
    }

    /// The sample spec that the stream asks, or asked, of the server.
    pub fn sample_spec(&self) -> (spec: SampleSpec)
        ensures
            spec == self@.request.spec,
    {
        self.client.sample_spec()
    }

    /// Where the stream stands.
    pub fn state(&self) -> (state: State)
        ensures
            state == self@.state,
    {
        self.client.state()
    }

    /// Takes the server's answer to the request: a handle opens an unopened
    /// stream, null fails it, and a stream that is not waiting for an answer
    /// stays as it is and reports a connection error; the handle is then not
    /// taken over.
    pub fn connect(&mut self, handle: usize) -> (r: Result<(), Error>)
        ensures
            final(self)@ == old(self)@.connect(handle),
            r == old(self)@.connected(handle),
    {
        proof {
            use_type_invariant(&*self);
        }
        self.client.connect(handle)
    }

    /// The transfer that plays a buffer of `frames` frames: one write of
    /// exactly `frames` times the frame size in bytes. An empty buffer needs
    /// no transfer and has succeeded. It is an I/O error on a stream that is
    /// not open, and for a buffer of more bytes than the machine can address.
    /// [`Transfer::outcome`] then says whether the write succeeded; the
    /// stream is not changed either way.
    pub fn write(&self, frames: usize) -> (r: Result<Option<Transfer>, Error>)
        ensures
            r == self@.transfer(frames),
            self@.request.direction == Direction::Playback,
    {
        proof {
            use_type_invariant(self);
        }
        self.client.transfer(frames)
    }

    /// Closes the stream. The first close of an open stream returns the
    /// handle of the native resource, which the caller then releases; any
    /// other close returns nothing and changes nothing.
    pub fn close(&mut self) -> (released: Option<usize>)
        ensures
            final(self)@ == old(self)@.close(),
            released == old(self)@.released(),
            released matches Some(handle) ==> handle != 0,
    {
        proof {
            use_type_invariant(&*self);
        }
        self.client.close()
    }
}

} // verus!
