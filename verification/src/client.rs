//! The owner of the one native resource behind a stream.

use vstd::prelude::*;
use crate::channel::ChannelCount;
use crate::error::Error;
use crate::lifecycle::{ClientView, State, Transfer};
use crate::request::{
    device_text, refused, spec_request, Direction, OpenRequest, SampleSpec,
};
use crate::text::c_string;

verus! {

/// A connection to the server through its life. It is made unopened, with
/// the request to send; the server's answer opens it or fails it; closing it
/// hands the native handle back for release, once. It cannot be copied.
#[derive(Debug)]
pub struct SimpleClient {
    request: OpenRequest,
    shape: ChannelCount,
    state: State,
}

impl View for SimpleClient {
    type V = ClientView;

    closed spec fn view(&self) -> ClientView {
        ClientView { request: self.request@, shape: self.shape, state: self.state }
    }
}

impl SimpleClient {
    #[verifier::type_invariant]
    spec fn well_formed(self) -> bool {
        self.state matches State::Open(handle) ==> handle != 0
    }

    /// Prepares a connection: checks the texts and builds the request for a
    /// stream of `shape` frames at `rate` frames per second. A name, a
    /// description or a device name that holds the terminator character is a
    /// configuration error, and then there is no request to send.
    pub fn new(
        name: &str,
        desc: &str,
        dir: Direction,
        device: Option<&str>,
        rate: u32,
        shape: ChannelCount,
    ) -> (r: Result<SimpleClient, Error>)
        ensures
            match r {
                Ok(client) => {
                    &&& !refused(name@, desc@, device_text(device))
                    &&& client@ == (ClientView {
                        request: spec_request(name@, desc@, dir, device_text(device), rate, shape),
                        shape,
                        state: State::Unopened,
                    })
                },
                Err(e) => refused(name@, desc@, device_text(device)) && e == Error::Configuration,
            },
    {
        let name_c = match c_string(name) {
            Ok(bytes) => bytes,
            Err(e) => {
                return Err(e);
            },
        };
        let desc_c = match c_string(desc) {
            Ok(bytes) => bytes,
            Err(e) => {
                return Err(e);
            },
        };
        let device_c = match device {
            Some(text) => match c_string(text) {
                Ok(bytes) => Some(bytes),
                Err(e) => {
                    return Err(e);
                },
            },
            None => None,
        };
        let spec = SampleSpec { format: shape.format(), channels: shape.count(), rate };
        let request = OpenRequest {
            name: name_c,
            description: desc_c,
            device: device_c,
            direction: dir,
            spec,
        };
        Ok(SimpleClient { request, shape, state: State::Unopened })
    }

    /// What to ask of the server now: the request while the stream is
    /// unopened, and nothing once it was answered.
    pub fn request(&self) -> (request: Option<&OpenRequest>)
        ensures
            match request {
                Some(request) => self@.pending() == Some(request@),
                None => self@.pending() is None,
            },
    {
        match self.state {
            State::Unopened => Some(&self.request),
            _ => None,
        }
    }

    /// The sample spec that the stream asks, or asked, of the server.
    pub fn sample_spec(&self) -> (spec: SampleSpec)
        ensures
            spec == self@.request.spec,
    {
        self.request.spec
    }

    /// The shape of the stream's frames.
    pub fn shape(&self) -> (shape: ChannelCount)
        ensures
            shape == self@.shape,
    {
        self.shape
    }

    /// Where the stream stands.
    pub fn state(&self) -> (state: State)
        ensures
            state == self@.state,
            state matches State::Open(handle) ==> handle != 0,
    {
        proof {
            use_type_invariant(self);
        }
        self.state
    }

    /// Takes the server's answer to the request: the handle of the native
    /// resource, or null where the server could not be reached or refused the
    /// stream. An unopened stream becomes open on a handle and failed on
    /// null. A stream that is not waiting for an answer stays as it is, and
    /// the call reports a connection error; the handle is then not taken
    /// over.
    pub fn connect(&mut self, handle: usize) -> (r: Result<(), Error>)
        ensures
            final(self)@ == old(self)@.connect(handle),
            r == old(self)@.connected(handle),
        no_unwind
    {
        match self.state {
            State::Unopened => {
                if handle != 0 {
                    self.state = State::Open(handle);
                    Ok(())
                } else {
                    self.state = State::Failed;
                    Err(Error::Connection)
                }
            },
            _ => Err(Error::Connection),
        }
    }

    /// The transfer that moves `frames` whole frames through the stream:
    /// exactly `frames` times the frame size in bytes, in one call. An empty
    /// buffer needs no transfer. It is an I/O error on a stream that is not
    /// open, and for a buffer of more bytes than the machine can address.
    /// The stream itself is not changed.
    pub fn transfer(&self, frames: usize) -> (r: Result<Option<Transfer>, Error>)
        ensures
            r == self@.transfer(frames),
    {
        match self.state {
            State::Open(handle) => {
                if frames == 0 {
                    Ok(None)
                } else {
                    match frames.checked_mul(self.shape.sample_size()) {
                        Some(len) => Ok(
                            Some(Transfer { handle, len, direction: self.request.direction }),
                        ),
                        None => Err(Error::Io),
                    }
                }
            },
            _ => Err(Error::Io),
        }
    }

    /// Closes the stream. The first close of an open stream returns the
    /// handle of the native resource, which the caller then releases; any
    /// other close returns nothing and changes nothing.
    pub fn close(&mut self) -> (released: Option<usize>)
        ensures
            final(self)@ == old(self)@.close(),
            released == old(self)@.released(),
            released matches Some(handle) ==> handle != 0,
        no_unwind
    {
        proof {
            use_type_invariant(&*self);
        }
        match self.state {
            State::Open(handle) => {
                self.state = State::Closed;
                Some(handle)
            },
            _ => None,
        }
    }
}

} // verus!
