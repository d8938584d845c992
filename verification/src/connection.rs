//! A request paired with the I/O stream that serves it.

use vstd::prelude::*;

verus! {

/// Something that names the host it is addressed to.
pub trait Host {
    /// The host name, as a sequence of characters.
    spec fn hostname_spec(&self) -> Seq<char>;

    /// Returns the host name.
    fn hostname(&self) -> (name: &str)
        ensures
            name@ == self.hostname_spec(),
    ;
}

impl Host for String {
    open spec fn hostname_spec(&self) -> Seq<char> {
        self@
    }

    fn hostname(&self) -> (name: &str) {
        self.as_str()
    }
}

impl Host for &'static str {
    open spec fn hostname_spec(&self) -> Seq<char> {
        (*self)@
    }

    fn hostname(&self) -> (name: &str) {
        *self
    }
}

/// A request together with the stream that was opened for it.
///
/// Whoever holds the value owns both parts; they are only ever separated by
/// [`Connection::into_parts`] and [`Connection::replace_io`], which hand back
/// every part they take.
pub struct Connection<R, IO> {
    pub req: R,
    pub io: IO,
}

impl<R, IO> Connection<R, IO> {
    /// The connection with its stream exchanged for `io`.
    pub open spec fn with_io<IO2>(self, io: IO2) -> Connection<R, IO2> {
        Connection { req: self.req, io }
    }

    /// Pairs a request with its stream.
    pub fn new(req: R, io: IO) -> (connection: Self)
        ensures
            connection == (Connection { req, io }),
    {
        Connection { req, io }
    }

    /// Splits the connection into its stream and its request.
    pub fn into_parts(self) -> (parts: (IO, R))
        ensures
            parts == (self.io, self.req),
    {
        (self.io, self.req)
    }

    /// Exchanges the stream, keeping the request.
    ///
    /// Returns the stream that was held so far and the connection around the
    /// new one.
    pub fn replace_io<IO2>(self, io: IO2) -> (parts: (IO, Connection<R, IO2>))
        ensures
            parts.0 == self.io,
            parts.1 == self.with_io(io),
    {
        (self.io, Connection { req: self.req, io })
    }

    /// The request.
    pub fn request(&self) -> (req: &R)
        ensures
            *req == self.req,
    {
        &self.req
    }

    /// The stream.
    pub fn io_ref(&self) -> (io: &IO)
        ensures
            *io == self.io,
    {
        &self.io
    }
}

impl<R: Host, IO> Connection<R, IO> {
    /// The host name of the request.
    pub fn hostname(&self) -> (name: &str)
        ensures
            name@ == self.req.hostname_spec(),
    {
        self.req.hostname()
    }
}

} // verus!
