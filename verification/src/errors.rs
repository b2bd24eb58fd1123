//! The error taxonomy.
//!
//! Failures fall into three classes: fatal at startup (nothing was ever
//! accepted), fatal to the dispatcher (the accept loop itself cannot go on),
//! and fatal to exactly one connection (the worker ends, everyone else is
//! untouched). A peer that closes its connection cleanly is expected
//! termination and is not an error at all; `WorkerExit` keeps the two apart.

use vstd::prelude::*;

verus! {

/// A failure confined to one connection's worker. It closes that connection
/// and nothing else; no retry is attempted on any of them.
#[derive(Clone, Copy, PartialEq, Eq, Structural, Debug)]
pub enum WorkerError {
    /// The transport-security negotiation on the accepted stream failed;
    /// the protocol handshake was never reached.
    Negotiation,
    /// The protocol upgrade handshake failed: no session was established.
    WebSocketAccept,
    /// Receiving the next message failed with a protocol or transport error.
    ReadMessage,
    /// Sending an echo back to the peer failed.
    WriteMessage,
}

impl WorkerError {
    /// The line worth logging for this failure.
    pub fn message(&self) -> (r: &'static str)
        ensures
            self is Negotiation ==> r@ == "unable to secure accepted connection"@,
            self is WebSocketAccept ==> r@ == "unable to accept connection as WebSocket"@,
            self is ReadMessage ==> r@ == "couldn't read WebSocket message"@,
            self is WriteMessage ==> r@ == "couldn't write WebSocket message"@,
    {
        match self {
            WorkerError::Negotiation => "unable to secure accepted connection",
            WorkerError::WebSocketAccept => "unable to accept connection as WebSocket",
            WorkerError::ReadMessage => "couldn't read WebSocket message",
            WorkerError::WriteMessage => "couldn't write WebSocket message",
        }
    }
}

/// How a worker's life ended.
#[derive(Clone, Copy, PartialEq, Eq, Structural, Debug)]
pub enum WorkerExit {
    /// The peer closed the connection cleanly: expected termination,
    /// reported at most as an informational line, never as an error.
    CleanClose,
    /// The connection died of the given failure, worth logging with the
    /// worker's identifier.
    Failed(WorkerError),
}

impl WorkerExit {
    /// Expected termination is not an error; every failure is.
    pub open spec fn spec_is_error(self) -> bool {
        self is Failed
    }

    pub fn is_error(&self) -> (r: bool)
        ensures
            r == self.spec_is_error(),
    {
        match self {
            WorkerExit::CleanClose => false,
            WorkerExit::Failed(_) => true,
        }
    }
}

/// A failure of the process or of the dispatcher, as opposed to a failure of
/// one connection. Each variant carries the lower-layer error that caused it.
#[derive(Debug)]
pub enum ServerError {
    /// The certificate archive could not be opened.
    OpenCertificate(std::io::Error),
    /// The certificate archive could not be read.
    ReadCertificate(std::io::Error),
    /// The identity credential could not be built from the archive.
    CreateTLSIdentity(native_tls::Error),
    /// The listening socket could not be bound.
    Bind(std::io::Error),
    /// The security negotiator could not be built from the credential.
    CreateTLSAcceptor(native_tls::Error),
    /// A worker's execution context could not be started.
    SpawnThread(std::io::Error),
    /// Accepting the next connection failed.
    IncomingStream(std::io::Error),
}

impl ServerError {
    /// Failures that happen before any connection is ever accepted: the
    /// process must not proceed past them.
    pub open spec fn spec_is_fatal_at_startup(self) -> bool {
        ||| self is OpenCertificate
        ||| self is ReadCertificate
        ||| self is CreateTLSIdentity
        ||| self is Bind
        ||| self is CreateTLSAcceptor
    }

    /// Failures of the accept loop itself: the dispatcher stops, though
    /// connections already handed to workers are unaffected.
    pub open spec fn spec_is_fatal_to_dispatcher(self) -> bool {
        self is SpawnThread || self is IncomingStream
    }

    pub fn is_fatal_at_startup(&self) -> (r: bool)
        ensures
            r == self.spec_is_fatal_at_startup(),
    {
        match self {
            ServerError::OpenCertificate(_) => true,
            ServerError::ReadCertificate(_) => true,
            ServerError::CreateTLSIdentity(_) => true,
            ServerError::Bind(_) => true,
            ServerError::CreateTLSAcceptor(_) => true,
            ServerError::SpawnThread(_) => false,
            ServerError::IncomingStream(_) => false,
        }
    }

    pub fn is_fatal_to_dispatcher(&self) -> (r: bool)
        ensures
            r == self.spec_is_fatal_to_dispatcher(),
    {
        match self {
            ServerError::SpawnThread(_) => true,
            ServerError::IncomingStream(_) => true,
            _ => false,
        }
    }

    /// The line worth logging for this failure.
    pub fn message(&self) -> (r: &'static str)
        ensures
            self is OpenCertificate ==> r@ == "could not open certificate file"@,
            self is ReadCertificate ==> r@ == "could not read certificate file"@,
            self is CreateTLSIdentity ==> r@ == "unable to create TLS identity from certificate"@,
            self is Bind ==> r@ == "could not bind socket"@,
            self is CreateTLSAcceptor ==> r@ == "could not create TLS acceptor"@,
            self is SpawnThread ==> r@ == "unable to spawn worker thread"@,
            self is IncomingStream ==> r@ == "error accepting connection"@,
    {
        match self {
            ServerError::OpenCertificate(_) => "could not open certificate file",
            ServerError::ReadCertificate(_) => "could not read certificate file",
            ServerError::CreateTLSIdentity(_) => "unable to create TLS identity from certificate",
            ServerError::Bind(_) => "could not bind socket",
            ServerError::CreateTLSAcceptor(_) => "could not create TLS acceptor",
            ServerError::SpawnThread(_) => "unable to spawn worker thread",
            ServerError::IncomingStream(_) => "error accepting connection",
        }
    }

    /// Every failure is fatal to exactly one of the two scopes: either the
    /// process at startup or the dispatcher's accept loop, never both.
    pub proof fn lemma_taxonomy_is_a_partition(self)
        ensures
            self.spec_is_fatal_at_startup() != self.spec_is_fatal_to_dispatcher(),
    {
    }
}

} // verus!
