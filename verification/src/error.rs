//! What can go wrong while a listener starts and while it serves connections.

use vstd::prelude::*;

verus! {

/// The kind of an I/O error that the socket layer reported.
#[derive(Clone, Copy, Debug, PartialEq, Eq, Hash, Structural)]
pub enum IoFailure {
    ConnectionRefused,
    ConnectionReset,
    ConnectionAborted,
    AddrInUse,
    AddrNotAvailable,
    PermissionDenied,
    Interrupted,
    Other,
}

/// An I/O error as the transport layer reports it to the rest of the node.
#[derive(Clone, Copy, Debug, PartialEq, Eq, Hash, Structural)]
pub enum TransportFailure {
    /// The peer refused the connection.
    PeerNotFound,
    /// Any other I/O failure.
    GenericIo,
}

impl TransportFailure {
    pub open spec fn spec_from_io(failure: IoFailure) -> TransportFailure {
        if failure is ConnectionRefused {
            TransportFailure::PeerNotFound
        } else {
            TransportFailure::GenericIo
        }
    }

    /// A refused connection means that the peer was not found; the transport
    /// layer tells no other I/O errors apart.
    #[verifier::when_used_as_spec(spec_from_io)]
    pub fn from_io(failure: IoFailure) -> (r: TransportFailure)
        ensures
            r == Self::spec_from_io(failure),
    {
        match failure {
            IoFailure::ConnectionRefused => TransportFailure::PeerNotFound,
            _ => TransportFailure::GenericIo,
        }
    }
}

/// An error that a collaborator returned: the router, the worker pair or the
/// actor runtime. The listener hands it on as it came.
#[derive(Debug, PartialEq, Eq)]
pub struct Fault {
    pub code: u32,
    pub domain: String,
}

impl Fault {
    pub fn new(code: u32, domain: String) -> (r: Fault)
        ensures
            r == (Fault { code, domain }),
    {
        Fault { code, domain }
    }
}

impl Clone for Fault {
    fn clone(&self) -> (r: Fault)
        ensures
            r == *self,
    {
        Fault { code: self.code, domain: self.domain.clone() }
    }
}

/// Why a listener did not start, or why it stopped.
#[derive(Debug, PartialEq, Eq)]
pub enum ListenError {
    /// The socket could not be bound, or its bound address could not be read.
    /// The listener never started.
    BindFailure(TransportFailure),
    /// The runtime refused to run the listener. The listener never started.
    ProcessorStartFailure(Fault),
    /// The listener could not join its cluster.
    ClusterFailure(Fault),
    /// Waiting for a connection failed.
    AcceptFailure(TransportFailure),
    /// The router handle could not be cloned for a connection.
    HandleCloneFailure(Fault),
    /// No worker pair could be built for a connection.
    WorkerPairFailure(Fault),
    /// The router did not register a connection's worker pair.
    RegistrationFailure(Fault),
    /// The runtime refused to run a connection's worker pair.
    WorkerStartFailure(Fault),
}

impl ListenError {
    /// Whether the failure concerns a single accepted connection rather than
    /// the listening socket or the listener itself.
    pub open spec fn spec_is_per_connection(&self) -> bool {
        *self is HandleCloneFailure || *self is WorkerPairFailure || *self is RegistrationFailure
            || *self is WorkerStartFailure
    }

    #[verifier::when_used_as_spec(spec_is_per_connection)]
    pub fn is_per_connection(&self) -> (r: bool)
        ensures
            r == self.spec_is_per_connection(),
    {
        match self {
            ListenError::HandleCloneFailure(_) => true,
            ListenError::WorkerPairFailure(_) => true,
            ListenError::RegistrationFailure(_) => true,
            ListenError::WorkerStartFailure(_) => true,
            _ => false,
        }
    }
}

impl Clone for ListenError {
    fn clone(&self) -> (r: ListenError)
        ensures
            r == *self,
    {
        match self {
            ListenError::BindFailure(t) => ListenError::BindFailure(*t),
            ListenError::ProcessorStartFailure(f) => ListenError::ProcessorStartFailure(f.clone()),
            ListenError::ClusterFailure(f) => ListenError::ClusterFailure(f.clone()),
            ListenError::AcceptFailure(t) => ListenError::AcceptFailure(*t),
            ListenError::HandleCloneFailure(f) => ListenError::HandleCloneFailure(f.clone()),
            ListenError::WorkerPairFailure(f) => ListenError::WorkerPairFailure(f.clone()),
            ListenError::RegistrationFailure(f) => ListenError::RegistrationFailure(f.clone()),
            ListenError::WorkerStartFailure(f) => ListenError::WorkerStartFailure(f.clone()),
        }
    }
}

} // verus!
