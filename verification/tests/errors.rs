use tcp_listen::error::{Fault, IoFailure, ListenError, TransportFailure};

fn fault() -> Fault {
    Fault::new(11_002, String::from("OCKAM_NODE"))
}

#[test]
fn a_refused_connection_is_a_peer_not_found() {
    assert_eq!(
        TransportFailure::from_io(IoFailure::ConnectionRefused),
        TransportFailure::PeerNotFound
    );
}

#[test]
fn every_other_io_failure_is_generic() {
    let others = [
        IoFailure::ConnectionReset,
        IoFailure::ConnectionAborted,
        IoFailure::AddrInUse,
        IoFailure::AddrNotAvailable,
        IoFailure::PermissionDenied,
        IoFailure::Interrupted,
        IoFailure::Other,
    ];
    for failure in others {
        assert_eq!(TransportFailure::from_io(failure), TransportFailure::GenericIo);
    }
}

#[test]
fn a_fault_keeps_code_and_domain() {
    let f = fault();
    assert_eq!(f.code, 11_002);
    assert_eq!(f.domain, "OCKAM_NODE");
    assert_eq!(f.clone(), f);
    assert_ne!(f, Fault::new(11_003, String::from("OCKAM_NODE")));
    assert_ne!(f, Fault::new(11_002, String::from("OCKAM_CORE")));
}

#[test]
fn failures_of_the_socket_or_the_listener_are_not_per_connection() {
    assert!(!ListenError::BindFailure(TransportFailure::GenericIo).is_per_connection());
    assert!(!ListenError::BindFailure(TransportFailure::PeerNotFound).is_per_connection());
    assert!(!ListenError::ProcessorStartFailure(fault()).is_per_connection());
    assert!(!ListenError::ClusterFailure(fault()).is_per_connection());
    assert!(!ListenError::AcceptFailure(TransportFailure::GenericIo).is_per_connection());
}

#[test]
fn failures_of_one_connection_are_per_connection() {
    assert!(ListenError::HandleCloneFailure(fault()).is_per_connection());
    assert!(ListenError::WorkerPairFailure(fault()).is_per_connection());
    assert!(ListenError::RegistrationFailure(fault()).is_per_connection());
    assert!(ListenError::WorkerStartFailure(fault()).is_per_connection());
}

#[test]
fn an_error_clones_to_itself() {
    let errors = [
        ListenError::BindFailure(TransportFailure::PeerNotFound),
        ListenError::ProcessorStartFailure(fault()),
        ListenError::ClusterFailure(fault()),
        ListenError::AcceptFailure(TransportFailure::GenericIo),
        ListenError::HandleCloneFailure(fault()),
        ListenError::WorkerPairFailure(fault()),
        ListenError::RegistrationFailure(fault()),
        ListenError::WorkerStartFailure(fault()),
    ];
    for (i, error) in errors.iter().enumerate() {
        assert_eq!(&error.clone(), error);
        for (j, other) in errors.iter().enumerate() {
            assert_eq!(error == other, i == j);
        }
    }
}
