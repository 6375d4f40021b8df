use bmq_rs::{BlazingMqError, GenericResult, OpenQueueResult};

const GENERIC: [(GenericResult, i32); 9] = [
    (GenericResult::Success, 0),
    (GenericResult::Unknown, -1),
    (GenericResult::Timeout, -2),
    (GenericResult::NotConnected, -3),
    (GenericResult::Cancelled, -4),
    (GenericResult::NotSupported, -5),
    (GenericResult::Refused, -6),
    (GenericResult::InvalidArgument, -7),
    (GenericResult::NotReady, -8),
];

const OPEN_QUEUE_ONLY: [(OpenQueueResult, i32); 5] = [
    (OpenQueueResult::AlreadyOpened, 100),
    (OpenQueueResult::AlreadyInProgress, 101),
    (OpenQueueResult::InvalidUri, -100),
    (OpenQueueResult::InvalidFlags, -101),
    (OpenQueueResult::CorrelationIdNotUnique, -102),
];

#[test]
fn generic_ordinals_round_trip() {
    for (r, n) in GENERIC {
        assert_eq!(r.ordinal(), n);
        assert_eq!(GenericResult::from_ordinal(n), r);
    }
}

#[test]
fn open_queue_ordinals_round_trip() {
    for (r, n) in GENERIC {
        let q = OpenQueueResult::from_generic(r);
        assert_eq!(q.ordinal(), n);
        assert_eq!(OpenQueueResult::from_ordinal(n), q);
    }
    for (q, n) in OPEN_QUEUE_ONLY {
        assert_eq!(q.ordinal(), n);
        assert_eq!(OpenQueueResult::from_ordinal(n), q);
    }
}

#[test]
fn out_of_range_ordinals_are_unknown() {
    for n in [1, 7, -9, 99, 102, -99, -103, i32::MAX, i32::MIN] {
        assert_eq!(GenericResult::from_ordinal(n), GenericResult::Unknown);
        assert_eq!(OpenQueueResult::from_ordinal(n), OpenQueueResult::Unknown);
    }
    assert_eq!(GenericResult::from_ordinal(100), GenericResult::Unknown);
    assert_eq!(GenericResult::from_ordinal(-100), GenericResult::Unknown);
}

#[test]
fn errors_from_ordinals() {
    assert_eq!(
        BlazingMqError::from_generic_ordinal(-2),
        BlazingMqError::GenericSessionError(GenericResult::Timeout)
    );
    assert_eq!(
        BlazingMqError::from_open_queue_ordinal(-101),
        BlazingMqError::OpenQueueError(OpenQueueResult::InvalidFlags)
    );
    assert_eq!(
        BlazingMqError::from_open_queue_ordinal(55),
        BlazingMqError::OpenQueueError(OpenQueueResult::Unknown)
    );
}

#[test]
fn success_tests() {
    assert!(GenericResult::Success.is_success());
    assert!(!GenericResult::Timeout.is_success());
    assert!(OpenQueueResult::Success.is_success());
    assert!(!OpenQueueResult::AlreadyOpened.is_success());
}
