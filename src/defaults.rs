use vstd::prelude::*;

verus! {

/// The broker that a session connects to unless told otherwise.
pub const BROKER_DEFAULT_URI: &'static str = "tcp://localhost:30114";

/// The timeout of a blocking operation unless told otherwise: five minutes.
pub const QUEUE_OPERATION_DEFAULT_TIMEOUT_MS: u64 = 300000;

} // verus!
