use vstd::prelude::*;

verus! {

/// Outcome of a generic session operation, as reported by the native session.
#[derive(Debug, Clone, Copy, PartialEq, Eq, Structural)]
pub enum GenericResult {
    Success,
    Unknown,
    Timeout,
    NotConnected,
    Cancelled,
    NotSupported,
    Refused,
    InvalidArgument,
    NotReady,
}

/// Outcome of opening a queue: the generic outcomes plus queue-specific ones.
#[derive(Debug, Clone, Copy, PartialEq, Eq, Structural)]
pub enum OpenQueueResult {
    Success,
    Unknown,
    Timeout,
    NotConnected,
    Cancelled,
    NotSupported,
    Refused,
    InvalidArgument,
    NotReady,
    AlreadyOpened,
    AlreadyInProgress,
    InvalidUri,
    InvalidFlags,
    CorrelationIdNotUnique,
}

/// The ordinal by which the native side encodes a generic outcome.
pub open spec fn generic_ordinal(r: GenericResult) -> int {
    match r {
        GenericResult::Success => 0,
        GenericResult::Unknown => -1,
        GenericResult::Timeout => -2,
        GenericResult::NotConnected => -3,
        GenericResult::Cancelled => -4,
        GenericResult::NotSupported => -5,
        GenericResult::Refused => -6,
        GenericResult::InvalidArgument => -7,
        GenericResult::NotReady => -8,
    }
}

/// The generic outcome that a native ordinal denotes; ordinals outside the
/// known set denote `Unknown`.
pub open spec fn generic_of_ordinal(n: int) -> GenericResult {
    if n == 0 {
        GenericResult::Success
    } else if n == -2 {
        GenericResult::Timeout
    } else if n == -3 {
        GenericResult::NotConnected
    } else if n == -4 {
        GenericResult::Cancelled
    } else if n == -5 {
        GenericResult::NotSupported
    } else if n == -6 {
        GenericResult::Refused
    } else if n == -7 {
        GenericResult::InvalidArgument
    } else if n == -8 {
        GenericResult::NotReady
    } else {
        GenericResult::Unknown
    }
}

/// The ordinal by which the native side encodes an open-queue outcome.
pub open spec fn open_queue_ordinal(r: OpenQueueResult) -> int {
    match r {
        OpenQueueResult::Success => 0,
        OpenQueueResult::Unknown => -1,
        OpenQueueResult::Timeout => -2,
        OpenQueueResult::NotConnected => -3,
        OpenQueueResult::Cancelled => -4,
        OpenQueueResult::NotSupported => -5,
        OpenQueueResult::Refused => -6,
        OpenQueueResult::InvalidArgument => -7,
        OpenQueueResult::NotReady => -8,
        OpenQueueResult::AlreadyOpened => 100,
        OpenQueueResult::AlreadyInProgress => 101,
        OpenQueueResult::InvalidUri => -100,
        OpenQueueResult::InvalidFlags => -101,
        OpenQueueResult::CorrelationIdNotUnique => -102,
    }
}

/// The open-queue outcome that a native ordinal denotes; ordinals outside the
/// known set denote `Unknown`.
pub open spec fn open_queue_of_ordinal(n: int) -> OpenQueueResult {
    if n == 100 {
        OpenQueueResult::AlreadyOpened
    } else if n == 101 {
        OpenQueueResult::AlreadyInProgress
    } else if n == -100 {
        OpenQueueResult::InvalidUri
    } else if n == -101 {
        OpenQueueResult::InvalidFlags
    } else if n == -102 {
        OpenQueueResult::CorrelationIdNotUnique
    } else {
        open_queue_of_generic(generic_of_ordinal(n))
    }
}

/// The open-queue outcome that carries the same meaning as a generic one.
pub open spec fn open_queue_of_generic(r: GenericResult) -> OpenQueueResult {
    match r {
        GenericResult::Success => OpenQueueResult::Success,
        GenericResult::Unknown => OpenQueueResult::Unknown,
        GenericResult::Timeout => OpenQueueResult::Timeout,
        GenericResult::NotConnected => OpenQueueResult::NotConnected,
        GenericResult::Cancelled => OpenQueueResult::Cancelled,
        GenericResult::NotSupported => OpenQueueResult::NotSupported,
        GenericResult::Refused => OpenQueueResult::Refused,
        GenericResult::InvalidArgument => OpenQueueResult::InvalidArgument,
        GenericResult::NotReady => OpenQueueResult::NotReady,
    }
}

impl GenericResult {
    /// Reads a native ordinal; an unrecognised one becomes `Unknown`.
    pub fn from_ordinal(n: i32) -> (r: GenericResult)
        ensures
            r == generic_of_ordinal(n as int),
    {
        match n {
            0 => GenericResult::Success,
            -2 => GenericResult::Timeout,
            -3 => GenericResult::NotConnected,
            -4 => GenericResult::Cancelled,
            -5 => GenericResult::NotSupported,
            -6 => GenericResult::Refused,
            -7 => GenericResult::InvalidArgument,
            -8 => GenericResult::NotReady,
            _ => GenericResult::Unknown,
        }
    }

    /// The native ordinal of this outcome.
    pub fn ordinal(self) -> (n: i32)
        ensures
            n as int == generic_ordinal(self),
    {
        match self {
            GenericResult::Success => 0,
            GenericResult::Unknown => -1,
            GenericResult::Timeout => -2,
            GenericResult::NotConnected => -3,
            GenericResult::Cancelled => -4,
            GenericResult::NotSupported => -5,
            GenericResult::Refused => -6,
            GenericResult::InvalidArgument => -7,
            GenericResult::NotReady => -8,
        }
    }

    pub fn is_success(self) -> (b: bool)
        ensures
            b == (self == GenericResult::Success),
    {
        matches!(self, GenericResult::Success)
    }
}

impl OpenQueueResult {
    /// Reads a native ordinal; an unrecognised one becomes `Unknown`.
    pub fn from_ordinal(n: i32) -> (r: OpenQueueResult)
        ensures
            r == open_queue_of_ordinal(n as int),
    {
        match n {
            100 => OpenQueueResult::AlreadyOpened,
            101 => OpenQueueResult::AlreadyInProgress,
            -100 => OpenQueueResult::InvalidUri,
            -101 => OpenQueueResult::InvalidFlags,
            -102 => OpenQueueResult::CorrelationIdNotUnique,
            _ => OpenQueueResult::from_generic(GenericResult::from_ordinal(n)),
        }
    }

    /// The native ordinal of this outcome.
    pub fn ordinal(self) -> (n: i32)
        ensures
            n as int == open_queue_ordinal(self),
    {
        match self {
            OpenQueueResult::Success => 0,
            OpenQueueResult::Unknown => -1,
            OpenQueueResult::Timeout => -2,
            OpenQueueResult::NotConnected => -3,
            OpenQueueResult::Cancelled => -4,
            OpenQueueResult::NotSupported => -5,
            OpenQueueResult::Refused => -6,
            OpenQueueResult::InvalidArgument => -7,
            OpenQueueResult::NotReady => -8,
            OpenQueueResult::AlreadyOpened => 100,
            OpenQueueResult::AlreadyInProgress => 101,
            OpenQueueResult::InvalidUri => -100,
            OpenQueueResult::InvalidFlags => -101,
            OpenQueueResult::CorrelationIdNotUnique => -102,
        }
    }

    /// The open-queue outcome with the meaning of a generic one.
    pub fn from_generic(r: GenericResult) -> (q: OpenQueueResult)
        ensures
            q == open_queue_of_generic(r),
    {
        match r {
            GenericResult::Success => OpenQueueResult::Success,
            GenericResult::Unknown => OpenQueueResult::Unknown,
            GenericResult::Timeout => OpenQueueResult::Timeout,
            GenericResult::NotConnected => OpenQueueResult::NotConnected,
            GenericResult::Cancelled => OpenQueueResult::Cancelled,
            GenericResult::NotSupported => OpenQueueResult::NotSupported,
            GenericResult::Refused => OpenQueueResult::Refused,
            GenericResult::InvalidArgument => OpenQueueResult::InvalidArgument,
            GenericResult::NotReady => OpenQueueResult::NotReady,
        }
    }

    pub fn is_success(self) -> (b: bool)
        ensures
            b == (self == OpenQueueResult::Success),
    {
        matches!(self, OpenQueueResult::Success)
    }
}

/// Every generic outcome survives the trip to its ordinal and back.
pub proof fn lemma_generic_round_trip(r: GenericResult)
    ensures
        generic_of_ordinal(generic_ordinal(r)) == r,
{
}

/// Every known generic ordinal survives the trip to its outcome and back, and
/// every other ordinal reads as `Unknown`.
pub proof fn lemma_generic_ordinals(n: int)
    ensures
        -8 <= n <= 0 ==> generic_ordinal(generic_of_ordinal(n)) == n,
        !(-8 <= n <= 0) ==> generic_of_ordinal(n) == GenericResult::Unknown,
{
}

/// Every open-queue outcome survives the trip to its ordinal and back.
pub proof fn lemma_open_queue_round_trip(r: OpenQueueResult)
    ensures
        open_queue_of_ordinal(open_queue_ordinal(r)) == r,
{
}

/// Every known open-queue ordinal survives the trip to its outcome and back,
/// and every other ordinal reads as `Unknown`.
pub proof fn lemma_open_queue_ordinals(n: int)
    ensures
        (-8 <= n <= 0 || 100 <= n <= 101 || -102 <= n <= -100) ==> open_queue_ordinal(
            open_queue_of_ordinal(n),
        ) == n,
        !(-8 <= n <= 0 || 100 <= n <= 101 || -102 <= n <= -100) ==> open_queue_of_ordinal(n)
            == OpenQueueResult::Unknown,
{
}

/// A generic outcome keeps its ordinal when read as an open-queue outcome.
pub proof fn lemma_generic_embeds_in_open_queue(r: GenericResult)
    ensures
        open_queue_ordinal(open_queue_of_generic(r)) == generic_ordinal(r),
        open_queue_of_ordinal(generic_ordinal(r)) == open_queue_of_generic(r),
{
}

} // verus!
