use vstd::prelude::*;

verus! {

/// How a queue is opened.
#[derive(Debug, Clone, Copy, PartialEq, Eq, Structural)]
pub enum QueueMode {
    Admin,
    Read,
    Write,
    ReadWrite,
}

/// Per-queue flow-control and dispatch settings.
#[derive(Debug, Clone, Copy, PartialEq, Eq, Structural)]
pub struct QueueOptions {
    pub max_unconfirmed_messages: u32,
    pub max_unconfirmed_bytes: u32,
    /// Higher values are favoured by the broker's dispatch.
    pub consumer_priority: i32,
    pub suspends_on_bad_host_health: bool,
}

pub const DEFAULT_MAX_UNCONFIRMED_MESSAGES: u32 = 1000;

pub const DEFAULT_MAX_UNCONFIRMED_BYTES: u32 = 33554432;

/// The options of a queue for which none was set.
pub open spec fn default_queue_options() -> QueueOptions {
    QueueOptions {
        max_unconfirmed_messages: 1000,
        max_unconfirmed_bytes: 33554432,
        consumer_priority: 0,
        suspends_on_bad_host_health: false,
    }
}

impl Default for QueueOptions {
    fn default() -> (o: Self)
        ensures
            o == default_queue_options(),
    {
        QueueOptions {
            max_unconfirmed_messages: DEFAULT_MAX_UNCONFIRMED_MESSAGES,
            max_unconfirmed_bytes: DEFAULT_MAX_UNCONFIRMED_BYTES,
            consumer_priority: 0,
            suspends_on_bad_host_health: false,
        }
    }
}

/// Options with nothing set resolve to exactly the documented defaults.
pub proof fn lemma_default_queue_options()
    ensures
        default_queue_options().max_unconfirmed_messages == 1000,
        default_queue_options().max_unconfirmed_bytes == 33554432,
        default_queue_options().consumer_priority == 0,
        !default_queue_options().suspends_on_bad_host_health,
{
}

/// Configuration of a queue to be opened on a session. Options left unset
/// take their defaults when the queue is connected.
#[derive(Debug, Clone)]
pub struct QueueBuilder {
    uri: String,
    mode: QueueMode,
    max_unconfirmed_messages: Option<u32>,
    max_unconfirmed_bytes: Option<u32>,
    consumer_priority: Option<i32>,
    suspends_on_bad_host_health: Option<bool>,
    timeout_ms: Option<u64>,
}

/// The handle of an open queue: its URI and the mode it was opened in.
#[derive(Debug, Clone)]
pub struct Queue {
    uri: String,
    mode: QueueMode,
}

impl QueueBuilder {
    pub closed spec fn uri_view(&self) -> Seq<char> {
        self.uri@
    }

    pub closed spec fn mode_view(&self) -> QueueMode {
        self.mode
    }

    /// The options that connecting will use, defaults filled in.
    pub closed spec fn options_view(&self) -> QueueOptions {
        QueueOptions {
            max_unconfirmed_messages: match self.max_unconfirmed_messages {
                Some(v) => v,
                None => default_queue_options().max_unconfirmed_messages,
            },
            max_unconfirmed_bytes: match self.max_unconfirmed_bytes {
                Some(v) => v,
                None => default_queue_options().max_unconfirmed_bytes,
            },
            consumer_priority: match self.consumer_priority {
                Some(v) => v,
                None => default_queue_options().consumer_priority,
            },
            suspends_on_bad_host_health: match self.suspends_on_bad_host_health {
                Some(v) => v,
                None => default_queue_options().suspends_on_bad_host_health,
            },
        }
    }

    /// The timeout that connecting will use, in milliseconds.
    pub closed spec fn timeout_view(&self) -> u64 {
        match self.timeout_ms {
            Some(t) => t,
            None => crate::defaults::QUEUE_OPERATION_DEFAULT_TIMEOUT_MS,
        }
    }

    /// A builder for `uri` in `mode` with nothing else set.
    pub(crate) fn new(uri: &str, mode: QueueMode) -> (b: Self)
        ensures
            b.uri_view() == uri@,
            b.mode_view() == mode,
            b.options_view() == default_queue_options(),
            b.timeout_view() == crate::defaults::QUEUE_OPERATION_DEFAULT_TIMEOUT_MS,
    {
        QueueBuilder {
            uri: uri.to_owned(),
            mode,
            max_unconfirmed_messages: None,
            max_unconfirmed_bytes: None,
            consumer_priority: None,
            suspends_on_bad_host_health: None,
            timeout_ms: None,
        }
    }

    pub fn max_unconfirmed_messages(&mut self, unconfirmed_messages: u32) -> (r: &mut Self)
        ensures
            r.uri_view() == old(self).uri_view(),
            r.mode_view() == old(self).mode_view(),
            r.timeout_view() == old(self).timeout_view(),
            r.options_view() == (QueueOptions {
                max_unconfirmed_messages: unconfirmed_messages,
                ..old(self).options_view()
            }),
            *final(self) == *final(r),
    {
        self.max_unconfirmed_messages = Some(unconfirmed_messages);
        self
    }

    pub fn max_unconfirmed_bytes(&mut self, unconfirmed_bytes: u32) -> (r: &mut Self)
        ensures
            r.uri_view() == old(self).uri_view(),
            r.mode_view() == old(self).mode_view(),
            r.timeout_view() == old(self).timeout_view(),
            r.options_view() == (QueueOptions { max_unconfirmed_bytes: unconfirmed_bytes, ..old(self).options_view() }),
            *final(self) == *final(r),
    {
        self.max_unconfirmed_bytes = Some(unconfirmed_bytes);
        self
    }

    pub fn consumer_priority(&mut self, priority: i32) -> (r: &mut Self)
        ensures
            r.uri_view() == old(self).uri_view(),
            r.mode_view() == old(self).mode_view(),
            r.timeout_view() == old(self).timeout_view(),
            r.options_view() == (QueueOptions { consumer_priority: priority, ..old(self).options_view() }),
            *final(self) == *final(r),
    {
        self.consumer_priority = Some(priority);
        self
    }

    pub fn suspends_on_bad_host_health(&mut self, is_suspending: bool) -> (r: &mut Self)
        ensures
            r.uri_view() == old(self).uri_view(),
            r.mode_view() == old(self).mode_view(),
            r.timeout_view() == old(self).timeout_view(),
            r.options_view() == (QueueOptions { suspends_on_bad_host_health: is_suspending, ..old(self).options_view() }),
            *final(self) == *final(r),
    {
        self.suspends_on_bad_host_health = Some(is_suspending);
        self
    }

    /// Bounds the open handshake, in milliseconds.
    pub fn timeout(&mut self, timeout_ms: u64) -> (r: &mut Self)
        ensures
            r.uri_view() == old(self).uri_view(),
            r.mode_view() == old(self).mode_view(),
            r.options_view() == old(self).options_view(),
            r.timeout_view() == timeout_ms,
            *final(self) == *final(r),
    {
        self.timeout_ms = Some(timeout_ms);
        self
    }

    /// The options that connecting will use, defaults filled in.
    pub fn options(&self) -> (o: QueueOptions)
        ensures
            o == self.options_view(),
    {
        QueueOptions {
            max_unconfirmed_messages: match self.max_unconfirmed_messages {
                Some(v) => v,
                None => DEFAULT_MAX_UNCONFIRMED_MESSAGES,
            },
            max_unconfirmed_bytes: match self.max_unconfirmed_bytes {
                Some(v) => v,
                None => DEFAULT_MAX_UNCONFIRMED_BYTES,
            },
            consumer_priority: match self.consumer_priority {
                Some(v) => v,
                None => 0,
            },
            suspends_on_bad_host_health: match self.suspends_on_bad_host_health {
                Some(v) => v,
                None => false,
            },
        }
    }

    /// The timeout that connecting will use, in milliseconds.
    pub fn timeout_ms(&self) -> (t: u64)
        ensures
            t == self.timeout_view(),
    {
        match self.timeout_ms {
            Some(t) => t,
            None => crate::defaults::QUEUE_OPERATION_DEFAULT_TIMEOUT_MS,
        }
    }

    pub fn uri(&self) -> (u: &str)
        ensures
            u@ == self.uri_view(),
    {
        self.uri.as_str()
    }

    pub fn mode(&self) -> (m: QueueMode)
        ensures
            m == self.mode_view(),
    {
        self.mode
    }
}

impl Queue {
    pub closed spec fn uri_view(&self) -> Seq<char> {
        self.uri@
    }

    pub closed spec fn mode_view(&self) -> QueueMode {
        self.mode
    }

    pub(crate) fn new(uri: String, mode: QueueMode) -> (q: Queue)
        ensures
            q.uri_view() == uri@,
            q.mode_view() == mode,
    {
        Queue { uri, mode }
    }

    pub fn uri(&self) -> (u: &str)
        ensures
            u@ == self.uri_view(),
    {
        self.uri.as_str()
    }

    pub fn mode(&self) -> (m: QueueMode)
        ensures
            m == self.mode_view(),
    {
        self.mode
    }
}

} // verus!
