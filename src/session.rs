use vstd::prelude::*;
use std::collections::HashMap;
use crate::defaults::{BROKER_DEFAULT_URI, QUEUE_OPERATION_DEFAULT_TIMEOUT_MS};
use crate::error::BlazingMqError;
use crate::event_handler::{AckEvent, EventHandler, EventHandlerContext, MessageEvent, SessionEvent};
use crate::queue::{Queue, QueueBuilder, QueueMode, QueueOptions};
use crate::results::{GenericResult, OpenQueueResult, generic_of_ordinal, open_queue_of_ordinal};

verus! {

/// Compression applied to posted payloads.
#[derive(Debug, Clone, Copy, PartialEq, Eq, Structural)]
pub enum CompressionType {
    Uncompressed,
    Zlib,
}

/// A value of a message property.
#[derive(Debug, Clone, PartialEq, Eq)]
pub enum PropertyValue {
    Bool(bool),
    Char(i8),
    Short(i16),
    Int32(i32),
    Int64(i64),
    String(String),
    Binary(Vec<u8>),
}

/// The properties of a message, by name; handed to the broker unchanged.
pub type MessageProperties = HashMap<String, PropertyValue>;

/// What a session connects with, defaults filled in.
#[derive(Debug, Clone)]
pub struct SessionSettings {
    pub broker_uri: String,
    pub timeout_ms: u64,
    pub compression_type: CompressionType,
}

/// Builder for a [Session]. Unset, the broker URI is `BROKER_DEFAULT_URI`,
/// the timeout `QUEUE_OPERATION_DEFAULT_TIMEOUT_MS`, compression `Uncompressed` and
/// events are dropped.
pub struct SessionBuilder<H: EventHandler> {
    broker_uri: Option<String>,
    timeout_ms: Option<u64>,
    compression_type: CompressionType,
    event_handler: Option<H>,
}

impl<H: EventHandler> SessionBuilder<H> {
    /// The broker URI that building will use.
    pub closed spec fn broker_uri_view(&self) -> Seq<char> {
        match &self.broker_uri {
            Some(u) => u@,
            None => BROKER_DEFAULT_URI@,
        }
    }

    /// The operation timeout that building will use, in milliseconds.
    pub closed spec fn timeout_view(&self) -> u64 {
        match self.timeout_ms {
            Some(t) => t,
            None => QUEUE_OPERATION_DEFAULT_TIMEOUT_MS,
        }
    }

    pub closed spec fn compression_view(&self) -> CompressionType {
        self.compression_type
    }

    pub closed spec fn has_handler(&self) -> bool {
        self.event_handler is Some
    }

    pub fn new() -> (b: Self)
        ensures
            b.broker_uri_view() == BROKER_DEFAULT_URI@,
            b.timeout_view() == QUEUE_OPERATION_DEFAULT_TIMEOUT_MS,
            b.compression_view() == CompressionType::Uncompressed,
            !b.has_handler(),
    {
        SessionBuilder {
            broker_uri: None,
            timeout_ms: None,
            compression_type: CompressionType::Uncompressed,
            event_handler: None,
        }
    }

    pub fn broker_uri(&mut self, broker_uri: &str) -> (r: &mut Self)
        ensures
            r.broker_uri_view() == broker_uri@,
            r.timeout_view() == old(self).timeout_view(),
            r.compression_view() == old(self).compression_view(),
            r.has_handler() == old(self).has_handler(),
            *final(self) == *final(r),
    {
        self.broker_uri = Some(broker_uri.to_owned());
        self
    }

    /// Sets the operation timeout, in milliseconds.
    pub fn timeout(&mut self, timeout_ms: u64) -> (r: &mut Self)
        ensures
            r.broker_uri_view() == old(self).broker_uri_view(),
            r.timeout_view() == timeout_ms,
            r.compression_view() == old(self).compression_view(),
            r.has_handler() == old(self).has_handler(),
            *final(self) == *final(r),
    {
        self.timeout_ms = Some(timeout_ms);
        self
    }

    pub fn compression_type(&mut self, compression_type: CompressionType) -> (r: &mut Self)
        ensures
            r.broker_uri_view() == old(self).broker_uri_view(),
            r.timeout_view() == old(self).timeout_view(),
            r.compression_view() == compression_type,
            r.has_handler() == old(self).has_handler(),
            *final(self) == *final(r),
    {
        self.compression_type = compression_type;
        self
    }

    pub fn event_handler(&mut self, handler: H) -> (r: &mut Self)
        ensures
            r.broker_uri_view() == old(self).broker_uri_view(),
            r.timeout_view() == old(self).timeout_view(),
            r.compression_view() == old(self).compression_view(),
            r.has_handler(),
            *final(self) == *final(r),
    {
        self.event_handler = Some(handler);
        self
    }

    /// The settings that the native session is to be created with.
    pub fn settings(&self) -> (s: SessionSettings)
        ensures
            s.broker_uri@ == self.broker_uri_view(),
            s.timeout_ms == self.timeout_view(),
            s.compression_type == self.compression_view(),
    {
        let broker_uri = match &self.broker_uri {
            Some(u) => u.clone(),
            None => BROKER_DEFAULT_URI.to_owned(),
        };
        let timeout_ms = match self.timeout_ms {
            Some(t) => t,
            None => QUEUE_OPERATION_DEFAULT_TIMEOUT_MS,
        };
        SessionSettings { broker_uri, timeout_ms, compression_type: self.compression_type }
    }

    /// Finishes building once the native session was created with
    /// `settings()` and asked to start, `start_ordinal` being its answer.
    /// Anything but success is fatal: no session comes out, and the native
    /// session is to be released.
    pub fn build(self, start_ordinal: i32) -> (r: Result<Session<H>, BlazingMqError>)
        ensures
            r is Ok <==> generic_of_ordinal(start_ordinal as int) == GenericResult::Success,
            r is Err ==> r == Err::<Session<H>, BlazingMqError>(BlazingMqError::SessionCreate),
            r matches Ok(s) ==> {
                &&& s.wf()
                &&& s.is_started()
                &&& s.records() == Seq::<(Seq<char>, QueueMode, bool)>::empty()
                &&& s.pending_acks() == Seq::<u64>::empty()
                &&& s.acks_created() == 0
                &&& s.posts_left() == u64::MAX
                &&& s.settings_view().broker_uri@ == self.broker_uri_view()
                &&& s.settings_view().timeout_ms == self.timeout_view()
                &&& s.settings_view().compression_type == self.compression_view()
            },
    {
        if !GenericResult::from_ordinal(start_ordinal).is_success() {
            return Err(BlazingMqError::SessionCreate);
        }
        let settings = self.settings();
        Ok(Session {
            started: true,
            settings,
            events: EventHandlerContext::new(self.event_handler),
            queues: Vec::new(),
            pending_acks: Vec::new(),
            next_correlation_id: 0,
            acks_created: Ghost(0),
            acks_reclaimed: Ghost(0),
        })
    }
}

/// A queue known to a session: open, or with its open handshake under way.
struct QueueRecord {
    uri: String,
    mode: QueueMode,
    open: bool,
}

/// What connecting a queue asks of the native session.
#[derive(Debug, Clone)]
pub struct OpenQueueRequest {
    pub uri: String,
    pub mode: QueueMode,
    pub options: QueueOptions,
    pub timeout_ms: u64,
}

/// What posting a message asks of the native session. The acknowledgement
/// is to be reported under `correlation_id`.
#[derive(Debug)]
pub struct PostRequest {
    pub queue_uri: String,
    pub payload: Vec<u8>,
    pub properties: MessageProperties,
    pub correlation_id: u64,
}

/// What stopping a session leaves for the caller: whether the native
/// session is to be stopped, and the acknowledgements that are still owed,
/// each to be reported as cancelled.
#[derive(Debug)]
pub struct Shutdown {
    pub native_stop: bool,
    pub abandoned_acks: Vec<u64>,
}

/// The lifecycle of a client session: started on build, stopped once.
/// It tracks the queues it opened and the acknowledgements that are owed,
/// and decides what the native session is asked to do; the caller performs
/// each native step and hands its outcome back.
pub struct Session<H: EventHandler> {
    started: bool,
    settings: SessionSettings,
    events: EventHandlerContext<H>,
    queues: Vec<QueueRecord>,
    pending_acks: Vec<u64>,
    next_correlation_id: u64,
    acks_created: Ghost<nat>,
    acks_reclaimed: Ghost<nat>,
}

impl<H: EventHandler> Session<H> {
    pub closed spec fn is_started(&self) -> bool {
        self.started
    }

    pub closed spec fn settings_view(&self) -> SessionSettings {
        self.settings
    }

    /// The queues of the session: URI, mode, and whether the open completed.
    pub closed spec fn records(&self) -> Seq<(Seq<char>, QueueMode, bool)> {
        self.queues@.map_values(|q: QueueRecord| (q.uri@, q.mode, q.open))
    }

    /// Correlation ids of the posts whose acknowledgement is still owed.
    pub closed spec fn pending_acks(&self) -> Seq<u64> {
        self.pending_acks@
    }

    /// How many acknowledgement contexts were ever created.
    pub closed spec fn acks_created(&self) -> nat {
        self.acks_created@
    }

    /// How many acknowledgement contexts were handed back, each once.
    pub closed spec fn acks_reclaimed(&self) -> nat {
        self.acks_reclaimed@
    }

    pub open spec fn is_open(&self, uri: Seq<char>, mode: QueueMode) -> bool {
        self.records().contains((uri, mode, true))
    }

    pub open spec fn is_opening(&self, uri: Seq<char>, mode: QueueMode) -> bool {
        self.records().contains((uri, mode, false))
    }

    /// Whether stopping now asks for the native stop.
    pub open spec fn stop_asks_native(&self) -> bool {
        self.is_started()
    }

    pub open spec fn ack_pending(&self, id: u64) -> bool {
        self.pending_acks().contains(id)
    }

    /// Why connecting `uri` in `mode` is refused before the native session
    /// is asked, if it is.
    pub open spec fn open_refusal(&self, uri: Seq<char>, mode: QueueMode) -> Option<BlazingMqError> {
        if !self.is_started() {
            Some(BlazingMqError::GenericSessionError(GenericResult::NotConnected))
        } else if self.is_open(uri, mode) {
            Some(BlazingMqError::OpenQueueError(OpenQueueResult::AlreadyOpened))
        } else if self.is_opening(uri, mode) {
            Some(BlazingMqError::OpenQueueError(OpenQueueResult::AlreadyInProgress))
        } else {
            None
        }
    }

    /// Why an operation on `queue` is refused before the native session is
    /// asked, if it is: the session is stopped, or the queue is not open on
    /// it (never opened here, or closed since).
    pub open spec fn queue_refusal(&self, queue: &Queue) -> Option<BlazingMqError> {
        if !self.is_started() {
            Some(BlazingMqError::GenericSessionError(GenericResult::NotConnected))
        } else if !self.is_open(queue.uri_view(), queue.mode_view()) {
            Some(BlazingMqError::GenericSessionError(GenericResult::InvalidArgument))
        } else {
            None
        }
    }

    /// How many more correlation ids can be given out.
    pub closed spec fn posts_left(&self) -> nat {
        (u64::MAX - self.next_correlation_id) as nat
    }

    /// Whether every correlation id has been given out.
    pub open spec fn correlation_ids_exhausted(&self) -> bool {
        self.posts_left() == 0
    }

    /// The outcome of a generic native operation given by its ordinal.
    pub open spec fn generic_outcome(rc: int) -> Result<(), BlazingMqError> {
        if generic_of_ordinal(rc) == GenericResult::Success {
            Ok(())
        } else {
            Err(BlazingMqError::GenericSessionError(generic_of_ordinal(rc)))
        }
    }

    /// Each (URI, mode) pair is known at most once; each owed
    /// acknowledgement is owed once and was given an id below the next
    /// one; every context created is either owed or handed back; a stopped
    /// session holds nothing and delivers nothing.
    pub closed spec fn wf(&self) -> bool {
        &&& forall|i: int, j: int|
            0 <= i < j < self.queues@.len() ==> !(self.queues@[i].uri@ == self.queues@[j].uri@
                && self.queues@[i].mode == self.queues@[j].mode)
        &&& self.pending_acks@.no_duplicates()
        &&& forall|k: int|
            0 <= k < self.pending_acks@.len() ==> self.pending_acks@[k] < self.next_correlation_id
        &&& self.acks_created@ == self.acks_reclaimed@ + self.pending_acks@.len()
        &&& self.started == self.events.is_delivering()
        &&& !self.started ==> self.queues@.len() == 0 && self.pending_acks@.len() == 0
    }

    /// Whether the session is started.
    pub fn started(&self) -> (b: bool)
        ensures
            b == self.is_started(),
    {
        self.started
    }

    pub fn settings(&self) -> (s: &SessionSettings)
        ensures
            *s == self.settings_view(),
    {
        &self.settings
    }

    /// A builder for opening `uri` in `mode` on this session.
    pub fn open_queue(&self, uri: &str, mode: QueueMode) -> (b: QueueBuilder)
        ensures
            b.uri_view() == uri@,
            b.mode_view() == mode,
            b.options_view() == crate::queue::default_queue_options(),
            b.timeout_view() == QUEUE_OPERATION_DEFAULT_TIMEOUT_MS,
    {
        QueueBuilder::new(uri, mode)
    }

    /// The position of the record for `uri` in `mode`, if there is one.
    fn find_queue(&self, uri: &String, mode: QueueMode) -> (r: Option<usize>)
        ensures
            r matches Some(i) ==> i < self.queues@.len() && self.records()[i as int].0 == uri@
                && self.records()[i as int].1 == mode,
            r is None ==> forall|i: int|
                0 <= i < self.queues@.len() ==> !(self.records()[i].0 == uri@
                    && self.records()[i].1 == mode),
    {
        let mut i: usize = 0;
        while i < self.queues.len()
            invariant
                i <= self.queues@.len(),
                forall|k: int|
                    0 <= k < i ==> !(self.records()[k].0 == uri@ && self.records()[k].1 == mode),
            decreases self.queues@.len() - i,
        {
            if self.queues[i].uri == *uri && self.queues[i].mode == mode {
                return Some(i);
            }
            i = i + 1;
        }
        None
    }

    /// Completes an open handshake that `connect` began, `rc` being the
    /// native open-queue outcome. On success the queue is open and its
    /// handle returned; otherwise the queue is forgotten and the outcome is
    /// the error. A request that no handshake of this session is waiting
    /// for is refused and changes nothing.
    pub fn finish_open(&mut self, request: OpenQueueRequest, rc: i32) -> (r: Result<
        Queue,
        BlazingMqError,
    >)
        requires
            old(self).wf(),
        ensures
            final(self).wf(),
            final(self).is_started() == old(self).is_started(),
            final(self).settings_view() == old(self).settings_view(),
            final(self).pending_acks() == old(self).pending_acks(),
            final(self).acks_created() == old(self).acks_created(),
            final(self).posts_left() == old(self).posts_left(),
            final(self).acks_reclaimed() == old(self).acks_reclaimed(),
            !old(self).is_started() ==> r == Err::<Queue, BlazingMqError>(
                BlazingMqError::GenericSessionError(GenericResult::NotConnected),
            ) && *final(self) == *old(self),
            old(self).is_started() && !old(self).is_opening(request.uri@, request.mode) ==> r
                == Err::<Queue, BlazingMqError>(
                BlazingMqError::OpenQueueError(OpenQueueResult::InvalidArgument),
            ) && *final(self) == *old(self),
            old(self).is_started() && old(self).is_opening(request.uri@, request.mode) ==> {
                let i = old(self).records().index_of((request.uri@, request.mode, false));
                if open_queue_of_ordinal(rc as int) == OpenQueueResult::Success {
                    &&& r matches Ok(q) && q.uri_view() == request.uri@ && q.mode_view()
                        == request.mode
                    &&& final(self).records() == old(self).records().update(
                        i,
                        (request.uri@, request.mode, true),
                    )
                } else {
                    &&& r == Err::<Queue, BlazingMqError>(
                        BlazingMqError::OpenQueueError(open_queue_of_ordinal(rc as int)),
                    )
                    &&& final(self).records() == old(self).records().remove(i)
                }
            },
    {
        if !self.started {
            return Err(BlazingMqError::GenericSessionError(GenericResult::NotConnected));
        }
        let found = self.find_queue(&request.uri, request.mode);
        let i = match found {
            Some(i) => i,
            None => {
                return Err(BlazingMqError::OpenQueueError(OpenQueueResult::InvalidArgument));
            },
        };
        if self.queues[i].open {
            proof {
                self.lemma_record_unique(i as int, (request.uri@, request.mode, false));
            }
            return Err(BlazingMqError::OpenQueueError(OpenQueueResult::InvalidArgument));
        }
        proof {
            self.lemma_record_unique(i as int, (request.uri@, request.mode, false));
        }
        let outcome = OpenQueueResult::from_ordinal(rc);
        if outcome.is_success() {
            self.queues.set(i, QueueRecord { uri: request.uri.clone(), mode: request.mode, open: true });
            proof {
                assert(self.records() =~= old(self).records().update(
                    i as int,
                    (request.uri@, request.mode, true),
                ));
            }
            Ok(Queue::new(request.uri, request.mode))
        } else {
            self.queues.remove(i);
            proof {
                assert(self.records() =~= old(self).records().remove(i as int));
            }
            Err(BlazingMqError::OpenQueueError(outcome))
        }
    }

    /// Checks that `queue` may be configured, closed or posted to now.
    pub fn validate_queue(&self, queue: &Queue) -> (r: Result<(), BlazingMqError>)
        requires
            self.wf(),
        ensures
            match self.queue_refusal(queue) {
                Some(e) => r == Err::<(), BlazingMqError>(e),
                None => r is Ok,
            },
    {
        if !self.started {
            return Err(BlazingMqError::GenericSessionError(GenericResult::NotConnected));
        }
        let uri = queue.uri().to_owned();
        match self.find_queue(&uri, queue.mode()) {
            Some(i) => {
                proof {
                    self.lemma_record_unique(i as int, (uri@, queue.mode_view(), true));
                }
                if self.queues[i].open {
                    Ok(())
                } else {
                    Err(BlazingMqError::GenericSessionError(GenericResult::InvalidArgument))
                }
            },
            None => {
                proof {
                    assert(!self.records().contains((uri@, queue.mode_view(), true)));
                }
                Err(BlazingMqError::GenericSessionError(GenericResult::InvalidArgument))
            },
        }
    }

    /// Completes reconfiguring `queue`, `rc` being the native outcome.
    pub fn finish_configure(&self, queue: &Queue, rc: i32) -> (r: Result<(), BlazingMqError>)
        requires
            self.wf(),
        ensures
            match self.queue_refusal(queue) {
                Some(e) => r == Err::<(), BlazingMqError>(e),
                None => r == Self::generic_outcome(rc as int),
            },
    {
        self.validate_queue(queue)?;
        let outcome = GenericResult::from_ordinal(rc);
        if outcome.is_success() {
            Ok(())
        } else {
            Err(BlazingMqError::GenericSessionError(outcome))
        }
    }

    /// Completes closing `queue`, `rc` being the native outcome. Once the
    /// close succeeded the handle is no longer accepted.
    pub fn finish_close(&mut self, queue: &Queue, rc: i32) -> (r: Result<(), BlazingMqError>)
        requires
            old(self).wf(),
        ensures
            final(self).wf(),
            final(self).is_started() == old(self).is_started(),
            final(self).settings_view() == old(self).settings_view(),
            final(self).pending_acks() == old(self).pending_acks(),
            final(self).acks_created() == old(self).acks_created(),
            final(self).posts_left() == old(self).posts_left(),
            final(self).acks_reclaimed() == old(self).acks_reclaimed(),
            match old(self).queue_refusal(queue) {
                Some(e) => r == Err::<(), BlazingMqError>(e) && *final(self) == *old(self),
                None => {
                    &&& r == Self::generic_outcome(rc as int)
                    &&& r is Ok ==> final(self).records() == old(self).records().remove(
                        old(self).records().index_of((queue.uri_view(), queue.mode_view(), true)),
                    )
                    &&& r is Err ==> *final(self) == *old(self)
                },
            },
    {
        if !self.started {
            return Err(BlazingMqError::GenericSessionError(GenericResult::NotConnected));
        }
        let uri = queue.uri().to_owned();
        let i = match self.find_queue(&uri, queue.mode()) {
            Some(i) => i,
            None => {
                proof {
                    assert(!self.records().contains((uri@, queue.mode_view(), true)));
                }
                return Err(BlazingMqError::GenericSessionError(GenericResult::InvalidArgument));
            },
        };
        proof {
            self.lemma_record_unique(i as int, (uri@, queue.mode_view(), true));
        }
        if !self.queues[i].open {
            return Err(BlazingMqError::GenericSessionError(GenericResult::InvalidArgument));
        }
        let outcome = GenericResult::from_ordinal(rc);
        if !outcome.is_success() {
            return Err(BlazingMqError::GenericSessionError(outcome));
        }
        self.queues.remove(i);
        proof {
            assert(self.records() =~= old(self).records().remove(i as int));
            assert forall|a: int, b: int| 0 <= a < b < self.queues@.len() implies !(
            self.queues@[a].uri@ == self.queues@[b].uri@ && self.queues@[a].mode
                == self.queues@[b].mode) by {
                let a0 = if a < i { a } else { a + 1 };
                let b0 = if b < i { b } else { b + 1 };
                assert(self.queues@[a] == old(self).queues@[a0]);
                assert(self.queues@[b] == old(self).queues@[b0]);
            }
        }
        Ok(())
    }

    /// Begins posting `payload` with `properties` on `queue`: creates the
    /// acknowledgement context under a fresh correlation id and returns the
    /// request for the native post.
    pub fn begin_post(
        &mut self,
        queue: &Queue,
        payload: Vec<u8>,
        properties: MessageProperties,
    ) -> (r: Result<PostRequest, BlazingMqError>)
        requires
            old(self).wf(),
        ensures
            final(self).wf(),
            final(self).is_started() == old(self).is_started(),
            final(self).settings_view() == old(self).settings_view(),
            final(self).records() == old(self).records(),
            final(self).acks_reclaimed() == old(self).acks_reclaimed(),
            match old(self).queue_refusal(queue) {
                Some(e) => r == Err::<PostRequest, BlazingMqError>(e) && *final(self) == *old(
                    self,
                ),
                None => if old(self).correlation_ids_exhausted() {
                    r == Err::<PostRequest, BlazingMqError>(
                        BlazingMqError::GenericSessionError(GenericResult::NotReady),
                    ) && *final(self) == *old(self)
                } else {
                    &&& r matches Ok(req)
                    &&& req.queue_uri@ == queue.uri_view()
                    &&& req.payload@ == payload@
                    &&& req.properties == properties
                    &&& !old(self).ack_pending(req.correlation_id)
                    &&& final(self).pending_acks() == old(self).pending_acks().push(
                        req.correlation_id,
                    )
                    &&& final(self).acks_created() == old(self).acks_created() + 1
                    &&& final(self).posts_left() + 1 == old(self).posts_left()
                },
            },
    {
        self.validate_queue(queue)?;
        if self.next_correlation_id == u64::MAX {
            return Err(BlazingMqError::GenericSessionError(GenericResult::NotReady));
        }
        let correlation_id = self.next_correlation_id;
        self.pending_acks.push(correlation_id);
        self.next_correlation_id = correlation_id + 1;
        self.acks_created = Ghost(self.acks_created@ + 1);
        proof {
            assert(!old(self).pending_acks@.contains(correlation_id));
            assert forall|a: int, b: int| 0 <= a < b < self.pending_acks@.len() implies
                self.pending_acks@[a] != self.pending_acks@[b] by {
                if b == self.pending_acks@.len() - 1 {
                    assert(old(self).pending_acks@[a] < correlation_id);
                }
            }
        }
        Ok(PostRequest {
            queue_uri: queue.uri().to_owned(),
            payload,
            properties,
            correlation_id,
        })
    }

    /// Hands back the acknowledgement context under `id`, if it is owed.
    fn reclaim(&mut self, id: u64) -> (r: bool)
        requires
            old(self).wf(),
        ensures
            final(self).wf(),
            r == old(self).ack_pending(id),
            final(self).started == old(self).started,
            final(self).settings == old(self).settings,
            final(self).events == old(self).events,
            final(self).queues == old(self).queues,
            final(self).acks_created() == old(self).acks_created(),
            final(self).posts_left() == old(self).posts_left(),
            r ==> final(self).pending_acks() == old(self).pending_acks().remove(
                old(self).pending_acks().index_of(id),
            ) && final(self).acks_reclaimed() == old(self).acks_reclaimed() + 1,
            !r ==> *final(self) == *old(self),
    {
        let mut i: usize = 0;
        while i < self.pending_acks.len()
            invariant
                *self == *old(self),
                self.wf(),
                i <= self.pending_acks@.len(),
                forall|k: int| 0 <= k < i ==> self.pending_acks@[k] != id,
            decreases self.pending_acks@.len() - i,
        {
            if self.pending_acks[i] == id {
                proof {
                    assert(self.pending_acks@.contains(id));
                    let j = self.pending_acks@.index_of(id);
                    assert(self.pending_acks@[j] == id);
                    assert(j == i);
                }
                self.pending_acks.remove(i);
                self.acks_reclaimed = Ghost(self.acks_reclaimed@ + 1);
                proof {
                    assert forall|k: int| 0 <= k < self.pending_acks@.len() implies
                        self.pending_acks@[k] < self.next_correlation_id by {
                        if k < i {
                            assert(self.pending_acks@[k] == old(self).pending_acks@[k]);
                        } else {
                            assert(self.pending_acks@[k] == old(self).pending_acks@[k + 1]);
                        }
                    }
                    assert forall|a: int, b: int| 0 <= a < b < self.pending_acks@.len() implies
                        self.pending_acks@[a] != self.pending_acks@[b] by {
                        let a0 = if a < i { a } else { a + 1 };
                        let b0 = if b < i { b } else { b + 1 };
                        assert(self.pending_acks@[a] == old(self).pending_acks@[a0]);
                        assert(self.pending_acks@[b] == old(self).pending_acks@[b0]);
                    }
                }
                return true;
            }
            i = i + 1;
        }
        false
    }

    /// Completes a post that `begin_post` began, `rc` being the native
    /// outcome. On failure the acknowledgement will never come: its context
    /// is handed back here and the failure returned.
    pub fn finish_post(&mut self, correlation_id: u64, rc: i32) -> (r: Result<(), BlazingMqError>)
        requires
            old(self).wf(),
        ensures
            final(self).wf(),
            final(self).is_started() == old(self).is_started(),
            final(self).settings_view() == old(self).settings_view(),
            final(self).records() == old(self).records(),
            final(self).acks_created() == old(self).acks_created(),
            final(self).posts_left() == old(self).posts_left(),
            r == Self::generic_outcome(rc as int),
            r is Ok || !old(self).ack_pending(correlation_id) ==> *final(self) == *old(self),
            r is Err && old(self).ack_pending(correlation_id) ==> final(self).pending_acks()
                == old(self).pending_acks().remove(
                old(self).pending_acks().index_of(correlation_id),
            ) && final(self).acks_reclaimed() == old(self).acks_reclaimed() + 1,
    {
        let outcome = GenericResult::from_ordinal(rc);
        if outcome.is_success() {
            return Ok(());
        }
        self.reclaim(correlation_id);
        Err(BlazingMqError::GenericSessionError(outcome))
    }

    /// Delivers the broker's acknowledgement of a post. An acknowledgement
    /// that is owed is handed to the event handler and its context handed
    /// back, so the result says whether the post's own callback is to run;
    /// any other (a repeat, or an unknown id) changes nothing.
    pub fn deliver_ack(&mut self, ack: &AckEvent) -> (r: bool)
        requires
            old(self).wf(),
        ensures
            final(self).wf(),
            r == old(self).ack_pending(ack.correlation_id),
            final(self).is_started() == old(self).is_started(),
            final(self).settings_view() == old(self).settings_view(),
            final(self).records() == old(self).records(),
            final(self).acks_created() == old(self).acks_created(),
            final(self).posts_left() == old(self).posts_left(),
            r ==> final(self).pending_acks() == old(self).pending_acks().remove(
                old(self).pending_acks().index_of(ack.correlation_id),
            ) && final(self).acks_reclaimed() == old(self).acks_reclaimed() + 1,
            !r ==> *final(self) == *old(self),
            r ==> !final(self).ack_pending(ack.correlation_id),
    {
        if !self.reclaim(ack.correlation_id) {
            return false;
        }
        self.events.on_ack_event(ack);
        proof {
            let old_p = old(self).pending_acks@;
            let j = old_p.index_of(ack.correlation_id);
            if self.pending_acks@.contains(ack.correlation_id) {
                let k = self.pending_acks@.index_of(ack.correlation_id);
                let k0 = if k < j { k } else { k + 1 };
                assert(self.pending_acks@[k] == old_p[k0]);
                assert(old_p[j] == ack.correlation_id);
            }
        }
        true
    }

    /// Delivers a session event to the handler; a stopped session drops it.
    pub fn deliver_session_event(&self, event: &SessionEvent) -> (delivered: bool)
        requires
            self.wf(),
        ensures
            delivered == self.is_started(),
    {
        self.events.on_session_event(event)
    }

    /// Delivers a message event to the handler; a stopped session drops it.
    pub fn deliver_message_event(&self, event: &MessageEvent) -> (delivered: bool)
        requires
            self.wf(),
        ensures
            delivered == self.is_started(),
    {
        self.events.on_message_event(event)
    }

    /// Stops the session: delivery to the handler ends first, every queue
    /// handle becomes invalid, and the acknowledgements still owed are handed
    /// back. Only the first stop of a started session asks for the native
    /// stop; a later one, such as on drop, asks for nothing.
    pub fn stop(&mut self) -> (r: Shutdown)
        requires
            old(self).wf(),
        ensures
            final(self).wf(),
            r.native_stop == old(self).stop_asks_native(),
            r.abandoned_acks@ == old(self).pending_acks(),
            !final(self).is_started(),
            final(self).settings_view() == old(self).settings_view(),
            final(self).records() == Seq::<(Seq<char>, QueueMode, bool)>::empty(),
            final(self).pending_acks() == Seq::<u64>::empty(),
            final(self).acks_created() == old(self).acks_created(),
            final(self).posts_left() == old(self).posts_left(),
            final(self).acks_reclaimed() == old(self).acks_created(),
    {
        let native_stop = self.started;
        self.events.disable();
        self.started = false;
        self.queues = Vec::new();
        let mut abandoned_acks: Vec<u64> = Vec::new();
        std::mem::swap(&mut abandoned_acks, &mut self.pending_acks);
        self.acks_reclaimed = Ghost(self.acks_created@);
        proof {
            assert(self.records() =~= Seq::<(Seq<char>, QueueMode, bool)>::empty());
        }
        Shutdown { native_stop, abandoned_acks }
    }

    /// The record at `i` is the only one of its pair, so it is the first
    /// that equals any entry of that pair.
    proof fn lemma_record_unique(&self, i: int, e: (Seq<char>, QueueMode, bool))
        requires
            self.wf(),
            0 <= i < self.queues@.len(),
            self.records()[i].0 == e.0,
            self.records()[i].1 == e.1,
        ensures
            self.records().contains(e) <==> self.records()[i] == e,
            self.records().contains(e) ==> self.records().index_of(e) == i,
    {
        if self.records().contains(e) {
            let j = self.records().index_of(e);
            assert(self.records()[j] == e);
            if j != i {
                if j < i {
                    assert(!(self.queues@[j].uri@ == self.queues@[i].uri@
                        && self.queues@[j].mode == self.queues@[i].mode));
                } else {
                    assert(!(self.queues@[i].uri@ == self.queues@[j].uri@
                        && self.queues@[i].mode == self.queues@[j].mode));
                }
            }
        }
        if self.records()[i] == e {
            assert(self.records().contains(e));
        }
    }
}

impl QueueBuilder {
    /// Begins opening this queue on `session`. A stopped session, a queue
    /// of the same URI and mode that is open, or one whose open is under
    /// way, is refused and changes nothing. Otherwise the queue is recorded
    /// as opening and the request for the native handshake is returned.
    pub fn connect<H: EventHandler>(self, session: &mut Session<H>) -> (r: Result<
        OpenQueueRequest,
        BlazingMqError,
    >)
        requires
            old(session).wf(),
        ensures
            final(session).wf(),
            final(session).is_started() == old(session).is_started(),
            final(session).settings_view() == old(session).settings_view(),
            final(session).pending_acks() == old(session).pending_acks(),
            final(session).acks_created() == old(session).acks_created(),
            final(session).posts_left() == old(session).posts_left(),
            final(session).acks_reclaimed() == old(session).acks_reclaimed(),
            match old(session).open_refusal(self.uri_view(), self.mode_view()) {
                Some(e) => r == Err::<OpenQueueRequest, BlazingMqError>(e) && *final(session)
                    == *old(session),
                None => {
                    &&& r matches Ok(req)
                    &&& req.uri@ == self.uri_view()
                    &&& req.mode == self.mode_view()
                    &&& req.options == self.options_view()
                    &&& req.timeout_ms == self.timeout_view()
                    &&& final(session).records() == old(session).records().push(
                        (self.uri_view(), self.mode_view(), false),
                    )
                },
            },
    {
        if !session.started {
            return Err(BlazingMqError::GenericSessionError(GenericResult::NotConnected));
        }
        let uri = self.uri().to_owned();
        let mode = self.mode();
        match session.find_queue(&uri, mode) {
            Some(i) => {
                proof {
                    session.lemma_record_unique(i as int, (uri@, mode, true));
                    session.lemma_record_unique(i as int, (uri@, mode, false));
                }
                if session.queues[i].open {
                    Err(BlazingMqError::OpenQueueError(OpenQueueResult::AlreadyOpened))
                } else {
                    Err(BlazingMqError::OpenQueueError(OpenQueueResult::AlreadyInProgress))
                }
            },
            None => {
                proof {
                    assert(!session.records().contains((uri@, mode, true)));
                    assert(!session.records().contains((uri@, mode, false)));
                    assert forall|i: int| 0 <= i < session.queues@.len() implies !(
                    session.queues@[i].uri@ == uri@ && session.queues@[i].mode == mode) by {
                        assert(session.records()[i].0 == session.queues@[i].uri@);
                    }
                }
                session.queues.push(QueueRecord { uri: uri.clone(), mode, open: false });
                proof {
                    assert(session.records() =~= old(session).records().push((uri@, mode, false)));
                }
                Ok(OpenQueueRequest {
                    uri,
                    mode,
                    options: self.options(),
                    timeout_ms: self.timeout_ms(),
                })
            },
        }
    }
}

/// A session that failed to start, or was stopped, opens no queue and
/// accepts no queue handle.
pub proof fn lemma_stopped_session_refuses_queues<H: EventHandler>(
    s: Session<H>,
    uri: Seq<char>,
    mode: QueueMode,
    queue: Queue,
)
    requires
        s.wf(),
        !s.is_started(),
    ensures
        s.open_refusal(uri, mode) == Some(
            BlazingMqError::GenericSessionError(GenericResult::NotConnected),
        ),
        s.queue_refusal(&queue) == Some(
            BlazingMqError::GenericSessionError(GenericResult::NotConnected),
        ),
{
}

/// The native stop runs once: stopping a started session asks for it, and
/// the stopped session that is left never asks again, whether it is
/// stopped explicitly once more or on drop.
pub proof fn lemma_native_stop_once<H: EventHandler>(built: Session<H>, stopped: Session<H>)
    requires
        built.wf(),
        built.is_started(),
        !stopped.is_started(),
    ensures
        built.stop_asks_native(),
        !stopped.stop_asks_native(),
{
}

/// A URI and mode that a session knows, opening or open, cannot be opened
/// again before it is closed: connecting it is refused as already in
/// progress or already opened.
pub proof fn lemma_known_queue_refused<H: EventHandler>(s: Session<H>, uri: Seq<char>, mode: QueueMode)
    requires
        s.wf(),
        s.is_opening(uri, mode) || s.is_open(uri, mode),
    ensures
        s.open_refusal(uri, mode) == Some(
            BlazingMqError::OpenQueueError(OpenQueueResult::AlreadyInProgress),
        ) || s.open_refusal(uri, mode) == Some(
            BlazingMqError::OpenQueueError(OpenQueueResult::AlreadyOpened),
        ),
{
    lemma_known_queue_means_started(s);
}

/// After `connect` recorded a queue, connecting it again is refused as in
/// progress; after `finish_open` completed it, as already opened.
pub proof fn lemma_reopen_refused<H: EventHandler>(
    before: Session<H>,
    connected: Session<H>,
    opened: Session<H>,
    uri: Seq<char>,
    mode: QueueMode,
)
    requires
        before.wf(),
        connected.wf(),
        opened.wf(),
        before.open_refusal(uri, mode) is None,
        connected.is_started() == before.is_started(),
        connected.records() == before.records().push((uri, mode, false)),
        opened.is_started() == connected.is_started(),
        opened.records() == connected.records().update(
            connected.records().index_of((uri, mode, false)),
            (uri, mode, true),
        ),
    ensures
        connected.open_refusal(uri, mode) == Some(
            BlazingMqError::OpenQueueError(OpenQueueResult::AlreadyInProgress),
        ),
        opened.open_refusal(uri, mode) == Some(
            BlazingMqError::OpenQueueError(OpenQueueResult::AlreadyOpened),
        ),
{
    let e = (uri, mode, false);
    let n = before.records().len();
    assert(connected.records()[n as int] == e);
    assert(connected.records().contains(e));
    assert(!connected.records().contains((uri, mode, true))) by {
        if connected.records().contains((uri, mode, true)) {
            let k = connected.records().index_of((uri, mode, true));
            assert(connected.records()[k] == (uri, mode, true));
            assert(k != n);
            assert(before.records()[k] == (uri, mode, true));
        }
    }
    let i = connected.records().index_of(e);
    assert(opened.records()[i] == (uri, mode, true));
}

/// Every acknowledgement context that was created is owed or was handed
/// back, and once the session has stopped, every one was handed back.
pub proof fn lemma_ack_accounting<H: EventHandler>(s: Session<H>)
    requires
        s.wf(),
    ensures
        s.acks_created() == s.acks_reclaimed() + s.pending_acks().len(),
        !s.is_started() ==> s.acks_created() == s.acks_reclaimed(),
        s.pending_acks().no_duplicates(),
{
}

/// A session that knows a queue is started.
proof fn lemma_known_queue_means_started<H: EventHandler>(s: Session<H>)
    requires
        s.wf(),
    ensures
        s.records().len() > 0 ==> s.is_started(),
{
}

} // verus!
