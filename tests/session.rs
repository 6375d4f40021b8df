use std::cell::Cell;
use std::collections::HashMap;

use bmq_rs::{
    AckEvent, BlazingMqError, CompressionType, Event, EventHandler, EventHandlerContext, GenericResult,
    MessageEvent, OpenQueueResult, PropertyValue, QueueMode, QueueOptions, Session, SessionBuilder,
    SessionEvent, SimpleEventHandler, BROKER_DEFAULT_URI, QUEUE_OPERATION_DEFAULT_TIMEOUT_MS,
};

#[derive(Default)]
struct Counting {
    sessions: Cell<u32>,
    messages: Cell<u32>,
    acks: Cell<u32>,
}

impl EventHandler for Counting {
    fn on_session_event(&self, _event: &SessionEvent) {
        self.sessions.set(self.sessions.get() + 1);
    }

    fn on_message_event(&self, _event: &MessageEvent) {
        self.messages.set(self.messages.get() + 1);
    }

    fn on_ack_event(&self, _event: &AckEvent) {
        self.acks.set(self.acks.get() + 1);
    }
}

fn started() -> Session<SimpleEventHandler> {
    SessionBuilder::<SimpleEventHandler>::new().build(0).expect("build")
}

fn open(session: &mut Session<SimpleEventHandler>, uri: &str, mode: QueueMode) -> bmq_rs::Queue {
    let request = session.open_queue(uri, mode).connect(session).expect("connect");
    session.finish_open(request, 0).expect("open")
}

#[test]
fn builder_defaults() {
    let builder = SessionBuilder::<SimpleEventHandler>::new();
    let settings = builder.settings();
    assert_eq!(settings.broker_uri, BROKER_DEFAULT_URI);
    assert_eq!(settings.broker_uri, "tcp://localhost:30114");
    assert_eq!(settings.timeout_ms, QUEUE_OPERATION_DEFAULT_TIMEOUT_MS);
    assert_eq!(settings.timeout_ms, 300000);
    assert_eq!(settings.compression_type, CompressionType::Uncompressed);
}

#[test]
fn builder_settings_are_kept() {
    let mut builder = SessionBuilder::<SimpleEventHandler>::new();
    builder.broker_uri("tcp://broker:1").timeout(2500).compression_type(CompressionType::Zlib);
    let session = builder.build(0).expect("build");
    assert_eq!(session.settings().broker_uri, "tcp://broker:1");
    assert_eq!(session.settings().timeout_ms, 2500);
    assert_eq!(session.settings().compression_type, CompressionType::Zlib);
}

#[test]
fn build_fails_without_broker() {
    for rc in [-3, -2, -1, -6, 42] {
        let r = SessionBuilder::<SimpleEventHandler>::new().build(rc);
        assert!(matches!(r, Err(BlazingMqError::SessionCreate)));
    }
}

#[test]
fn stop_asks_native_once() {
    let mut session = started();
    assert!(session.started());
    let first = session.stop();
    assert!(first.native_stop);
    assert!(!session.started());
    let second = session.stop();
    assert!(!second.native_stop);
    assert!(second.abandoned_acks.is_empty());
}

#[test]
fn stopped_session_refuses_queues() {
    let mut session = started();
    let queue = open(&mut session, "queue://example/a", QueueMode::Read);
    session.stop();
    let r = session.open_queue("queue://example/a", QueueMode::Read).connect(&mut session);
    assert_eq!(r.unwrap_err(), BlazingMqError::GenericSessionError(GenericResult::NotConnected));
    assert_eq!(
        session.validate_queue(&queue),
        Err(BlazingMqError::GenericSessionError(GenericResult::NotConnected))
    );
}

#[test]
fn reopen_is_refused() {
    let mut session = started();
    let request = session
        .open_queue("queue://example/test", QueueMode::Write)
        .connect(&mut session)
        .expect("connect");
    let again = session.open_queue("queue://example/test", QueueMode::Write).connect(&mut session);
    assert_eq!(
        again.unwrap_err(),
        BlazingMqError::OpenQueueError(OpenQueueResult::AlreadyInProgress)
    );
    let queue = session.finish_open(request, 0).expect("open");
    let again = session.open_queue("queue://example/test", QueueMode::Write).connect(&mut session);
    assert_eq!(again.unwrap_err(), BlazingMqError::OpenQueueError(OpenQueueResult::AlreadyOpened));

    // another mode of the same URI is a different queue
    let other = session.open_queue("queue://example/test", QueueMode::Read).connect(&mut session);
    assert!(other.is_ok());

    assert_eq!(session.finish_close(&queue, 0), Ok(()));
    let reopened = session.open_queue("queue://example/test", QueueMode::Write).connect(&mut session);
    assert!(reopened.is_ok());
}

#[test]
fn failed_open_forgets_queue() {
    let mut session = started();
    let request = session
        .open_queue("queue://example/x", QueueMode::Read)
        .connect(&mut session)
        .expect("connect");
    let r = session.finish_open(request.clone(), -100);
    assert_eq!(r.unwrap_err(), BlazingMqError::OpenQueueError(OpenQueueResult::InvalidUri));
    // the request no longer matches a handshake
    let r = session.finish_open(request, 0);
    assert_eq!(r.unwrap_err(), BlazingMqError::OpenQueueError(OpenQueueResult::InvalidArgument));
    assert!(session.open_queue("queue://example/x", QueueMode::Read).connect(&mut session).is_ok());
}

#[test]
fn queue_options_defaults() {
    let o = QueueOptions::default();
    assert_eq!(o.max_unconfirmed_messages, 1000);
    assert_eq!(o.max_unconfirmed_bytes, 33554432);
    assert_eq!(o.consumer_priority, 0);
    assert!(!o.suspends_on_bad_host_health);
}

#[test]
fn queue_options_are_resolved() {
    let session = started();
    let mut builder = session.open_queue("queue://example/o", QueueMode::ReadWrite);
    builder.max_unconfirmed_bytes(10).consumer_priority(-3);
    let options = builder.options();
    assert_eq!(
        options,
        QueueOptions {
            max_unconfirmed_messages: 1000,
            max_unconfirmed_bytes: 10,
            consumer_priority: -3,
            suspends_on_bad_host_health: false,
        }
    );
    builder.max_unconfirmed_messages(5).suspends_on_bad_host_health(true).timeout(7);
    assert_eq!(builder.options().max_unconfirmed_messages, 5);
    assert!(builder.options().suspends_on_bad_host_health);
    assert_eq!(builder.timeout_ms(), 7);
    assert_eq!(builder.uri(), "queue://example/o");
    assert_eq!(builder.mode(), QueueMode::ReadWrite);
}

#[test]
fn close_and_configure() {
    let mut session = started();
    let queue = open(&mut session, "queue://example/c", QueueMode::Read);
    assert_eq!(session.finish_configure(&queue, 0), Ok(()));
    assert_eq!(
        session.finish_configure(&queue, -2),
        Err(BlazingMqError::GenericSessionError(GenericResult::Timeout))
    );
    assert_eq!(
        session.finish_close(&queue, -4),
        Err(BlazingMqError::GenericSessionError(GenericResult::Cancelled))
    );
    assert_eq!(session.validate_queue(&queue), Ok(()));
    assert_eq!(session.finish_close(&queue, 0), Ok(()));
    let closed = Err(BlazingMqError::GenericSessionError(GenericResult::InvalidArgument));
    assert_eq!(session.validate_queue(&queue), closed);
    assert_eq!(session.finish_close(&queue, 0), closed);
    assert_eq!(session.finish_configure(&queue, 0), closed);
    let r = session.begin_post(&queue, vec![1], HashMap::new());
    assert_eq!(r.unwrap_err(), BlazingMqError::GenericSessionError(GenericResult::InvalidArgument));
}

#[test]
fn ack_is_delivered_once() {
    let mut builder = SessionBuilder::<Counting>::new();
    builder.event_handler(Counting::default());
    let mut session = builder.build(0).expect("build");
    let request = session.open_queue("queue://example/p", QueueMode::Write).connect(&mut session).unwrap();
    let queue = session.finish_open(request, 0).unwrap();

    let a = session.begin_post(&queue, vec![1], HashMap::new()).unwrap();
    let b = session.begin_post(&queue, vec![2], HashMap::new()).unwrap();
    assert_ne!(a.correlation_id, b.correlation_id);
    assert_eq!(session.finish_post(a.correlation_id, 0), Ok(()));
    // a post the native side refused never gets an acknowledgement
    assert_eq!(
        session.finish_post(b.correlation_id, -7),
        Err(BlazingMqError::GenericSessionError(GenericResult::InvalidArgument))
    );
    let ack = AckEvent { correlation_id: a.correlation_id, status: GenericResult::Success };
    assert!(session.deliver_ack(&ack));
    assert!(!session.deliver_ack(&ack));
    let late = AckEvent { correlation_id: b.correlation_id, status: GenericResult::Success };
    assert!(!session.deliver_ack(&late));

    let c = session.begin_post(&queue, vec![3], HashMap::new()).unwrap();
    let shutdown = session.stop();
    assert_eq!(shutdown.abandoned_acks, vec![c.correlation_id]);
    let after = AckEvent { correlation_id: c.correlation_id, status: GenericResult::Cancelled };
    assert!(!session.deliver_ack(&after));
}

#[test]
fn events_reach_handler_until_stop() {
    let mut builder = SessionBuilder::<Counting>::new();
    builder.event_handler(Counting::default());
    let mut session = builder.build(0).expect("build");
    let event = SessionEvent { status: GenericResult::Success };
    let message = MessageEvent { queue_uri: "queue://example/m".to_string(), payload: vec![9] };
    assert!(session.deliver_session_event(&event));
    assert!(session.deliver_message_event(&message));
    session.stop();
    assert!(!session.deliver_session_event(&event));
    assert!(!session.deliver_message_event(&message));
}

#[test]
fn context_forwards_while_delivering() {
    let mut context = EventHandlerContext::new(Some(Counting::default()));
    let ack = AckEvent { correlation_id: 4, status: GenericResult::Success };
    assert!(context.on_ack_event(&ack));
    assert!(context.on_session_event(&SessionEvent { status: GenericResult::NotConnected }));
    assert!(context.dispatch(&Event::Ack(ack)));
    context.disable();
    assert!(!context.on_ack_event(&ack));
    assert!(!context.dispatch(&Event::Ack(ack)));
    let empty: EventHandlerContext<SimpleEventHandler> = EventHandlerContext::new(None);
    assert!(empty.on_ack_event(&ack));
}

#[test]
fn post_scenario() {
    let mut session = SessionBuilder::<SimpleEventHandler>::new().build(0).expect("build");
    let mut builder = session.open_queue("queue://example/test", QueueMode::Write);
    builder.timeout(300 * 1000);
    let request = builder.connect(&mut session).expect("connect");
    assert_eq!(request.options, QueueOptions::default());
    assert_eq!(request.timeout_ms, 300000);
    let queue = session.finish_open(request, 0).expect("open");
    assert_eq!(queue.uri(), "queue://example/test");
    assert_eq!(queue.mode(), QueueMode::Write);

    let mut properties = HashMap::new();
    properties.insert("k".to_string(), PropertyValue::Int32(5));
    properties.clear();
    let post = session.begin_post(&queue, vec![0x01, 0x02, 0x03], properties).expect("post");
    assert_eq!(post.payload, vec![0x01, 0x02, 0x03]);
    assert!(post.properties.is_empty());
    assert_eq!(post.queue_uri, "queue://example/test");
    assert_eq!(session.finish_post(post.correlation_id, 0), Ok(()));

    let mut outcome = None;
    let ack = AckEvent { correlation_id: post.correlation_id, status: GenericResult::Success };
    if session.deliver_ack(&ack) {
        outcome = Some(ack.status);
    }
    assert_eq!(outcome, Some(GenericResult::Success));
    assert!(session.stop().native_stop);
}
