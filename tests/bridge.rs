use bmq_rs::{
    CompressionType, OpenQueueResult, QueueMode, QueueOptions, SessionBuilder, SimpleEventHandler,
    BROKER_DEFAULT_URI, QUEUE_OPERATION_DEFAULT_TIMEOUT_MS,
};

const DEFAULT_GATEWAY: &str = "tcp://localhost:30114";

#[test]
fn session_construct_is_not_null() {
    let mut builder = SessionBuilder::<SimpleEventHandler>::new();
    builder
        .broker_uri(BROKER_DEFAULT_URI)
        .timeout(QUEUE_OPERATION_DEFAULT_TIMEOUT_MS)
        .compression_type(CompressionType::Uncompressed);
    let session = builder.build(0).expect("Failed to construct session");

    assert!(session.started());
}

#[test]
fn open_queue() {
    let mut builder = SessionBuilder::<SimpleEventHandler>::new();
    builder
        .broker_uri(DEFAULT_GATEWAY)
        .timeout(QUEUE_OPERATION_DEFAULT_TIMEOUT_MS)
        .compression_type(CompressionType::Uncompressed);
    let mut session = builder.build(0).expect("Failed to construct session");

    assert_eq!(0, bmq_rs::GenericResult::Success.ordinal());

    let mut queue = session.open_queue("bmq://bmq.tutorial.hello/test-rust", QueueMode::Write);
    queue.timeout(300 * 1000);
    let request = queue.connect(&mut session).expect("connect");
    assert_eq!(request.options, QueueOptions::default());
    assert_eq!(request.timeout_ms, 300000);
    assert_eq!(0, OpenQueueResult::Success.ordinal());
    let handle = session.finish_open(request, 0).expect("open");
    assert_eq!(handle.uri(), "bmq://bmq.tutorial.hello/test-rust");

    let shutdown = session.stop();
    assert!(shutdown.native_stop);
}

#[test]
fn unknown_compression() {
    let mut builder = SessionBuilder::<SimpleEventHandler>::new();
    builder
        .broker_uri(DEFAULT_GATEWAY)
        .timeout(QUEUE_OPERATION_DEFAULT_TIMEOUT_MS)
        .compression_type(CompressionType::Uncompressed);
    let settings = builder.settings();
    assert_eq!(settings.broker_uri, DEFAULT_GATEWAY);
    assert_eq!(settings.compression_type, CompressionType::Uncompressed);
    let _session = builder.build(0);
}
