//! A client façade over a message-queue broker session: result codes,
//! errors, event delivery and the session / queue lifecycle.
//!
//! The native session does the network work; this library decides, for
//! every operation, whether the native session is to be asked and what its
//! answer means, and keeps the lifecycle invariants: a session is started
//! on build and stopped once, a queue is opened at most once per URI and
//! mode, and every acknowledgement context is handed back exactly once.
pub mod defaults;
pub mod error;
pub mod event_handler;
pub mod queue;
pub mod results;
pub mod session;

pub use defaults::{BROKER_DEFAULT_URI, QUEUE_OPERATION_DEFAULT_TIMEOUT_MS};
pub use error::BlazingMqError;
pub use event_handler::{
    AckEvent, Event, EventHandler, EventHandlerContext, MessageEvent, SessionEvent, SimpleEventHandler,
};
pub use queue::{Queue, QueueBuilder, QueueMode, QueueOptions};
pub use results::{GenericResult, OpenQueueResult};
pub use session::{
    CompressionType, MessageProperties, OpenQueueRequest, PostRequest, PropertyValue, Session,
    SessionBuilder, SessionSettings, Shutdown,
};
