//! Settings of the relay service, as read from its configuration.

use vstd::prelude::*;

verus! {

/// Logging settings.
pub struct LoggingConfiguration {
    pub level: LogLevelConfiguration,
}

/// The root log level and per-namespace levels.
pub struct LogLevelConfiguration {
    pub root: Option<String>,
    pub directives: Vec<LoggingDirective>,
}

/// The log level of one namespace.
pub struct LoggingDirective {
    pub namespace: String,
    pub level: String,
}

/// The port the HTTP server listens on.
pub struct ServerConfiguration {
    pub port: u16,
}

/// The address of the message queue.
pub struct RabbitMQConfiguration {
    pub ampq_addr: String,
}

} // verus!
