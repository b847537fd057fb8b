//! A Logstash shipping client: log records are rendered into a fixed-order,
//! newline-delimited JSON wire format, accumulated in a buffer, and handed to
//! a TCP transport in batches bounded by a size threshold and a lifetime.

pub mod appender;
pub mod buffer;
pub mod json;
pub mod level;
pub mod record;
pub mod text;
pub mod timestamp;
pub mod transport;

pub use appender::Appender;
pub use appender::AppenderBuilder;
pub use buffer::EventBuffer;
pub use level::Level;
pub use level::SerializableLevel;
pub use record::LogStashRecord;
pub use timestamp::SerializableDateTime;
pub use timestamp::TimePrecision;
pub use timestamp::Timestamp;
pub use transport::SenderError;
pub use transport::Transport;
