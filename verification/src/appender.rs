//! The appender: one record per log call goes in, and whole framed batches
//! come out for the transport to write.

use vstd::prelude::*;
use crate::buffer::{spec_size_due, spec_time_due, EventBuffer};
use crate::level::Level;
use crate::record::{spec_serialize, LogStashRecord};
use crate::transport::{encode_batch, spec_encode_batch, Transport};

verus! {

/// Configuration of an [`Appender`], with the documented defaults. Times
/// are in milliseconds.
pub struct AppenderBuilder {
    /// Minimum severity this sink accepts; `None` accepts all.
    pub level: Option<Level>,
    /// Remote collector address.
    pub hostname: String,
    /// Remote collector TCP port.
    pub port: u16,
    /// Event-count flush threshold; `None` flushes on every record.
    pub buffer_size: Option<usize>,
    /// Time-based flush threshold; `None` disables it.
    pub buffer_lifetime_ms: Option<u64>,
    /// Max time for a single write; `None` unbounded.
    pub write_timeout_ms: Option<u64>,
    /// Max time to establish a connection; `None` unbounded.
    pub connection_timeout_ms: Option<u64>,
}

/// The documented default configuration, as a predicate on a builder.
pub open spec fn spec_default_builder(b: AppenderBuilder) -> bool {
    &&& b.level is None
    &&& b.hostname@ == "127.0.0.1"@
    &&& b.port == 5044
    &&& b.buffer_size == Some(1024usize)
    &&& b.buffer_lifetime_ms == Some(1000u64)
    &&& b.write_timeout_ms == Some(10000u64)
    &&& b.connection_timeout_ms == Some(10000u64)
}

impl Default for AppenderBuilder {
    fn default() -> (r: AppenderBuilder)
        ensures
            spec_default_builder(r),
    {
        AppenderBuilder {
            level: None,
            hostname: "127.0.0.1".to_owned(),
            port: 5044,
            buffer_size: Some(1024),
            buffer_lifetime_ms: Some(1000),
            write_timeout_ms: Some(10000),
            connection_timeout_ms: Some(10000),
        }
    }
}

impl AppenderBuilder {
    /// Sets threshold for this logger to level.
    pub fn with_level(&mut self, level: Option<Level>) -> (r: &mut AppenderBuilder)
        ensures
            *final(self) == *final(r),
            *r == (AppenderBuilder { level, ..*old(self) }),
    {
        self.level = level;
        self
    }

    /// Sets the hostname of the remote server.
    pub fn with_hostname(&mut self, hostname: &str) -> (r: &mut AppenderBuilder)
        ensures
            *final(self) == *final(r),
            r.hostname@ == hostname@,
            *r == (AppenderBuilder { hostname: r.hostname, ..*old(self) }),
    {
        self.hostname = hostname.to_owned();
        self
    }

    /// Sets the port of the remote server.
    pub fn with_port(&mut self, port: u16) -> (r: &mut AppenderBuilder)
        ensures
            *final(self) == *final(r),
            *r == (AppenderBuilder { port, ..*old(self) }),
    {
        self.port = port;
        self
    }

    /// Sets the upper bound on the number of records that can be placed in
    /// the buffer; once this size has been reached, the buffer is sent to
    /// the remote server. `None` sends every record at once.
    pub fn with_buffer_size(&mut self, buffer_size: Option<usize>) -> (r: &mut AppenderBuilder)
        ensures
            *final(self) == *final(r),
            *r == (AppenderBuilder { buffer_size, ..*old(self) }),
    {
        self.buffer_size = buffer_size;
        self
    }

    /// Sets the maximum lifetime, in milliseconds, of the buffer before it
    /// is sent to the remote server.
    pub fn with_buffer_lifetime(&mut self, buffer_duration_ms: Option<u64>) -> (r:
        &mut AppenderBuilder)
        ensures
            *final(self) == *final(r),
            *r == (AppenderBuilder { buffer_lifetime_ms: buffer_duration_ms, ..*old(self) }),
    {
        self.buffer_lifetime_ms = buffer_duration_ms;
        self
    }

    /// Sets the timeout, in milliseconds, for write operations.
    pub fn with_write_timeout(&mut self, timeout_ms: Option<u64>) -> (r: &mut AppenderBuilder)
        ensures
            *final(self) == *final(r),
            *r == (AppenderBuilder { write_timeout_ms: timeout_ms, ..*old(self) }),
    {
        self.write_timeout_ms = timeout_ms;
        self
    }

    /// Sets the timeout, in milliseconds, for network connections.
    pub fn with_connection_timeout(&mut self, timeout_ms: Option<u64>) -> (r:
        &mut AppenderBuilder)
        ensures
            *final(self) == *final(r),
            *r == (AppenderBuilder { connection_timeout_ms: timeout_ms, ..*old(self) }),
    {
        self.connection_timeout_ms = timeout_ms;
        self
    }

    /// Invoke the builder and return an [`Appender`] wired with this
    /// configuration: an empty buffer and a transport that is not yet
    /// connected.
    pub fn build(&self) -> (r: Appender)
        ensures
            r.level == self.level,
            r.buffer.wf(),
            r.buffer.view_events() == Seq::<Seq<char>>::empty(),
            r.buffer.spec_buffer_size() == self.buffer_size,
            r.buffer.spec_buffer_lifetime_ms() == self.buffer_lifetime_ms,
            r.transport.hostname@ == self.hostname@,
            r.transport.port == self.port,
            r.transport.connection_timeout_ms == self.connection_timeout_ms,
            r.transport.write_timeout_ms == self.write_timeout_ms,
            !r.transport.connected,
    {
        Appender {
            level: self.level,
            buffer: EventBuffer::new(self.buffer_size, self.buffer_lifetime_ms),
            transport: Transport::new(
                self.hostname.clone(),
                self.port,
                self.connection_timeout_ms,
                self.write_timeout_ms,
            ),
        }
    }
}

/// The buffered delivery pipeline behind one sink: a severity filter, the
/// event buffer, and the transport state. Whoever owns it serializes access
/// (one append-or-flush at a time) and performs the socket work the
/// [`Transport`](crate::transport::Transport) decisions call for.
pub struct Appender {
    /// Minimum severity this sink accepts; `None` accepts all.
    pub level: Option<Level>,
    /// The batch under accumulation.
    pub buffer: EventBuffer,
    /// The delivery leg's state.
    pub transport: Transport,
}

impl Appender {
    pub fn builder() -> (r: AppenderBuilder)
        ensures
            spec_default_builder(r),
    {
        AppenderBuilder::default()
    }

    /// Takes one record at time `now_ms`: a record below the accepted
    /// severity is dropped; any other is serialized and buffered. When this
    /// append reaches the size threshold (or an event has outlived the
    /// buffer lifetime), the whole batch — every buffered event followed by
    /// this one, in append order — comes back framed for the wire, and the
    /// buffer starts empty again. Whatever the transport later does with
    /// the payload, nothing of the batch stays behind.
    pub fn append(&mut self, record: &LogStashRecord, now_ms: u64) -> (payload: Option<String>)
        requires
            old(self).buffer.wf(),
        ensures
            final(self).buffer.wf(),
            final(self).level == old(self).level,
            final(self).transport == old(self).transport,
            final(self).buffer.spec_buffer_size() == old(self).buffer.spec_buffer_size(),
            final(self).buffer.spec_buffer_lifetime_ms() == old(
                self,
            ).buffer.spec_buffer_lifetime_ms(),
            !record.level.spec_passes(old(self).level) ==> payload is None && *final(self) == *old(
                self,
            ),
            record.level.spec_passes(old(self).level) ==> ({
                let line = spec_serialize(*record);
                let due = spec_size_due(
                    old(self).buffer.spec_buffer_size(),
                    old(self).buffer.view_events().len() + 1,
                ) || spec_time_due(
                    old(self).buffer.spec_buffer_lifetime_ms(),
                    if old(self).buffer.spec_oldest_ms() is Some {
                        old(self).buffer.spec_oldest_ms()
                    } else {
                        Some(now_ms)
                    },
                    now_ms,
                );
                if due {
                    &&& payload matches Some(p) && p@ == spec_encode_batch(
                        old(self).buffer.view_events().push(line),
                    )
                    &&& final(self).buffer.view_events() == Seq::<Seq<char>>::empty()
                } else {
                    &&& payload is None
                    &&& final(self).buffer.view_events() == old(self).buffer.view_events().push(
                        line,
                    )
                }
            }),
    {
        if !record.level.passes(self.level) {
            return None;
        }
        let line = record.serialize();
        match self.buffer.append(line, now_ms) {
            Some(batch) => Some(encode_batch(&batch)),
            None => None,
        }
    }

    /// The periodic lifetime check: when an event has waited at least the
    /// buffer lifetime, the whole batch comes back framed for the wire, in
    /// append order, and the buffer starts empty again.
    pub fn tick(&mut self, now_ms: u64) -> (payload: Option<String>)
        requires
            old(self).buffer.wf(),
        ensures
            final(self).buffer.wf(),
            final(self).level == old(self).level,
            final(self).transport == old(self).transport,
            final(self).buffer.spec_buffer_size() == old(self).buffer.spec_buffer_size(),
            final(self).buffer.spec_buffer_lifetime_ms() == old(
                self,
            ).buffer.spec_buffer_lifetime_ms(),
            if spec_time_due(
                old(self).buffer.spec_buffer_lifetime_ms(),
                old(self).buffer.spec_oldest_ms(),
                now_ms,
            ) {
                &&& payload matches Some(p) && p@ == spec_encode_batch(
                    old(self).buffer.view_events(),
                )
                &&& final(self).buffer.view_events() == Seq::<Seq<char>>::empty()
            } else {
                &&& payload is None
                &&& *final(self) == *old(self)
            },
    {
        match self.buffer.tick(now_ms) {
            Some(batch) => Some(encode_batch(&batch)),
            None => None,
        }
    }

    /// Explicit flush is a no-op: delivery is driven by the size threshold
    /// and the buffer lifetime alone.
    pub fn flush(&self) {
    }
}

} // verus!
