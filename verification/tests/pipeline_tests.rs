use logstash_rs::{
    Appender, EventBuffer, Level, LogStashRecord, SenderError, TimePrecision, Timestamp,
};

fn record_with_message(message: &str) -> LogStashRecord {
    let mut rec = LogStashRecord::from_record(None, None, None, Level::Info, "t", message);
    rec.set_timestamp(Timestamp::from_parts(2021, 3, 5, 7, 9, 11, 0));
    rec.with_time_precision(TimePrecision::Secs)
}

#[test]
fn buffer_flush_count_matches_threshold() {
    // After N appends with threshold T, exactly floor(N / T) size-triggered
    // flushes happen, and N % T events wait.
    let mut buffer = EventBuffer::new(Some(3), None);
    let mut flushes = 0usize;
    for i in 0..10u32 {
        if let Some(batch) = buffer.append(format!("event {}", i), 0) {
            flushes += 1;
            assert_eq!(batch.len(), 3);
        }
    }
    assert_eq!(flushes, 3);
    assert_eq!(buffer.len(), 1);
}

#[test]
fn buffer_without_threshold_flushes_every_event() {
    let mut buffer = EventBuffer::new(None, None);
    for i in 0..4u32 {
        let batch = buffer.append(format!("e{}", i), 0).unwrap();
        assert_eq!(batch, vec![format!("e{}", i)]);
        assert_eq!(buffer.len(), 0);
    }
}

#[test]
fn buffer_lifetime_flush_on_quiescent_buffer() {
    let mut buffer = EventBuffer::new(Some(1000), Some(100));
    assert!(buffer.append("waiting".to_string(), 0).is_none());
    assert!(buffer.tick(50).is_none());
    assert!(buffer.tick(99).is_none());
    let batch = buffer.tick(100).unwrap();
    assert_eq!(batch, vec!["waiting".to_string()]);
    assert_eq!(buffer.len(), 0);
    // An empty buffer never flushes on time alone.
    assert!(buffer.tick(10_000).is_none());
}

#[test]
fn buffer_lifetime_measured_from_oldest_event() {
    let mut buffer = EventBuffer::new(Some(1000), Some(100));
    assert!(buffer.append("first".to_string(), 0).is_none());
    assert!(buffer.append("second".to_string(), 90).is_none());
    // 100 ms after the oldest event, both go out together, oldest first.
    let batch = buffer.append("third".to_string(), 100).unwrap();
    assert_eq!(
        batch,
        vec!["first".to_string(), "second".to_string(), "third".to_string()]
    );
}

#[test]
fn batch_is_newline_delimited_in_order() {
    let mut appender = Appender::builder()
        .with_buffer_size(Some(3))
        .with_buffer_lifetime(None)
        .build();
    assert!(appender.append(&record_with_message("a"), 0).is_none());
    assert!(appender.append(&record_with_message("b"), 1).is_none());
    let payload = appender.append(&record_with_message("c"), 2).unwrap();
    let lines: Vec<&str> = payload.split_terminator('\n').collect();
    assert_eq!(lines.len(), 3);
    assert!(payload.ends_with('\n'));
    for (line, expected) in lines.iter().zip(["a", "b", "c"]) {
        let v: serde_json::Value = serde_json::from_str(line).unwrap();
        assert_eq!(v["message"], serde_json::Value::from(expected));
    }
}

#[test]
fn three_records_one_flush() {
    // buffer_size = 3; three records flush exactly once, in order a, b, c.
    let mut appender = Appender::builder()
        .with_buffer_size(Some(3))
        .with_buffer_lifetime(None)
        .build();
    let mut payloads: Vec<String> = Vec::new();
    for m in ["a", "b", "c"] {
        if let Some(p) = appender.append(&record_with_message(m), 0) {
            payloads.push(p);
        }
    }
    assert_eq!(payloads.len(), 1);
    let lines: Vec<&str> = payloads[0].split_terminator('\n').collect();
    assert_eq!(lines.len(), 3);
    let messages: Vec<String> = lines
        .iter()
        .map(|l| {
            let v: serde_json::Value = serde_json::from_str(l).unwrap();
            v["message"].as_str().unwrap().to_string()
        })
        .collect();
    assert_eq!(messages, vec!["a", "b", "c"]);
}

#[test]
fn failed_batch_is_discarded_and_next_batch_is_fresh() {
    let mut appender = Appender::builder()
        .with_buffer_size(Some(2))
        .with_buffer_lifetime(None)
        .build();
    assert!(appender.append(&record_with_message("a"), 0).is_none());
    let first = appender.append(&record_with_message("b"), 0).unwrap();
    assert!(first.contains("\"message\":\"a\""));
    // The transport fails to write the batch: the connection is torn down
    // and the batch is dropped, not requeued.
    let err = appender.transport.write_failed(false);
    assert_eq!(err, SenderError::WriteFailed);
    assert!(appender.transport.needs_connect());
    // The next appends start a fresh batch holding only the new events.
    assert!(appender.append(&record_with_message("c"), 0).is_none());
    let second = appender.append(&record_with_message("d"), 0).unwrap();
    assert!(!second.contains("\"message\":\"a\""));
    assert!(!second.contains("\"message\":\"b\""));
    assert!(second.contains("\"message\":\"c\""));
    assert!(second.contains("\"message\":\"d\""));
}

#[test]
fn connect_failure_reports_and_appends_continue() {
    // A closed port surfaces as ConnectTimeout or ConnectFailed, leaves no
    // connection standing, and record appends keep succeeding.
    let mut appender = Appender::builder()
        .with_hostname("127.0.0.1")
        .with_buffer_size(Some(10))
        .build();
    let payload = appender.append(&record_with_message("x"), 0);
    assert!(payload.is_none());
    assert!(appender.transport.needs_connect());
    let err = appender.transport.connect_failed(true);
    assert_eq!(err, SenderError::ConnectTimeout);
    assert!(appender.transport.needs_connect());
    let err = appender.transport.connect_failed(false);
    assert_eq!(err, SenderError::ConnectFailed);
    assert!(appender.transport.needs_connect());
    assert!(appender.append(&record_with_message("y"), 1).is_none());
    assert_eq!(appender.buffer.len(), 2);
}

#[test]
fn transport_connection_lifecycle() {
    let mut appender = Appender::builder().build();
    let transport = &mut appender.transport;
    assert!(transport.needs_connect());
    transport.connect_succeeded();
    assert!(!transport.needs_connect());
    transport.write_succeeded();
    assert!(!transport.needs_connect());
    let err = transport.write_failed(true);
    assert_eq!(err, SenderError::WriteTimeout);
    assert!(transport.needs_connect());
}

#[test]
fn sender_error_messages() {
    assert_eq!(SenderError::ConnectTimeout.message(), "connection timed out");
    assert_eq!(SenderError::ConnectFailed.message(), "connection failed");
    assert_eq!(SenderError::WriteTimeout.message(), "write timed out");
    assert_eq!(SenderError::WriteFailed.message(), "write failed");
    assert_eq!(SenderError::LockFailed.message(), "pipeline lock failed");
}

#[test]
fn appender_filters_below_minimum_severity() {
    let mut appender = Appender::builder()
        .with_level(Some(Level::Info))
        .with_buffer_size(Some(1))
        .build();
    // Too verbose: dropped, nothing buffered, no flush.
    let mut debug_rec = record_with_message("quiet");
    debug_rec.level = Level::Debug;
    assert!(appender.append(&debug_rec, 0).is_none());
    assert_eq!(appender.buffer.len(), 0);
    // Severe enough: with buffer_size 1 it flushes at once.
    let mut error_rec = record_with_message("loud");
    error_rec.level = Level::Error;
    let payload = appender.append(&error_rec, 0).unwrap();
    assert!(payload.contains("\"message\":\"loud\""));
}

#[test]
fn builder_defaults_and_setters() {
    let builder = Appender::builder();
    assert_eq!(builder.level, None);
    assert_eq!(builder.hostname, "127.0.0.1");
    assert_eq!(builder.port, 5044);
    assert_eq!(builder.buffer_size, Some(1024));
    assert_eq!(builder.buffer_lifetime_ms, Some(1000));
    assert_eq!(builder.write_timeout_ms, Some(10_000));
    assert_eq!(builder.connection_timeout_ms, Some(10_000));

    let mut builder = Appender::builder();
    builder
        .with_level(Some(Level::Warn))
        .with_hostname("logs.example")
        .with_port(5000)
        .with_buffer_size(Some(16))
        .with_buffer_lifetime(Some(250))
        .with_write_timeout(Some(2_000))
        .with_connection_timeout(None);
    assert_eq!(builder.level, Some(Level::Warn));
    assert_eq!(builder.hostname, "logs.example");
    assert_eq!(builder.port, 5000);
    assert_eq!(builder.buffer_size, Some(16));
    assert_eq!(builder.buffer_lifetime_ms, Some(250));
    assert_eq!(builder.write_timeout_ms, Some(2_000));
    assert_eq!(builder.connection_timeout_ms, None);

    let appender = builder.build();
    assert_eq!(appender.level, Some(Level::Warn));
    assert_eq!(appender.transport.hostname, "logs.example");
    assert_eq!(appender.transport.port, 5000);
    assert_eq!(appender.transport.write_timeout_ms, Some(2_000));
    assert_eq!(appender.transport.connection_timeout_ms, None);
    assert!(!appender.transport.connected);
    assert_eq!(appender.buffer.len(), 0);
}

#[test]
fn explicit_flush_is_a_no_op() {
    let mut appender = Appender::builder().with_buffer_size(Some(10)).build();
    assert!(appender.append(&record_with_message("kept"), 0).is_none());
    appender.flush();
    assert_eq!(appender.buffer.len(), 1);
}
