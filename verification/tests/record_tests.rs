use logstash_rs::{Level, LogStashRecord, SerializableDateTime, TimePrecision, Timestamp};

fn fixed_timestamp() -> Timestamp {
    Timestamp::from_parts(2021, 3, 5, 7, 9, 11, 123_456_789)
}

fn base_record() -> LogStashRecord {
    let mut rec = LogStashRecord::new();
    rec.set_timestamp(fixed_timestamp());
    rec
}

#[test]
fn timestamp_precision_digit_counts() {
    let ts = fixed_timestamp();
    let secs = SerializableDateTime::new(ts, TimePrecision::Secs).serialize();
    let millis = SerializableDateTime::new(ts, TimePrecision::Millis).serialize();
    let micros = SerializableDateTime::new(ts, TimePrecision::Micros).serialize();
    let nanos = SerializableDateTime::new(ts, TimePrecision::Nanos).serialize();
    assert_eq!(secs, "2021-03-05T07:09:11Z");
    assert_eq!(millis, "2021-03-05T07:09:11.123Z");
    assert_eq!(micros, "2021-03-05T07:09:11.123456Z");
    assert_eq!(nanos, "2021-03-05T07:09:11.123456789Z");
    // The non-fractional prefix is the same at every precision.
    for s in [&secs, &millis, &micros, &nanos] {
        assert_eq!(&s[..19], "2021-03-05T07:09:11");
        assert!(s.ends_with('Z'));
    }
    // Fractional digit counts are 0, 3, 6, 9.
    assert_eq!(secs.len(), 20);
    assert_eq!(millis.len(), 24);
    assert_eq!(micros.len(), 27);
    assert_eq!(nanos.len(), 30);
}

#[test]
fn timestamp_zero_padding() {
    let ts = Timestamp::from_parts(33, 1, 2, 3, 4, 5, 6);
    let s = SerializableDateTime::new(ts, TimePrecision::Nanos).serialize();
    assert_eq!(s, "0033-01-02T03:04:05.000000006Z");
}

#[test]
fn timestamp_clamping() {
    let high = Timestamp::from_parts(12000, 12, 31, 23, 59, 59, 999_999_999);
    assert_eq!(high.year, 9999);
    let low = Timestamp::from_parts(-50, 1, 1, 0, 0, 0, 0);
    assert_eq!(low.year, 0);
    let leap = Timestamp::from_parts(2016, 12, 31, 23, 59, 59, 1_500_000_000);
    assert_eq!(leap.nanos, 999_999_999);
}

#[test]
fn serialize_minimal_record_exact() {
    let rec = base_record().with_time_precision(TimePrecision::Secs);
    let out = rec.serialize();
    assert_eq!(
        out,
        "{\"@timestamp\":\"2021-03-05T07:09:11Z\",\"level\":\"WARN\",\"target\":\"\"}"
    );
}

#[test]
fn serialize_full_record_exact() {
    let mut rec = LogStashRecord::from_record(
        Some("my::module"),
        Some("src/my.rs"),
        Some(42),
        Level::Info,
        "app",
        "hello",
    );
    rec.set_timestamp(fixed_timestamp());
    let out = rec.serialize();
    assert_eq!(
        out,
        "{\"@timestamp\":\"2021-03-05T07:09:11.123Z\",\"module\":\"my::module\",\
         \"file\":\"src/my.rs\",\"line\":42,\"level\":\"INFO\",\"target\":\"app\",\
         \"message\":\"hello\"}"
    );
}

#[test]
fn optional_keys_all_combinations() {
    for mask in 0..8u32 {
        let module = if mask & 1 != 0 { Some("m") } else { None };
        let file = if mask & 2 != 0 { Some("f.rs") } else { None };
        let line = if mask & 4 != 0 { Some(7u32) } else { None };
        let mut rec = LogStashRecord::from_record(module, file, line, Level::Error, "t", "x");
        rec.set_timestamp(fixed_timestamp());
        let out = rec.serialize();
        assert_eq!(out.contains("\"module\":"), module.is_some(), "mask {}", mask);
        assert_eq!(out.contains("\"file\":"), file.is_some(), "mask {}", mask);
        assert_eq!(out.contains("\"line\":"), line.is_some(), "mask {}", mask);
        // Never emitted as null.
        assert!(!out.contains("null"), "mask {}", mask);
        let v: serde_json::Value = serde_json::from_str(&out).unwrap();
        let obj = v.as_object().unwrap();
        let mut expected = 4usize;
        if module.is_some() {
            expected += 1;
        }
        if file.is_some() {
            expected += 1;
        }
        if line.is_some() {
            expected += 1;
        }
        assert_eq!(obj.len(), expected, "mask {}", mask);
    }
}

#[test]
fn round_trip_key_set() {
    let mut rec = base_record();
    rec.add_data("answer", "42".to_string());
    rec.add_data("flag", "true".to_string());
    rec.add_metadata("beat", "\"probe\"".to_string());
    let out = rec.serialize();
    let v: serde_json::Value = serde_json::from_str(&out).unwrap();
    let obj = v.as_object().unwrap();
    let mut keys: Vec<&str> = obj.keys().map(|k| k.as_str()).collect();
    keys.sort();
    assert_eq!(
        keys,
        vec!["@metadata.beat", "@timestamp", "answer", "flag", "level", "target"]
    );
    assert_eq!(obj["answer"], serde_json::Value::from(42u64));
    assert_eq!(obj["flag"], serde_json::Value::from(true));
    assert_eq!(obj["@metadata.beat"], serde_json::Value::from("probe"));
}

#[test]
fn reserved_field_keys_are_not_emitted() {
    let mut rec = base_record();
    rec.add_data("level", "\"SHOUTED\"".to_string());
    rec.add_data("@timestamp", "\"1970-01-01T00:00:00Z\"".to_string());
    rec.add_data("kept", "1".to_string());
    let out = rec.serialize();
    // The fixed keys take precedence: each reserved key appears exactly once.
    assert_eq!(out.matches("\"level\":").count(), 1);
    assert_eq!(out.matches("\"@timestamp\":").count(), 1);
    assert!(!out.contains("SHOUTED"));
    let v: serde_json::Value = serde_json::from_str(&out).unwrap();
    assert_eq!(v["level"], serde_json::Value::from("WARN"));
    assert_eq!(v["kept"], serde_json::Value::from(1u64));
}

#[test]
fn message_escaping_round_trips() {
    let message = "a \"quoted\" path C:\\temp\nnext\tline \u{1} end";
    let mut rec = LogStashRecord::from_record(None, None, None, Level::Debug, "t", message);
    rec.set_timestamp(fixed_timestamp());
    let out = rec.serialize();
    let v: serde_json::Value = serde_json::from_str(&out).unwrap();
    assert_eq!(v["message"], serde_json::Value::from(message));
}

#[test]
fn add_data_last_write_wins() {
    let mut rec = base_record();
    rec.add_data("k", "1".to_string());
    rec.add_data("other", "2".to_string());
    rec.add_data("k", "3".to_string());
    let out = rec.serialize();
    let v: serde_json::Value = serde_json::from_str(&out).unwrap();
    assert_eq!(v["k"], serde_json::Value::from(3u64));
    assert_eq!(v["other"], serde_json::Value::from(2u64));
    // The entry kept its position and was not duplicated.
    assert_eq!(out.matches("\"k\":").count(), 1);
    let k_pos = out.find("\"k\":").unwrap();
    let other_pos = out.find("\"other\":").unwrap();
    assert!(k_pos < other_pos);
}

#[test]
fn with_data_from_map_merges() {
    let mut rec = base_record();
    rec.add_data("a", "1".to_string());
    let extra = vec![
        ("b".to_string(), "2".to_string()),
        ("a".to_string(), "9".to_string()),
    ];
    let rec = rec.with_data_from_map(&extra);
    let out = rec.serialize();
    let v: serde_json::Value = serde_json::from_str(&out).unwrap();
    assert_eq!(v["a"], serde_json::Value::from(9u64));
    assert_eq!(v["b"], serde_json::Value::from(2u64));
}

#[test]
fn new_record_has_current_time_and_defaults() {
    let rec = LogStashRecord::new();
    assert!(rec.module.is_none());
    assert!(rec.file.is_none());
    assert!(rec.line.is_none());
    assert_eq!(rec.level, Level::Warn);
    assert_eq!(rec.target, "");
    assert!(rec.fields.is_empty());
    let out = rec.serialize();
    let v: serde_json::Value = serde_json::from_str(&out).unwrap();
    let ts = v["@timestamp"].as_str().unwrap();
    // Millisecond precision by default: 19-character prefix, dot, 3 digits, Z.
    assert_eq!(ts.len(), 24);
    assert_eq!(ts.as_bytes()[19], b'.');
    assert!(ts.ends_with('Z'));
    assert!(ts.starts_with("20"));
}

#[test]
fn level_names() {
    assert_eq!(Level::Error.as_str(), "ERROR");
    assert_eq!(Level::Warn.as_str(), "WARN");
    assert_eq!(Level::Info.as_str(), "INFO");
    assert_eq!(Level::Debug.as_str(), "DEBUG");
    assert_eq!(Level::Trace.as_str(), "TRACE");
    let s = logstash_rs::SerializableLevel::from(Level::Trace);
    assert_eq!(s.as_str(), "TRACE");
}

#[test]
fn level_filtering() {
    assert!(Level::Error.passes(None));
    assert!(Level::Trace.passes(None));
    assert!(Level::Error.passes(Some(Level::Info)));
    assert!(Level::Info.passes(Some(Level::Info)));
    assert!(!Level::Debug.passes(Some(Level::Info)));
    assert!(!Level::Trace.passes(Some(Level::Error)));
}
