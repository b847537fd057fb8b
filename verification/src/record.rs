//! The canonical log record and its deterministic JSON serialization.
//!
//! A record keeps the fixed fields as struct members and the open-ended
//! extra fields as an ordered key/value table whose values are raw JSON
//! text. Serialization emits the fixed keys first, in a fixed order, then
//! every extra field; an extra field whose key equals a reserved fixed key
//! name is omitted, so fixed keys always take precedence and the output
//! never holds a duplicate key.

use vstd::prelude::*;
use crate::json::{push_json_string, spec_json_string};
use crate::level::Level;
use crate::text::{push_decimal, push_str_chars, spec_decimal, str_eq, string_from_chars};
use crate::timestamp::{push_rfc3339, spec_rfc3339, TimePrecision, Timestamp};

verus! {

/// Whether `k` is one of the six reserved fixed key names.
pub open spec fn spec_is_reserved(k: Seq<char>) -> bool {
    ||| k == "@timestamp"@
    ||| k == "module"@
    ||| k == "file"@
    ||| k == "line"@
    ||| k == "level"@
    ||| k == "target"@
}

/// Whether `k` spells one of the six reserved fixed key names.
pub fn is_reserved_key(k: &str) -> (r: bool)
    ensures
        r == spec_is_reserved(k@),
{
    str_eq(k, "@timestamp") || str_eq(k, "module") || str_eq(k, "file") || str_eq(k, "line")
        || str_eq(k, "level") || str_eq(k, "target")
}

/// One in-memory log event with its fixed fields and its extra fields.
/// An extra-field value is raw JSON text, passed through unchanged.
#[derive(Clone, Debug)]
pub struct LogStashRecord {
    pub timestamp: Timestamp,
    pub module: Option<String>,
    pub file: Option<String>,
    pub line: Option<u32>,
    pub level: Level,
    pub target: String,
    pub time_precision: TimePrecision,
    pub fields: Vec<(String, String)>,
}

/// The first index of `k` among the keys of `fs`, or -1 when absent.
pub open spec fn spec_find_key(fs: Seq<(Seq<char>, Seq<char>)>, k: Seq<char>) -> int
    decreases fs.len(),
{
    if fs.len() == 0 {
        -1
    } else if fs[0].0 == k {
        0
    } else {
        let r = spec_find_key(fs.drop_first(), k);
        if r == -1 {
            -1
        } else {
            r + 1
        }
    }
}

/// Last-write-wins insertion: replaces the value at an existing key, else
/// appends a new entry.
pub open spec fn spec_upsert(
    fs: Seq<(Seq<char>, Seq<char>)>,
    k: Seq<char>,
    v: Seq<char>,
) -> Seq<(Seq<char>, Seq<char>)> {
    if spec_find_key(fs, k) == -1 {
        fs.push((k, v))
    } else {
        fs.update(spec_find_key(fs, k), (k, v))
    }
}

/// `spec_find_key` points at the first entry with key `k`, and at -1 exactly
/// when no entry has key `k`.
pub proof fn lemma_find_key(fs: Seq<(Seq<char>, Seq<char>)>, k: Seq<char>)
    ensures
        spec_find_key(fs, k) == -1 ==> forall|j: int|
            0 <= j < fs.len() ==> (#[trigger] fs[j]).0 != k,
        spec_find_key(fs, k) != -1 ==> {
            &&& 0 <= spec_find_key(fs, k) < fs.len()
            &&& fs[spec_find_key(fs, k)].0 == k
            &&& forall|j: int| 0 <= j < spec_find_key(fs, k) ==> (#[trigger] fs[j]).0 != k
        },
    decreases fs.len(),
{
    if fs.len() > 0 && fs[0].0 != k {
        lemma_find_key(fs.drop_first(), k);
        assert(forall|j: int|
            1 <= j < fs.len() ==> (#[trigger] fs[j]) == fs.drop_first()[j - 1]);
    }
}

impl LogStashRecord {
    /// The extra fields as a sequence of (key, raw JSON value) character
    /// sequences, in table order.
    pub open spec fn fields_view(self) -> Seq<(Seq<char>, Seq<char>)> {
        self.fields@.map_values(|kv: (String, String)| (kv.0@, kv.1@))
    }

    /// Well-formedness: the timestamp fields are in range and the extra-field
    /// keys are pairwise distinct (last write wins on insertion).
    pub open spec fn wf(self) -> bool {
        &&& self.timestamp.wf()
        &&& forall|i: int, j: int|
            0 <= i < j < self.fields_view().len() ==> (#[trigger] self.fields_view()[i]).0 != (
            #[trigger] self.fields_view()[j]).0
    }

    /// Initialize record with current time in `timestamp` field; everything
    /// else takes its safe fallback: no source location, `Warn`, empty
    /// target, millisecond precision, no extra fields.
    pub fn new() -> (r: LogStashRecord)
        ensures
            r.wf(),
            r.module is None,
            r.file is None,
            r.line is None,
            r.level == Level::Warn,
            r.target@ == Seq::<char>::empty(),
            r.time_precision == TimePrecision::Millis,
            r.fields_view() == Seq::<(Seq<char>, Seq<char>)>::empty(),
    {
        let r = LogStashRecord {
            timestamp: Timestamp::now(),
            module: None,
            file: None,
            line: None,
            level: Level::Warn,
            target: String::new(),
            time_precision: TimePrecision::Millis,
            fields: Vec::new(),
        };
        assert(r.fields_view() =~= Seq::<(Seq<char>, Seq<char>)>::empty());
        r
    }

    /// Builds the record for one call of the host logging facade: the given
    /// source location, severity and target, a timestamp of now at
    /// millisecond precision, and the rendered message as the one extra
    /// field `message`, held as JSON string text.
    pub fn from_record(
        module: Option<&str>,
        file: Option<&str>,
        line: Option<u32>,
        level: Level,
        target: &str,
        message: &str,
    ) -> (r: LogStashRecord)
        ensures
            r.wf(),
            (match (r.module, module) {
                (Some(a), Some(b)) => a@ == b@,
                (None, None) => true,
                _ => false,
            }),
            (match (r.file, file) {
                (Some(a), Some(b)) => a@ == b@,
                (None, None) => true,
                _ => false,
            }),
            r.line == line,
            r.level == level,
            r.target@ == target@,
            r.time_precision == TimePrecision::Millis,
            r.fields_view() == seq![("message"@, spec_json_string(message@))],
    {
        let mut event = LogStashRecord::new();
        event.module = match module {
            Some(m) => Some(m.to_owned()),
            None => None,
        };
        event.file = match file {
            Some(f) => Some(f.to_owned()),
            None => None,
        };
        event.line = line;
        event.level = level;
        event.target = target.to_owned();
        event.time_precision = TimePrecision::Millis;
        let mut value: Vec<char> = Vec::new();
        push_json_string(&mut value, message);
        let pair = ("message".to_owned(), string_from_chars(value));
        event.fields.push(pair);
        assert(event.fields_view() =~= seq![("message"@, spec_json_string(message@))]);
        event
    }

    /// Replaces the stored instant; the rendering precision is unchanged.
    pub fn set_timestamp(&mut self, timestamp: Timestamp) -> (r: &mut LogStashRecord)
        ensures
            *final(self) == *final(r),
            *r == (LogStashRecord { timestamp, ..*old(self) }),
    {
        self.timestamp = timestamp;
        self
    }

    /// Inserts an extra field under the collector-routing prefix: the stored
    /// key is `@metadata.` followed by `key`. Last write wins.
    pub fn add_metadata(&mut self, key: &str, value: String) -> (r: &mut LogStashRecord)
        ensures
            *final(self) == *final(r),
            r.fields_view() == spec_upsert(old(self).fields_view(), "@metadata."@ + key@, value@),
            *r == (LogStashRecord { fields: r.fields, ..*old(self) }),
            old(self).wf() ==> r.wf(),
    {
        let full = "@metadata.".to_owned().concat(key);
        self.add_data(full.as_str(), value)
    }

    /// Inserts an extra field, last write wins: an existing entry with the
    /// same key keeps its position and takes the new value, otherwise the
    /// entry is appended. The value is raw JSON text.
    pub fn add_data(&mut self, key: &str, value: String) -> (r: &mut LogStashRecord)
        ensures
            *final(self) == *final(r),
            r.fields_view() == spec_upsert(old(self).fields_view(), key@, value@),
            *r == (LogStashRecord { fields: r.fields, ..*old(self) }),
            old(self).wf() ==> r.wf(),
    {
        proof {
            lemma_find_key(old(self).fields_view(), key@);
        }
        let n = self.fields.len();
        let mut i: usize = 0;
        while i < n
            invariant
                n == self.fields.len(),
                i <= n,
                *self == *old(self),
                forall|j: int| 0 <= j < i ==> (#[trigger] old(self).fields_view()[j]).0 != key@,
            decreases n - i,
        {
            if str_eq(self.fields[i].0.as_str(), key) {
                let pair = (key.to_owned(), value);
                self.fields[i] = pair;
                proof {
                    let fv = old(self).fields_view();
                    lemma_find_key(fv, key@);
                    assert(fv[i as int].0 == key@);
                    let f = spec_find_key(fv, key@);
                    if f == -1 {
                        assert(fv[i as int].0 != key@);
                    } else if f < i {
                        assert(fv[f].0 != key@);
                    } else if f > i {
                        assert(fv[i as int].0 != key@);
                    }
                    assert(f == i);
                    assert(self.fields_view() =~= spec_upsert(fv, key@, value@));
                    if old(self).wf() {
                        assert forall|a: int, b: int|
                            0 <= a < b < self.fields_view().len() implies (
                        #[trigger] self.fields_view()[a]).0 != (
                        #[trigger] self.fields_view()[b]).0 by {
                            assert(self.fields_view()[a].0 == fv[a].0);
                            assert(self.fields_view()[b].0 == fv[b].0);
                            assert(fv[a].0 != fv[b].0);
                        }
                        assert(self.wf());
                    }
                }
                return self;
            }
            i = i + 1;
        }
        let pair = (key.to_owned(), value);
        self.fields.push(pair);
        proof {
            assert(spec_find_key(old(self).fields_view(), key@) == -1);
            assert(self.fields_view() =~= spec_upsert(old(self).fields_view(), key@, value@));
            if old(self).wf() {
                assert forall|a: int, b: int|
                    0 <= a < b < self.fields_view().len() implies (
                #[trigger] self.fields_view()[a]).0 != (#[trigger] self.fields_view()[b]).0 by {
                    if b == self.fields_view().len() - 1 {
                        assert(old(self).fields_view()[a].0 != key@);
                    }
                }
                assert(self.wf());
            }
        }
        self
    }

    /// Folds every entry of `extra_fields` into the record with
    /// [`add_data`](Self::add_data) semantics, first entry first.
    pub fn with_data_from_map(self, extra_fields: &Vec<(String, String)>) -> (r: LogStashRecord)
        ensures
            r.fields_view() == spec_upsert_all(
                self.fields_view(),
                extra_fields@.map_values(|kv: (String, String)| (kv.0@, kv.1@)),
            ),
            r == (LogStashRecord { fields: r.fields, ..self }),
            self.wf() ==> r.wf(),
    {
        let ghost extra = extra_fields@.map_values(|kv: (String, String)| (kv.0@, kv.1@));
        let mut out = self;
        let n = extra_fields.len();
        let mut i: usize = 0;
        while i < n
            invariant
                n == extra_fields.len(),
                extra == extra_fields@.map_values(|kv: (String, String)| (kv.0@, kv.1@)),
                i <= n,
                out.fields_view() == spec_upsert_all(self.fields_view(), extra.take(i as int)),
                out == (LogStashRecord { fields: out.fields, ..self }),
                self.wf() ==> out.wf(),
            decreases n - i,
        {
            let value = extra_fields[i].1.clone();
            out.add_data(extra_fields[i].0.as_str(), value);
            i = i + 1;
            proof {
                assert(extra.take(i as int).drop_last() =~= extra.take(i - 1));
                assert(extra.take(i as int).last() == extra[i - 1]);
            }
        }
        proof {
            assert(extra.take(n as int) =~= extra);
        }
        out
    }

    /// Sets the timestamp rendering precision.
    pub fn with_time_precision(self, time_precision: TimePrecision) -> (r: LogStashRecord)
        ensures
            r == (LogStashRecord { time_precision, ..self }),
    {
        LogStashRecord { time_precision, ..self }
    }
}

/// Folds `extra` into `fs`, first entry first, last write wins.
pub open spec fn spec_upsert_all(
    fs: Seq<(Seq<char>, Seq<char>)>,
    extra: Seq<(Seq<char>, Seq<char>)>,
) -> Seq<(Seq<char>, Seq<char>)>
    decreases extra.len(),
{
    if extra.len() == 0 {
        fs
    } else {
        spec_upsert(spec_upsert_all(fs, extra.drop_last()), extra.last().0, extra.last().1)
    }
}

/// The entry for the `@timestamp` key: the RFC 3339 rendering of the
/// record's instant at its precision, quoted.
pub open spec fn spec_ts_entry(rec: LogStashRecord) -> (Seq<char>, Seq<char>) {
    ("@timestamp"@, seq!['"'] + spec_rfc3339(rec.timestamp, rec.time_precision) + seq!['"'])
}

/// The fixed entries emitted up to and including `module`.
pub open spec fn spec_fixed_upto_module(rec: LogStashRecord) -> Seq<(Seq<char>, Seq<char>)> {
    if rec.module is Some {
        seq![spec_ts_entry(rec)].push(("module"@, spec_json_string(rec.module->Some_0@)))
    } else {
        seq![spec_ts_entry(rec)]
    }
}

/// The fixed entries emitted up to and including `file`.
pub open spec fn spec_fixed_upto_file(rec: LogStashRecord) -> Seq<(Seq<char>, Seq<char>)> {
    if rec.file is Some {
        spec_fixed_upto_module(rec).push(("file"@, spec_json_string(rec.file->Some_0@)))
    } else {
        spec_fixed_upto_module(rec)
    }
}

/// The fixed entries emitted up to and including `line`.
pub open spec fn spec_fixed_upto_line(rec: LogStashRecord) -> Seq<(Seq<char>, Seq<char>)> {
    if rec.line is Some {
        spec_fixed_upto_file(rec).push(("line"@, spec_decimal(rec.line->Some_0 as nat)))
    } else {
        spec_fixed_upto_file(rec)
    }
}

/// The fixed entries of the output object, in their fixed order:
/// `@timestamp`, then `module`, `file` and `line` when set, then `level` and
/// `target`. Each entry is a (key, raw JSON value text) pair.
pub open spec fn spec_fixed_entries(rec: LogStashRecord) -> Seq<(Seq<char>, Seq<char>)> {
    spec_fixed_upto_line(rec).push(("level"@, spec_json_string(rec.level.spec_name()))).push(
        ("target"@, spec_json_string(rec.target@)),
    )
}

/// The extra-field entries that reach the output: the ones whose key is not
/// a reserved fixed key name, in table order.
pub open spec fn spec_data_entries(fs: Seq<(Seq<char>, Seq<char>)>) -> Seq<(Seq<char>, Seq<char>)>
    decreases fs.len(),
{
    if fs.len() == 0 {
        Seq::<(Seq<char>, Seq<char>)>::empty()
    } else {
        spec_data_entries(fs.drop_last()) + (if spec_is_reserved(fs.last().0) {
            Seq::<(Seq<char>, Seq<char>)>::empty()
        } else {
            seq![fs.last()]
        })
    }
}

/// Every entry of the output object, in output order.
pub open spec fn spec_entries(rec: LogStashRecord) -> Seq<(Seq<char>, Seq<char>)> {
    spec_fixed_entries(rec) + spec_data_entries(rec.fields_view())
}

/// The text of one entry: the key as a JSON string, a colon, and the raw
/// value text.
pub open spec fn spec_entry_text(e: (Seq<char>, Seq<char>)) -> Seq<char> {
    spec_json_string(e.0) + seq![':'] + e.1
}

/// The text of a sequence of entries when each is preceded by a comma.
pub open spec fn spec_tail_text(es: Seq<(Seq<char>, Seq<char>)>) -> Seq<char>
    decreases es.len(),
{
    if es.len() == 0 {
        Seq::<char>::empty()
    } else {
        spec_tail_text(es.drop_last()) + seq![','] + spec_entry_text(es.last())
    }
}

/// The comma-separated text of a sequence of entries.
pub open spec fn spec_entries_text(es: Seq<(Seq<char>, Seq<char>)>) -> Seq<char> {
    if es.len() == 0 {
        Seq::<char>::empty()
    } else {
        spec_entry_text(es[0]) + spec_tail_text(es.drop_first())
    }
}

/// The serialized record: a JSON object holding exactly `spec_entries`, in
/// order.
pub open spec fn spec_serialize(rec: LogStashRecord) -> Seq<char> {
    seq!['{'] + spec_entries_text(spec_entries(rec)) + seq!['}']
}

proof fn lemma_entries_text_push(es: Seq<(Seq<char>, Seq<char>)>, e: (Seq<char>, Seq<char>))
    ensures
        spec_entries_text(es.push(e)) == if es.len() == 0 {
            spec_entry_text(e)
        } else {
            spec_entries_text(es) + seq![','] + spec_entry_text(e)
        },
{
    if es.len() == 0 {
        assert(es.push(e)[0] == e);
        assert(es.push(e).drop_first() =~= Seq::<(Seq<char>, Seq<char>)>::empty());
        assert(spec_entries_text(es.push(e)) =~= spec_entry_text(e));
    } else {
        assert(es.push(e)[0] == es[0]);
        assert(es.push(e).drop_first() =~= es.drop_first().push(e));
        assert(es.drop_first().push(e).drop_last() =~= es.drop_first());
        assert(es.drop_first().push(e).last() == e);
        assert(spec_entries_text(es.push(e)) =~= spec_entries_text(es) + seq![',']
            + spec_entry_text(e));
    }
}

/// Appends the text of one entry whose value is a JSON string.
fn push_entry_json_str(out: &mut Vec<char>, key: &str, value: &str)
    ensures
        final(out)@ == old(out)@ + spec_entry_text((key@, spec_json_string(value@))),
{
    push_json_string(out, key);
    out.push(':');
    push_json_string(out, value);
    assert(final(out)@ =~= old(out)@ + spec_entry_text((key@, spec_json_string(value@))));
}

/// Appends the text of one entry whose value is raw JSON text.
fn push_entry_raw(out: &mut Vec<char>, key: &str, value: &str)
    ensures
        final(out)@ == old(out)@ + spec_entry_text((key@, value@)),
{
    push_json_string(out, key);
    out.push(':');
    push_str_chars(out, value);
    assert(final(out)@ =~= old(out)@ + spec_entry_text((key@, value@)));
}

/// Appends the text of one entry whose value is a JSON number.
fn push_entry_decimal(out: &mut Vec<char>, key: &str, n: u32)
    ensures
        final(out)@ == old(out)@ + spec_entry_text((key@, spec_decimal(n as nat))),
{
    push_json_string(out, key);
    out.push(':');
    push_decimal(out, n);
    assert(final(out)@ =~= old(out)@ + spec_entry_text((key@, spec_decimal(n as nat))));
}

/// One proof step of the serializer: appending a comma and one more entry's
/// text extends the rendered entry list by that entry.
proof fn lemma_step(
    base: Seq<char>,
    es: Seq<(Seq<char>, Seq<char>)>,
    e: (Seq<char>, Seq<char>),
    prev: Seq<char>,
    outv: Seq<char>,
)
    requires
        es.len() >= 1,
        prev == base + spec_entries_text(es),
        outv == prev.push(',') + spec_entry_text(e),
    ensures
        outv == base + spec_entries_text(es.push(e)),
{
    lemma_entries_text_push(es, e);
    assert(prev.push(',') =~= prev + seq![',']);
    vstd::seq_lib::lemma_concat_associative(base, spec_entries_text(es), seq![',']);
    vstd::seq_lib::lemma_concat_associative(
        base,
        spec_entries_text(es) + seq![','],
        spec_entry_text(e),
    );
}

impl LogStashRecord {
    /// Appends the text of the `@timestamp` entry.
    fn push_ts_entry(&self, out: &mut Vec<char>)
        ensures
            final(out)@ == old(out)@ + spec_entry_text(spec_ts_entry(*self)),
    {
        push_json_string(out, "@timestamp");
        out.push(':');
        out.push('"');
        push_rfc3339(out, &self.timestamp, self.time_precision);
        out.push('"');
        assert(final(out)@ =~= old(out)@ + spec_entry_text(spec_ts_entry(*self)));
    }

    /// Appends the text of the fixed entries, comma-separated: `@timestamp`,
    /// then `module`, `file` and `line` when set, then `level` and `target`.
    fn push_fixed(&self, out: &mut Vec<char>)
        ensures
            final(out)@ == old(out)@ + spec_entries_text(spec_fixed_entries(*self)),
    {
        let ghost mut emitted: Seq<(Seq<char>, Seq<char>)> = Seq::empty();
        self.push_ts_entry(out);
        proof {
            let e = spec_ts_entry(*self);
            lemma_entries_text_push(emitted, e);
            emitted = emitted.push(e);
            assert(emitted =~= seq![spec_ts_entry(*self)]);
            assert(out@ == old(out)@ + spec_entries_text(emitted));
        }
        if let Some(module) = &self.module {
            let ghost prev = out@;
            out.push(',');
            push_entry_json_str(out, "module", module.as_str());
            proof {
                let e = ("module"@, spec_json_string(self.module->Some_0@));
                lemma_step(old(out)@, emitted, e, prev, out@);
                emitted = emitted.push(e);
            }
        }
        proof {
            assert(emitted == spec_fixed_upto_module(*self));
        }
        if let Some(file) = &self.file {
            let ghost prev = out@;
            out.push(',');
            push_entry_json_str(out, "file", file.as_str());
            proof {
                let e = ("file"@, spec_json_string(self.file->Some_0@));
                lemma_step(old(out)@, emitted, e, prev, out@);
                emitted = emitted.push(e);
            }
        }
        proof {
            assert(emitted == spec_fixed_upto_file(*self));
        }
        if let Some(line) = self.line {
            let ghost prev = out@;
            out.push(',');
            push_entry_decimal(out, "line", line);
            proof {
                let e = ("line"@, spec_decimal(self.line->Some_0 as nat));
                lemma_step(old(out)@, emitted, e, prev, out@);
                emitted = emitted.push(e);
            }
        }
        proof {
            assert(emitted == spec_fixed_upto_line(*self));
        }
        let ghost prev = out@;
        out.push(',');
        push_entry_json_str(out, "level", self.level.as_str());
        proof {
            let e = ("level"@, spec_json_string(self.level.spec_name()));
            lemma_step(old(out)@, emitted, e, prev, out@);
            emitted = emitted.push(e);
        }
        let ghost prev2 = out@;
        out.push(',');
        push_entry_json_str(out, "target", self.target.as_str());
        proof {
            let e = ("target"@, spec_json_string(self.target@));
            lemma_step(old(out)@, emitted, e, prev2, out@);
            emitted = emitted.push(e);
            assert(emitted == spec_fixed_entries(*self));
        }
    }

    /// Serializes the record into its JSON object text: the fixed keys first,
    /// in their fixed order, then every extra field whose key is not a
    /// reserved fixed key name, in table order. Total for every record.
    pub fn serialize(&self) -> (r: String)
        ensures
            r@ == spec_serialize(*self),
    {
        let mut out: Vec<char> = Vec::new();
        out.push('{');
        proof {
            assert(out@ =~= seq!['{']);
        }
        self.push_fixed(&mut out);
        let ghost mut emitted: Seq<(Seq<char>, Seq<char>)> = spec_fixed_entries(*self);
        proof {
            assert(emitted.len() >= 1);
            assert(out@ == seq!['{'] + spec_entries_text(emitted));
            assert(emitted =~= spec_fixed_entries(*self) + spec_data_entries(
                self.fields_view().take(0),
            ));
        }
        let n = self.fields.len();
        let mut i: usize = 0;
        while i < n
            invariant
                n == self.fields.len(),
                i <= n,
                emitted == spec_fixed_entries(*self) + spec_data_entries(
                    self.fields_view().take(i as int),
                ),
                emitted.len() >= 1,
                out@ == seq!['{'] + spec_entries_text(emitted),
            decreases n - i,
        {
            proof {
                assert(self.fields_view().take(i + 1).drop_last() =~= self.fields_view().take(
                    i as int,
                ));
                assert(self.fields_view().take(i + 1).last() == self.fields_view()[i as int]);
            }
            if !is_reserved_key(self.fields[i].0.as_str()) {
                let ghost prev = out@;
                out.push(',');
                push_entry_raw(&mut out, self.fields[i].0.as_str(), self.fields[i].1.as_str());
                proof {
                    let e = self.fields_view()[i as int];
                    lemma_step(seq!['{'], emitted, e, prev, out@);
                    emitted = emitted.push(e);
                    assert(emitted =~= spec_fixed_entries(*self) + spec_data_entries(
                        self.fields_view().take(i + 1),
                    ));
                }
            } else {
                proof {
                    assert(emitted =~= spec_fixed_entries(*self) + spec_data_entries(
                        self.fields_view().take(i + 1),
                    ));
                }
            }
            i = i + 1;
        }
        proof {
            assert(self.fields_view().take(n as int) =~= self.fields_view());
        }
        let ghost done = out@;
        out.push('}');
        proof {
            assert(out@ =~= done + seq!['}']);
            vstd::seq_lib::lemma_concat_associative(
                seq!['{'],
                spec_entries_text(spec_entries(*self)),
                seq!['}'],
            );
        }
        assert(out@ == spec_serialize(*self));
        crate::text::string_from_chars(out)
    }
}

/// The keys of the output object, in output order.
pub open spec fn spec_entry_keys(rec: LogStashRecord) -> Seq<Seq<char>> {
    spec_entries(rec).map_values(|e: (Seq<char>, Seq<char>)| e.0)
}

/// Whether `k` is one of the fixed keys that are set on `rec`.
pub open spec fn spec_fixed_key_set(rec: LogStashRecord, k: Seq<char>) -> bool {
    ||| k == "@timestamp"@
    ||| (rec.module is Some && k == "module"@)
    ||| (rec.file is Some && k == "file"@)
    ||| (rec.line is Some && k == "line"@)
    ||| k == "level"@
    ||| k == "target"@
}

/// Whether `k` is the key of some extra field of `rec`.
pub open spec fn spec_has_field_key(rec: LogStashRecord, k: Seq<char>) -> bool {
    exists|i: int| 0 <= i < rec.fields_view().len() && (#[trigger] rec.fields_view()[i]).0 == k
}

/// The entries that reach the output from the extra fields are exactly the
/// non-reserved ones.
proof fn lemma_data_entries_membership(fs: Seq<(Seq<char>, Seq<char>)>)
    ensures
        forall|e: (Seq<char>, Seq<char>)| #[trigger] spec_data_entries(fs).contains(e) ==> (
        fs.contains(e) && !spec_is_reserved(e.0)),
        forall|i: int|
            0 <= i < fs.len() && !spec_is_reserved((#[trigger] fs[i]).0) ==> spec_data_entries(
                fs,
            ).contains(fs[i]),
    decreases fs.len(),
{
    if fs.len() > 0 {
        lemma_data_entries_membership(fs.drop_last());
        let d = spec_data_entries(fs);
        let dp = spec_data_entries(fs.drop_last());
        assert forall|e: (Seq<char>, Seq<char>)| #[trigger] d.contains(e) implies (fs.contains(e)
            && !spec_is_reserved(e.0)) by {
            let j = choose|j: int| 0 <= j < d.len() && d[j] == e;
            if j < dp.len() {
                assert(dp[j] == e);
                assert(dp.contains(e));
                let m = choose|m: int| 0 <= m < fs.drop_last().len() && fs.drop_last()[m] == e;
                assert(fs[m] == e);
            } else {
                assert(e == fs.last());
                assert(fs[fs.len() - 1] == e);
            }
        }
        assert forall|i: int|
            0 <= i < fs.len() && !spec_is_reserved((#[trigger] fs[i]).0) implies d.contains(
            fs[i],
        ) by {
            if i < fs.len() - 1 {
                assert(fs.drop_last()[i] == fs[i]);
                assert(dp.contains(fs[i]));
                let m = choose|m: int| 0 <= m < dp.len() && dp[m] == fs[i];
                assert(d[m] == fs[i]);
            } else {
                assert(d[d.len() - 1] == fs[i]);
            }
        }
    }
}

/// Distinct extra-field keys stay distinct in the output entries.
proof fn lemma_data_entries_distinct(fs: Seq<(Seq<char>, Seq<char>)>)
    requires
        forall|i: int, j: int|
            0 <= i < j < fs.len() ==> (#[trigger] fs[i]).0 != (#[trigger] fs[j]).0,
    ensures
        forall|i: int, j: int|
            0 <= i < j < spec_data_entries(fs).len() ==> (#[trigger] spec_data_entries(
                fs,
            )[i]).0 != (#[trigger] spec_data_entries(fs)[j]).0,
    decreases fs.len(),
{
    if fs.len() > 0 {
        assert(forall|i: int|
            0 <= i < fs.drop_last().len() ==> #[trigger] fs.drop_last()[i] == fs[i]);
        lemma_data_entries_distinct(fs.drop_last());
        lemma_data_entries_membership(fs.drop_last());
        let d = spec_data_entries(fs);
        let dp = spec_data_entries(fs.drop_last());
        assert forall|i: int, j: int| 0 <= i < j < d.len() implies (#[trigger] d[i]).0 != (
        #[trigger] d[j]).0 by {
            if j < dp.len() {
                assert(d[i] == dp[i] && d[j] == dp[j]);
            } else if j == dp.len() && d.len() == dp.len() + 1 {
                assert(d[j] == fs.last());
                assert(d[i] == dp[i]);
                assert(dp.contains(dp[i]));
                let m = choose|m: int| 0 <= m < fs.drop_last().len() && fs.drop_last()[m] == dp[i];
                assert(fs[m] == dp[i]);
                assert(fs[m].0 != fs[fs.len() - 1].0);
            }
        }
    }
}

/// What the serialized object holds, and what parsing it back yields: its
/// key sequence has no duplicate, and its key set is exactly the fixed keys
/// that are set together with the non-reserved extra-field keys. A reserved
/// extra-field key never reaches the output: the fixed keys take precedence.
#[verifier::rlimit(100)]
pub proof fn lemma_serialized_keys(rec: LogStashRecord)
    requires
        rec.wf(),
    ensures
        forall|k: Seq<char>| #[trigger] spec_entry_keys(rec).contains(k) <==> (spec_fixed_key_set(
            rec,
            k,
        ) || (spec_has_field_key(rec, k) && !spec_is_reserved(k))),
        forall|i: int, j: int|
            0 <= i < j < spec_entry_keys(rec).len() ==> spec_entry_keys(rec)[i]
                != spec_entry_keys(rec)[j],
{
    reveal_strlit("@timestamp");
    reveal_strlit("module");
    reveal_strlit("file");
    reveal_strlit("line");
    reveal_strlit("level");
    reveal_strlit("target");
    assert("file"@[0] == 'f' && "line"@[0] == 'l');
    assert("module"@[0] == 'm' && "target"@[0] == 't');
    assert("@timestamp"@.len() == 10 && "module"@.len() == 6 && "file"@.len() == 4
        && "line"@.len() == 4 && "level"@.len() == 5 && "target"@.len() == 6);
    assert("@timestamp"@ != "module"@);
    assert("@timestamp"@ != "file"@);
    assert("@timestamp"@ != "line"@);
    assert("@timestamp"@ != "level"@);
    assert("@timestamp"@ != "target"@);
    assert("module"@ != "file"@);
    assert("module"@ != "line"@);
    assert("module"@ != "level"@);
    assert("module"@ != "target"@);
    assert("file"@ != "line"@);
    assert("file"@ != "level"@);
    assert("file"@ != "target"@);
    assert("line"@ != "level"@);
    assert("line"@ != "target"@);
    assert("level"@ != "target"@);
    let fv = rec.fields_view();
    let fx = spec_fixed_entries(rec);
    let d = spec_data_entries(fv);
    let es = spec_entries(rec);
    let keys = spec_entry_keys(rec);
    lemma_data_entries_membership(fv);
    lemma_data_entries_distinct(fv);
    assert(forall|i: int| 0 <= i < fx.len() ==> #[trigger] es[i] == fx[i]);
    assert(forall|i: int|
        fx.len() <= i < es.len() ==> #[trigger] es[i] == d[i - fx.len()]);
    // Every fixed entry's key is reserved, is a set fixed key, and the
    // fixed keys are pairwise distinct.
    assert(forall|i: int|
        0 <= i < fx.len() ==> spec_is_reserved((#[trigger] fx[i]).0) && spec_fixed_key_set(
            rec,
            fx[i].0,
        ));
    assert forall|i: int, j: int|
        0 <= i < j < fx.len() implies (#[trigger] fx[i]).0 != (#[trigger] fx[j]).0 by {
        let e_ts = spec_ts_entry(rec);
        let e_mod = ("module"@, spec_json_string(rec.module->Some_0@));
        let e_file = ("file"@, spec_json_string(rec.file->Some_0@));
        let e_line = ("line"@, spec_decimal(rec.line->Some_0 as nat));
        let e_level = ("level"@, spec_json_string(rec.level.spec_name()));
        let e_tgt = ("target"@, spec_json_string(rec.target@));
        if rec.module is Some {
            if rec.file is Some {
                if rec.line is Some {
                    assert(fx =~= seq![e_ts, e_mod, e_file, e_line, e_level, e_tgt]);
                } else {
                    assert(fx =~= seq![e_ts, e_mod, e_file, e_level, e_tgt]);
                }
            } else {
                if rec.line is Some {
                    assert(fx =~= seq![e_ts, e_mod, e_line, e_level, e_tgt]);
                } else {
                    assert(fx =~= seq![e_ts, e_mod, e_level, e_tgt]);
                }
            }
        } else {
            if rec.file is Some {
                if rec.line is Some {
                    assert(fx =~= seq![e_ts, e_file, e_line, e_level, e_tgt]);
                } else {
                    assert(fx =~= seq![e_ts, e_file, e_level, e_tgt]);
                }
            } else {
                if rec.line is Some {
                    assert(fx =~= seq![e_ts, e_line, e_level, e_tgt]);
                } else {
                    assert(fx =~= seq![e_ts, e_level, e_tgt]);
                }
            }
        }
    }
    // Every set fixed key stands at some fixed entry.
    assert forall|k: Seq<char>| spec_fixed_key_set(rec, k) implies exists|i: int|
        0 <= i < fx.len() && (#[trigger] fx[i]).0 == k by {
        if k == "@timestamp"@ {
            assert(fx[0].0 == k);
        } else if rec.module is Some && k == "module"@ {
            assert(fx[1].0 == k);
        } else if k == "level"@ {
            assert(fx[fx.len() - 2].0 == k);
        } else if k == "target"@ {
            assert(fx[fx.len() - 1].0 == k);
        } else if rec.file is Some && k == "file"@ {
            if rec.module is Some {
                assert(fx[2].0 == k);
            } else {
                assert(fx[1].0 == k);
            }
        } else if rec.line is Some && k == "line"@ {
            assert(fx[spec_fixed_upto_line(rec).len() - 1].0 == k);
        }
    }
    // Membership, both directions.
    assert forall|k: Seq<char>| #[trigger] keys.contains(k) implies (spec_fixed_key_set(rec, k)
        || (spec_has_field_key(rec, k) && !spec_is_reserved(k))) by {
        let i = choose|i: int| 0 <= i < keys.len() && keys[i] == k;
        assert(es[i].0 == k);
        if i >= fx.len() {
            let e = d[i - fx.len()];
            assert(d.contains(e));
            assert(fv.contains(e));
            let m = choose|m: int| 0 <= m < fv.len() && fv[m] == e;
        }
    }
    assert forall|k: Seq<char>| (spec_fixed_key_set(rec, k) || (spec_has_field_key(rec, k)
        && !spec_is_reserved(k))) implies #[trigger] keys.contains(k) by {
        if spec_fixed_key_set(rec, k) {
            let i = choose|i: int| 0 <= i < fx.len() && fx[i].0 == k;
            assert(keys[i] == k);
        } else {
            let m = choose|m: int| 0 <= m < fv.len() && (#[trigger] fv[m]).0 == k;
            assert(d.contains(fv[m]));
            let j = choose|j: int| 0 <= j < d.len() && d[j] == fv[m];
            assert(keys[fx.len() + j] == k);
        }
    }
    // No duplicate key in the output.
    assert forall|i: int, j: int| 0 <= i < j < keys.len() implies keys[i] != keys[j] by {
        if i < fx.len() && j >= fx.len() {
            let e = d[j - fx.len()];
            assert(d.contains(e));
            assert(!spec_is_reserved(e.0));
            assert(spec_is_reserved(fx[i].0));
        }
    }
}

impl Default for LogStashRecord {
    /// The record a fresh log call starts from: the current instant and the
    /// safe fallbacks for every other field.
    fn default() -> (r: LogStashRecord)
        ensures
            r.wf(),
            r.module is None,
            r.file is None,
            r.line is None,
            r.level == Level::Warn,
            r.target@ == Seq::<char>::empty(),
            r.time_precision == TimePrecision::Millis,
            r.fields_view() == Seq::<(Seq<char>, Seq<char>)>::empty(),
    {
        LogStashRecord::new()
    }
}

} // verus!
