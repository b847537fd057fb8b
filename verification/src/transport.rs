//! The transport: connection state, the error taxonomy of delivery, and the
//! newline-delimited wire framing of a batch.
//!
//! The socket itself lives outside this library; the transport here is the
//! decision state the socket's owner drives: when to connect, and what a
//! connect or write outcome does to the connection. A failed connect leaves
//! no connection; a failed or timed-out write tears the connection down, so
//! the next delivery starts with a fresh connect.

use vstd::prelude::*;
use crate::text::push_str_chars;

verus! {

/// Why a delivery failed.
#[derive(Clone, Copy, Debug, PartialEq, Eq, Structural)]
pub enum SenderError {
    /// The connection could not be established within the connect timeout.
    ConnectTimeout,
    /// The connection attempt failed outright.
    ConnectFailed,
    /// The write did not complete within the write timeout.
    WriteTimeout,
    /// The write failed outright.
    WriteFailed,
    /// The shared pipeline state's lock is poisoned or unusable.
    LockFailed,
}

impl SenderError {
    /// A short description, for the best-effort operator side channel.
    pub fn message(&self) -> (r: &'static str)
        ensures
            r@ == self.spec_message(),
    {
        match self {
            SenderError::ConnectTimeout => "connection timed out",
            SenderError::ConnectFailed => "connection failed",
            SenderError::WriteTimeout => "write timed out",
            SenderError::WriteFailed => "write failed",
            SenderError::LockFailed => "pipeline lock failed",
        }
    }

    pub open spec fn spec_message(self) -> Seq<char> {
        match self {
            SenderError::ConnectTimeout => "connection timed out"@,
            SenderError::ConnectFailed => "connection failed"@,
            SenderError::WriteTimeout => "write timed out"@,
            SenderError::WriteFailed => "write failed"@,
            SenderError::LockFailed => "pipeline lock failed"@,
        }
    }
}

/// The state of the TCP delivery leg: the remote endpoint, the two
/// timeouts, and whether a connection currently stands.
pub struct Transport {
    /// Remote collector address.
    pub hostname: String,
    /// Remote collector TCP port.
    pub port: u16,
    /// Max time to establish a connection, in milliseconds; `None` unbounded.
    pub connection_timeout_ms: Option<u64>,
    /// Max time for a single write, in milliseconds; `None` unbounded.
    pub write_timeout_ms: Option<u64>,
    /// Whether a connection stands right now.
    pub connected: bool,
}

impl Transport {
    /// A transport for `hostname:port`, not yet connected.
    pub fn new(
        hostname: String,
        port: u16,
        connection_timeout_ms: Option<u64>,
        write_timeout_ms: Option<u64>,
    ) -> (r: Transport)
        ensures
            r.hostname@ == hostname@,
            r.port == port,
            r.connection_timeout_ms == connection_timeout_ms,
            r.write_timeout_ms == write_timeout_ms,
            !r.connected,
    {
        Transport { hostname, port, connection_timeout_ms, write_timeout_ms, connected: false }
    }

    /// A delivery must open a connection first exactly when none stands.
    pub fn needs_connect(&self) -> (r: bool)
        ensures
            r == !self.connected,
    {
        !self.connected
    }

    /// A connection was established: the transport is connected; nothing
    /// else changes.
    pub fn connect_succeeded(&mut self)
        ensures
            *final(self) == (Transport { connected: true, ..*old(self) }),
    {
        self.connected = true;
    }

    /// A connection attempt failed or timed out: no connection stands, and
    /// the error is `ConnectTimeout` exactly when the attempt timed out.
    pub fn connect_failed(&mut self, timed_out: bool) -> (e: SenderError)
        ensures
            *final(self) == (Transport { connected: false, ..*old(self) }),
            e == if timed_out {
                SenderError::ConnectTimeout
            } else {
                SenderError::ConnectFailed
            },
    {
        self.connected = false;
        if timed_out {
            SenderError::ConnectTimeout
        } else {
            SenderError::ConnectFailed
        }
    }

    /// A write completed: the connection is kept for the next batch.
    pub fn write_succeeded(&mut self)
        ensures
            *final(self) == *old(self),
    {
    }

    /// A write failed or timed out: the connection is torn down, never
    /// reused, and the error is `WriteTimeout` exactly when the write timed
    /// out. The next delivery re-establishes a fresh connection.
    pub fn write_failed(&mut self, timed_out: bool) -> (e: SenderError)
        ensures
            *final(self) == (Transport { connected: false, ..*old(self) }),
            e == if timed_out {
                SenderError::WriteTimeout
            } else {
                SenderError::WriteFailed
            },
    {
        self.connected = false;
        if timed_out {
            SenderError::WriteTimeout
        } else {
            SenderError::WriteFailed
        }
    }
}

/// The wire form of a batch: each event followed by one newline, in batch
/// order, concatenated.
pub open spec fn spec_encode_batch(lines: Seq<Seq<char>>) -> Seq<char>
    decreases lines.len(),
{
    if lines.len() == 0 {
        Seq::<char>::empty()
    } else {
        spec_encode_batch(lines.drop_last()) + lines.last() + seq!['\n']
    }
}

/// Frames a batch for the wire: every event, in order, each followed by one
/// newline, as one payload string.
pub fn encode_batch(batch: &Vec<String>) -> (payload: String)
    ensures
        payload@ == spec_encode_batch(batch@.map_values(|s: String| s@)),
{
    let ghost lines = batch@.map_values(|s: String| s@);
    let mut out: Vec<char> = Vec::new();
    let n = batch.len();
    let mut i: usize = 0;
    while i < n
        invariant
            n == batch.len(),
            lines == batch@.map_values(|s: String| s@),
            i <= n,
            out@ == spec_encode_batch(lines.take(i as int)),
        decreases n - i,
    {
        push_str_chars(&mut out, batch[i].as_str());
        out.push('\n');
        i = i + 1;
        proof {
            assert(lines.take(i as int).drop_last() =~= lines.take(i - 1));
            assert(lines.take(i as int).last() == lines[i - 1]);
            assert(out@ =~= spec_encode_batch(lines.take(i as int)));
        }
    }
    proof {
        assert(lines.take(n as int) =~= lines);
    }
    crate::text::string_from_chars(out)
}

/// Events of one batch reach the wire in the order they were appended: the
/// payload of a batch is the payload of its earlier events followed by the
/// payload of its later events, so no event crosses another.
pub proof fn lemma_encode_batch_order(earlier: Seq<Seq<char>>, later: Seq<Seq<char>>)
    ensures
        spec_encode_batch(earlier + later) == spec_encode_batch(earlier) + spec_encode_batch(
            later,
        ),
    decreases later.len(),
{
    if later.len() == 0 {
        assert(earlier + later =~= earlier);
        assert(spec_encode_batch(earlier) + spec_encode_batch(later) =~= spec_encode_batch(
            earlier,
        ));
    } else {
        lemma_encode_batch_order(earlier, later.drop_last());
        assert((earlier + later).drop_last() =~= earlier + later.drop_last());
        assert((earlier + later).last() == later.last());
        assert(spec_encode_batch(earlier + later) =~= spec_encode_batch(earlier)
            + spec_encode_batch(later));
    }
}

} // verus!
