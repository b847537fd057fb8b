//! The event buffer: accumulates serialized events and decides when the
//! batch is handed to the transport, under a size threshold and a lifetime.

use vstd::prelude::*;
use vstd::arithmetic::div_mod::lemma_fundamental_div_mod_converse;

verus! {

/// Whether appending one more event to a buffer of `len` events reaches the
/// size threshold: a threshold of `None` means every event flushes at once.
pub open spec fn spec_size_due(buffer_size: Option<usize>, len: nat) -> bool {
    match buffer_size {
        None => true,
        Some(t) => len >= t,
    }
}

/// Whether a lifetime-based flush is due at `now_ms` for a buffer whose
/// oldest event was appended at `oldest_ms`: only with a lifetime configured
/// and an event waiting at least that long.
pub open spec fn spec_time_due(
    buffer_lifetime_ms: Option<u64>,
    oldest_ms: Option<u64>,
    now_ms: u64,
) -> bool {
    match (buffer_lifetime_ms, oldest_ms) {
        (Some(l), Some(o)) => o + l <= now_ms,
        _ => false,
    }
}

/// An ordered sequence of serialized events waiting for delivery, plus the
/// two flush thresholds. Drained whole on flush; never drained in part.
pub struct EventBuffer {
    /// Serialized events, oldest first.
    pub events: Vec<String>,
    /// Event-count flush threshold; `None` flushes on every append.
    pub buffer_size: Option<usize>,
    /// Time-based flush threshold in milliseconds; `None` disables it.
    pub buffer_lifetime_ms: Option<u64>,
    /// Append time of the oldest buffered event; `None` exactly when empty.
    pub oldest_ms: Option<u64>,
}

impl EventBuffer {
    /// The buffered events, oldest first, as character sequences.
    pub open spec fn view_events(self) -> Seq<Seq<char>> {
        self.events@.map_values(|s: String| s@)
    }

    pub open spec fn spec_buffer_size(self) -> Option<usize> {
        self.buffer_size
    }

    pub open spec fn spec_buffer_lifetime_ms(self) -> Option<u64> {
        self.buffer_lifetime_ms
    }

    pub open spec fn spec_oldest_ms(self) -> Option<u64> {
        self.oldest_ms
    }

    /// The oldest-event time is tracked exactly while the buffer is
    /// non-empty.
    pub open spec fn wf(self) -> bool {
        self.oldest_ms is Some <==> self.view_events().len() > 0
    }

    pub fn new(buffer_size: Option<usize>, buffer_lifetime_ms: Option<u64>) -> (r: EventBuffer)
        ensures
            r.wf(),
            r.view_events() == Seq::<Seq<char>>::empty(),
            r.spec_buffer_size() == buffer_size,
            r.spec_buffer_lifetime_ms() == buffer_lifetime_ms,
            r.spec_oldest_ms() is None,
    {
        let r = EventBuffer { events: Vec::new(), buffer_size, buffer_lifetime_ms, oldest_ms: None };
        assert(r.view_events() =~= Seq::<Seq<char>>::empty());
        r
    }

    pub fn len(&self) -> (r: usize)
        ensures
            r == self.view_events().len(),
    {
        self.events.len()
    }

    /// Whether a lifetime-based flush is due at `now_ms`.
    pub fn time_due(&self, now_ms: u64) -> (r: bool)
        ensures
            r == spec_time_due(self.spec_buffer_lifetime_ms(), self.spec_oldest_ms(), now_ms),
    {
        match (self.buffer_lifetime_ms, self.oldest_ms) {
            (Some(l), Some(o)) => now_ms >= o && now_ms - o >= l,
            _ => false,
        }
    }

    /// Appends one serialized event at `now_ms` and decides the flush: the
    /// whole batch, in append order, is returned exactly when the append
    /// reaches the size threshold or an event has outlived the lifetime;
    /// otherwise the event waits. After a flush the buffer is empty.
    pub fn append(&mut self, event: String, now_ms: u64) -> (batch: Option<Vec<String>>)
        requires
            old(self).wf(),
        ensures
            final(self).wf(),
            final(self).spec_buffer_size() == old(self).spec_buffer_size(),
            final(self).spec_buffer_lifetime_ms() == old(self).spec_buffer_lifetime_ms(),
            ({
                let due = spec_size_due(
                    old(self).spec_buffer_size(),
                    old(self).view_events().len() + 1,
                ) || spec_time_due(
                    old(self).spec_buffer_lifetime_ms(),
                    if old(self).spec_oldest_ms() is Some {
                        old(self).spec_oldest_ms()
                    } else {
                        Some(now_ms)
                    },
                    now_ms,
                );
                if due {
                    &&& batch matches Some(b) && b@.map_values(|s: String| s@) == old(
                        self,
                    ).view_events().push(event@)
                    &&& final(self).view_events() == Seq::<Seq<char>>::empty()
                    &&& final(self).spec_oldest_ms() is None
                } else {
                    &&& batch is None
                    &&& final(self).view_events() == old(self).view_events().push(event@)
                    &&& final(self).spec_oldest_ms() == (if old(self).spec_oldest_ms() is Some {
                        old(self).spec_oldest_ms()
                    } else {
                        Some(now_ms)
                    })
                }
            }),
    {
        if self.events.len() == 0 {
            self.oldest_ms = Some(now_ms);
        }
        self.events.push(event);
        assert(self.view_events() =~= old(self).view_events().push(event@));
        let size_due = match self.buffer_size {
            None => true,
            Some(t) => self.events.len() >= t,
        };
        let due = size_due || self.time_due(now_ms);
        if due {
            let batch = self.drain();
            Some(batch)
        } else {
            None
        }
    }

    /// The periodic lifetime check for a quiescent buffer: drains and
    /// returns the whole batch, in append order, exactly when an event has
    /// waited at least the configured lifetime.
    pub fn tick(&mut self, now_ms: u64) -> (batch: Option<Vec<String>>)
        requires
            old(self).wf(),
        ensures
            final(self).wf(),
            final(self).spec_buffer_size() == old(self).spec_buffer_size(),
            final(self).spec_buffer_lifetime_ms() == old(self).spec_buffer_lifetime_ms(),
            if spec_time_due(
                old(self).spec_buffer_lifetime_ms(),
                old(self).spec_oldest_ms(),
                now_ms,
            ) {
                &&& batch matches Some(b) && b@.map_values(|s: String| s@) == old(
                    self,
                ).view_events()
                &&& final(self).view_events() == Seq::<Seq<char>>::empty()
                &&& final(self).spec_oldest_ms() is None
            } else {
                &&& batch is None
                &&& *final(self) == *old(self)
            },
    {
        if self.time_due(now_ms) {
            let batch = self.drain();
            Some(batch)
        } else {
            None
        }
    }

    /// Atomically takes the whole batch and leaves the buffer empty.
    fn drain(&mut self) -> (batch: Vec<String>)
        ensures
            batch@.map_values(|s: String| s@) == old(self).view_events(),
            final(self).view_events() == Seq::<Seq<char>>::empty(),
            final(self).spec_oldest_ms() is None,
            final(self).wf(),
            final(self).spec_buffer_size() == old(self).spec_buffer_size(),
            final(self).spec_buffer_lifetime_ms() == old(self).spec_buffer_lifetime_ms(),
    {
        let mut batch: Vec<String> = Vec::new();
        core::mem::swap(&mut batch, &mut self.events);
        self.oldest_ms = None;
        assert(final(self).view_events() =~= Seq::<Seq<char>>::empty());
        batch
    }
}

/// The buffer length after `n` size-triggered appends starting empty, with
/// threshold `t`: an append that reaches `t` drains the buffer.
pub open spec fn spec_len_after(n: nat, t: nat) -> nat
    decreases n,
{
    if n == 0 {
        0
    } else {
        let l = spec_len_after((n - 1) as nat, t);
        if spec_size_due(Some(t as usize), l + 1) {
            0
        } else {
            l + 1
        }
    }
}

/// The number of size-triggered flushes over `n` appends starting empty,
/// with threshold `t`.
pub open spec fn spec_flushes_after(n: nat, t: nat) -> nat
    decreases n,
{
    if n == 0 {
        0
    } else {
        let l = spec_len_after((n - 1) as nat, t);
        spec_flushes_after((n - 1) as nat, t) + (if spec_size_due(Some(t as usize), l + 1) {
            1nat
        } else {
            0nat
        })
    }
}

/// Flushes happen exactly once per `t` events: after `n` appends into an
/// initially empty buffer with size threshold `t` and no lifetime-based
/// flush in between, exactly `n / t` size-triggered flushes have happened
/// and `n % t` events wait in the buffer.
pub proof fn lemma_flush_count(n: nat, t: nat)
    requires
        1 <= t <= usize::MAX,
    ensures
        spec_flushes_after(n, t) == n / t,
        spec_len_after(n, t) == n % t,
    decreases n,
{
    if n == 0 {
    } else {
        lemma_flush_count((n - 1) as nat, t);
        let l = spec_len_after((n - 1) as nat, t);
        let f = spec_flushes_after((n - 1) as nat, t);
        assert((n - 1) == f * t + l) by {
            vstd::arithmetic::div_mod::lemma_fundamental_div_mod(n - 1, t as int);
        }
        if l + 1 >= t {
            assert(l + 1 == t);
            assert((f as int + 1) * (t as int) == f as int * t as int + t as int)
                by (nonlinear_arith);
            lemma_fundamental_div_mod_converse(n as int, t as int, f as int + 1, 0int);
        } else {
            lemma_fundamental_div_mod_converse(n as int, t as int, f as int, l as int + 1);
        }
    }
}

} // verus!
