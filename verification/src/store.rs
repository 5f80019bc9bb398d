//! Ticket store: a durable mapping of private-channel/staff-thread pairs,
//! plus a secondary mapping of mirrored-message pairs ("counterparts") used
//! to propagate edits. Identifiers are kept as signed 64-bit integers via
//! the identifier codec; at most one row per private channel and at most one
//! row per thread may exist at any time, and a message identifier appears on
//! at most one side of exactly one counterpart row.
use vstd::prelude::*;

use crate::idcodec::spec_id_to_db;
use crate::idcodec::id_to_db;

verus! {

/// One open conversation: a private channel paired with a staff thread.
#[derive(Clone, Copy, Debug, PartialEq, Eq, Structural)]
pub struct TicketChannels {
    pub dm: i64,
    pub thread: i64,
}

/// One message, addressed by its channel and its message identifier.
#[derive(Clone, Copy, Debug, PartialEq, Eq, Structural)]
pub struct ChannelMessage {
    pub channel: i64,
    pub message: i64,
}

/// A mirrored pair: a message on the private side and its copy on the
/// thread side (or the other way round).
#[derive(Clone, Copy, Debug, PartialEq, Eq, Structural)]
pub struct CounterpartedMessage {
    pub dm: ChannelMessage,
    pub thread: ChannelMessage,
}

/// True when the row records `m` on either of its sides.
pub open spec fn row_has_message(row: CounterpartedMessage, m: i64) -> bool {
    row.dm.message == m || row.thread.message == m
}

/// True when two counterpart rows share no message identifier.
pub open spec fn rows_disjoint(a: CounterpartedMessage, b: CounterpartedMessage) -> bool {
    &&& a.dm.message != b.dm.message
    &&& a.dm.message != b.thread.message
    &&& a.thread.message != b.dm.message
    &&& a.thread.message != b.thread.message
}

/// The durable store. The two tables are modelled as sequences of rows;
/// uniqueness of `dm` and of `thread`, and of message identifiers across
/// counterpart rows, is the store's well-formedness invariant.
pub struct TicketStore {
    tickets: Vec<TicketChannels>,
    counterparts: Vec<CounterpartedMessage>,
}

impl TicketStore {
    /// The ticket rows, in insertion order.
    pub closed spec fn tickets(&self) -> Seq<TicketChannels> {
        self.tickets@
    }

    /// The counterpart rows, in insertion order.
    pub closed spec fn counterparts(&self) -> Seq<CounterpartedMessage> {
        self.counterparts@
    }

    /// Some ticket row is keyed by this private channel.
    pub open spec fn has_dm(&self, dm: i64) -> bool {
        exists|i: int| 0 <= i < self.tickets().len() && self.tickets()[i].dm == dm
    }

    /// Some ticket row is keyed by this thread.
    pub open spec fn has_thread(&self, thread: i64) -> bool {
        exists|i: int| 0 <= i < self.tickets().len() && self.tickets()[i].thread == thread
    }

    /// Some counterpart row records this message on either side.
    pub open spec fn has_message(&self, m: i64) -> bool {
        exists|i: int| 0 <= i < self.counterparts().len() && row_has_message(
            self.counterparts()[i],
            m,
        )
    }

    /// Well-formedness: at most one row per `dm` and per `thread`, and a
    /// message identifier appears on at most one side of exactly one row.
    pub open spec fn wf(&self) -> bool {
        &&& forall|i: int, j: int|
            0 <= i < j < self.tickets().len() ==> self.tickets()[i].dm != self.tickets()[j].dm
                && self.tickets()[i].thread != self.tickets()[j].thread
        &&& forall|i: int, j: int|
            0 <= i < j < self.counterparts().len() ==> rows_disjoint(
                self.counterparts()[i],
                self.counterparts()[j],
            )
        &&& forall|i: int|
            0 <= i < self.counterparts().len() ==> self.counterparts()[i].dm.message
                != self.counterparts()[i].thread.message
    }

    /// An empty store.
    pub fn new() -> (s: Self)
        ensures
            s.wf(),
            s.tickets() == Seq::<TicketChannels>::empty(),
            s.counterparts() == Seq::<CounterpartedMessage>::empty(),
    {
        TicketStore { tickets: Vec::new(), counterparts: Vec::new() }
    }

    /// Insert one ticket row. The caller's find-or-create discipline, backed
    /// by the uniqueness constraint, guarantees the keys are fresh.
    pub fn add_ticket(&mut self, dm: u64, thread: u64)
        requires
            old(self).wf(),
            !old(self).has_dm(spec_id_to_db(dm)),
            !old(self).has_thread(spec_id_to_db(thread)),
        ensures
            final(self).wf(),
            final(self).tickets() == old(self).tickets().push(
                TicketChannels { dm: spec_id_to_db(dm), thread: spec_id_to_db(thread) },
            ),
            final(self).counterparts() == old(self).counterparts(),
    {
        let row = TicketChannels { dm: id_to_db(dm), thread: id_to_db(thread) };
        let ghost t0 = self.tickets();
        self.tickets.push(row);
        proof {
            let t1 = self.tickets();
            assert forall|i: int, j: int| 0 <= i < j < t1.len() implies t1[i].dm != t1[j].dm
                && t1[i].thread != t1[j].thread by {
                if j < t0.len() {
                    assert(t1[i] == t0[i] && t1[j] == t0[j]);
                } else {
                    assert(t1[i] == t0[i] && t1[j] == row);
                }
            }
            let c1 = self.counterparts();
            let c0 = old(self).counterparts();
            assert(c1 == c0);
            assert forall|i: int, j: int| 0 <= i < j < c1.len() implies rows_disjoint(
                c1[i],
                c1[j],
            ) by {
                assert(c1[i] == c0[i] && c1[j] == c0[j]);
            }
            assert forall|i: int| 0 <= i < c1.len() implies c1[i].dm.message
                != c1[i].thread.message by {
                assert(c1[i] == c0[i]);
            }
        }
    }

    /// Look a ticket up by its private channel.
    pub fn get_ticket_by_dm(&self, dm: u64) -> (r: Option<TicketChannels>)
        ensures
            r is Some <==> self.has_dm(spec_id_to_db(dm)),
            r matches Some(t) ==> self.tickets().contains(t) && t.dm == spec_id_to_db(dm),
    {
        let key = id_to_db(dm);
        let n = self.tickets.len();
        let mut i: usize = 0;
        while i < n
            invariant
                n == self.tickets().len(),
                0 <= i <= n,
                key == spec_id_to_db(dm),
                forall|k: int| 0 <= k < i ==> self.tickets()[k].dm != key,
            decreases n - i,
        {
            if self.tickets[i].dm == key {
                let t = self.tickets[i];
                proof {
                    assert(self.tickets()[i as int] == t);
                    assert(self.tickets().contains(t));
                }
                return Some(t);
            }
            i += 1;
        }
        None
    }

    /// Look a ticket up by its staff thread.
    pub fn get_ticket_by_thread(&self, thread: u64) -> (r: Option<TicketChannels>)
        ensures
            r is Some <==> self.has_thread(spec_id_to_db(thread)),
            r matches Some(t) ==> self.tickets().contains(t) && t.thread == spec_id_to_db(thread),
    {
        let key = id_to_db(thread);
        let n = self.tickets.len();
        let mut i: usize = 0;
        while i < n
            invariant
                n == self.tickets().len(),
                0 <= i <= n,
                key == spec_id_to_db(thread),
                forall|k: int| 0 <= k < i ==> self.tickets()[k].thread != key,
            decreases n - i,
        {
            if self.tickets[i].thread == key {
                let t = self.tickets[i];
                proof {
                    assert(self.tickets()[i as int] == t);
                    assert(self.tickets().contains(t));
                }
                return Some(t);
            }
            i += 1;
        }
        None
    }

    /// Remove the ticket row keyed by this thread, if one exists.
    /// Afterwards neither the thread nor the private channel it was paired
    /// with keys any row.
    pub fn delete_ticket(&mut self, thread: u64)
        requires
            old(self).wf(),
        ensures
            final(self).wf(),
            final(self).counterparts() == old(self).counterparts(),
            !final(self).has_thread(spec_id_to_db(thread)),
            forall|t: TicketChannels|
                final(self).tickets().contains(t) <==> (old(self).tickets().contains(t)
                    && t.thread != spec_id_to_db(thread)),
            old(self).has_thread(spec_id_to_db(thread)) ==> final(self).tickets().len() == old(
                self,
            ).tickets().len() - 1,
            !old(self).has_thread(spec_id_to_db(thread)) ==> final(self).tickets() == old(
                self,
            ).tickets(),
            forall|t: TicketChannels|
                old(self).tickets().contains(t) && t.thread == spec_id_to_db(thread)
                    ==> !final(self).has_dm(t.dm) && !final(self).has_thread(t.thread),
    {
        let key = id_to_db(thread);
        let n = self.tickets.len();
        let mut i: usize = 0;
        while i < n
            invariant
                n == self.tickets().len(),
                0 <= i <= n,
                key == spec_id_to_db(thread),
                self.wf(),
                self.tickets() == old(self).tickets(),
                self.counterparts() == old(self).counterparts(),
                forall|k: int| 0 <= k < i ==> self.tickets()[k].thread != key,
            decreases n - i,
        {
            if self.tickets[i].thread == key {
                let ghost t0 = self.tickets();
                let ghost idx = i as int;
                self.tickets.remove(i);
                proof {
                    let t1 = self.tickets();
                    assert(t1 == t0.remove(idx));
                    assert forall|k: int| 0 <= k < t1.len() implies t1[k] == (if k < idx {
                        t0[k]
                    } else {
                        t0[k + 1]
                    }) by {
                        assert(t1 =~= t0.subrange(0, idx) + t0.subrange(idx + 1, t0.len() as int));
                    }
                    assert forall|a: int, b: int| 0 <= a < b < t1.len() implies t1[a].dm
                        != t1[b].dm && t1[a].thread != t1[b].thread by {
                        let a0 = if a < idx { a } else { a + 1 };
                        let b0 = if b < idx { b } else { b + 1 };
                        assert(t1[a] == t0[a0] && t1[b] == t0[b0]);
                    }
                    assert forall|k: int| 0 <= k < t1.len() implies t1[k].thread != key
                        && t1[k].dm != t0[idx].dm by {
                        let k0 = if k < idx { k } else { k + 1 };
                        assert(t1[k] == t0[k0] && k0 != idx);
                    }
                    assert forall|t: TicketChannels| t1.contains(t) implies (t0.contains(t)
                        && t.thread != spec_id_to_db(thread)) by {
                        let k = choose|k: int| 0 <= k < t1.len() && t1[k] == t;
                        let k0 = if k < idx { k } else { k + 1 };
                        assert(t0[k0] == t);
                    }
                    assert forall|t: TicketChannels|
                        t0.contains(t) && t.thread != spec_id_to_db(thread) implies t1.contains(
                        t,
                    ) by {
                        let k0 = choose|k: int| 0 <= k < t0.len() && t0[k] == t;
                        let k = if k0 < idx { k0 } else { k0 - 1 };
                        assert(t1[k] == t);
                    }
                    assert forall|t: TicketChannels|
                        t0.contains(t) && t.thread == spec_id_to_db(thread) implies !self.has_dm(
                        t.dm,
                    ) && !self.has_thread(t.thread) by {
                        let k0 = choose|k: int| 0 <= k < t0.len() && t0[k] == t;
                        assert(k0 == idx);
                    }
                    let c1 = self.counterparts();
                    let c0 = old(self).counterparts();
                    assert(c1 == c0);
                    assert forall|a: int, b: int| 0 <= a < b < c1.len() implies rows_disjoint(
                        c1[a],
                        c1[b],
                    ) by {
                        assert(c1[a] == c0[a] && c1[b] == c0[b]);
                    }
                    assert forall|a: int| 0 <= a < c1.len() implies c1[a].dm.message
                        != c1[a].thread.message by {
                        assert(c1[a] == c0[a]);
                    }
                }
                return ;
            }
            i += 1;
        }
        proof {
            assert forall|t: TicketChannels|
                old(self).tickets().contains(t) && t.thread == spec_id_to_db(thread) implies false by {
                let k = choose|k: int|
                    0 <= k < old(self).tickets().len() && old(self).tickets()[k] == t;
            }
        }
    }

    /// Insert one counterpart row, created at the moment a mirrored message
    /// was successfully sent on the other side.
    pub fn add_counterpart(&mut self, dm_chan: u64, dm_msg: u64, thread_chan: u64, thread_msg: u64)
        requires
            old(self).wf(),
            !old(self).has_message(spec_id_to_db(dm_msg)),
            !old(self).has_message(spec_id_to_db(thread_msg)),
            spec_id_to_db(dm_msg) != spec_id_to_db(thread_msg),
        ensures
            final(self).wf(),
            final(self).counterparts() == old(self).counterparts().push(
                CounterpartedMessage {
                    dm: ChannelMessage {
                        channel: spec_id_to_db(dm_chan),
                        message: spec_id_to_db(dm_msg),
                    },
                    thread: ChannelMessage {
                        channel: spec_id_to_db(thread_chan),
                        message: spec_id_to_db(thread_msg),
                    },
                },
            ),
            final(self).tickets() == old(self).tickets(),
    {
        let row = CounterpartedMessage {
            dm: ChannelMessage { channel: id_to_db(dm_chan), message: id_to_db(dm_msg) },
            thread: ChannelMessage { channel: id_to_db(thread_chan), message: id_to_db(thread_msg) },
        };
        let ghost c0 = self.counterparts();
        self.counterparts.push(row);
        proof {
            let c1 = self.counterparts();
            assert forall|i: int, j: int| 0 <= i < j < c1.len() implies rows_disjoint(
                c1[i],
                c1[j],
            ) by {
                if j < c0.len() {
                    assert(c1[i] == c0[i] && c1[j] == c0[j]);
                } else {
                    assert(c1[i] == c0[i] && c1[j] == row);
                }
            }
            let t1 = self.tickets();
            let t0 = old(self).tickets();
            assert(t1 == t0);
            assert forall|i: int, j: int| 0 <= i < j < t1.len() implies t1[i].dm != t1[j].dm
                && t1[i].thread != t1[j].thread by {
                assert(t1[i] == t0[i] && t1[j] == t0[j]);
            }
        }
    }

    /// Find the counterpart row that records this message on either side.
    pub fn get_counterpart(&self, message: u64) -> (r: Option<CounterpartedMessage>)
        ensures
            r is Some <==> self.has_message(spec_id_to_db(message)),
            r matches Some(row) ==> self.counterparts().contains(row) && row_has_message(
                row,
                spec_id_to_db(message),
            ),
    {
        let key = id_to_db(message);
        let n = self.counterparts.len();
        let mut i: usize = 0;
        while i < n
            invariant
                n == self.counterparts().len(),
                0 <= i <= n,
                key == spec_id_to_db(message),
                forall|k: int| 0 <= k < i ==> !row_has_message(self.counterparts()[k], key),
            decreases n - i,
        {
            let row = self.counterparts[i];
            if row.dm.message == key || row.thread.message == key {
                proof {
                    assert(self.counterparts()[i as int] == row);
                    assert(self.counterparts().contains(row));
                }
                return Some(row);
            }
            i += 1;
        }
        None
    }
}

} // verus!
