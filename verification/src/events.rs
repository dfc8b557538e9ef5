use vstd::prelude::*;

use crate::conn::{Conn, IoOutcome, NetAddr, StreamKind};
use crate::net_events::NetEvents;
use crate::tables::{conn_map, no_conns, ConnTable};

verus! {

/// The readiness a connection is registered for.
#[derive(Clone, Copy, Debug, PartialEq, Eq, Structural)]
pub enum Interest {
    ReadOnly,
    ReadWrite,
}

/// The interest a connection is registered with when it joins an event
/// loop: reading and writing while it has bytes to send, reading only while
/// it is open, and none once it is to be closed.
pub open spec fn register_interest(conn: Conn) -> Option<Interest> {
    if conn.output@.len() > 0 {
        Some(Interest::ReadWrite)
    } else if !conn.close {
        Some(Interest::ReadOnly)
    } else {
        None
    }
}

/// Bytes to be sent on the connection with the given id.
#[derive(Clone, Debug, PartialEq, Eq)]
pub struct ConnMsg {
    pub id: usize,
    pub output: Vec<u8>,
}

/// All the bytes that the messages carry for one id, in order.
pub open spec fn queued_for(msgs: Seq<ConnMsg>, id: usize) -> Seq<u8>
    decreases msgs.len(),
{
    if msgs.len() == 0 {
        Seq::empty()
    } else {
        queued_for(msgs.drop_last(), id) + if msgs.last().id == id {
            msgs.last().output@
        } else {
            Seq::empty()
        }
    }
}

/// The bytes queued for an id by two runs of messages are those of the
/// first run followed by those of the second.
pub proof fn lemma_queued_for_concat(a: Seq<ConnMsg>, b: Seq<ConnMsg>, id: usize)
    ensures
        queued_for(a + b, id) == queued_for(a, id) + queued_for(b, id),
    decreases b.len(),
{
    if b.len() == 0 {
        assert(a + b =~= a);
        assert(queued_for(a, id) + queued_for(b, id) =~= queued_for(a, id));
    } else {
        lemma_queued_for_concat(a, b.drop_last(), id);
        assert((a + b).drop_last() =~= a + b.drop_last());
        assert((a + b).last() == b.last());
        assert(queued_for(a, id) + queued_for(b.drop_last(), id) + (if b.last().id == id {
            b.last().output@
        } else {
            Seq::empty()
        }) =~= queued_for(a, id) + queued_for(b, id));
    }
}

/// One message queues its bytes for its own id and nothing for any other.
pub proof fn lemma_queued_for_single(m: ConnMsg, id: usize)
    ensures
        queued_for(seq![m], id) == (if m.id == id {
            m.output@
        } else {
            Seq::empty()
        }),
{
    assert(seq![m].drop_last() =~= Seq::<ConnMsg>::empty());
    assert(queued_for(Seq::<ConnMsg>::empty(), id) == Seq::<u8>::empty());
    assert(Seq::<u8>::empty() + (if m.id == id {
        m.output@
    } else {
        Seq::empty()
    }) =~= (if m.id == id {
        m.output@
    } else {
        Seq::empty()
    }));
}

/// A connection with bytes to send is registered for writing; one with
/// nothing to send is registered for reading while it is open and not at
/// all once it is to be closed.
pub proof fn lemma_register_interest_cases(conn: Conn)
    ensures
        (register_interest(conn) == Some(Interest::ReadWrite)) <==> conn.output@.len() > 0,
        (register_interest(conn) == Some(Interest::ReadOnly)) <==> (conn.output@.len() == 0
            && !conn.close),
        register_interest(conn) is None <==> (conn.output@.len() == 0 && conn.close),
{
}

/// Some message is for the id.
pub open spec fn has_msg_for(msgs: Seq<ConnMsg>, id: usize) -> bool {
    exists|i: int| 0 <= i < msgs.len() && #[trigger] msgs[i].id == id
}

/// What an event loop does for a connection that an event is about.
#[derive(Clone, Copy, Debug, PartialEq, Eq, Structural)]
pub enum EventPlan {
    /// Nothing: the connection is to be closed.
    Skip,
    /// Take the next step of its TLS handshake.
    Handshake,
    /// Exchange bytes with it.
    Exchange,
}

/// The next thing to do in a byte exchange with a connection.
#[derive(Clone, Copy, Debug, PartialEq, Eq, Structural)]
pub enum ExchangeStep {
    /// Send the output buffer.
    Write,
    /// Read, then hand the input to the application.
    Read,
    /// Nothing more.
    Stop,
}

/// The waiting table and the loop's table after an event for `id` ends: a
/// connection that is kept goes back into the loop's table and a closed one
/// stays out of it; when the loop's table did not hold the id, a connection
/// waiting with that id moves over.
pub open spec fn spec_finish_event(
    pending: Map<usize, Conn>,
    streams: Map<usize, Conn>,
    id: usize,
    conn: Option<Conn>,
    close: bool,
) -> (Map<usize, Conn>, Map<usize, Conn>) {
    match conn {
        Some(c) => if close {
            (pending, streams)
        } else {
            (pending, streams.insert(id, c))
        },
        None => if !close && pending.contains_key(id) {
            (pending.remove(id), streams.insert(id, pending[id]))
        } else {
            (pending, streams)
        },
    }
}

/// A connection handed to a thread joins the thread's loop, as it was
/// handed over, with the first event for its id: handing it over puts it
/// in the waiting table, the event finds no connection with that id in the
/// loop's table, and ending the event moves it across.
pub proof fn lemma_added_connection_joins_loop(
    pending: Map<usize, Conn>,
    streams: Map<usize, Conn>,
    id: usize,
    conn: Conn,
)
    requires
        !streams.contains_key(id),
    ensures
        spec_finish_event(pending.insert(id, conn), streams.remove(id), id, None, false) == (
            pending.remove(id),
            streams.insert(id, conn),
        ),
{
    assert(streams.remove(id) =~= streams);
    assert(pending.insert(id, conn).remove(id) =~= pending.remove(id));
}

/// What one event for connection `id` does to the waiting table and the
/// loop's table: the loop takes the connection out of its table; when it
/// had one and closes it for good, the waiting table drops the id too
/// (`close_connection2`); then `finish_event` ends the event.
pub open spec fn spec_event_tables(
    pending: Map<usize, Conn>,
    streams: Map<usize, Conn>,
    id: usize,
    kept: Option<Conn>,
    close: bool,
) -> (Map<usize, Conn>, Map<usize, Conn>) {
    let pending1 = if kept is Some && close {
        pending.remove(id)
    } else {
        pending
    };
    spec_finish_event(pending1, streams.remove(id), id, kept, close)
}

/// Over one event, the loop's table only gains ids that it or the waiting
/// table held; an id leaves the loop's table only when it is the event's id
/// and the connection was closed for good, and then it is in neither table;
/// every other id keeps its entries in both tables.
pub proof fn lemma_event_keeps_tables(
    pending: Map<usize, Conn>,
    streams: Map<usize, Conn>,
    id: usize,
    kept: Option<Conn>,
    close: bool,
)
    requires
        kept is Some <==> streams.contains_key(id),
    ensures
        ({
            let (p2, s2) = spec_event_tables(pending, streams, id, kept, close);
            &&& forall|k: usize| #[trigger]
                s2.contains_key(k) ==> streams.contains_key(k) || pending.contains_key(k)
            &&& forall|k: usize|
                streams.contains_key(k) && !#[trigger] s2.contains_key(k) ==> k == id && close
                    && !p2.contains_key(k)
            &&& forall|k: usize|
                k != id ==> (#[trigger] s2.contains_key(k) == streams.contains_key(k)) && (
                s2.contains_key(k) ==> s2[k] == streams[k]) && (p2.contains_key(k)
                == pending.contains_key(k)) && (p2.contains_key(k) ==> p2[k] == pending[k])
        }),
{
}

/// One event as the loop saw it: the connection's id, the connection it
/// kept (none when its table did not hold the id) and whether the
/// connection was closed for good.
pub struct EventRecord {
    pub id: usize,
    pub kept: Option<Conn>,
    pub close: bool,
}

/// The waiting table and the loop's table after a run of events, with no
/// connection handed over in between.
pub open spec fn tables_after(
    pending: Map<usize, Conn>,
    streams: Map<usize, Conn>,
    evs: Seq<EventRecord>,
) -> (Map<usize, Conn>, Map<usize, Conn>)
    decreases evs.len(),
{
    if evs.len() == 0 {
        (pending, streams)
    } else {
        let (p, s) = tables_after(pending, streams, evs.drop_last());
        spec_event_tables(p, s, evs.last().id, evs.last().kept, evs.last().close)
    }
}

/// Each event kept a connection exactly when the loop's table held its id.
pub open spec fn events_consistent(
    pending: Map<usize, Conn>,
    streams: Map<usize, Conn>,
    evs: Seq<EventRecord>,
) -> bool {
    forall|i: int|
        0 <= i < evs.len() ==> (#[trigger] evs[i].kept is Some <==> tables_after(
            pending,
            streams,
            evs.take(i),
        ).1.contains_key(evs[i].id))
}

/// Over a run of events with no connection handed over in between, the
/// loop's table only holds ids that it or the waiting table held at the
/// start, the waiting table only loses ids, and an id that was in the loop's
/// table and is gone was closed for good by one of the events and is in
/// neither table.
pub proof fn lemma_events_keep_tables(
    pending: Map<usize, Conn>,
    streams: Map<usize, Conn>,
    evs: Seq<EventRecord>,
)
    requires
        events_consistent(pending, streams, evs),
    ensures
        ({
            let (pn, sn) = tables_after(pending, streams, evs);
            &&& forall|k: usize| #[trigger]
                sn.contains_key(k) ==> streams.contains_key(k) || pending.contains_key(k)
            &&& forall|k: usize| #[trigger] pn.contains_key(k) ==> pending.contains_key(k)
            &&& forall|k: usize|
                streams.contains_key(k) && !#[trigger] sn.contains_key(k) ==> !pn.contains_key(k)
                    && exists|i: int| 0 <= i < evs.len() && evs[i].id == k && #[trigger] evs[i].close
        }),
    decreases evs.len(),
{
    if evs.len() > 0 {
        let init = evs.drop_last();
        assert forall|i: int| 0 <= i < init.len() implies (#[trigger] init[i].kept is Some
            <==> tables_after(pending, streams, init.take(i)).1.contains_key(init[i].id)) by {
            assert(init.take(i) =~= evs.take(i));
            assert(init[i] == evs[i]);
        }
        lemma_events_keep_tables(pending, streams, init);
        let (p, s) = tables_after(pending, streams, init);
        let last = evs.last();
        let n = evs.len() - 1;
        assert(evs.take(n) =~= init);
        assert(evs[n] == last);
        assert(last.kept is Some <==> s.contains_key(last.id));
        lemma_event_keeps_tables(p, s, last.id, last.kept, last.close);
        let (pn, sn) = tables_after(pending, streams, evs);
        assert forall|k: usize|
            streams.contains_key(k) && !#[trigger] sn.contains_key(k) implies !pn.contains_key(k)
            && exists|i: int| 0 <= i < evs.len() && evs[i].id == k && #[trigger] evs[i].close by {
            if s.contains_key(k) {
                assert(evs[n].id == k && evs[n].close);
            } else {
                let j = choose|j: int| 0 <= j < init.len() && init[j].id == k && #[trigger] init[j].close;
                assert(evs[j] == init[j]);
                assert(evs[j].id == k && evs[j].close);
            }
        }
    }
}

/// A connection that the application reopened: registered for reading only.
pub open spec fn reopened_conn(c: Conn) -> Conn {
    Conn { reg_write: false, ..c }
}

/// How long a connection thread waits for events, in milliseconds: 100
/// when it also takes messages from a channel, else 250.
pub fn child_poll_timeout_ms(has_receiver: bool) -> (r: u64)
    ensures
        r == (if has_receiver {
            100u64
        } else {
            250u64
        }),
{
    if has_receiver {
        100
    } else {
        250
    }
}

/// The connections that one event-loop thread serves.
pub struct ConnEventHandler {
    /// The number of the thread.
    pub id: usize,
    /// Connections handed to the thread whose first event it has not seen yet.
    pub conns: ConnTable,
}

/// Appends `src` to `dst`.
fn append_bytes(dst: &mut Vec<u8>, src: &[u8], n: usize)
    requires
        n <= src@.len(),
    ensures
        final(dst)@ == old(dst)@ + src@.subrange(0, n as int),
{
    let mut i: usize = 0;
    while i < n
        invariant
            i <= n,
            n <= src@.len(),
            dst@ == old(dst)@ + src@.subrange(0, i as int),
        decreases n - i,
    {
        dst.push(src[i]);
        i = i + 1;
        assert(dst@ == old(dst)@ + src@.subrange(0, i as int));
    }
}

impl ConnEventHandler {
    /// A handler with no connection waiting.
    pub fn new(id: usize) -> (r: ConnEventHandler)
        ensures
            r.id == id,
            conn_map(r.conns) == no_conns(),
    {
        ConnEventHandler { id, conns: ConnTable::new() }
    }

    /// The interest that a connection is to be registered with.
    pub fn register(&self, id: usize, conn: &Conn) -> (r: Option<Interest>)
        ensures
            r == register_interest(*conn),
    {
        if conn.output.len() > 0 {
            Some(Interest::ReadWrite)
        } else if !conn.close {
            Some(Interest::ReadOnly)
        } else {
            None
        }
    }

    /// Hands a connection to this thread, given what registering it came
    /// to: a registered connection waits for its first event; when
    /// registering failed the connection is dropped and the error handed
    /// back.
    pub fn add_connection(&mut self, conn_id: usize, conn: Conn, registered: Result<(), String>) -> (r:
        Result<(), String>)
        ensures
            final(self).id == old(self).id,
            match registered {
                Ok(_) => r is Ok && conn_map(final(self).conns) == conn_map(old(self).conns).insert(
                    conn_id,
                    conn,
                ),
                Err(e) => r == Err::<(), String>(e) && conn_map(final(self).conns) == conn_map(
                    old(self).conns,
                ),
            },
    {
        match registered {
            Ok(_) => {
                let _ = self.conns.raw_insert(conn_id, conn);
                Ok(())
            },
            Err(e) => Err(e),
        }
    }

    /// Whether an event reports a hang-up or an error on the connection.
    pub fn check_error_event(addr: &NetAddr, hup: bool, error: bool) -> (r: bool)
        ensures
            r == (hup || error),
    {
        hup || error
    }

    /// Takes up an event for connection `id` of the loop's table: the
    /// connection leaves the table while the event is handled. Its close
    /// flag becomes whether the event reports a hang-up or error — unless
    /// the flag was already set, in which case it is cleared. The plan says
    /// what to do next: nothing when the flag is now set, the next handshake
    /// step while a TLS handshake is pending, else a byte exchange.
    pub fn start_event(streams: &mut ConnTable, id: usize, hup: bool, error: bool) -> (r: (
        Option<Conn>,
        EventPlan,
    ))
        ensures
            conn_map(*final(streams)) == conn_map(*old(streams)).remove(id),
            match r.0 {
                None => !conn_map(*old(streams)).contains_key(id) && r.1 == EventPlan::Skip,
                Some(c) => {
                    let o = conn_map(*old(streams))[id];
                    &&& conn_map(*old(streams)).contains_key(id)
                    &&& c.close == (!o.close && (hup || error))
                    &&& c.same_but_buffers(o)
                    &&& c.input == o.input
                    &&& c.output == o.output
                    &&& r.1 == (if c.close {
                        EventPlan::Skip
                    } else if o.stream == StreamKind::SslMidHandshakeStream {
                        EventPlan::Handshake
                    } else {
                        EventPlan::Exchange
                    })
                },
            },
    {
        match streams.raw_remove(id) {
            None => (None, EventPlan::Skip),
            Some(mut conn) => {
                let close = if conn.close {
                    false
                } else {
                    ConnEventHandler::check_error_event(&conn.addr, hup, error)
                };
                conn.close = close;
                let plan = if conn.close {
                    EventPlan::Skip
                } else if conn.is_ssl_handshake_pending() {
                    EventPlan::Handshake
                } else {
                    EventPlan::Exchange
                };
                (Some(conn), plan)
            },
        }
    }

    /// The next step of a byte exchange: send while there are bytes to
    /// send, else read while the connection is open, else stop.
    pub fn exchange_step(conn: &Conn) -> (r: ExchangeStep)
        ensures
            r == (if conn.output@.len() > 0 {
                ExchangeStep::Write
            } else if !conn.close {
                ExchangeStep::Read
            } else {
                ExchangeStep::Stop
            }),
    {
        if conn.output.len() > 0 {
            ExchangeStep::Write
        } else if !conn.close {
            ExchangeStep::Read
        } else {
            ExchangeStep::Stop
        }
    }

    /// The exchange goes on while the connection is open and has bytes to
    /// send.
    pub fn exchange_continues(conn: &Conn) -> (r: bool)
        ensures
            r == (!conn.close && conn.output@.len() > 0),
    {
        !conn.close && conn.output.len() > 0
    }

    /// The read step of an exchange: takes in what the read came to, then
    /// hands the tags and buffers, as the read left them, to the
    /// application, whose answer becomes the close flag. Returns whether the
    /// read itself called for closing, and the application's answer.
    pub fn exchange_read<C, T: NetEvents<C>>(
        id: usize,
        conn: &mut Conn,
        packet: &[u8],
        outcome: IoOutcome,
        event_handler: &T,
    ) -> (r: (bool, bool))
        requires
            outcome matches IoOutcome::Done(n) ==> n <= packet@.len(),
        ensures
            r.0 == match outcome {
                IoOutcome::Done(n) => n == 0 || old(conn).close,
                IoOutcome::WouldBlock => old(conn).close,
                _ => true,
            },
            final(conn).close == r.1,
            final(conn).url == old(conn).url,
            final(conn).stream == old(conn).stream,
            final(conn).addr == old(conn).addr,
            final(conn).reg_write == old(conn).reg_write,
            final(conn).server_ssl_config == old(conn).server_ssl_config,
    {
        let close = conn.read(packet, outcome);
        let close_conn = event_handler.event_data(
            id,
            &mut conn.tags,
            &mut conn.input,
            &mut conn.output,
        );
        conn.close = close_conn;
        (close, close_conn)
    }

    /// Settles a connection's registration once an event is handled: it is
    /// registered for writing exactly while it has bytes to send, and the
    /// interest to re-register with is handed back when that changes. With
    /// nothing left to send, a set close flag also calls for closing.
    pub fn settle_interest(conn: &mut Conn, close: bool) -> (r: (Option<Interest>, bool))
        ensures
            final(conn).reg_write == (final(conn).output@.len() > 0),
            final(conn).output == old(conn).output,
            final(conn).input == old(conn).input,
            final(conn).close == old(conn).close,
            final(conn).url == old(conn).url,
            final(conn).stream == old(conn).stream,
            final(conn).addr == old(conn).addr,
            final(conn).tags == old(conn).tags,
            final(conn).server_ssl_config == old(conn).server_ssl_config,
            r.0 == (if old(conn).output@.len() > 0 {
                if old(conn).reg_write {
                    None
                } else {
                    Some(Interest::ReadWrite)
                }
            } else if old(conn).reg_write {
                Some(Interest::ReadOnly)
            } else {
                None
            }),
            r.1 == (if old(conn).output@.len() > 0 {
                close
            } else {
                close || old(conn).close
            }),
    {
        let mut close = close;
        let mut interest: Option<Interest> = None;
        if conn.output.len() > 0 {
            if !conn.reg_write {
                conn.reg_write = true;
                interest = Some(Interest::ReadWrite);
            }
        } else {
            if conn.reg_write {
                conn.reg_write = false;
                interest = Some(Interest::ReadOnly);
            }
            if !close {
                close = conn.close;
            }
        }
        (interest, close)
    }

    /// Settles a connection that is being closed, once the application has
    /// been told: when it reconnected and the connection was registered
    /// again, the connection is kept (registered for reading only);
    /// otherwise it is closed and leaves the waiting table. Returns whether
    /// it is closed.
    pub fn close_connection2(&mut self, id: usize, conn: &mut Conn, reopened: bool) -> (close:
        bool)
        ensures
            close == !reopened,
            final(self).id == old(self).id,
            reopened ==> conn_map(final(self).conns) == conn_map(old(self).conns)
                && !final(conn).reg_write,
            !reopened ==> conn_map(final(self).conns) == conn_map(old(self).conns).remove(id)
                && final(conn).reg_write == old(conn).reg_write,
            final(conn).output == old(conn).output,
            final(conn).input == old(conn).input,
            final(conn).close == old(conn).close,
            final(conn).url == old(conn).url,
            final(conn).stream == old(conn).stream,
            final(conn).addr == old(conn).addr,
            final(conn).tags == old(conn).tags,
            final(conn).server_ssl_config == old(conn).server_ssl_config,
    {
        if reopened {
            conn.reg_write = false;
            false
        } else {
            let _ = self.conns.raw_remove(id);
            true
        }
    }

    /// Ends an event for connection `id`: a connection that is kept goes
    /// back into the loop's table and a closed one stays out of it; when the
    /// table did not hold the id, a connection waiting with that id moves
    /// into the loop's table. Returns whether a waiting connection moved.
    pub fn finish_event(
        &mut self,
        streams: &mut ConnTable,
        id: usize,
        conn: Option<Conn>,
        close: bool,
    ) -> (moved: bool)
        ensures
            moved == (conn is None && !close && conn_map(old(self).conns).contains_key(id)),
            final(self).id == old(self).id,
            (conn_map(final(self).conns), conn_map(*final(streams))) == spec_finish_event(
                conn_map(old(self).conns),
                conn_map(*old(streams)),
                id,
                conn,
                close,
            ),
    {
        match conn {
            Some(c) => {
                if !close {
                    let _ = streams.raw_insert(id, c);
                }
                false
            },
            None => {
                if !close {
                    match self.conns.raw_remove(id) {
                        Some(p) => {
                            let _ = streams.raw_insert(id, p);
                            true
                        },
                        None => false,
                    }
                } else {
                    false
                }
            },
        }
    }

    /// Ends an event for connection `id` once the loop has taken it out of
    /// its table (`start_event`), handled it and settled its registration
    /// (`settle_interest`): a connection to be closed is closed for good
    /// unless the application reopened it (`close_connection2`), then
    /// `finish_event` puts the tables right. Returns whether the connection
    /// was closed for good, and whether a waiting connection moved into the
    /// loop's table. The tables end as `spec_event_tables` says.
    pub fn end_event(
        &mut self,
        streams: &mut ConnTable,
        id: usize,
        conn: Option<Conn>,
        close: bool,
        reopened: bool,
    ) -> (r: (bool, bool))
        requires
            !conn_map(*old(streams)).contains_key(id),
        ensures
            final(self).id == old(self).id,
            r.0 == (if conn is Some && close {
                !reopened
            } else {
                close
            }),
            r.1 == (conn is None && !close && conn_map(old(self).conns).contains_key(id)),
            (conn_map(final(self).conns), conn_map(*final(streams))) == spec_event_tables(
                conn_map(old(self).conns),
                conn_map(*old(streams)),
                id,
                match conn {
                    Some(c) => Some(
                        if close && reopened {
                            reopened_conn(c)
                        } else {
                            c
                        },
                    ),
                    None => None,
                },
                r.0,
            ),
    {
        let ghost streams0 = conn_map(*streams);
        let mut close = close;
        let kept = match conn {
            Some(mut c) => {
                if close {
                    close = self.close_connection2(id, &mut c, reopened);
                }
                Some(c)
            },
            None => None,
        };
        assert(streams0.remove(id) =~= streams0);
        let moved = self.finish_event(streams, id, kept, close);
        (close, moved)
    }

    /// Routes messages to the loop's connections: each connection's output
    /// grows by the bytes of the messages for it, in order, and a connection
    /// that got any is marked registered for writing. Messages for ids the
    /// table does not hold are dropped.
    pub fn deliver_messages(streams: &mut ConnTable, msgs: &Vec<ConnMsg>)
        ensures
            conn_map(*final(streams)).dom() == conn_map(*old(streams)).dom(),
            forall|k: usize| #[trigger]
                conn_map(*final(streams)).contains_key(k) ==> {
                    let a = conn_map(*final(streams))[k];
                    let b = conn_map(*old(streams))[k];
                    &&& a.output@ == b.output@ + queued_for(msgs@, k)
                    &&& a.reg_write == (b.reg_write || has_msg_for(msgs@, k))
                    &&& a.input == b.input
                    &&& a.close == b.close
                    &&& a.url == b.url
                    &&& a.stream == b.stream
                    &&& a.addr == b.addr
                    &&& a.tags == b.tags
                    &&& a.server_ssl_config == b.server_ssl_config
                },
    {
        let ghost start = conn_map(*streams);
        let mut i: usize = 0;
        while i < msgs.len()
            invariant
                i <= msgs@.len(),
                conn_map(*streams).dom() == start.dom(),
                forall|k: usize| #[trigger]
                    conn_map(*streams).contains_key(k) ==> {
                        let a = conn_map(*streams)[k];
                        let b = start[k];
                        &&& a.output@ == b.output@ + queued_for(msgs@.take(i as int), k)
                        &&& a.reg_write == (b.reg_write || has_msg_for(msgs@.take(i as int), k))
                        &&& a.input == b.input
                        &&& a.close == b.close
                        &&& a.url == b.url
                        &&& a.stream == b.stream
                        &&& a.addr == b.addr
                        &&& a.tags == b.tags
                        &&& a.server_ssl_config == b.server_ssl_config
                    },
            decreases msgs.len() - i,
        {
            let msg = &msgs[i];
            let ghost before = conn_map(*streams);
            match streams.raw_remove(msg.id) {
                Some(mut conn) => {
                    append_bytes(&mut conn.output, msg.output.as_slice(), msg.output.len());
                    conn.reg_write = true;
                    let _ = streams.raw_insert(msg.id, conn);
                },
                None => {},
            }
            proof {
                let t0 = msgs@.take(i as int);
                let t1 = msgs@.take(i + 1);
                assert(t1.drop_last() == t0);
                assert(t1.last() == msgs@[i as int]);
                assert forall|k: usize| has_msg_for(t1, k) == (has_msg_for(t0, k) || msgs@[i as int].id == k) by {
                    if has_msg_for(t1, k) && !has_msg_for(t0, k) {
                        let j = choose|j: int| 0 <= j < t1.len() && #[trigger] t1[j].id == k;
                        if j < i {
                            assert(t0[j].id == k);
                        }
                    }
                    if msgs@[i as int].id == k {
                        assert(t1[i as int].id == k);
                    }
                    if has_msg_for(t0, k) {
                        let j = choose|j: int| 0 <= j < t0.len() && #[trigger] t0[j].id == k;
                        assert(t1[j].id == k);
                    }
                }
                assert(conn_map(*streams).dom() =~= start.dom());
            }
            i = i + 1;
        }
        assert(msgs@.take(msgs@.len() as int) == msgs@);
    }
}

} // verus!
