use vstd::prelude::*;

use crate::conn::Conn;

verus! {

/// Hands out connection-thread numbers in turn.
pub struct RoundRobin {
    pub counter: usize,
}

/// One turn: the thread number handed out and the counter afterwards. The
/// counter counts up; once it has reached the number of threads, thread 0
/// is handed out and the counter starts again from 0.
pub open spec fn rr_next(counter: nat, len: nat) -> (nat, nat) {
    if counter >= len {
        (0, 0)
    } else {
        (counter, counter + 1)
    }
}

/// The counter after `k` turns.
pub open spec fn rr_counter_after(counter: nat, len: nat, k: nat) -> nat
    decreases k,
{
    if k == 0 {
        counter
    } else {
        rr_next(rr_counter_after(counter, len, (k - 1) as nat), len).1
    }
}

/// The thread number handed out at turn `k` (counting from 0).
pub open spec fn rr_pick_at(counter: nat, len: nat, k: nat) -> nat {
    rr_next(rr_counter_after(counter, len, k), len).0
}

impl RoundRobin {
    /// A counter that starts with thread 0.
    pub fn new() -> (r: RoundRobin)
        ensures
            r.counter == 0,
    {
        RoundRobin { counter: 0 }
    }

    /// The thread that the next connection goes to, among `len` threads.
    pub fn next_index(&mut self, len: usize) -> (index: usize)
        requires
            len > 0,
        ensures
            (index as nat, final(self).counter as nat) == rr_next(old(self).counter as nat, len as nat),
            index < len,
    {
        let index = self.counter;
        if index >= len {
            self.counter = 0;
            0
        } else {
            self.counter = index + 1;
            index
        }
    }
}

/// Whatever the counter, every turn hands out a thread that exists.
pub proof fn lemma_round_robin_in_range(counter: nat, len: nat, k: nat)
    requires
        len > 0,
    ensures
        rr_pick_at(counter, len, k) < len,
{
}

proof fn lemma_counter_counts_up(len: nat, k: nat)
    requires
        k <= len,
    ensures
        rr_counter_after(0, len, k) == k,
    decreases k,
{
    if k > 0 {
        lemma_counter_counts_up(len, (k - 1) as nat);
    }
}

/// From a fresh counter, `len` threads get turns 0, 1, ..., len - 1 in
/// order, turn `len` goes to thread 0 again, and after it the counter is
/// back where it started.
pub proof fn lemma_round_robin_cycle(len: nat, k: nat)
    requires
        len > 0,
        k < len,
    ensures
        rr_pick_at(0, len, k) == k,
        rr_pick_at(0, len, len) == 0,
        rr_counter_after(0, len, len + 1) == 0,
{
    lemma_counter_counts_up(len, k);
    lemma_counter_counts_up(len, len);
    assert(rr_counter_after(0, len, len + 1) == rr_next(rr_counter_after(0, len, len), len).1);
}

/// The last id used after a round of `count` accepted connections: every
/// round takes the next id, and every connection after the first in the
/// round takes one more.
pub open spec fn round_last_id(last_id: nat, count: nat) -> nat {
    if count == 0 {
        last_id + 1
    } else {
        last_id + count
    }
}

/// Numbers the connections accepted in one round, after `last_id`: they
/// get `last_id + 1`, `last_id + 2`, ... in order.
pub fn round_ids(last_id: usize, count: usize) -> (r: (Vec<usize>, usize))
    requires
        last_id + (if count == 0 {
            1
        } else {
            count as int
        }) <= usize::MAX,
    ensures
        r.0@.len() == count,
        forall|i: int| 0 <= i < count ==> #[trigger] r.0@[i] == last_id + 1 + i,
        r.1 == round_last_id(last_id as nat, count as nat),
{
    let mut ids: Vec<usize> = Vec::new();
    let mut i: usize = 0;
    while i < count
        invariant
            i <= count,
            last_id + count <= usize::MAX,
            ids@.len() == i,
            forall|j: int| 0 <= j < i ==> #[trigger] ids@[j] == last_id + 1 + j,
        decreases count - i,
    {
        ids.push(last_id + 1 + i);
        i = i + 1;
    }
    if count == 0 {
        (ids, last_id + 1)
    } else {
        (ids, last_id + count)
    }
}

/// Takes in what the application answered when the connection opened:
/// a close request marks the connection for closing (and the bytes are
/// dropped); otherwise bytes to send become the output buffer and the
/// connection is marked registered for writing.
pub fn apply_opened(conn: &mut Conn, output: Vec<u8>, close: bool)
    ensures
        final(conn).input == old(conn).input,
        final(conn).url == old(conn).url,
        final(conn).stream == old(conn).stream,
        final(conn).addr == old(conn).addr,
        final(conn).tags == old(conn).tags,
        final(conn).server_ssl_config == old(conn).server_ssl_config,
        if close {
            &&& final(conn).close
            &&& final(conn).output == old(conn).output
            &&& final(conn).reg_write == old(conn).reg_write
        } else if output@.len() > 0 {
            &&& final(conn).close == old(conn).close
            &&& final(conn).output == output
            &&& final(conn).reg_write
        } else {
            &&& final(conn).close == old(conn).close
            &&& final(conn).output == old(conn).output
            &&& final(conn).reg_write == old(conn).reg_write
        },
{
    if close {
        conn.close = close;
    } else if output.len() > 0 {
        conn.output = output;
        conn.reg_write = true;
    }
}

} // verus!
