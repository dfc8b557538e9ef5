use vstd::prelude::*;

use crate::tables::TagTable;

verus! {

/// What an application does when connections open, close or receive data.
/// `C` is the connection type that the event loop hands over: the
/// connection state together with whatever stream carries it, so that the
/// application can reconnect a closed connection.
pub trait NetEvents<C> {
    /// A connection was accepted; returns bytes to send first and whether to
    /// close the connection at once.
    fn event_opened(&self, id: usize, conn: &mut C) -> (Vec<u8>, bool);

    /// A connection was closed; returns `Ok(true)` when it was reconnected
    /// and is to be kept.
    fn event_closed(&self, id: usize, conn: &mut C) -> Result<bool, String>;

    /// Bytes arrived: consumes what it wants of the input, appends what is
    /// to be sent to the output, and returns whether to close the
    /// connection.
    fn event_data(
        &self,
        id: usize,
        conn_tags: &mut TagTable,
        input_buffer: &mut Vec<u8>,
        output_buffer: &mut Vec<u8>,
    ) -> bool;
}

} // verus!
