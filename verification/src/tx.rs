//! Decisions of the per-connection transmit loop.
//!
//! The loop itself suspends on the socket and on `tx_notify`, so the
//! embedding runs it; each cycle it asks `cycle_budget` for the byte budget,
//! fills a buffer from the engine under the engine's lock (never across a
//! suspension), and then does what `after_fill` says.

use vstd::prelude::*;
use std::sync::Arc;
use tokio::sync::Notify;
use crate::burst::TxBurst;
use crate::burst::loss_rate_risen;
use crate::burst::min_int;
use crate::connection::SocketDetails;

verus! {

/// The transmit side of one connection: its id, the probed socket facts, the
/// wake-ups, and the burst controller. The engine reference type `E` is the
/// embedding's.
#[verifier::reject_recursive_types(E)]
pub struct ConnectionTx<E> {
    pub connection: E,
    pub connection_id: Vec<u8>,
    pub socket_details: SocketDetails,
    pub tx_notify: Arc<Notify>,
    pub tx_flushed: Arc<Notify>,
    pub tx_stats: TxBurst,
}

/// What the transmit loop does once the fill pass is over.
pub enum TxStep {
    /// Nothing was produced: wait for `tx_notify`, then start a new cycle.
    WaitForNotify,
    /// Send `buf[..len]` as one batch to the first packet's destination;
    /// when `flush` is set the engine reported Done, so fire `tx_flushed`
    /// and wait for `tx_notify` after the send.
    SendBatch { len: usize, flush: bool },
}

impl<E> ConnectionTx<E> {
    /// Opens a send cycle: feeds the engine's cumulative loss statistics and
    /// current send quantum to the burst controller and returns the byte
    /// budget of this cycle — a whole number of datagrams, no more than the
    /// send quantum and no more than the (never rising) burst ceiling.
    pub fn cycle_budget(&mut self, sent: usize, lost: usize, send_quantum: usize) -> (r: usize)
        requires
            old(self).tx_stats.wf(),
        ensures
            final(self).tx_stats.wf(),
            final(self).connection_id == old(self).connection_id,
            final(self).socket_details == old(self).socket_details,
            final(self).tx_stats.mss() == old(self).tx_stats.mss(),
            final(self).tx_stats.burst() <= old(self).tx_stats.burst(),
            loss_rate_risen(
                lost as int,
                sent as int,
                old(self).tx_stats.loss_num(),
                old(self).tx_stats.loss_den(),
            ) ==> final(self).tx_stats.burst() == crate::burst::shrunk_burst(
                old(self).tx_stats.burst(),
                old(self).tx_stats.mss(),
            ),
            !loss_rate_risen(
                lost as int,
                sent as int,
                old(self).tx_stats.loss_num(),
                old(self).tx_stats.loss_den(),
            ) ==> final(self).tx_stats == old(self).tx_stats,
            r as int == min_int(send_quantum as int, final(self).tx_stats.burst())
                / final(self).tx_stats.mss() * final(self).tx_stats.mss(),
            r as int % final(self).tx_stats.mss() == 0,
            r <= send_quantum,
    {
        self.tx_stats.max_send_burst(sent, lost, send_quantum)
    }

    /// Closes the fill pass: with nothing written the loop waits for a
    /// wake-up; otherwise it sends the accumulated batch, flushing when the
    /// engine reported that it is done sending.
    pub fn after_fill(&self, total_write: usize, finished_sending: bool) -> (r: TxStep)
        ensures
            total_write == 0 ==> r is WaitForNotify,
            total_write > 0 ==> (r matches TxStep::SendBatch { len, flush } && len == total_write
                && flush == finished_sending),
    {
        if total_write == 0 {
            TxStep::WaitForNotify
        } else {
            TxStep::SendBatch { len: total_write, flush: finished_sending }
        }
    }
}

} // verus!
