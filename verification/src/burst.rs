//! Loss-reactive sizing of the transmit burst.
//!
//! One send cycle may emit at most `max_send_burst` bytes. The ceiling starts
//! at the full IPv6 buffer size and shrinks by a quarter whenever the observed
//! loss rate rises by more than one part in a thousand, but never falls under
//! ten datagrams. The value handed to the sender is additionally capped by the
//! congestion controller's send quantum and rounded down to a whole number of
//! datagrams, because batched (GSO) transmission emits equally sized segments.

use vstd::prelude::*;
use crate::MAX_IPV6_BUF_SIZE;

verus! {

/// Largest delta for which `1000 * delta` still fits in a `u128`
/// (`u128::MAX / 1000`).
pub const RATE_DELTA_CAP: u128 = 340282366920938463463374607431768211;

/// Exact form of "the loss rate rose by more than one part in a thousand":
/// `lost / sent > prev_lost / prev_sent + 1 / 1000`, cleared of denominators.
/// A cycle in which nothing was sent reports no rise.
pub open spec fn loss_rate_risen(lost: int, sent: int, prev_lost: int, prev_sent: int) -> bool {
    sent > 0 && 1000 * lost * prev_sent > 1000 * prev_lost * sent + prev_sent * sent
}

/// The burst ceiling after a rise in loss: three quarters of the old ceiling,
/// but never less than ten datagrams.
pub open spec fn shrunk_burst(burst: int, mss: int) -> int {
    if burst / 4 * 3 >= 10 * mss {
        burst / 4 * 3
    } else {
        10 * mss
    }
}

/// Decides how many bytes one transmit cycle may emit.
///
/// The last observed loss rate is kept as the exact fraction
/// `prev_lost / prev_sent` rather than as a rounded scalar, so the
/// "risen by more than 0.001" comparison is exact.
pub struct TxBurst {
    prev_lost: usize,
    prev_sent: usize,
    max_send_burst: usize,
    max_datagram_size: usize,
}

impl TxBurst {
    /// Numerator of the stored loss rate.
    pub closed spec fn loss_num(self) -> int {
        self.prev_lost as int
    }

    /// Denominator of the stored loss rate.
    pub closed spec fn loss_den(self) -> int {
        self.prev_sent as int
    }

    /// The current burst ceiling in bytes.
    pub closed spec fn burst(self) -> int {
        self.max_send_burst as int
    }

    /// The segmentation unit in bytes.
    pub closed spec fn mss(self) -> int {
        self.max_datagram_size as int
    }

    /// Well-formedness: a positive segmentation unit, a ceiling between ten
    /// datagrams and the full buffer, and a loss fraction with a positive
    /// denominator.
    pub open spec fn wf(self) -> bool {
        &&& 1 <= self.mss()
        &&& 10 * self.mss() <= self.burst()
        &&& self.burst() <= MAX_IPV6_BUF_SIZE as int
        &&& 1 <= self.loss_den()
    }

    /// A fresh controller: loss rate zero, ceiling at the full buffer size.
    pub fn new(max_send_udp_payload_size: usize) -> (r: Self)
        requires
            1 <= max_send_udp_payload_size,
            10 * max_send_udp_payload_size <= MAX_IPV6_BUF_SIZE,
        ensures
            r.wf(),
            r.loss_num() == 0,
            r.loss_den() == 1,
            r.burst() == MAX_IPV6_BUF_SIZE as int,
            r.mss() == max_send_udp_payload_size as int,
    {
        TxBurst {
            prev_lost: 0,
            prev_sent: 1,
            max_send_burst: MAX_IPV6_BUF_SIZE,
            max_datagram_size: max_send_udp_payload_size,
        }
    }

    /// The segmentation unit this controller was built with.
    pub fn datagram_size(&self) -> (r: usize)
        ensures
            r as int == self.mss(),
    {
        self.max_datagram_size
    }

    /// Observes the engine's cumulative loss statistics and returns the byte
    /// budget of the next send cycle: the smaller of the send quantum and the
    /// (possibly shrunk) burst ceiling, rounded down to whole datagrams.
    pub fn max_send_burst(&mut self, sent: usize, lost: usize, send_quantum: usize) -> (r: usize)
        requires
            old(self).wf(),
        ensures
            final(self).wf(),
            final(self).mss() == old(self).mss(),
            loss_rate_risen(lost as int, sent as int, old(self).loss_num(), old(self).loss_den())
                ==> {
                    &&& final(self).burst() == shrunk_burst(old(self).burst(), old(self).mss())
                    &&& final(self).loss_num() == lost as int
                    &&& final(self).loss_den() == sent as int
                },
            !loss_rate_risen(lost as int, sent as int, old(self).loss_num(), old(self).loss_den())
                ==> *final(self) == *old(self),
            final(self).burst() <= old(self).burst(),
            r as int == min_int(send_quantum as int, final(self).burst()) / final(self).mss()
                * final(self).mss(),
            r as int % final(self).mss() == 0,
            r <= send_quantum,
            r as int <= final(self).burst(),
    {
        let risen = rate_risen_exec(lost, sent, self.prev_lost, self.prev_sent);
        if risen {
            let shrunk: usize = self.max_send_burst / 4 * 3;
            proof {
                assert(shrunk as int <= old(self).burst()) by {
                    let b = old(self).burst();
                    assert(b / 4 * 4 + b % 4 == b) by (nonlinear_arith);
                    assert(b / 4 >= 0);
                }
            }
            let floor10: usize = self.max_datagram_size * 10;
            self.max_send_burst = if shrunk >= floor10 {
                shrunk
            } else {
                floor10
            };
            self.prev_lost = lost;
            self.prev_sent = sent;
        }
        let cap: usize = if send_quantum <= self.max_send_burst {
            send_quantum
        } else {
            self.max_send_burst
        };
        let whole: usize = cap / self.max_datagram_size;
        proof {
            let c = cap as int;
            let m = self.max_datagram_size as int;
            assert(c / m * m <= c && c / m * m >= 0 && (c / m * m) % m == 0) by (nonlinear_arith)
                requires m >= 1 && c >= 0;
        }
        whole * self.max_datagram_size
    }
}

/// The smaller of two integers.
pub open spec fn min_int(a: int, b: int) -> int {
    if a <= b {
        a
    } else {
        b
    }
}

/// Exact test for a rise of more than one part in a thousand in the loss
/// rate, computed without overflow in 128-bit arithmetic.
fn rate_risen_exec(lost: usize, sent: usize, prev_lost: usize, prev_sent: usize) -> (b: bool)
    requires
        1 <= prev_sent,
    ensures
        b == loss_rate_risen(lost as int, sent as int, prev_lost as int, prev_sent as int),
{
    if sent == 0 {
        return false;
    }
    let a: u128 = lost as u128;
    let s: u128 = sent as u128;
    let c: u128 = prev_lost as u128;
    let d: u128 = prev_sent as u128;
    let ghost lhs_spec: int = 1000 * (lost as int) * (prev_sent as int);
    let ghost rhs_spec: int = 1000 * (prev_lost as int) * (sent as int) + (prev_sent as int) * (
    sent as int);
    proof {
        assert(a * d < 0x100000000000000000000000000000000) by (nonlinear_arith)
            requires
                a < 0x10000000000000000 && d < 0x10000000000000000,
        ;
        assert(c * s < 0x100000000000000000000000000000000) by (nonlinear_arith)
            requires
                c < 0x10000000000000000 && s < 0x10000000000000000,
        ;
        assert(d * s < 0x100000000000000000000000000000000) by (nonlinear_arith)
            requires
                d < 0x10000000000000000 && s < 0x10000000000000000,
        ;
        assert(d * s >= 1) by (nonlinear_arith)
            requires
                d >= 1 && s >= 1,
        ;
        assert(lhs_spec == 1000 * (a as int * d as int)) by (nonlinear_arith)
            requires
                a == lost as int && d == prev_sent as int && lhs_spec == 1000 * (lost as int) * (
                prev_sent as int),
        ;
        assert(rhs_spec == 1000 * (c as int * s as int) + d as int * s as int) by (nonlinear_arith)
            requires
                c == prev_lost as int && s == sent as int && d == prev_sent as int && rhs_spec
                    == 1000 * (prev_lost as int) * (sent as int) + (prev_sent as int) * (
                sent as int),
        ;
    }
    let ad: u128 = a * d;
    let cs: u128 = c * s;
    if ad <= cs {
        proof {
            assert(lhs_spec <= 1000 * (cs as int));
            assert(lhs_spec < rhs_spec);
        }
        false
    } else {
        let delta: u128 = ad - cs;
        proof {
            assert(lhs_spec == 1000 * (cs as int) + 1000 * (delta as int));
            assert((lhs_spec > rhs_spec) == (1000 * (delta as int) > d as int * s as int));
        }
        if delta > RATE_DELTA_CAP {
            proof {
                assert(1000 * (delta as int) >= 1000 * (RATE_DELTA_CAP + 1));
                assert(1000 * (RATE_DELTA_CAP + 1) > d as int * s as int);
            }
            true
        } else {
            let lhs: u128 = 1000 * delta;
            let rhs: u128 = d * s;
            lhs > rhs
        }
    }
}

/// Law: one loss observation never raises the burst ceiling, and the ceiling
/// never falls under ten datagrams.
pub proof fn lemma_burst_ceiling_step(burst: int, mss: int)
    requires
        1 <= mss,
        10 * mss <= burst,
    ensures
        shrunk_burst(burst, mss) <= burst,
        10 * mss <= shrunk_burst(burst, mss),
{
    assert(burst / 4 * 4 + burst % 4 == burst) by (nonlinear_arith);
    assert(burst / 4 >= 0);
}

} // verus!
