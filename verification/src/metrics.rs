//! Sampling state machine and reduction of raw samples into a run summary.
//!
//! `MetricsCollector` is the shared state that one supervised run
//! accumulates: the ordered CPU sample sequence, the peak-memory scalar,
//! the network baseline captured at construction, and the monitoring flag.
//! The caller owns the concurrency around it (a lock and a sampling loop);
//! every state transition and the final reduction live here, so the
//! no-sample-after-stop guarantee is a theorem about `record_sample`.

use vstd::prelude::*;

verus! {

use vstd::arithmetic::div_mod::lemma_div_is_ordered;
use vstd::arithmetic::div_mod::lemma_div_multiples_vanish;
use vstd::arithmetic::mul::lemma_mul_inequality;
use vstd::arithmetic::mul::lemma_mul_upper_bound;

/// Summary of one supervised run.
///
/// CPU percentages are held in hundredths of a percent (so `1250` means
/// 12.50%); memory is the peak resident size in bytes; network counters are
/// host-wide byte deltas between run start and run end.
#[derive(Clone, Copy, Debug, PartialEq, Eq, Structural)]
pub struct ExecutionMetrics {
    pub duration_ms: u64,
    pub cpu_avg: u64,
    pub cpu_peak: u64,
    pub memory_bytes: u64,
    pub network_sent: u64,
    pub network_received: u64,
}

/// Sum of a CPU sample sequence.
pub open spec fn spec_cpu_sum(s: Seq<u64>) -> int
    decreases s.len(),
{
    if s.len() == 0 {
        0
    } else {
        spec_cpu_sum(s.drop_last()) + s.last()
    }
}

/// Maximum of a CPU sample sequence, seeded at 0: never negative, and 0 for
/// an empty sequence.
pub open spec fn spec_cpu_peak(s: Seq<u64>) -> int
    decreases s.len(),
{
    if s.len() == 0 {
        0
    } else {
        let rest = spec_cpu_peak(s.drop_last());
        if s.last() > rest {
            s.last() as int
        } else {
            rest
        }
    }
}

/// Arithmetic mean of a CPU sample sequence, rounded down; 0 for an empty
/// sequence, so a run too short to be sampled still reduces cleanly.
pub open spec fn spec_cpu_avg(s: Seq<u64>) -> int {
    if s.len() == 0 {
        0
    } else {
        spec_cpu_sum(s) / s.len() as int
    }
}

/// The sum of a sample sequence is bounded by its length times its peak.
proof fn lemma_cpu_sum_le_len_times_peak(s: Seq<u64>)
    ensures
        0 <= spec_cpu_sum(s) <= s.len() * spec_cpu_peak(s),
    decreases s.len(),
{
    if s.len() == 0 {
    } else {
        let prefix = s.drop_last();
        lemma_cpu_sum_le_len_times_peak(prefix);
        assert(spec_cpu_peak(prefix) <= spec_cpu_peak(s));
        lemma_mul_inequality(spec_cpu_peak(prefix), spec_cpu_peak(s), prefix.len() as int);
        assert(prefix.len() as int * spec_cpu_peak(prefix) == spec_cpu_peak(prefix) * prefix.len()) by {
            vstd::arithmetic::mul::lemma_mul_is_commutative(prefix.len() as int, spec_cpu_peak(prefix));
        }
        assert(spec_cpu_sum(s) <= prefix.len() * spec_cpu_peak(s) + spec_cpu_peak(s));
        assert(prefix.len() * spec_cpu_peak(s) + spec_cpu_peak(s) == s.len() * spec_cpu_peak(s)) by {
            vstd::arithmetic::mul::lemma_mul_is_distributive_add_other_way(
                spec_cpu_peak(s),
                prefix.len() as int,
                1,
            );
        }
    }
}

/// Law: for every sample sequence, the peak is at least the rounded-down
/// average; both are 0 when the sequence is empty.
pub proof fn lemma_cpu_peak_ge_avg(s: Seq<u64>)
    ensures
        spec_cpu_avg(s) <= spec_cpu_peak(s),
        0 <= spec_cpu_avg(s),
        s.len() == 0 ==> spec_cpu_avg(s) == 0 && spec_cpu_peak(s) == 0,
{
    if s.len() == 0 {
    } else {
        lemma_cpu_sum_le_len_times_peak(s);
        let n = s.len() as int;
        lemma_div_is_ordered(spec_cpu_sum(s), n * spec_cpu_peak(s), n);
        assert(n * spec_cpu_peak(s) == spec_cpu_peak(s) * n) by {
            vstd::arithmetic::mul::lemma_mul_is_commutative(n, spec_cpu_peak(s));
        }
        lemma_div_multiples_vanish(spec_cpu_peak(s), n);
        assert(spec_cpu_sum(s) / n >= 0) by {
            vstd::arithmetic::div_mod::lemma_div_pos_is_pos(spec_cpu_sum(s), n);
        }
    }
}

/// Mutable state of one supervised run: the growing CPU sample sequence,
/// the peak-memory scalar, the network baseline captured at construction,
/// and the monitoring flag. One instance supervises one process; the caller
/// guards it with a lock and drives `record_sample` from its sampling loop.
pub struct MetricsCollector {
    pub pid: u32,
    pub cpu_samples: Vec<u64>,
    pub memory_peak: u64,
    pub network_start_sent: u64,
    pub network_start_received: u64,
    pub monitoring: bool,
}

impl MetricsCollector {
    /// An idle collector for the given process id, with the host-wide
    /// network counters read at construction as its baseline.
    pub fn new(pid: u32, network_sent: u64, network_received: u64) -> (c: Self)
        ensures
            c.pid == pid,
            c.cpu_samples@ == Seq::<u64>::empty(),
            c.memory_peak == 0,
            c.network_start_sent == network_sent,
            c.network_start_received == network_received,
            !c.monitoring,
    {
        Self {
            pid,
            cpu_samples: Vec::new(),
            memory_peak: 0,
            network_start_sent: network_sent,
            network_start_received: network_received,
            monitoring: false,
        }
    }

    /// Raises the monitoring flag; the sampling loop runs while it holds.
    pub fn start_monitoring(&mut self)
        ensures
            final(self).monitoring,
            final(self).pid == old(self).pid,
            final(self).cpu_samples@ == old(self).cpu_samples@,
            final(self).memory_peak == old(self).memory_peak,
            final(self).network_start_sent == old(self).network_start_sent,
            final(self).network_start_received == old(self).network_start_received,
    {
        self.monitoring = true;
    }

    /// Lowers the monitoring flag. From the moment this returns, no call of
    /// `record_sample` changes the collector any more.
    pub fn stop_monitoring(&mut self)
        ensures
            !final(self).monitoring,
            final(self).pid == old(self).pid,
            final(self).cpu_samples@ == old(self).cpu_samples@,
            final(self).memory_peak == old(self).memory_peak,
            final(self).network_start_sent == old(self).network_start_sent,
            final(self).network_start_received == old(self).network_start_received,
    {
        self.monitoring = false;
    }

    /// One sampling cycle's write-back: while monitoring, appends the CPU
    /// reading (hundredths of a percent) and raises the memory peak to the
    /// current resident size if it exceeds the peak so far. After the flag
    /// is lowered the call leaves the collector untouched, so a cycle still
    /// in flight when monitoring stops can never alter what `get_metrics`
    /// reads.
    pub fn record_sample(&mut self, cpu: u64, memory_bytes: u64)
        ensures
            old(self).monitoring ==> final(self).cpu_samples@ == old(self).cpu_samples@.push(cpu),
            old(self).monitoring ==> final(self).memory_peak == (if memory_bytes
                > old(self).memory_peak {
                memory_bytes as int
            } else {
                old(self).memory_peak as int
            }),
            !old(self).monitoring ==> final(self).cpu_samples@ == old(self).cpu_samples@
                && final(self).memory_peak == old(self).memory_peak,
            final(self).pid == old(self).pid,
            final(self).monitoring == old(self).monitoring,
            final(self).network_start_sent == old(self).network_start_sent,
            final(self).network_start_received == old(self).network_start_received,
    {
        if self.monitoring {
            self.cpu_samples.push(cpu);
            if memory_bytes > self.memory_peak {
                self.memory_peak = memory_bytes;
            }
        }
    }

    /// Reduces the accumulated state into a run summary: rounded-down mean
    /// and maximum of the CPU samples (both 0 when none were captured), the
    /// peak resident size, and saturating host-wide network deltas against
    /// the baseline — a counter that went backwards yields 0, never an
    /// underflow. Read-only; call it only once monitoring has stopped.
    pub fn get_metrics(
        &self,
        duration_ms: u64,
        network_sent_end: u64,
        network_received_end: u64,
    ) -> (m: ExecutionMetrics)
        ensures
            m.duration_ms == duration_ms,
            m.cpu_avg == spec_cpu_avg(self.cpu_samples@),
            m.cpu_peak == spec_cpu_peak(self.cpu_samples@),
            m.cpu_avg <= m.cpu_peak,
            self.cpu_samples@.len() == 0 ==> m.cpu_avg == 0 && m.cpu_peak == 0,
            m.memory_bytes == self.memory_peak,
            m.network_sent == (if network_sent_end >= self.network_start_sent {
                network_sent_end - self.network_start_sent
            } else {
                0
            }),
            m.network_received == (if network_received_end >= self.network_start_received {
                network_received_end - self.network_start_received
            } else {
                0
            }),
    {
        let samples = &self.cpu_samples;
        let n = samples.len();
        let mut i: usize = 0;
        let mut sum: u128 = 0;
        let mut peak: u64 = 0;
        while i < n
            invariant
                i <= n,
                n == samples@.len(),
                sum == spec_cpu_sum(samples@.take(i as int)),
                peak == spec_cpu_peak(samples@.take(i as int)),
            decreases n - i,
        {
            proof {
                let prefix = samples@.take(i as int);
                lemma_cpu_sum_le_len_times_peak(prefix);
                lemma_mul_upper_bound(
                    prefix.len() as int,
                    0xffff_ffff_ffff_ffff,
                    spec_cpu_peak(prefix),
                    0xffff_ffff_ffff_ffff,
                );
                assert(samples@.take(i as int + 1).drop_last() =~= samples@.take(i as int));
            }
            sum = sum + samples[i] as u128;
            if samples[i] > peak {
                peak = samples[i];
            }
            i = i + 1;
        }
        proof {
            assert(samples@.take(n as int) =~= samples@);
            lemma_cpu_peak_ge_avg(samples@);
        }
        let cpu_avg: u64 = if n == 0 {
            0
        } else {
            proof {
                lemma_cpu_sum_le_len_times_peak(samples@);
                let len = samples@.len() as int;
                lemma_div_is_ordered(spec_cpu_sum(samples@), len * spec_cpu_peak(samples@), len);
                vstd::arithmetic::mul::lemma_mul_is_commutative(len, spec_cpu_peak(samples@));
                lemma_div_multiples_vanish(spec_cpu_peak(samples@), len);
            }
            (sum / n as u128) as u64
        };
        let network_sent: u64 = if network_sent_end >= self.network_start_sent {
            network_sent_end - self.network_start_sent
        } else {
            0
        };
        let network_received: u64 = if network_received_end >= self.network_start_received {
            network_received_end - self.network_start_received
        } else {
            0
        };
        ExecutionMetrics {
            duration_ms,
            cpu_avg,
            cpu_peak: peak,
            memory_bytes: self.memory_peak,
            network_sent,
            network_received,
        }
    }
}

} // verus!
