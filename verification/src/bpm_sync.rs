use vstd::prelude::*;

use crate::bpm::MAX_BPM;
use crate::bpm::MIN_BPM;
use crate::hvec::stamp_items;
use crate::hvec::stamp_vec_clear;
use crate::hvec::stamp_vec_get;
use crate::hvec::stamp_vec_len;
use crate::hvec::stamp_vec_new;
use crate::hvec::stamp_vec_push;
use crate::hvec::stamp_vec_remove_first;

verus! {

/// A pause this long since the last tap starts a fresh measurement.
pub const TAP_TIMEOUT_MICROS: u64 = 5_000_000;

pub const MICRO_SECONDS_IN_A_SECOND: u64 = 1_000_000;

pub const SECONDS_IN_A_MINUTE: u64 = 60;

/// A well-formed tap history: at least the starting tap, at most eight, in
/// chronological order, with every recorded gap under the timeout.
pub open spec fn tap_history_wf(s: Seq<u64>) -> bool {
    &&& 1 <= s.len() <= 8
    &&& forall|i: int|
        0 <= i < s.len() - 1 ==> #[trigger] s[i] <= s[i + 1] && s[i + 1] - s[i]
            < TAP_TIMEOUT_MICROS
}

/// The tempo a tap history estimates: one minute divided by the mean gap
/// between consecutive taps, clamped to the supported range. A mean gap of
/// zero (taps in the same microsecond) saturates at the fastest tempo.
pub open spec fn spec_tap_estimate(s: Seq<u64>) -> u32 {
    let span = s.last() - s.first();
    let windows = s.len() - 1;
    let mean = span as int / windows as int;
    if mean == 0 {
        MAX_BPM
    } else {
        let b = (MICRO_SECONDS_IN_A_SECOND * SECONDS_IN_A_MINUTE) as int / mean;
        if b > MAX_BPM {
            MAX_BPM
        } else if b < MIN_BPM {
            MIN_BPM
        } else {
            b as u32
        }
    }
}

/// Rolling tap-tempo estimator: a bounded ring of the most recent tap
/// timestamps, in microseconds of a monotonic clock.
pub struct BpmSync {
    pub instants: heapless::Vec<u64, 8>,
}

impl BpmSync {
    /// The recorded tap timestamps, oldest first.
    pub open spec fn stamps(self) -> Seq<u64> {
        stamp_items(self.instants)
    }

    pub open spec fn wf(self) -> bool {
        tap_history_wf(self.stamps())
    }

    /// Starts a measurement with the press that created it.
    pub fn new(now: u64) -> (r: BpmSync)
        ensures
            r.wf(),
            r.stamps() == seq![now],
    {
        let mut instants = stamp_vec_new();
        stamp_vec_push(&mut instants, now);
        proof {
            assert(stamp_items(instants) =~= seq![now]);
        }
        BpmSync { instants }
    }

    /// Records one tap of a monotonic clock. A tap after a pause of
    /// `TAP_TIMEOUT_MICROS` or more restarts the measurement and estimates
    /// nothing; any other tap joins the history (evicting the oldest of
    /// eight) and yields the estimate of the history it completes.
    pub fn pulse(&mut self, now: u64) -> (r: Option<u32>)
        requires
            old(self).wf(),
            now >= old(self).stamps().last(),
        ensures
            final(self).wf(),
            now - old(self).stamps().last() >= TAP_TIMEOUT_MICROS ==> {
                &&& final(self).stamps() == seq![now]
                &&& r is None
            },
            now - old(self).stamps().last() < TAP_TIMEOUT_MICROS ==> {
                let kept = if old(self).stamps().len() == 8 {
                    old(self).stamps().drop_first()
                } else {
                    old(self).stamps()
                };
                &&& final(self).stamps() == kept.push(now)
                &&& r == Some(spec_tap_estimate(kept.push(now)))
            },
    {
        let len = stamp_vec_len(&self.instants);
        let last = stamp_vec_get(&self.instants, len - 1);
        if now - last >= TAP_TIMEOUT_MICROS {
            stamp_vec_clear(&mut self.instants);
            stamp_vec_push(&mut self.instants, now);
            proof {
                assert(self.stamps() =~= seq![now]);
            }
            None
        } else {
            if len == 8 {
                let _ = stamp_vec_remove_first(&mut self.instants);
            }
            stamp_vec_push(&mut self.instants, now);
            Some(self.calculate_bpm())
        }
    }

    /// The estimate of the current history: the mean of its gaps, inverted
    /// into beats per minute and clamped to the supported range.
    fn calculate_bpm(&self) -> (r: u32)
        requires
            self.wf(),
            self.stamps().len() >= 2,
        ensures
            r == spec_tap_estimate(self.stamps()),
            MIN_BPM <= r <= MAX_BPM,
    {
        let len = stamp_vec_len(&self.instants);
        let mut sum: u64 = 0;
        let mut i: usize = 1;
        while i < len
            invariant
                self.wf(),
                len == self.stamps().len(),
                2 <= len <= 8,
                1 <= i <= len,
                sum == self.stamps()[i - 1] - self.stamps()[0],
                self.stamps()[0] <= self.stamps()[i - 1],
            decreases len - i,
        {
            let prev = stamp_vec_get(&self.instants, i - 1);
            let cur = stamp_vec_get(&self.instants, i);
            sum = sum + (cur - prev);
            i = i + 1;
        }
        let windows = (len - 1) as u64;
        let mean = sum / windows;
        if mean == 0 {
            MAX_BPM
        } else {
            let b = MICRO_SECONDS_IN_A_SECOND * SECONDS_IN_A_MINUTE / mean;
            if b > MAX_BPM as u64 {
                MAX_BPM
            } else if b < MIN_BPM as u64 {
                MIN_BPM
            } else {
                b as u32
            }
        }
    }
}

} // verus!
