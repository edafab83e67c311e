use vstd::prelude::*;
use vstd::arithmetic::div_mod::{lemma_mod_equivalence, lemma_small_mod};

verus! {

/// Whether a 32-bit scalar pattern encodes a finite value: its exponent
/// field is not all ones.
pub open spec fn spec_f32_finite(b: u32) -> bool {
    (b >> 23u32) & 0xFF != 0xFF
}

/// Whether a 32-bit scalar pattern encodes a finite value strictly above
/// zero: finite, sign clear, and not the zero pattern.
pub open spec fn spec_f32_positive(b: u32) -> bool {
    &&& spec_f32_finite(b)
    &&& (b >> 31u32) == 0
    &&& b != 0
}

/// Whether a 64-bit scalar pattern encodes a finite value: its exponent
/// field is not all ones.
pub open spec fn spec_f64_finite(b: u64) -> bool {
    (b >> 52u64) & 0x7FF != 0x7FF
}

/// Tests a 64-bit scalar pattern for finiteness.
pub fn f64_finite_bits(b: u64) -> (r: bool)
    ensures
        r == spec_f64_finite(b),
{
    (b >> 52u64) & 0x7FF != 0x7FF
}

/// Tests a 32-bit scalar pattern for a finite, strictly positive value.
pub fn f32_positive_bits(b: u32) -> (r: bool)
    ensures
        r == spec_f32_positive(b),
{
    (b >> 23u32) & 0xFF != 0xFF && (b >> 31u32) == 0 && b != 0
}

/// A declarative filter request: which filter, with which parameters.
/// Scalar parameters are carried as 32-bit patterns.
#[derive(Clone, Copy, PartialEq, Eq, Structural, Debug)]
pub enum FilterType {
    /// Moving average over a fixed window length in samples.
    MovingAverage { window: usize },
    /// Exponential moving average with constant alpha in (0, 1].
    ExponentialMA { alpha: u32 },
    /// Low-pass Butterworth by cutoff `fc_hz` and order 1 or 2.
    LowpassButter { fc_hz: u32, order: u8 },
}

/// The filter a request constructs.  Construction never fails: invalid
/// parameters degrade to `Bypass`, which returns its input unchanged.
#[derive(Clone, Copy, PartialEq, Eq, Structural, Debug)]
pub enum FilterSelect {
    MA { window: usize },
    EMA { alpha: u32 },
    Butter1 { fc_hz: u32 },
    Butter2 { fc_hz: u32 },
    Bypass,
}

/// Which filter a request constructs: the requested one when its parameters
/// are valid — a window of at least one sample, a finite positive alpha or
/// cutoff, an order of one or two — and the bypass filter otherwise.
pub open spec fn spec_filter_select(ft: FilterType) -> FilterSelect {
    match ft {
        FilterType::MovingAverage { window } => if window >= 1 {
            FilterSelect::MA { window }
        } else {
            FilterSelect::Bypass
        },
        FilterType::ExponentialMA { alpha } => if spec_f32_positive(alpha) {
            FilterSelect::EMA { alpha }
        } else {
            FilterSelect::Bypass
        },
        FilterType::LowpassButter { fc_hz, order } => if spec_f32_positive(fc_hz) {
            if order == 1 {
                FilterSelect::Butter1 { fc_hz }
            } else if order == 2 {
                FilterSelect::Butter2 { fc_hz }
            } else {
                FilterSelect::Bypass
            }
        } else {
            FilterSelect::Bypass
        },
    }
}

/// Resolves a filter request, degrading invalid parameters to the bypass
/// filter instead of failing.
pub fn filter_select(ft: FilterType) -> (r: FilterSelect)
    ensures
        r == spec_filter_select(ft),
{
    match ft {
        FilterType::MovingAverage { window } => {
            if window >= 1 {
                FilterSelect::MA { window }
            } else {
                FilterSelect::Bypass
            }
        }
        FilterType::ExponentialMA { alpha } => {
            if f32_positive_bits(alpha) {
                FilterSelect::EMA { alpha }
            } else {
                FilterSelect::Bypass
            }
        }
        FilterType::LowpassButter { fc_hz, order } => {
            if f32_positive_bits(fc_hz) {
                if order == 1 {
                    FilterSelect::Butter1 { fc_hz }
                } else if order == 2 {
                    FilterSelect::Butter2 { fc_hz }
                } else {
                    FilterSelect::Bypass
                }
            } else {
                FilterSelect::Bypass
            }
        }
    }
}

/// A filter request with invalid parameters — a zero window, a non-finite or
/// non-positive alpha or cutoff, or an unsupported order — always constructs
/// the bypass filter.
pub proof fn lemma_invalid_params_select_bypass(ft: FilterType)
    requires
        match ft {
            FilterType::MovingAverage { window } => window == 0,
            FilterType::ExponentialMA { alpha } => !spec_f32_positive(alpha),
            FilterType::LowpassButter { fc_hz, order } => !spec_f32_positive(fc_hz) || !(order == 1
                || order == 2),
        },
    ensures
        spec_filter_select(ft) == FilterSelect::Bypass,
{
}

/// What a moving-average step asks its caller to do with the running sum.
#[derive(Clone, Copy, PartialEq, Eq, Structural, Debug)]
pub enum PushAction {
    /// The sample was non-finite and dropped; divide the unchanged sum by
    /// this count to report the current average.
    Dropped { denom: usize },
    /// The sample was accepted: add it to the sum, subtract the evicted
    /// sample if one left the window, and divide by this count.
    Stored { evicted: Option<u64>, denom: usize },
}

/// The sliding window of a moving-average filter: a ring buffer of the last
/// accepted samples, as 64-bit scalar patterns.  The running sum itself is
/// floating-point arithmetic and lives with the caller; this type accounts
/// for exactly which samples are in the window.
pub struct MovingAverage {
    pub window: usize,
    pub buf: Vec<u64>,
    pub idx: usize,
    pub filled: usize,
    pub history: Ghost<Seq<u64>>,
}

impl MovingAverage {
    /// The number of samples the window currently holds: all of them during
    /// the growing phase, the window length afterwards.
    pub open spec fn spec_filled(self) -> int {
        if self.history@.len() >= self.window {
            self.window as int
        } else {
            self.history@.len() as int
        }
    }

    /// Well-formedness: the ring geometry matches the accepted-sample
    /// history, and the buffer holds exactly the last `spec_filled` accepted
    /// samples, each at its position in the ring.
    pub open spec fn wf(self) -> bool {
        &&& self.window >= 1
        &&& self.buf@.len() == self.window
        &&& self.idx == (self.history@.len() as int) % (self.window as int)
        &&& self.filled == self.spec_filled()
        &&& forall|k: int|
            self.history@.len() - self.spec_filled() <= k < self.history@.len()
                ==> self.buf@[k % (self.window as int)] == #[trigger] self.history@[k]
    }

    /// Builds a window of at least one sample; a zero request is widened to
    /// one, as construction never fails.
    pub fn new(window: usize) -> (r: MovingAverage)
        ensures
            r.wf(),
            r.window == if window >= 1 {
                window
            } else {
                1
            },
            r.history@.len() == 0,
    {
        let w = if window >= 1 {
            window
        } else {
            1
        };
        proof {
            lemma_small_mod(0, w as nat);
        }
        MovingAverage {
            window: w,
            buf: vec_u64_zeroes(w),
            idx: 0,
            filled: 0,
            history: Ghost(Seq::empty()),
        }
    }

    /// Accepts one sample.  A non-finite pattern is dropped and the window
    /// is unchanged; otherwise the sample enters the ring, evicting the
    /// oldest accepted sample once the window is full, and the denominator
    /// of the new average is the number of samples now held.
    pub fn push(&mut self, x: u64) -> (r: PushAction)
        requires
            old(self).wf(),
        ensures
            final(self).wf(),
            final(self).window == old(self).window,
            !spec_f64_finite(x) ==> {
                &&& *final(self) == *old(self)
                &&& r == (PushAction::Dropped {
                    denom: if old(self).filled >= 1 {
                        old(self).filled
                    } else {
                        1
                    },
                })
            },
            spec_f64_finite(x) ==> {
                &&& final(self).history@ == old(self).history@.push(x)
                &&& r == (PushAction::Stored {
                    evicted: if old(self).filled == old(self).window {
                        Some(old(self).history@[old(self).history@.len() - old(self).window])
                    } else {
                        None
                    },
                    denom: final(self).filled,
                })
                &&& final(self).filled == if old(self).filled == old(self).window {
                    old(self).window as int
                } else {
                    old(self).filled + 1
                }
            },
    {
        if !f64_finite_bits(x) {
            let denom = if self.filled >= 1 {
                self.filled
            } else {
                1
            };
            return PushAction::Dropped { denom };
        }
        let ghost n = self.history@.len() as int;
        let ghost w = self.window as int;
        let evicted = if self.filled == self.window {
            proof {
                // The slot being overwritten holds the oldest sample: the
                // one whose history index is exactly one window back.
                vstd::arithmetic::div_mod::lemma_fundamental_div_mod_converse(-w, w, -1, 0);
                lemma_mod_equivalence(n - w, n, w);
                assert(self.buf@[(n - w) % w] == self.history@[n - w]);
            }
            Some(self.buf[self.idx])
        } else {
            None
        };
        self.buf[self.idx] = x;
        proof {
            self.history@ = self.history@.push(x);
        }
        if self.filled < self.window {
            self.filled = self.filled + 1;
        }
        self.idx = self.idx + 1;
        if self.idx == self.window {
            self.idx = 0;
        }
        proof {
            lemma_push_preserves_wf(*old(self), *self, x, n, w);
        }
        PushAction::Stored { evicted, denom: self.filled }
    }

    /// Empties the window and restarts the growing phase.
    pub fn reset(&mut self)
        requires
            old(self).wf(),
        ensures
            final(self).wf(),
            final(self).window == old(self).window,
            final(self).history@.len() == 0,
    {
        self.idx = 0;
        self.filled = 0;
        proof {
            self.history@ = Seq::empty();
        }
        let w = self.window;
        self.buf = vec_u64_zeroes(w);
        proof {
            lemma_small_mod(0, w as nat);
        }
    }

    /// Every slot of a well-formed window holds the accepted sample the ring
    /// geometry says it does: the window is exactly the last
    /// min(samples accepted, window length) accepted samples, in order.
    pub proof fn lemma_window_holds_last_samples(self, j: int)
        requires
            self.wf(),
            0 <= j < self.spec_filled(),
        ensures
            self.buf@[(self.history@.len() - self.spec_filled() + j) % (self.window as int)]
                == self.history@[self.history@.len() - self.spec_filled() + j],
    {
    }
}

/// A vector of `n` zero patterns.
fn vec_u64_zeroes(n: usize) -> (r: Vec<u64>)
    ensures
        r@.len() == n,
        forall|i: int| 0 <= i < n ==> r@[i] == 0,
{
    let mut v: Vec<u64> = Vec::new();
    let mut i: usize = 0;
    while i < n
        invariant
            i <= n,
            v@.len() == i,
            forall|j: int| 0 <= j < i ==> v@[j] == 0,
        decreases n - i,
    {
        v.push(0);
        i = i + 1;
    }
    v
}

/// After an accepted sample, the ring still holds exactly the last
/// min(accepted, window) samples.
proof fn lemma_push_preserves_wf(
    before: MovingAverage,
    after: MovingAverage,
    x: u64,
    n: int,
    w: int,
)
    requires
        before.wf(),
        n == before.history@.len(),
        w == before.window as int,
        after.window == before.window,
        after.buf@ == before.buf@.update(before.idx as int, x),
        after.history@ == before.history@.push(x),
        after.filled == if before.spec_filled() == w {
            w
        } else {
            before.spec_filled() + 1
        },
        after.idx == if before.idx + 1 == before.window {
            0
        } else {
            before.idx + 1
        },
    ensures
        after.wf(),
{
    assert(after.history@.len() == n + 1);
    // The new write position follows the old one around the ring.
    vstd::arithmetic::div_mod::lemma_fundamental_div_mod(n, w);
    vstd::arithmetic::div_mod::lemma_mod_division_less_than_divisor(n, w);
    assert(w * (n / w) == (n / w) * w) by (nonlinear_arith);
    if before.idx + 1 == before.window {
        assert(n % w == w - 1);
        assert((n / w + 1) * w == (n / w) * w + w) by (nonlinear_arith);
        vstd::arithmetic::div_mod::lemma_fundamental_div_mod_converse(n + 1, w, n / w + 1, 0);
    } else {
        vstd::arithmetic::div_mod::lemma_fundamental_div_mod_converse(n + 1, w, n / w, n % w + 1);
    }
    assert(after.idx == (n + 1) % w);
    assert forall|k: int|
        after.history@.len() - after.spec_filled() <= k < after.history@.len() implies after.buf@[k
        % w] == after.history@[k] by {
        if k == n {
            assert(after.buf@[n % w] == x);
        } else {
            // Older retained samples sit in untouched slots: their ring
            // positions differ from the overwritten one because they are
            // less than a full window behind.
            assert(before.history@.len() - before.spec_filled() <= k < n);
            vstd::arithmetic::div_mod::lemma_fundamental_div_mod_converse(k - n, w, -1, k - n + w);
            lemma_mod_equivalence(k, n, w);
            assert(k % w != n % w);
            assert(after.buf@[k % w] == before.buf@[k % w]);
            assert(after.history@[k] == before.history@[k]);
        }
    }
}

} // verus!
