use vstd::prelude::*;

verus! {

/// Attack and release of the dynamic limiter, counted in samples per channel.
#[derive(PartialEq, Eq, Structural, Clone, Copy, Debug)]
pub struct LimiterTiming {
    pub attack_samples: u32,
    pub release_samples: u32,
}

impl LimiterTiming {
    pub open spec fn wf(self) -> bool {
        &&& 0 < self.attack_samples < u32::MAX
        &&& 0 < self.release_samples < u32::MAX
    }
}

/// Envelope state of the dynamic limiter. While it attacks, `attack_counter` counts
/// the samples since the limiter engaged; while it releases, `release_counter` counts
/// the samples since the input fell back under the threshold.
#[derive(PartialEq, Eq, Structural, Clone, Copy, Debug)]
pub struct Limiter {
    pub active: bool,
    pub attack_counter: u32,
    pub release_counter: u32,
}

/// The limiter at rest.
pub open spec fn neutral() -> Limiter {
    Limiter { active: false, attack_counter: 0, release_counter: 0 }
}

/// Attack counter that matches the strength reached after `release_counter` samples of release.
pub open spec fn attack_seed(t: LimiterTiming, release_counter: int) -> int {
    (t.release_samples - release_counter) * t.attack_samples / (t.release_samples as int)
}

/// Release counter that matches the strength reached after `attack_counter` samples of attack.
pub open spec fn release_seed(t: LimiterTiming, attack_counter: int) -> int {
    if attack_counter >= t.attack_samples {
        0
    } else {
        (t.attack_samples - attack_counter) * t.release_samples / (t.attack_samples as int)
    }
}

pub open spec fn saturating_inc(x: int) -> int {
    if x + 1 > u32::MAX {
        u32::MAX as int
    } else {
        x + 1
    }
}

impl Limiter {
    pub open spec fn wf(self, t: LimiterTiming) -> bool {
        &&& self.release_counter <= t.release_samples
        &&& !self.active ==> self.attack_counter == 0 && self.release_counter == 0
        &&& self.active ==> (self.attack_counter >= 1 && self.release_counter == 0) || (
        self.release_counter >= 1 && self.attack_counter == 0)
    }

    pub open spec fn is_attacking(self) -> bool {
        self.active && self.release_counter == 0
    }

    pub open spec fn is_releasing(self) -> bool {
        self.active && self.release_counter > 0
    }

    /// The limiter after one sample; `above` says whether the sample, with the static
    /// gain applied, exceeds the threshold.
    pub open spec fn next(self, t: LimiterTiming, above: bool) -> Limiter {
        if above {
            let ac = if self.release_counter > 0 {
                attack_seed(t, self.release_counter as int)
            } else {
                self.attack_counter as int
            };
            Limiter { active: true, attack_counter: saturating_inc(ac) as u32, release_counter: 0 }
        } else if self.active {
            let rc = if self.attack_counter > 0 {
                release_seed(t, self.attack_counter as int)
            } else {
                self.release_counter as int
            };
            let rc1 = saturating_inc(rc);
            if rc1 > t.release_samples {
                neutral()
            } else {
                Limiter { active: true, attack_counter: 0, release_counter: rc1 as u32 }
            }
        } else {
            self
        }
    }

    /// The limiter after `n` samples that all lie on the same side of the threshold.
    pub open spec fn run(self, t: LimiterTiming, above: bool, n: nat) -> Limiter
        decreases n,
    {
        if n == 0 {
            self
        } else {
            self.next(t, above).run(t, above, (n - 1) as nat)
        }
    }

    /// Strength of the limiter as numerator over denominator: the weight that the
    /// peak-based gain gets against the static gain. It climbs during the attack and holds
    /// at 1 once the attack counter reaches the attack length.
    pub open spec fn strength(self, t: LimiterTiming) -> (int, int) {
        if !self.active {
            (0, 1)
        } else if self.release_counter > 0 {
            (t.release_samples - self.release_counter, t.release_samples as int)
        } else if self.attack_counter >= t.attack_samples {
            (t.attack_samples as int, t.attack_samples as int)
        } else {
            (self.attack_counter as int, t.attack_samples as int)
        }
    }

    pub fn new() -> (r: Limiter)
        ensures
            r == neutral(),
    {
        Limiter { active: false, attack_counter: 0, release_counter: 0 }
    }

    pub fn reset(&mut self)
        ensures
            *final(self) == neutral(),
    {
        self.active = false;
        self.attack_counter = 0;
        self.release_counter = 0;
    }

    /// Advances the envelope by one sample.
    pub fn step(&mut self, t: LimiterTiming, above: bool)
        requires
            t.wf(),
            old(self).wf(t),
        ensures
            *final(self) == old(self).next(t, above),
            final(self).wf(t),
    {
        let a = t.attack_samples as u64;
        let r = t.release_samples as u64;
        if above {
            if self.release_counter > 0 {
                let x = r - self.release_counter as u64;
                assert((x as int) * (a as int) <= (r as int) * (a as int)
                    && (x as int) * (a as int) / (r as int) <= a as int) by (nonlinear_arith)
                    requires
                        x <= r,
                        r > 0,
                        a > 0,
                ;
                assert((r as int) * (a as int) <= u64::MAX) by (nonlinear_arith)
                    requires
                        r < 0x1_0000_0000,
                        a < 0x1_0000_0000,
                ;
                self.attack_counter = (x * a / r) as u32;
                self.release_counter = 0;
            }
            self.active = true;
            self.attack_counter = self.attack_counter.saturating_add(1);
        } else if self.active {
            if self.attack_counter > 0 {
                if self.attack_counter >= t.attack_samples {
                    self.release_counter = 0;
                } else {
                    let x = a - self.attack_counter as u64;
                    assert((x as int) * (r as int) <= (a as int) * (r as int)
                        && (x as int) * (r as int) / (a as int) <= r as int) by (nonlinear_arith)
                        requires
                            x <= a,
                            a > 0,
                            r > 0,
                    ;
                    assert((r as int) * (a as int) <= u64::MAX) by (nonlinear_arith)
                        requires
                            r < 0x1_0000_0000,
                            a < 0x1_0000_0000,
                    ;
                    self.release_counter = (x * r / a) as u32;
                }
                self.attack_counter = 0;
            }
            self.release_counter = self.release_counter.saturating_add(1);
            if self.release_counter > t.release_samples {
                self.reset();
            }
        }
    }

    /// Numerator and denominator of `strength`.
    pub fn strength_ratio(&self, t: LimiterTiming) -> (r: (u32, u32))
        requires
            t.wf(),
            self.wf(t),
        ensures
            (r.0 as int, r.1 as int) == self.strength(t),
    {
        if !self.active {
            (0, 1)
        } else if self.release_counter > 0 {
            (t.release_samples - self.release_counter, t.release_samples)
        } else if self.attack_counter >= t.attack_samples {
            (t.attack_samples, t.attack_samples)
        } else {
            (self.attack_counter, t.attack_samples)
        }
    }
}


/// The strength always lies between 0 and 1.
pub proof fn lemma_strength_bounded(l: Limiter, t: LimiterTiming)
    requires
        t.wf(),
        l.wf(t),
    ensures
        0 <= l.strength(t).0 <= l.strength(t).1,
        0 < l.strength(t).1,
{
}

/// While the input stays above the threshold, no sample lowers the limiter's strength, and
/// each sample strictly raises it until it is full, whatever phase the limiter was in.
pub proof fn lemma_attack_raises_strength(l: Limiter, t: LimiterTiming)
    requires
        t.wf(),
        l.wf(t),
    ensures
        l.strength(t).0 * l.next(t, true).strength(t).1 <= l.next(t, true).strength(t).0
            * l.strength(t).1,
        l.strength(t).0 < l.strength(t).1 ==> l.strength(t).0 * l.next(t, true).strength(t).1
            < l.next(t, true).strength(t).0 * l.strength(t).1,
{
    let a = t.attack_samples as int;
    let r = t.release_samples as int;
    if !l.active {
        assert(l.next(t, true).strength(t) == (1int, a));
        assert(0 * a < 1 * 1);
    } else if l.release_counter > 0 {
        let x = (r - l.release_counter) * a;
        let seed = attack_seed(t, l.release_counter as int);
        assert(0 <= x);
        assert(seed == x / r);
        vstd::arithmetic::div_mod::lemma_fundamental_div_mod(x, r);
        assert(x < (seed + 1) * r) by (nonlinear_arith)
            requires
                x == r * (x / r) + x % r,
                x % r < r,
                seed == x / r,
        ;
        assert(seed < a) by (nonlinear_arith)
            requires
                seed == x / r,
                x == (r - l.release_counter) * a,
                0 <= r - l.release_counter < r,
                r > 0,
                a > 0,
        ;
        let n = l.next(t, true);
        assert(n.attack_counter == seed + 1);
        assert(n.strength(t) == (seed + 1, a));
        assert((r - l.release_counter) * a == x);
        assert((seed + 1) * r == r * (seed + 1)) by (nonlinear_arith);
    } else {
        let c = l.attack_counter as int;
        if c < a {
            assert(l.next(t, true).strength(t) == (c + 1, a));
            assert(c * a < (c + 1) * a) by (nonlinear_arith)
                requires
                    a > 0,
            ;
        } else {
            assert(l.next(t, true).strength(t) == (a, a));
        }
    }
}

/// At full strength the limiter stays at full strength while the input stays above the
/// threshold, for any number of samples.
pub proof fn lemma_full_strength_holds(l: Limiter, t: LimiterTiming, k: nat)
    requires
        t.wf(),
        l.wf(t),
        l.is_attacking(),
        l.attack_counter >= t.attack_samples,
    ensures
        l.run(t, true, k).is_attacking(),
        l.run(t, true, k).attack_counter >= t.attack_samples,
        l.run(t, true, k).strength(t) == (t.attack_samples as int, t.attack_samples as int),
    decreases k,
{
    if k > 0 {
        lemma_full_strength_holds(l.next(t, true), t, (k - 1) as nat);
    }
}

proof fn lemma_run_split(l: Limiter, t: LimiterTiming, above: bool, a: nat, b: nat)
    ensures
        l.run(t, above, a + b) == l.run(t, above, a).run(t, above, b),
    decreases a,
{
    if a > 0 {
        lemma_run_split(l.next(t, above), t, above, (a - 1) as nat, b);
        assert((a + b - 1) as nat == ((a - 1) as nat + b) as nat);
    }
}

/// Attacking limiter after `k` more samples above the threshold: the counter advances by `k`.
pub proof fn lemma_attack_run(l: Limiter, t: LimiterTiming, k: nat)
    requires
        t.wf(),
        l.wf(t),
        l.is_attacking(),
        l.attack_counter + k <= u32::MAX,
    ensures
        l.run(t, true, k) == (Limiter {
            active: true,
            attack_counter: (l.attack_counter + k) as u32,
            release_counter: 0,
        }),
    decreases k,
{
    if k > 0 {
        lemma_attack_run(l.next(t, true), t, (k - 1) as nat);
    }
}

/// From rest, `n` samples above the threshold (no more than the attack length) give an
/// attack counter of `n` and a strength of `n` over the attack length: the strength
/// climbs one step per sample and is exactly 1 when the counter reaches the attack length.
pub proof fn lemma_attack_from_rest(t: LimiterTiming, n: nat)
    requires
        t.wf(),
        1 <= n <= t.attack_samples,
    ensures
        neutral().run(t, true, n) == (Limiter {
            active: true,
            attack_counter: n as u32,
            release_counter: 0,
        }),
        neutral().run(t, true, n).strength(t) == (n as int, t.attack_samples as int),
        n == t.attack_samples ==> neutral().run(t, true, n).strength(t).0 == neutral().run(
            t,
            true,
            n,
        ).strength(t).1,
{
    let first = neutral().next(t, true);
    assert(first == Limiter { active: true, attack_counter: 1, release_counter: 0 });
    lemma_attack_run(first, t, (n - 1) as nat);
}

/// From rest, once as many samples above the threshold as the attack length have passed,
/// the strength is 1 and stays 1 for every further sample above the threshold.
pub proof fn lemma_attack_full_from_rest(t: LimiterTiming, m: nat)
    requires
        t.wf(),
    ensures
        neutral().run(t, true, t.attack_samples as nat + m).strength(t) == (
            t.attack_samples as int,
            t.attack_samples as int,
        ),
{
    let a = t.attack_samples as nat;
    lemma_attack_from_rest(t, a);
    lemma_run_split(neutral(), t, true, a, m);
    lemma_full_strength_holds(neutral().run(t, true, a), t, m);
}

/// Once the input falls under the threshold, each sample leaves the strength no higher
/// than before.
pub proof fn lemma_release_lowers_strength(l: Limiter, t: LimiterTiming)
    requires
        t.wf(),
        l.wf(t),
    ensures
        l.next(t, false).strength(t).0 * l.strength(t).1 <= l.strength(t).0 * l.next(
            t,
            false,
        ).strength(t).1,
{
    let a = t.attack_samples as int;
    let r = t.release_samples as int;
    if !l.active {
    } else if l.release_counter > 0 {
        let rc = l.release_counter as int;
        if rc + 1 <= r {
            assert((r - rc - 1) * r <= (r - rc) * r) by (nonlinear_arith)
                requires
                    r > 0,
            ;
        }
    } else {
        let c = l.attack_counter as int;
        if c >= a {
            assert((r - 1) * a <= a * r) by (nonlinear_arith)
                requires
                    a > 0,
                    r > 0,
            ;
        } else {
            let x = (a - c) * r;
            let seed = release_seed(t, c);
            assert(seed == x / a);
            vstd::arithmetic::div_mod::lemma_fundamental_div_mod(x, a);
            assert(x < (seed + 1) * a) by (nonlinear_arith)
                requires
                    x == a * (x / a) + x % a,
                    x % a < a,
                    seed == x / a,
            ;
            if seed + 1 <= r {
                assert((r - (seed + 1)) * a <= c * r) by (nonlinear_arith)
                    requires
                        x == (a - c) * r,
                        x < (seed + 1) * a,
            ;
            }
        }
    }
}

/// A limiter at rest stays at rest while the input stays under the threshold.
pub proof fn lemma_rest_stays(t: LimiterTiming, k: nat)
    ensures
        neutral().run(t, false, k) == neutral(),
    decreases k,
{
    if k > 0 {
        lemma_rest_stays(t, (k - 1) as nat);
    }
}

/// A releasing limiter with counter `rc` counts up one per sample under the threshold,
/// and is back at rest after `release_samples - rc + 1` samples.
pub proof fn lemma_release_run(l: Limiter, t: LimiterTiming, k: nat)
    requires
        t.wf(),
        l.wf(t),
        l.is_releasing(),
    ensures
        k <= t.release_samples - l.release_counter ==> l.run(t, false, k) == (Limiter {
            active: true,
            attack_counter: 0,
            release_counter: (l.release_counter + k) as u32,
        }),
        k > t.release_samples - l.release_counter ==> l.run(t, false, k) == neutral(),
    decreases k,
{
    if k > 0 {
        let n = l.next(t, false);
        if l.release_counter + 1 > t.release_samples {
            assert(n == neutral());
            lemma_rest_stays(t, (k - 1) as nat);
        } else {
            lemma_release_run(n, t, (k - 1) as nat);
        }
    }
}

/// Whatever state the limiter is in, `release_samples + 1` samples under the threshold
/// bring it back to rest.
pub proof fn lemma_release_completes(l: Limiter, t: LimiterTiming)
    requires
        t.wf(),
        l.wf(t),
    ensures
        l.run(t, false, (t.release_samples + 1) as nat) == neutral(),
{
    let k = (t.release_samples + 1) as nat;
    if !l.active {
        assert(l == neutral());
        lemma_rest_stays(t, k);
    } else if l.release_counter > 0 {
        lemma_release_run(l, t, k);
    } else {
        let n = l.next(t, false);
        lemma_release_seed_bound(t, l.attack_counter as int);
        if n == neutral() {
            lemma_rest_stays(t, (k - 1) as nat);
        } else {
            lemma_release_run(n, t, (k - 1) as nat);
        }
    }
}

proof fn lemma_release_seed_bound(t: LimiterTiming, c: int)
    requires
        t.wf(),
        1 <= c,
    ensures
        0 <= release_seed(t, c) < t.release_samples,
{
    let a = t.attack_samples as int;
    let r = t.release_samples as int;
    if c < a {
        assert((a - c) * r / a < r) by (nonlinear_arith)
            requires
                1 <= c < a,
                r > 0,
        ;
        assert((a - c) * r / a >= 0) by (nonlinear_arith)
            requires
                1 <= c < a,
                r > 0,
        ;
    }
}

/// An attack interrupted at counter `c` turns into a release whose counter starts at
/// `release_seed(c)`: the release then runs one count per sample and reaches rest after
/// exactly `release_samples - release_seed(c) + 1` samples under the threshold.
pub proof fn lemma_attack_release_round_trip(l: Limiter, t: LimiterTiming, k: nat)
    requires
        t.wf(),
        l.wf(t),
        l.is_attacking(),
        1 <= k,
    ensures
        k <= t.release_samples - release_seed(t, l.attack_counter as int) ==> l.run(t, false, k)
            == (Limiter {
            active: true,
            attack_counter: 0,
            release_counter: (release_seed(t, l.attack_counter as int) + k) as u32,
        }),
        k == t.release_samples - release_seed(t, l.attack_counter as int) + 1 ==> l.run(
            t,
            false,
            k,
        ) == neutral(),
{
    let s = release_seed(t, l.attack_counter as int);
    lemma_release_seed_bound(t, l.attack_counter as int);
    let n = l.next(t, false);
    assert(n == Limiter { active: true, attack_counter: 0, release_counter: (s + 1) as u32 });
    lemma_release_run(n, t, (k - 1) as nat);
}

} // verus!
