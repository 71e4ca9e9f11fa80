//! Streaming linear-interpolation resampler with exact rational positions.
//!
//! The read cursor advances by `src_rate / dst_rate` input samples per output
//! sample. It is held as an integer count of `1 / dst_rate` steps, so positions
//! are exact and the output count over any run is fixed by the input count.
//! The resampler hands out, for each output sample, the two bracketing input
//! samples and the interpolation weight `offset / dst_rate`; the caller does
//! the arithmetic on the sample values.
use vstd::arithmetic::div_mod::lemma_fundamental_div_mod;
use vstd::arithmetic::div_mod::lemma_fundamental_div_mod_converse;
use vstd::prelude::*;

verus! {

/// One output sample: `left + (right - left) * offset / dst_rate`.
pub struct Tap<T> {
    pub left: T,
    pub right: T,
    pub offset: u32,
}

/// The tap of output sample `k` over the whole input stream `input`.
pub open spec fn tap_at<T>(input: Seq<T>, k: nat, src: nat, dst: nat) -> Tap<T> {
    Tap {
        left: input[(k * src) as int / dst as int],
        right: input[(k * src) as int / dst as int + 1],
        offset: ((k * src) as int % dst as int) as u32,
    }
}

/// `produced` output samples is the right count for `consumed` input samples:
/// output `k` sits at input position `k * src / dst`, and an output is made
/// exactly when its position lies strictly before the last input sample.
pub open spec fn count_matches(produced: nat, consumed: nat, src: nat, dst: nat) -> bool {
    if consumed == 0 {
        produced == 0
    } else {
        &&& produced * src >= (consumed - 1) * dst
        &&& (produced == 0 || (produced - 1) * src < (consumed - 1) * dst)
    }
}

pub struct Resampler<T> {
    carry: Vec<T>,
    cursor: u128,
    src_rate: u32,
    dst_rate: u32,
    seen: Ghost<Seq<T>>,
    drained: Ghost<nat>,
    emitted: Ghost<nat>,
}

proof fn lemma_tap_index(cursor: int, d: int, len: int)
    requires
        d > 0,
        cursor >= 0,
        cursor + d < len * d,
    ensures
        cursor / d + 1 < len,
        0 <= cursor / d,
        0 <= cursor % d < d,
{
    lemma_fundamental_div_mod(cursor, d);
    assert(0 <= cursor % d < d);
    assert(cursor / d >= 0) by (nonlinear_arith)
        requires
            d > 0,
            cursor >= 0,
            d * (cursor / d) + cursor % d == cursor,
            0 <= cursor % d < d,
    ;
    assert((cursor / d) * d <= cursor) by (nonlinear_arith)
        requires
            d * (cursor / d) + cursor % d == cursor,
            0 <= cursor % d,
    ;
    assert(cursor / d + 1 < len) by (nonlinear_arith)
        requires
            d > 0,
            (cursor / d) * d <= cursor,
            cursor + d < len * d,
    ;
}

proof fn lemma_global_position(cursor: int, drained: int, d: int, kpos: int)
    requires
        d > 0,
        cursor >= 0,
        kpos == cursor + drained * d,
    ensures
        kpos / d == cursor / d + drained,
        kpos % d == cursor % d,
{
    lemma_fundamental_div_mod(cursor, d);
    assert(kpos == (cursor / d + drained) * d + cursor % d) by (nonlinear_arith)
        requires
            kpos == cursor + drained * d,
            cursor == d * (cursor / d) + cursor % d,
    ;
    lemma_fundamental_div_mod_converse(kpos, d, cursor / d + drained, cursor % d);
}

proof fn lemma_drain_bound(cursor: int, q: int, d: int, len: int, s: int)
    requires
        d > 0,
        0 <= q,
        q == cursor / d || q == len,
        q <= cursor / d,
        cursor >= 0,
        cursor < len * d + s,
        len >= 1 ==> cursor + d >= len * d,
    ensures
        0 <= q * d <= cursor,
        cursor - q * d < (len - q) * d + s,
        len - q <= 1,
{
    lemma_fundamental_div_mod(cursor, d);
    let r = cursor / d;
    assert(0 <= r * d <= cursor) by (nonlinear_arith)
        requires
            d > 0,
            r == cursor / d,
            cursor >= 0,
            cursor == d * r + cursor % d,
            0 <= cursor % d,
    ;
    assert(0 <= q * d <= r * d) by (nonlinear_arith)
        requires
            d > 0,
            0 <= q <= r,
    ;
    assert((len - q) * d == len * d - q * d) by (nonlinear_arith);
    if len >= 1 {
        assert(cursor < d * r + d);
        assert(r >= len - 1) by (nonlinear_arith)
            requires
                d > 0,
                cursor + d >= len * d,
                cursor < d * r + d,
        ;
    }
}

impl<T: Copy> Resampler<T> {
    /// How many input samples are held back for later interpolation.
    pub closed spec fn carried(&self) -> nat {
        self.carry@.len()
    }

    /// Every input sample handed in so far, in order.
    pub closed spec fn input(&self) -> Seq<T> {
        self.seen@
    }

    /// How many output samples have been handed out so far.
    pub closed spec fn produced(&self) -> nat {
        self.emitted@
    }

    pub closed spec fn src(&self) -> nat {
        self.src_rate as nat
    }

    pub closed spec fn dst(&self) -> nat {
        self.dst_rate as nat
    }

    pub closed spec fn wf(&self) -> bool {
        &&& self.src_rate > 0
        &&& self.dst_rate > 0
        &&& self.drained@ <= self.seen@.len()
        &&& self.carry@ == self.seen@.subrange(self.drained@ as int, self.seen@.len() as int)
        &&& self.cursor + self.drained@ * self.dst_rate == self.emitted@ * self.src_rate
        &&& self.cursor < self.carry@.len() * self.dst_rate + self.src_rate
        &&& self.carry@.len() <= 1
        &&& count_matches(self.emitted@, self.seen@.len(), self.src_rate as nat, self.dst_rate as nat)
    }

    /// A resampler from `src_rate` to `dst_rate`; `None` when either rate is zero.
    pub fn new(src_rate: u32, dst_rate: u32) -> (r: Option<Self>)
        ensures
            (src_rate > 0 && dst_rate > 0) <==> r is Some,
            r matches Some(z) ==> {
                &&& z.wf()
                &&& z.src() == src_rate
                &&& z.dst() == dst_rate
                &&& z.input() == Seq::<T>::empty()
                &&& z.produced() == 0
            },
    {
        if src_rate == 0 || dst_rate == 0 {
            return None;
        }
        let z: Resampler<T> = Resampler {
            carry: Vec::new(),
            cursor: 0,
            src_rate,
            dst_rate,
            seen: Ghost(Seq::empty()),
            drained: Ghost(0nat),
            emitted: Ghost(0nat),
        };
        assert(z.carry@ =~= z.seen@.subrange(0, 0));
        assert(z.cursor + z.drained@ * z.dst_rate == z.emitted@ * z.src_rate) by (nonlinear_arith)
            requires
                z.cursor == 0,
                z.drained@ == 0,
                z.emitted@ == 0,
        ;
        assert(count_matches(0, 0, src_rate as nat, dst_rate as nat));
        assert(z.wf());
        Some(z)
    }

    pub fn src_rate(&self) -> (r: u32)
        ensures
            r == self.src(),
    {
        self.src_rate
    }

    pub fn dst_rate(&self) -> (r: u32)
        ensures
            r == self.dst(),
    {
        self.dst_rate
    }

    /// Takes the next block of mono input and returns the taps of every output
    /// sample that the input seen so far now brackets.
    pub fn process(&mut self, input: &Vec<T>) -> (taps: Vec<Tap<T>>)
        requires
            old(self).wf(),
        ensures
            final(self).wf(),
            final(self).src() == old(self).src(),
            final(self).dst() == old(self).dst(),
            final(self).input() == old(self).input() + input@,
            final(self).produced() == old(self).produced() + taps@.len(),
            final(self).carried() <= 1,
            forall|j: int|
                0 <= j < taps@.len() ==> #[trigger] taps@[j] == tap_at(
                    final(self).input(),
                    (old(self).produced() + j) as nat,
                    final(self).src(),
                    final(self).dst(),
                ),
    {
        let ghost e0 = self.emitted@;
        let ghost n0 = self.seen@.len();
        let mut i: usize = 0;
        while i < input.len()
            invariant
                self.src_rate == old(self).src_rate,
                self.dst_rate == old(self).dst_rate,
                self.src_rate > 0,
                self.dst_rate > 0,
                self.cursor == old(self).cursor,
                self.emitted@ == e0,
                self.drained@ == old(self).drained@,
                0 <= i <= input@.len(),
                self.seen@ == old(self).seen@ + input@.subrange(0, i as int),
                self.drained@ <= self.seen@.len(),
                self.carry@ == self.seen@.subrange(self.drained@ as int, self.seen@.len() as int),
                self.cursor + self.drained@ * self.dst_rate == self.emitted@ * self.src_rate,
                self.cursor < self.carry@.len() * self.dst_rate + self.src_rate,
                count_matches(e0, n0, self.src_rate as nat, self.dst_rate as nat),
                n0 == old(self).seen@.len(),
            decreases input@.len() - i,
        {
            self.carry.push(input[i]);
            proof {
                self.seen@ = self.seen@.push(input@[i as int]);
                assert(input@.subrange(0, i + 1) =~= input@.subrange(0, i as int).push(
                    input@[i as int],
                ));
                assert(self.carry@ =~= self.seen@.subrange(
                    self.drained@ as int,
                    self.seen@.len() as int,
                ));
                assert(self.cursor < self.carry@.len() * self.dst_rate + self.src_rate)
                    by (nonlinear_arith)
                    requires
                        self.cursor < (self.carry@.len() - 1) * self.dst_rate + self.src_rate,
                        self.dst_rate > 0,
                ;
            }
            i = i + 1;
        }
        assert(input@.subrange(0, input@.len() as int) =~= input@);
        let ghost n = self.seen@.len();
        let d: u128 = self.dst_rate as u128;
        let s: u128 = self.src_rate as u128;
        let mut taps: Vec<Tap<T>> = Vec::new();
        let cl: usize = self.carry.len();
        proof {
            assert((cl as int) * (d as int) <= 0xffff_ffff_ffff_ffff * 0xffff_ffff)
                by (nonlinear_arith)
                requires
                    cl <= 0xffff_ffff_ffff_ffff,
                    d <= 0xffff_ffff,
            ;
        }
        let lim: u128 = (cl as u128) * d;
        while self.cursor + d < lim
            invariant
                cl == self.carry@.len(),
                lim == self.carry@.len() * d,
                lim <= 0xffff_ffff_ffff_ffff * 0xffff_ffff,
                self.src_rate == old(self).src_rate,
                self.dst_rate == old(self).dst_rate,
                d == self.dst_rate,
                s == self.src_rate,
                self.src_rate > 0,
                self.dst_rate > 0,
                self.seen@.len() == n,
                n == n0 + input@.len(),
                self.seen@ == old(self).seen@ + input@,
                self.drained@ == old(self).drained@,
                self.drained@ <= self.seen@.len(),
                self.carry@ == self.seen@.subrange(self.drained@ as int, self.seen@.len() as int),
                self.cursor + self.drained@ * self.dst_rate == self.emitted@ * self.src_rate,
                self.cursor < self.carry@.len() * self.dst_rate + self.src_rate,
                self.emitted@ == e0 + taps@.len(),
                count_matches(e0, n0, self.src_rate as nat, self.dst_rate as nat),
                self.emitted@ == e0 || (self.emitted@ - 1) * self.src_rate < (n - 1)
                    * self.dst_rate,
                forall|j: int|
                    0 <= j < taps@.len() ==> #[trigger] taps@[j] == tap_at(
                        self.seen@,
                        (e0 + j) as nat,
                        self.src_rate as nat,
                        self.dst_rate as nat,
                    ),
            decreases lim + s - self.cursor,
        {
            let ghost k = self.emitted@;
            proof {
                lemma_tap_index(self.cursor as int, d as int, self.carry@.len() as int);
                lemma_global_position(
                    self.cursor as int,
                    self.drained@ as int,
                    d as int,
                    (k * self.src_rate) as int,
                );
            }
            let idx: usize = (self.cursor / d) as usize;
            let off: u32 = (self.cursor % d) as u32;
            let tap = Tap { left: self.carry[idx], right: self.carry[idx + 1], offset: off };
            taps.push(tap);
            assert(tap == tap_at(self.seen@, k, self.src_rate as nat, self.dst_rate as nat));
            self.cursor = self.cursor + s;
            proof {
                self.emitted@ = k + 1;
                assert((k + 1) * self.src_rate == k * self.src_rate + self.src_rate)
                    by (nonlinear_arith);
                assert(self.cursor + self.drained@ * self.dst_rate == self.emitted@
                    * self.src_rate);
                assert(k * self.src_rate < (n - 1) * self.dst_rate) by (nonlinear_arith)
                    requires
                        self.cursor - s + self.drained@ * self.dst_rate == k * self.src_rate,
                        self.cursor - s + d < self.carry@.len() * d,
                        self.carry@.len() == n - self.drained@,
                        d == self.dst_rate,
                ;
                assert forall|j: int| 0 <= j < taps@.len() implies #[trigger] taps@[j] == tap_at(
                    self.seen@,
                    (e0 + j) as nat,
                    self.src_rate as nat,
                    self.dst_rate as nat,
                ) by {
                    if j == taps@.len() - 1 {
                        assert(taps@[j] == tap);
                        assert((e0 + j) as nat == k);
                    }
                }
            }
        }
        proof {
            if n == 0 {
                assert(n0 == 0);
                assert(e0 == 0);
                if self.emitted@ != e0 {
                    assert((self.emitted@ - 1) * self.src_rate >= 0) by (nonlinear_arith)
                        requires
                            self.emitted@ >= 1,
                            self.src_rate > 0,
                    ;
                }
            }
            if n > 0 {
                assert(self.emitted@ * self.src_rate >= (n - 1) * self.dst_rate)
                    by (nonlinear_arith)
                    requires
                        self.cursor + d >= self.carry@.len() * d,
                        self.carry@.len() == n - self.drained@,
                        self.cursor + self.drained@ * self.dst_rate == self.emitted@
                            * self.src_rate,
                        d == self.dst_rate,
                ;
                if self.emitted@ == e0 && e0 > 0 {
                    assert((e0 - 1) * self.src_rate < (n0 - 1) * self.dst_rate);
                    assert((n0 - 1) * self.dst_rate <= (n - 1) * self.dst_rate)
                        by (nonlinear_arith)
                        requires
                            n0 <= n,
                            n0 >= 1,
                            self.dst_rate > 0,
                    ;
                }
            }
            assert(count_matches(
                self.emitted@,
                n,
                self.src_rate as nat,
                self.dst_rate as nat,
            ));
        }
        let whole: u128 = self.cursor / d;
        let held: u128 = self.carry.len() as u128;
        let drain: u128 = if whole < held {
            whole
        } else {
            held
        };
        proof {
            lemma_drain_bound(
                self.cursor as int,
                drain as int,
                d as int,
                self.carry@.len() as int,
                s as int,
            );
        }
        if drain > 0 {
            let dn: usize = drain as usize;
            proof {
                lemma_drain_bound(
                    self.cursor as int,
                    drain as int,
                    d as int,
                    self.carry@.len() as int,
                    s as int,
                );
            }
            let mut rest: Vec<T> = Vec::with_capacity(self.carry.len() - dn);
            let mut j: usize = dn;
            while j < self.carry.len()
                invariant
                    dn <= j <= self.carry@.len(),
                    rest@ == self.carry@.subrange(dn as int, j as int),
                decreases self.carry@.len() - j,
            {
                rest.push(self.carry[j]);
                j = j + 1;
                assert(rest@ =~= self.carry@.subrange(dn as int, j as int));
            }
            let ghost c0 = self.cursor as int;
            let ghost dr0 = self.drained@ as int;
            self.carry = rest;
            self.cursor = self.cursor - drain * d;
            proof {
                self.drained@ = self.drained@ + dn as nat;
                assert(self.carry@ =~= self.seen@.subrange(
                    self.drained@ as int,
                    self.seen@.len() as int,
                ));
                assert(self.cursor + self.drained@ * self.dst_rate == self.emitted@
                    * self.src_rate) by (nonlinear_arith)
                    requires
                        self.cursor == c0 - drain * d,
                        self.drained@ == dr0 + dn,
                        dn == drain,
                        d == self.dst_rate,
                        c0 + dr0 * self.dst_rate == self.emitted@ * self.src_rate,
                ;
            }
        }
        taps
    }
}

/// Whatever blocks the input arrived in, after `n`
/// input samples output `k` has been made exactly when `k * src < (n - 1) * dst`.
/// When downsampling or at equal rates the count is within one sample of
/// `n * dst / src`.
pub proof fn law_output_count<T: Copy>(r: &Resampler<T>)
    requires
        r.wf(),
    ensures
        count_matches(r.produced(), r.input().len(), r.src(), r.dst()),
        r.input().len() > 0 ==> (r.input().len() - 1) * r.dst() <= r.produced() * r.src() < (
        r.input().len() - 1) * r.dst() + r.src(),
        r.dst() <= r.src() ==> r.input().len() * r.dst() - r.src() <= r.produced() * r.src() < r.input().len()
            * r.dst() + r.src(),
{
    let n = r.input().len();
    let e = r.produced();
    let src = r.src();
    let dst = r.dst();
    if n == 0 {
        assert(e == 0);
        assert(e * src == 0) by (nonlinear_arith)
            requires
                e == 0,
        ;
        assert(n * dst == 0) by (nonlinear_arith)
            requires
                n == 0,
        ;
    } else {
        assert(e * src < (n - 1) * dst + src) by (nonlinear_arith)
            requires
                e == 0 || (e - 1) * src < (n - 1) * dst,
                src > 0,
                dst > 0,
                n >= 1,
        ;
        if dst <= src {
            assert(n * dst - src <= e * src < n * dst + src) by (nonlinear_arith)
                requires
                    e * src >= (n - 1) * dst,
                    e * src < (n - 1) * dst + src,
                    dst <= src,
                    dst > 0,
            ;
        }
    }
}

} // verus!
