//! Fixed-capacity rewind buffer holding the most recent samples.
use std::collections::VecDeque;
use vstd::prelude::*;

verus! {

/// The last `n` items of `s` (all of `s` when it is shorter).
pub open spec fn last_n<T>(s: Seq<T>, n: nat) -> Seq<T> {
    if s.len() <= n {
        s
    } else {
        s.subrange(s.len() - n, s.len() as int)
    }
}

/// What a buffer of capacity `cap` holds after admitting `x` while holding `s`.
pub open spec fn admit_one<T>(s: Seq<T>, x: T, cap: nat) -> Seq<T> {
    last_n(s.push(x), cap)
}

/// What a buffer of capacity `cap` holds after admitting every item of `xs`, one at a time.
pub open spec fn admit_each<T>(s: Seq<T>, xs: Seq<T>, cap: nat) -> Seq<T>
    decreases xs.len(),
{
    if xs.len() == 0 {
        s
    } else {
        admit_each(admit_one(s, xs[0], cap), xs.drop_first(), cap)
    }
}

/// A circular store of the most recent `capacity` samples, oldest first.
pub struct RewindBuffer<T> {
    items: VecDeque<T>,
    capacity: usize,
}

impl<T> View for RewindBuffer<T> {
    type V = Seq<T>;

    closed spec fn view(&self) -> Seq<T> {
        self.items@
    }
}

impl<T: Copy> RewindBuffer<T> {
    pub closed spec fn spec_capacity(&self) -> nat {
        self.capacity as nat
    }

    pub closed spec fn wf(&self) -> bool {
        self.items@.len() <= self.capacity
    }

    pub fn new(capacity: usize) -> (r: Self)
        ensures
            r.wf(),
            r@ == Seq::<T>::empty(),
            r.spec_capacity() == capacity,
    {
        RewindBuffer { items: VecDeque::with_capacity(capacity), capacity }
    }

    pub fn capacity(&self) -> (r: usize)
        ensures
            r == self.spec_capacity(),
    {
        self.capacity
    }

    pub fn len(&self) -> (r: usize)
        requires
            self.wf(),
        ensures
            r == self@.len(),
            r <= self.spec_capacity(),
    {
        self.items.len()
    }

    /// Admits one sample, evicting the oldest one first when the buffer is full.
    pub fn push(&mut self, x: T)
        requires
            old(self).wf(),
        ensures
            final(self).wf(),
            final(self).spec_capacity() == old(self).spec_capacity(),
            final(self)@ == admit_one(old(self)@, x, old(self).spec_capacity()),
    {
        if self.capacity == 0 {
            assert(self.items@.push(x).subrange(1, 1) =~= Seq::<T>::empty());
            return;
        }
        let ghost before = self.items@;
        if self.items.len() >= self.capacity {
            self.items.pop_front();
        }
        self.items.push_back(x);
        assert(self.items@ =~= last_n(before.push(x), self.capacity as nat));
    }

    /// Admits every sample of `xs` in order.
    pub fn push_all(&mut self, xs: &Vec<T>)
        requires
            old(self).wf(),
        ensures
            final(self).wf(),
            final(self).spec_capacity() == old(self).spec_capacity(),
            final(self)@ == admit_each(old(self)@, xs@, old(self).spec_capacity()),
            final(self)@ == last_n(old(self)@ + xs@, old(self).spec_capacity()),
    {
        let ghost start = self@;
        let ghost cap = self.spec_capacity();
        let mut i: usize = 0;
        assert(xs@.subrange(0, xs@.len() as int) =~= xs@);
        assert(start + xs@.subrange(0, 0) =~= start);
        while i < xs.len()
            invariant
                self.wf(),
                self.spec_capacity() == cap,
                0 <= i <= xs@.len(),
                start.len() <= cap,
                admit_each(self@, xs@.subrange(i as int, xs@.len() as int), cap)
                    == admit_each(start, xs@, cap),
                self@ == last_n(start + xs@.subrange(0, i as int), cap),
            decreases xs@.len() - i,
        {
            let ghost prev = self@;
            proof {
                let rest = xs@.subrange(i as int, xs@.len() as int);
                assert(rest.drop_first() =~= xs@.subrange(i + 1, xs@.len() as int));
                lemma_last_n_push(start + xs@.subrange(0, i as int), xs@[i as int], cap);
                assert(start + xs@.subrange(0, i + 1) =~= (start + xs@.subrange(0, i as int)).push(
                    xs@[i as int],
                ));
            }
            self.push(xs[i]);
            i = i + 1;
        }
        proof {
            assert(xs@.subrange(0, xs@.len() as int) =~= xs@);
            assert(xs@.subrange(xs@.len() as int, xs@.len() as int) =~= Seq::<T>::empty());
        }
    }

    /// A copy of every held sample, oldest first; the buffer is unchanged.
    pub fn snapshot(&self) -> (r: Vec<T>)
        ensures
            r@ == self@,
    {
        let mut out: Vec<T> = Vec::with_capacity(self.items.len());
        let mut i: usize = 0;
        while i < self.items.len()
            invariant
                0 <= i <= self.items@.len(),
                out@ == self.items@.subrange(0, i as int),
            decreases self.items@.len() - i,
        {
            out.push(self.items[i]);
            i = i + 1;
            assert(out@ =~= self.items@.subrange(0, i as int));
        }
        assert(out@ =~= self.items@);
        out
    }
}

/// Admitting `x` after the window of `s` is the window of `s` extended by `x`.
pub proof fn lemma_last_n_push<T>(s: Seq<T>, x: T, cap: nat)
    ensures
        admit_one(last_n(s, cap), x, cap) == last_n(s.push(x), cap),
{
    let w = last_n(s, cap);
    assert(last_n(w.push(x), cap) =~= last_n(s.push(x), cap));
}

/// Admitting items one at a time leaves the last `cap` items of everything seen.
pub proof fn lemma_admit_each_window<T>(s: Seq<T>, xs: Seq<T>, cap: nat)
    ensures
        admit_each(last_n(s, cap), xs, cap) == last_n(s + xs, cap),
    decreases xs.len(),
{
    if xs.len() == 0 {
        assert(s + xs =~= s);
        assert(last_n(last_n(s, cap), cap) =~= last_n(s, cap));
    } else {
        lemma_last_n_push(s, xs[0], cap);
        lemma_admit_each_window(s.push(xs[0]), xs.drop_first(), cap);
        assert(s.push(xs[0]) + xs.drop_first() =~= s + xs);
    }
}

/// Whatever sequence of samples is pushed, the buffer never
/// holds more than its capacity, and once at least `cap` samples have been
/// pushed it holds exactly the most recent `cap` of them, in order.
pub proof fn law_rewind_window<T>(start: Seq<T>, xs: Seq<T>, cap: nat)
    requires
        start.len() <= cap,
    ensures
        admit_each(start, xs, cap).len() <= cap,
        xs.len() >= cap ==> admit_each(start, xs, cap) == xs.subrange(
            xs.len() - cap,
            xs.len() as int,
        ),
{
    assert(last_n(start, cap) == start);
    lemma_admit_each_window(start, xs, cap);
    if xs.len() >= cap {
        assert((start + xs).subrange((start + xs).len() - cap, (start + xs).len() as int)
            =~= xs.subrange(xs.len() - cap, xs.len() as int));
    }
}

} // verus!
