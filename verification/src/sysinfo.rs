use vstd::prelude::*;
use vstd::std_specs::ops::AddSpec;

verus! {

/// The left fold of `s` under `+`, starting from `init`.
pub open spec fn fold_add<T: core::ops::Add<Output = T>>(init: T, s: Seq<T>) -> T
    decreases s.len(),
{
    if s.len() == 0 {
        init
    } else {
        fold_add(init, s.drop_last()).add_spec(s.last())
    }
}

/// Every addition of the left fold of `s` from `init` meets `+`'s precondition.
pub open spec fn fold_add_defined<T: core::ops::Add<Output = T>>(init: T, s: Seq<T>) -> bool
    decreases s.len(),
{
    s.len() == 0 || (fold_add_defined(init, s.drop_last()) && fold_add(
        init,
        s.drop_last(),
    ).add_req(s.last()))
}

/// The slots of a ring of `n` slots that started with every slot holding
/// `zero` and its next write at slot 0, after `vals` were pushed in order:
/// push number `i` (from 0) writes slot `i % n`.
pub open spec fn ring_model<T>(zero: T, vals: Seq<T>, n: int) -> Seq<T>
    decreases vals.len(),
{
    if vals.len() == 0 {
        Seq::new(n as nat, |p: int| zero)
    } else {
        ring_model(zero, vals.drop_last(), n).update((vals.len() - 1) % n, vals.last())
    }
}

/// A ring buffer of the last `N` values pushed.
pub struct ArrayDeque<T, const N: usize> {
    buf: [T; N],
    zero: T,
    head: usize,
    len: usize,
    history: Ghost<Seq<T>>,
}

impl<T, const N: usize> ArrayDeque<T, N> {
    #[verifier::type_invariant]
    spec fn well_formed(self) -> bool {
        &&& N == 0 || self.head < N
        &&& self.buf@ == ring_model(self.zero, self.history@, N as int)
        &&& self.len == self.history@.len()
        &&& N > 0 ==> self.head == (self.history@.len() as int) % (N as int)
    }
}

impl<T: Default + Copy + core::ops::Add<Output = T>, const N: usize> ArrayDeque<T, N> {
    /// The `N` slots, oldest write anywhere; `head` is the next one written.
    pub closed spec fn slots(&self) -> Seq<T> {
        self.buf@
    }

    /// The slot that the next push overwrites.
    pub closed spec fn next_slot(&self) -> int {
        self.head as int
    }

    /// How many values were pushed so far.
    pub closed spec fn pushed(&self) -> int {
        self.len as int
    }

    /// Every value pushed so far, oldest first.
    pub closed spec fn history(&self) -> Seq<T> {
        self.history@
    }

    /// The value that `T::default()` gave at construction: every slot held it
    /// then, and the sum starts from it.
    pub closed spec fn zero(&self) -> T {
        self.zero
    }

    /// An empty buffer: every slot holds the default value.
    pub fn new() -> (res: Self)
        ensures
            call_ensures(T::default, (), res.zero()),
            res.slots().len() == N,
            forall|i: int| 0 <= i < N ==> res.slots()[i] == res.zero(),
            res.next_slot() == 0,
            res.pushed() == 0,
            res.history() == Seq::<T>::empty(),
            res.slots() == ring_model(res.zero(), res.history(), N as int),
    {
        let zero = T::default();
        let buf = [zero; N];
        proof {
            assert(buf@ =~= ring_model(zero, Seq::<T>::empty(), N as int));
        }
        Self { buf, zero, head: 0, len: 0, history: Ghost(Seq::empty()) }
    }

    /// Writes `val` into the next slot and moves on, wrapping after the last.
    pub fn push(&mut self, val: T)
        requires
            N > 0,
            old(self).pushed() < usize::MAX,
        ensures
            final(self).slots() == old(self).slots().update(old(self).next_slot(), val),
            final(self).next_slot() == (old(self).next_slot() + 1) % (N as int),
            final(self).pushed() == old(self).pushed() + 1,
            final(self).zero() == old(self).zero(),
            0 <= old(self).next_slot() < N,
            final(self).history() == old(self).history().push(val),
            final(self).slots() == ring_model(final(self).zero(), final(self).history(), N as int),
            final(self).pushed() == final(self).history().len(),
            final(self).next_slot() == (final(self).history().len() as int) % (N as int),
    {
        proof {
            use_type_invariant(&*self);
        }
        let head = self.head;
        let ghost h = self.history@;
        let ghost h2 = h.push(val);
        proof {
            assert(h2.drop_last() =~= h);
            let n = N as int;
            let a = h.len() as int;
            vstd::arithmetic::div_mod::lemma_add_mod_noop(a, 1, n);
            if n > 1 {
                vstd::arithmetic::div_mod::lemma_small_mod(1, n as nat);
            } else {
                vstd::arithmetic::div_mod::lemma_mod_self_0(1);
                assert(a % 1 == 0) by (nonlinear_arith);
                assert((a + 1) % 1 == 0) by (nonlinear_arith);
            }
        }
        let mut buf = self.buf;
        buf[head] = val;
        *self = Self {
            buf,
            zero: self.zero,
            head: (head + 1) % N,
            len: self.len + 1,
            history: Ghost(h2),
        };
    }

    /// How many values were pushed so far.
    pub fn len(&self) -> (res: usize)
        ensures
            res == self.pushed(),
    {
        self.len
    }

    /// The sum of all `N` slots, added in slot order to the default value.
    pub fn sum(&self) -> (res: T)
        requires
            (forall|a: T, b: T| #[trigger] a.add_req(b)) || (T::obeys_add_spec()
                && fold_add_defined(self.zero(), self.slots())),
        ensures
            T::obeys_add_spec() ==> res == fold_add(self.zero(), self.slots()),
            self.slots() == ring_model(self.zero(), self.history(), N as int),
    {
        proof {
            use_type_invariant(self);
        }
        let mut avg = self.zero;
        let mut i: usize = 0;
        while i < N
            invariant
                0 <= i <= N,
                self.buf@.len() == N,
                (forall|a: T, b: T| #[trigger] a.add_req(b)) || (T::obeys_add_spec()
                    && fold_add_defined(self.zero, self.buf@)),
                T::obeys_add_spec() ==> avg == fold_add(self.zero, self.buf@.take(i as int)),
            decreases N - i,
        {
            proof {
                if T::obeys_add_spec() && fold_add_defined(self.zero, self.buf@) {
                    lemma_fold_defined_prefix(self.zero, self.buf@, i as int + 1);
                }
                let t = self.buf@.take(i + 1);
                assert(t.drop_last() =~= self.buf@.take(i as int));
                assert(t.last() == self.buf@[i as int]);
            }
            avg = avg + self.buf[i];
            i = i + 1;
        }
        proof {
            assert(self.buf@.take(N as int) =~= self.buf@);
        }
        avg
    }
}

/// Bytes as whole mebibytes, rounded down, for the memory read-out.
pub fn mebibytes(bytes: u64) -> (res: u64)
    ensures
        res == bytes / 1048576u64,
{
    bytes / (1024 * 1024)
}

proof fn lemma_fold_defined_prefix<T: core::ops::Add<Output = T>>(init: T, s: Seq<T>, n: int)
    requires
        fold_add_defined(init, s),
        0 <= n <= s.len(),
    ensures
        fold_add_defined(init, s.take(n)),
    decreases s.len() - n,
{
    if n < s.len() {
        lemma_fold_defined_prefix(init, s, n + 1);
        assert(s.take(n + 1).drop_last() =~= s.take(n));
    } else {
        assert(s.take(n) =~= s);
    }
}

proof fn lemma_mod_distinct(a: int, b: int, n: int)
    requires
        n > 0,
        0 < b - a < n,
    ensures
        a % n != b % n,
{
    vstd::arithmetic::div_mod::lemma_fundamental_div_mod(a, n);
    vstd::arithmetic::div_mod::lemma_fundamental_div_mod(b, n);
    if a % n == b % n {
        assert(b - a == n * (b / n - a / n)) by (nonlinear_arith)
            requires
                a == n * (a / n) + a % n,
                b == n * (b / n) + b % n,
                a % n == b % n,
        ;
        assert(false) by (nonlinear_arith)
            requires
                b - a == n * (b / n - a / n),
                0 < b - a < n,
                n > 0,
        ;
    }
}

/// A ring buffer holds the last pushes: after `k` values were pushed into a
/// fresh ring of `n` slots, value `i` of the last `min(k, n)` pushed sits in
/// slot `i % n`, and the slots never written (those from `k` on, when
/// `k < n`) still hold the start value. `ArrayDeque`'s slots are this model
/// of its history, and its sum adds them up in slot order.
pub proof fn law_ring_holds_last_pushes<T>(zero: T, vals: Seq<T>, n: int)
    requires
        n > 0,
    ensures
        ring_model(zero, vals, n).len() == n,
        forall|i: int|
            0 <= i < vals.len() && vals.len() - n <= i ==> ring_model(zero, vals, n)[i % n]
                == #[trigger] vals[i],
        forall|p: int| vals.len() <= p < n ==> #[trigger] ring_model(zero, vals, n)[p] == zero,
    decreases vals.len(),
{
    let k = vals.len() as int;
    if k > 0 {
        let h = vals.drop_last();
        law_ring_holds_last_pushes(zero, h, n);
        let r = ring_model(zero, h, n);
        let w = (k - 1) % n;
        assert(ring_model(zero, vals, n) == r.update(w, vals.last()));
        assert forall|i: int| 0 <= i < k && k - n <= i implies ring_model(zero, vals, n)[i % n]
            == #[trigger] vals[i] by {
            if i < k - 1 {
                lemma_mod_distinct(i, k - 1, n);
                assert(h[i] == vals[i]);
            }
        }
        assert forall|p: int| k <= p < n implies #[trigger] ring_model(zero, vals, n)[p]
            == zero by {
            vstd::arithmetic::div_mod::lemma_small_mod((k - 1) as nat, n as nat);
        }
    }
}

} // verus!
