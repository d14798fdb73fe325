use vstd::prelude::*;

verus! {

/// A fixed-capacity history of the last `N` values pushed into it.
///
/// Logically the buffer is a sequence of exactly `N` values, oldest first.
/// Pushing a value drops the oldest one and appends the new one at the end.
pub struct RingBuffer<T, const N: usize> {
    data: [T; N],
    index: usize,
}

/// Physical slot that holds logical position `i` when the oldest value sits in slot `head`.
pub open spec fn ring_slot(i: int, head: int, n: int) -> int {
    if i + head < n {
        i + head
    } else {
        i + head - n
    }
}

/// The logical contents after pushing `items`, in order, into a buffer whose
/// logical contents are `v`: each push drops the oldest value and appends the new one.
pub open spec fn after_pushes<T>(v: Seq<T>, items: Seq<T>) -> Seq<T>
    decreases items.len(),
{
    if items.len() == 0 {
        v
    } else {
        after_pushes(v.drop_first().push(items[0]), items.drop_first())
    }
}

/// History law: pushing `items` into a non-empty buffer with contents `v`
/// leaves the last `v.len()` values of `v` followed by `items`, oldest first.
/// In particular, once at least `v.len()` values have been pushed, the buffer
/// holds exactly the most recent `v.len()` of them, in the order they came.
pub proof fn law_history<T>(v: Seq<T>, items: Seq<T>)
    requires
        v.len() > 0,
    ensures
        after_pushes(v, items) == (v + items).subrange(items.len() as int, (items.len() + v.len()) as int),
        items.len() >= v.len() ==> after_pushes(v, items) == items.subrange(
            items.len() - v.len(),
            items.len() as int,
        ),
    decreases items.len(),
{
    if items.len() > 0 {
        let w = v.drop_first().push(items[0]);
        law_history(w, items.drop_first());
        assert((w + items.drop_first()) =~= (v + items).subrange(1, (v.len() + items.len()) as int));
    } else {
        assert((v + items).subrange(0, v.len() as int) =~= v);
    }
    if items.len() >= v.len() {
        assert((v + items).subrange(items.len() as int, (items.len() + v.len()) as int)
            =~= items.subrange(items.len() - v.len(), items.len() as int));
    }
}

/// Composition law: pushing `a` and then `b` leaves what pushing `a + b` leaves.
/// With the contract of `push` (`after_pushes` of one value) it carries any
/// sequence of pushes on a buffer over to `after_pushes` of the values pushed.
pub proof fn law_pushes_compose<T>(v: Seq<T>, a: Seq<T>, b: Seq<T>)
    ensures
        after_pushes(after_pushes(v, a), b) == after_pushes(v, a + b),
    decreases a.len(),
{
    if a.len() == 0 {
        assert(a + b =~= b);
    } else {
        law_pushes_compose(v.drop_first().push(a[0]), a.drop_first(), b);
        assert((a + b).drop_first() =~= a.drop_first() + b);
        assert((a + b)[0] == a[0]);
    }
}

/// Retention law: a value pushed into a buffer of `v.len()` values stays in it
/// for `v.len()` pushes, moving one position toward the oldest with each later
/// push: after it and `k < v.len()` more pushes it sits at `v.len() - 1 - k`.
pub proof fn law_retention<T>(v: Seq<T>, e: T, later: Seq<T>)
    requires
        v.len() > 0,
        later.len() < v.len(),
    ensures
        after_pushes(v, seq![e] + later)[v.len() - 1 - later.len()] == e,
{
    let items = seq![e] + later;
    law_history(v, items);
    assert((v + items)[v.len() as int] == e);
}

impl<T, const N: usize> RingBuffer<T, N> {
    /// The oldest value sits in one of the `N` slots.
    #[verifier::type_invariant]
    spec fn well_formed(&self) -> bool {
        &&& (N == 0 ==> self.index == 0)
        &&& (N > 0 ==> self.index < N)
    }
}

impl<T, const N: usize> View for RingBuffer<T, N> {
    type V = Seq<T>;

    /// The stored values in logical order, oldest first.
    closed spec fn view(&self) -> Seq<T> {
        Seq::new(N as nat, |i: int| self.data@[ring_slot(i, self.index as int, N as int)])
    }
}

impl<T, const N: usize> RingBuffer<T, N> {
    /// Every buffer holds exactly `N` values.
    pub proof fn lemma_view_len(&self)
        ensures
            self@.len() == N,
    {
    }
}

impl<T: Copy + Default, const N: usize> RingBuffer<T, N> {
    /// Creates a buffer whose `N` slots all hold the same value, produced by `T::default()`.
    pub fn new() -> (r: Self)
        ensures
            r@.len() == N,
            forall|i: int| 0 <= i < N ==> #[trigger] r@[i] == r@[0],
            N > 0 ==> call_ensures(T::default, (), r@[0]),
    {
        let d = T::default();
        let r = RingBuffer { data: [d; N], index: 0 };
        assert(r@.len() == N);
        r
    }
}

impl<T: Copy, const N: usize> RingBuffer<T, N> {
    /// Stores `element` as the newest value, dropping the oldest one.
    pub fn push(&mut self, element: T)
        requires
            N > 0,
        ensures
            old(self)@.len() == N,
            final(self)@.len() == N,
            final(self)@ == old(self)@.drop_first().push(element),
            final(self)@ == after_pushes(old(self)@, seq![element]),
    {
        proof { use_type_invariant(&*self); }
        let h = self.index;
        self.data[h] = element;
        let next = if h + 1 == N { 0 } else { h + 1 };
        self.index = next;
        proof {
            let v = final(self)@;
            assert(v =~= old(self)@.drop_first().push(element));
            let one = seq![element];
            let w = old(self)@.drop_first().push(element);
            assert(one.drop_first() =~= Seq::<T>::empty());
            assert(one[0] == element);
            assert(after_pushes(w, one.drop_first()) == w);
            assert(after_pushes(old(self)@, one) == after_pushes(w, one.drop_first()));
        }
    }
}

impl<T, const N: usize> core::ops::Index<usize> for RingBuffer<T, N> {
    type Output = T;

    /// Reads logical position `index`, counted from the oldest value and
    /// wrapping around modulo `N`.
    fn index(&self, index: usize) -> (out: &T)
        ensures
            self@.len() == N,
            *out == self@[(index % N) as int],
    {
        proof { use_type_invariant(self); }
        let pos = index % N;
        let room = N - self.index;
        let slot = if pos < room { pos + self.index } else { pos - room };
        &self.data[slot]
    }
}

impl<T, const N: usize> vstd::std_specs::core::IndexSpecImpl<usize> for RingBuffer<T, N> {
    open spec fn index_req(&self, index: &usize) -> bool {
        N > 0
    }
}

} // verus!
