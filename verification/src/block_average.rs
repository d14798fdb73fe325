use vstd::prelude::*;
use crate::sample::BlockSample;

verus! {

/// Averages a stream of samples in consecutive blocks of `block_size` samples.
///
/// Samples are summed as they arrive; the push that completes a block returns
/// the block's average (the sum divided by the block size, rounded down) and
/// starts a new, empty block.
#[derive(Debug)]
pub struct BlockAverage<T> {
    block_size: usize,
    sum: T,
    sum_count: usize,
}

/// What one push does to a block state `(sum, count)`: the new state and, if
/// the sample completes the block, the sum of the completed block.
pub open spec fn block_step(block_size: nat, sum: int, count: nat, item: int) -> (
    int,
    nat,
    Option<int>,
) {
    if count + 1 >= block_size {
        (0, 0, Some(sum + item))
    } else {
        (sum + item, count + 1, None)
    }
}

/// The value of an optional sample.
pub open spec fn sample_value<T: BlockSample>(o: Option<T>) -> Option<int> {
    match o {
        Some(x) => Some(x.value()),
        None => None,
    }
}

/// The average of a completed block sum: the sum divided by `divisor` with `T`'s division.
pub open spec fn average_of<T: BlockSample>(block_sum: Option<int>, divisor: int) -> Option<int> {
    match block_sum {
        Some(sum) => Some(T::quotient(sum, divisor)),
        None => None,
    }
}

/// Average law: a completed block of sum `sum` averages to `T`'s quotient of the
/// sum by the divisor; an unfinished block gives no average.
pub proof fn law_average_of<T: BlockSample>(sum: int, divisor: int)
    ensures
        average_of::<T>(Some(sum), divisor) == Some(T::quotient(sum, divisor)),
        average_of::<T>(None, divisor) == None::<int>,
{
}

/// The sum of a sequence of sample values.
pub open spec fn seq_sum(s: Seq<int>) -> int
    decreases s.len(),
{
    if s.len() == 0 {
        0
    } else {
        seq_sum(s.drop_last()) + s.last()
    }
}

/// The block state `(sum, count)` and the completed block sums of the pushes,
/// after pushing `items` in order into an averager whose block state is `(sum, count)`.
pub open spec fn run_blocks_from(block_size: nat, sum: int, count: nat, items: Seq<int>) -> (
    int,
    nat,
    Seq<Option<int>>,
)
    decreases items.len(),
{
    if items.len() == 0 {
        (sum, count, Seq::empty())
    } else {
        let prev = run_blocks_from(block_size, sum, count, items.drop_last());
        let step = block_step(block_size, prev.0, prev.1, items.last());
        (step.0, step.1, prev.2.push(step.2))
    }
}

proof fn lemma_run_one(block_size: nat, sum: int, count: nat, item: int)
    ensures
        ({
            let step = block_step(block_size, sum, count, item);
            run_blocks_from(block_size, sum, count, seq![item]) == (step.0, step.1, seq![step.2])
        }),
{
    let one = seq![item];
    assert(one.drop_last() =~= Seq::<int>::empty());
    assert(one.last() == item);
    assert(one.len() == 1);
    let prev = run_blocks_from(block_size, sum, count, one.drop_last());
    assert(prev == (sum, count, Seq::<Option<int>>::empty()));
    let step = block_step(block_size, sum, count, item);
    assert(prev.2.push(step.2) =~= seq![step.2]);
    assert(run_blocks_from(block_size, sum, count, one) == (step.0, step.1, prev.2.push(step.2)));
}

/// The block state and the completed block sums after pushing `items` in order
/// into a fresh averager.
pub open spec fn run_blocks(block_size: nat, items: Seq<int>) -> (int, nat, Seq<Option<int>>) {
    run_blocks_from(block_size, 0, 0, items)
}

/// Composition law: pushing `a` and then `b` gives the state of pushing `a + b`,
/// and the results of `a` followed by those of `b`. With the contract of `push`
/// (`run_blocks_from` of one sample) it carries any sequence of pushes on an
/// averager over to `run_blocks_from` of the samples pushed.
pub proof fn law_runs_compose(block_size: nat, sum: int, count: nat, a: Seq<int>, b: Seq<int>)
    ensures
        ({
            let first = run_blocks_from(block_size, sum, count, a);
            let second = run_blocks_from(block_size, first.0, first.1, b);
            run_blocks_from(block_size, sum, count, a + b) == (second.0, second.1, first.2 + second.2)
        }),
    decreases b.len(),
{
    let first = run_blocks_from(block_size, sum, count, a);
    if b.len() == 0 {
        assert(a + b =~= a);
        assert(first.2 + Seq::<Option<int>>::empty() =~= first.2);
    } else {
        law_runs_compose(block_size, sum, count, a, b.drop_last());
        assert((a + b).drop_last() =~= a + b.drop_last());
        assert((a + b).last() == b.last());
        let prev = run_blocks_from(block_size, first.0, first.1, b.drop_last());
        let step = block_step(block_size, prev.0, prev.1, b.last());
        assert(first.2 + prev.2.push(step.2) =~= (first.2 + prev.2).push(step.2));
    }
}

proof fn lemma_mod_succ(n: int, b: int)
    requires
        n >= 0,
        b > 0,
    ensures
        n % b + 1 < b ==> (n + 1) % b == n % b + 1,
        n % b + 1 == b ==> (n + 1) % b == 0,
        n % b + 1 <= b,
        n - n % b >= 0,
{
    vstd::arithmetic::div_mod::lemma_fundamental_div_mod(n, b);
    let q = n / b;
    let r = n % b;
    assert(q >= 0) by {
        vstd::arithmetic::div_mod::lemma_div_pos_is_pos(n, b);
    }
    assert(b * q >= 0) by (nonlinear_arith)
        requires
            b > 0,
            q >= 0,
    ;
    assert(q * b == b * q) by (nonlinear_arith);
    if r + 1 < b {
        vstd::arithmetic::div_mod::lemma_fundamental_div_mod_converse(n + 1, b, q, r + 1);
    } else {
        assert((q + 1) * b == q * b + b) by (nonlinear_arith);
        vstd::arithmetic::div_mod::lemma_fundamental_div_mod_converse(n + 1, b, q + 1, 0);
    }
}

proof fn lemma_seq_sum_extend(s: Seq<int>, a: int, n: int)
    requires
        0 <= a <= n < s.len(),
    ensures
        seq_sum(s.subrange(a, n + 1)) == seq_sum(s.subrange(a, n)) + s[n],
{
    assert(s.subrange(a, n + 1).drop_last() =~= s.subrange(a, n));
}

/// Block averaging law: after pushing any sequence of samples into a fresh
/// averager with a non-zero block size, the push of sample `j` returns a value
/// a completed block exactly when `j + 1` is a multiple of the block size, and
/// that block is the last `block_size` samples: its sum is theirs (the push
/// returns `average_of` that sum); the unfinished block holds the remaining
/// `len % block_size` samples and their sum.
pub proof fn law_block_outputs(block_size: nat, items: Seq<int>)
    requires
        block_size > 0,
    ensures
        ({
            let (sum, count, outs) = run_blocks(block_size, items);
            let n = items.len() as int;
            &&& outs.len() == items.len()
            &&& count == n % (block_size as int)
            &&& sum == seq_sum(items.subrange(n - n % (block_size as int), n))
            &&& forall|j: int|
                0 <= j < n ==> #[trigger] outs[j] == (if (j + 1) % (block_size as int) == 0 {
                    Some(seq_sum(items.subrange(j + 1 - block_size, j + 1)))
                } else {
                    None
                })
        }),
    decreases items.len(),
{
    let b = block_size as int;
    let n = items.len() as int;
    if n == 0 {
        assert(0int % b == 0) by {
            vstd::arithmetic::div_mod::lemma_fundamental_div_mod_converse(0, b, 0, 0);
        }
        assert(items.subrange(0, 0) =~= Seq::<int>::empty());
    } else {
        let prefix = items.drop_last();
        law_block_outputs(block_size, prefix);
        let m = n - 1;
        lemma_mod_succ(m, b);
        let prev = run_blocks(block_size, prefix);
        let start = m - m % b;
        assert(prefix.subrange(start, m) =~= items.subrange(start, m));
        lemma_seq_sum_extend(items, start, m);
        if m % b + 1 == b {
            assert(items.subrange(n, n) =~= Seq::<int>::empty());
        }
        let (sum, count, outs) = run_blocks(block_size, items);
        assert forall|j: int| 0 <= j < n implies #[trigger] outs[j] == (if (j + 1) % b == 0 {
            Some(seq_sum(items.subrange(j + 1 - block_size, j + 1)))
        } else {
            None
        }) by {
            if j < m {
                assert(outs[j] == prev.2[j]);
                if (j + 1) % b == 0 {
                    assert(j + 1 - b >= 0) by {
                        lemma_mod_succ(j, b);
                        if j + 1 - b < 0 {
                            vstd::arithmetic::div_mod::lemma_small_mod((j + 1) as nat, b as nat);
                        }
                    }
                    assert(items.subrange(j + 1 - b, j + 1) =~= prefix.subrange(j + 1 - b, j + 1));
                }
            }
        }
    }
}

proof fn lemma_seq_sum_remove(s: Seq<int>, i: int)
    requires
        0 <= i < s.len(),
    ensures
        seq_sum(s) == seq_sum(s.remove(i)) + s[i],
    decreases s.len(),
{
    if i == s.len() - 1 {
        assert(s.remove(i) =~= s.drop_last());
    } else {
        lemma_seq_sum_remove(s.drop_last(), i);
        assert(s.remove(i).drop_last() =~= s.drop_last().remove(i));
    }
}

/// Sums do not depend on the order of the summands.
pub proof fn lemma_seq_sum_permutation(xs: Seq<int>, ys: Seq<int>)
    requires
        xs.to_multiset() == ys.to_multiset(),
    ensures
        seq_sum(xs) == seq_sum(ys),
    decreases xs.len(),
{
    broadcast use vstd::seq_lib::to_multiset_build, vstd::seq_lib::to_multiset_remove,
        vstd::seq_lib::to_multiset_len, vstd::seq_lib::to_multiset_contains,
        vstd::multiset::group_multiset_axioms;

    if xs.len() == 0 {
        assert(ys.to_multiset().len() == 0);
        assert(ys.len() == 0);
    } else {
        let x = xs.last();
        let rest = xs.drop_last();
        assert(rest.push(x) =~= xs);
        assert(xs.to_multiset().count(x) > 0);
        assert(ys.contains(x));
        let i = ys.index_of(x);
        lemma_seq_sum_remove(ys, i);
        assert(ys.remove(i).to_multiset() =~= rest.to_multiset());
        lemma_seq_sum_permutation(rest, ys.remove(i));
    }
}

/// Order law: within one block the order of the samples does not matter.
/// Pushing a permutation of a block's samples into a fresh averager gives the
/// same results and the same final state as pushing the samples themselves.
pub proof fn law_block_order(block_size: nat, xs: Seq<int>, ys: Seq<int>)
    requires
        block_size > 0,
        xs.len() == block_size,
        xs.to_multiset() == ys.to_multiset(),
    ensures
        run_blocks(block_size, xs) == run_blocks(block_size, ys),
{
    broadcast use vstd::seq_lib::to_multiset_len;

    assert(ys.len() == xs.to_multiset().len());
    let b = block_size as int;
    law_block_outputs(block_size, xs);
    law_block_outputs(block_size, ys);
    lemma_seq_sum_permutation(xs, ys);
    vstd::arithmetic::div_mod::lemma_mod_self_0(b);
    assert(xs.subrange(0, b) =~= xs);
    assert(ys.subrange(0, b) =~= ys);
    assert(xs.subrange(b, b) =~= ys.subrange(b, b));
    let rx = run_blocks(block_size, xs);
    let ry = run_blocks(block_size, ys);
    assert forall|j: int| 0 <= j < b implies rx.2[j] == ry.2[j] by {
        if j + 1 < b {
            vstd::arithmetic::div_mod::lemma_small_mod((j + 1) as nat, b as nat);
        }
    }
    assert(rx.2 =~= ry.2);
}

impl<T: BlockSample> Clone for BlockAverage<T> {
    fn clone(&self) -> (r: Self)
        ensures
            r == *self,
    {
        proof { use_type_invariant(self); }
        BlockAverage { block_size: self.block_size, sum: self.sum, sum_count: self.sum_count }
    }
}

impl<T> BlockAverage<T> {
    /// The unfinished block has fewer samples than a whole block, or none.
    #[verifier::type_invariant]
    spec fn well_formed(&self) -> bool {
        self.sum_count == 0 || self.sum_count < self.block_size
    }
}

impl<T: BlockSample> BlockAverage<T> {
    /// The number of samples in a block.
    pub closed spec fn block_len(&self) -> nat {
        self.block_size as nat
    }

    /// The sum of the samples of the current, unfinished block.
    pub closed spec fn pending_sum(&self) -> int {
        self.sum.value()
    }

    /// The number of samples of the current, unfinished block.
    pub closed spec fn pending_count(&self) -> nat {
        self.sum_count as nat
    }

    /// The divisor of the block sum: the block size converted to `T` with `as`.
    pub closed spec fn divisor(&self) -> int {
        T::count_value(self.block_size)
    }


    /// The divisor of every averager is its block size converted to `T` with `as`.
    pub proof fn lemma_divisor(&self)
        ensures
            self.divisor() == T::count_value(self.block_len() as usize),
    {
    }

    /// The pending sum of every averager is a value of `T`.
    pub proof fn lemma_pending_sum_bounds(&self)
        ensures
            T::min_value() <= self.pending_sum() <= T::max_value(),
    {
        self.sum.value_bounds();
    }

    /// Whether a push of `item` neither overflows the sum nor makes an undefined
    /// division (by zero, or of the minimum by -1).
    pub open spec fn push_allowed(&self, item: T) -> bool {
        &&& T::min_value() <= self.pending_sum() + item.value() <= T::max_value()
        &&& self.pending_count() + 1 >= self.block_len() ==> T::can_divide(
            self.pending_sum() + item.value(),
            self.divisor(),
        )
    }

    /// Creates an averager for blocks of `block_size` samples, with an empty first block.
    pub fn new(block_size: usize) -> (r: Self)
        ensures
            r.block_len() == block_size,
            r.divisor() == T::count_value(block_size),
            r.pending_sum() == 0,
            r.pending_count() == 0,
    {
        BlockAverage { block_size, sum: T::zero(), sum_count: 0 }
    }

    /// Adds `item` to the current block. When this completes the block, returns
    /// the block's average and starts a new block; otherwise returns `None`.
    pub fn push(&mut self, item: T) -> (r: Option<T>)
        requires
            old(self).push_allowed(item),
        ensures
            final(self).block_len() == old(self).block_len(),
            final(self).divisor() == old(self).divisor(),
            final(self).pending_count() == 0 || final(self).pending_count() < final(self).block_len(),
            ({
                let step = block_step(
                    old(self).block_len(),
                    old(self).pending_sum(),
                    old(self).pending_count(),
                    item.value(),
                );
                &&& final(self).pending_sum() == step.0
                &&& final(self).pending_count() == step.1
                &&& sample_value(r) == average_of::<T>(step.2, old(self).divisor())
            }),
            ({
                let run = run_blocks_from(
                    old(self).block_len(),
                    old(self).pending_sum(),
                    old(self).pending_count(),
                    seq![item.value()],
                );
                &&& final(self).pending_sum() == run.0
                &&& final(self).pending_count() == run.1
                &&& run.2.len() == 1
                &&& sample_value(r) == average_of::<T>(run.2[0], old(self).divisor())
            }),
    {
        proof {
            use_type_invariant(&*self);
            lemma_run_one(
                old(self).block_len(),
                old(self).pending_sum(),
                old(self).pending_count(),
                item.value(),
            );
        }
        let sum = self.sum.plus(item);
        let count = self.sum_count + 1;
        if count >= self.block_size {
            let average = sum.divided_by(T::from_count(self.block_size));
            self.sum = T::zero();
            self.sum_count = 0;
            Some(average)
        } else {
            self.sum = sum;
            self.sum_count = count;
            None
        }
    }

    /// Whether `push(item)` may be called: the block sum does not overflow `T`
    /// and, if the push completes the block, the division is defined.
    pub fn can_push(&self, item: T) -> (b: bool)
        ensures
            b == self.push_allowed(item),
    {
        proof { use_type_invariant(self); }
        match self.sum.checked_plus(item) {
            None => false,
            Some(sum) => {
                if self.sum_count + 1 >= self.block_size {
                    sum.divides(T::from_count(self.block_size))
                } else {
                    true
                }
            },
        }
    }
}

} // verus!
