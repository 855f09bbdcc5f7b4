use vstd::prelude::*;

verus! {

/// How many work items one bulk call carries at most.
pub const BULK_ACTION_BATCH_SIZE: usize = 100;

/// The smaller of two integers.
pub open spec fn min_int(a: int, b: int) -> int {
    if a < b {
        a
    } else {
        b
    }
}

/// The number of batches of size `b` that `len` items fill: `ceil(len / b)`.
pub open spec fn batch_count(len: int, b: int) -> int {
    (len + b - 1) / b
}

/// Batch `k` of `work` cut into batches of size `b`: the items from `k * b`
/// up to `(k + 1) * b` or the end, whichever comes first.
pub open spec fn batch_at<A>(work: Seq<A>, b: int, k: int) -> Seq<A> {
    work.subrange(k * b, min_int((k + 1) * b, work.len() as int))
}

/// The batches in order, each one appended to the ones before it.
pub open spec fn concat<A>(batches: Seq<Seq<A>>) -> Seq<A>
    decreases batches.len(),
{
    if batches.len() == 0 {
        Seq::empty()
    } else {
        concat(batches.drop_last()) + batches.last()
    }
}

/// The batches of `work` for batch size `b`, in order.
pub open spec fn batches_of<A>(work: Seq<A>, b: int) -> Seq<Seq<A>> {
    Seq::new(batch_count(work.len() as int, b) as nat, |k: int| batch_at(work, b, k))
}

proof fn lemma_count_bounds(len: int, b: int, k: int)
    requires
        b > 0,
        0 <= len,
        0 <= k,
        len <= k * b,
        k == 0 || (k - 1) * b < len,
    ensures
        batch_count(len, b) == k,
{
    assert((len + b - 1) / b == k) by (nonlinear_arith)
        requires
            b > 0,
            0 <= len,
            0 <= k,
            len <= k * b,
            k == 0 || (k - 1) * b < len,
    ;
}

proof fn lemma_count_facts(len: int, b: int)
    requires
        b > 0,
        0 <= len,
    ensures
        batch_count(len, b) >= 0,
        batch_count(len, b) * b >= len,
        batch_count(len, b) > 0 ==> (batch_count(len, b) - 1) * b < len,
{
    let c = (len + b - 1) / b;
    assert(c >= 0 && c * b >= len && (c > 0 ==> (c - 1) * b < len)) by (nonlinear_arith)
        requires
            b > 0,
            0 <= len,
            c == (len + b - 1) / b,
    ;
}

/// Cuts `work` into batches of `batch_size` items, in input order; the last
/// batch may be shorter, and an empty input gives no batch.
pub fn make_batches(work: &Vec<String>, batch_size: usize) -> (r: Vec<Vec<String>>)
    requires
        batch_size > 0,
    ensures
        r@.len() == batch_count(work@.len() as int, batch_size as int),
        forall|k: int|
            0 <= k < r@.len() ==> #[trigger] r@[k]@ == batch_at(work@, batch_size as int, k),
        r@.map_values(|v: Vec<String>| v@) == batches_of(work@, batch_size as int),
{
    let n = work.len();
    let ghost b = batch_size as int;
    let mut batches: Vec<Vec<String>> = Vec::new();
    let mut start: usize = 0;
    assert(batches@.len() * b == 0) by (nonlinear_arith)
        requires
            batches@.len() == 0,
    ;
    while start < n
        invariant
            n == work@.len(),
            b == batch_size as int,
            b > 0,
            start as int == min_int(batches@.len() * b, n as int),
            batches@.len() == 0 || (batches@.len() - 1) * b < n,
            forall|k: int|
                0 <= k < batches@.len() ==> #[trigger] batches@[k]@ == batch_at(work@, b, k),
        decreases n - start,
    {
        let ghost k = batches@.len() as int;
        let end: usize = if n - start > batch_size {
            start + batch_size
        } else {
            n
        };
        assert((k + 1) * b == k * b + b) by (nonlinear_arith);
        let mut batch: Vec<String> = Vec::new();
        let mut j: usize = start;
        while j < end
            invariant
                start <= j <= end,
                end <= n,
                n == work@.len(),
                batch@ == work@.subrange(start as int, j as int),
            decreases end - j,
        {
            batch.push(work[j].clone());
            assert(work@.subrange(start as int, j + 1) =~= work@.subrange(
                start as int,
                j as int,
            ).push(work@[j as int]));
            j += 1;
        }
        assert(batch@ == batch_at(work@, b, k));
        batches.push(batch);
        start = end;
    }
    proof {
        lemma_count_bounds(n as int, b, batches@.len() as int);
        assert(batches@.map_values(|v: Vec<String>| v@) =~= batches_of(work@, b));
    }
    batches
}

proof fn lemma_concat_prefix<A>(work: Seq<A>, b: int, k: int)
    requires
        b > 0,
        0 <= k <= batch_count(work.len() as int, b),
    ensures
        concat(batches_of(work, b).subrange(0, k)) == work.subrange(
            0,
            min_int(k * b, work.len() as int),
        ),
    decreases k,
{
    lemma_count_facts(work.len() as int, b);
    let all = batches_of(work, b);
    if k == 0 {
        assert(all.subrange(0, 0) =~= Seq::<Seq<A>>::empty());
        assert(work.subrange(0, 0) =~= Seq::<A>::empty());
    } else {
        lemma_concat_prefix(work, b, k - 1);
        assert(all.subrange(0, k).drop_last() =~= all.subrange(0, k - 1));
        assert(k * b == (k - 1) * b + b) by (nonlinear_arith);
        assert((k - 1) * b <= (batch_count(work.len() as int, b) - 1) * b) by (nonlinear_arith)
            requires
                k <= batch_count(work.len() as int, b),
                b > 0,
        ;
        assert((k - 1) * b >= 0) by (nonlinear_arith)
            requires
                k >= 1,
                b > 0,
        ;
        assert(all.subrange(0, k).last() == batch_at(work, b, k - 1));
        assert(work.subrange(0, min_int((k - 1) * b, work.len() as int)) + batch_at(work, b, k - 1)
            =~= work.subrange(0, min_int(k * b, work.len() as int)));
    }
}

/// Batching keeps the work intact: there are exactly `ceil(len / b)` batches,
/// every batch but the last holds `b` items and the last holds between one and
/// `b`, and the batches joined in order give back the input.
pub proof fn lemma_batches_partition<A>(work: Seq<A>, b: int)
    requires
        b > 0,
    ensures
        batches_of(work, b).len() == batch_count(work.len() as int, b),
        forall|k: int|
            0 <= k < batches_of(work, b).len() - 1 ==> (#[trigger] batches_of(work, b)[k]).len()
                == b,
        batches_of(work, b).len() > 0 ==> 0 < batches_of(work, b).last().len() <= b,
        concat(batches_of(work, b)) == work,
{
    let c = batch_count(work.len() as int, b);
    lemma_count_facts(work.len() as int, b);
    assert forall|k: int| 0 <= k < c - 1 implies (#[trigger] batches_of(work, b)[k]).len() == b by {
        assert((k + 1) * b <= (c - 1) * b) by (nonlinear_arith)
            requires
                k < c - 1,
                b > 0,
        ;
        assert((k + 1) * b == k * b + b) by (nonlinear_arith);
        assert(k * b >= 0) by (nonlinear_arith)
            requires
                k >= 0,
                b > 0,
        ;
    }
    if c > 0 {
        assert(c * b == (c - 1) * b + b) by (nonlinear_arith);
        assert((c - 1) * b >= 0) by (nonlinear_arith)
            requires
                c >= 1,
                b > 0,
        ;
    }
    lemma_concat_prefix(work, b, c);
    assert(batches_of(work, b).subrange(0, c) =~= batches_of(work, b));
    assert(work.subrange(0, work.len() as int) =~= work);
}

} // verus!
