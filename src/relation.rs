//! Sparse many-to-many relation rows driven by a deterministic count formula.
use vstd::prelude::*;

verus! {

/// Multiplier applied to the first identifier of a pair.
pub const COUNT_FACTOR: i32 = 73;

/// Offset added to the second identifier of a pair.
pub const COUNT_OFFSET: i32 = 42;

/// Modulus that bounds every count.
pub const COUNT_MODULUS: i32 = 300;

/// Rust's truncating remainder (`%` on signed integers): the sign follows the dividend.
pub open spec fn trunc_rem(v: int, m: int) -> int
    recommends
        m > 0,
{
    if v >= 0 {
        v % m
    } else {
        -((-v) % m)
    }
}

/// `(x * 73 + (y + 42)) mod 300`, with every step wrapping on 32 bits.
pub open spec fn count_spec(x: i32, y: i32) -> int {
    trunc_rem(
        x.wrapping_mul(COUNT_FACTOR).wrapping_add(y.wrapping_add(COUNT_OFFSET)) as int,
        COUNT_MODULUS as int,
    )
}

/// The count of the pair `(x, y)`: `(x * 73 + (y + 42)) mod 300`, with wrapping
/// arithmetic so that no identifier makes it fail.
pub fn relation_count(x: i32, y: i32) -> (r: i32)
    ensures
        r as int == count_spec(x, y),
        -300 < r < 300,
{
    let v: i32 = x.wrapping_mul(COUNT_FACTOR).wrapping_add(y.wrapping_add(COUNT_OFFSET));
    v % COUNT_MODULUS
}


/// One row of a sparse relation: a left identifier (a client address or a
/// warehouse), a product identifier and the count that links them.
#[derive(Clone, Copy, Debug, PartialEq, Eq)]
pub struct RelationRow {
    pub left_id: i32,
    pub product_id: i32,
    pub count: i32,
}

/// The row that the pair `(x, y)` would give.
pub open spec fn row_of(x: i32, y: i32) -> RelationRow {
    RelationRow { left_id: x, product_id: y, count: count_spec(x, y) as i32 }
}

/// The rows of one left identifier against `ys`, in the order of `ys`,
/// leaving out every pair whose count is zero.
pub open spec fn rows_for(x: i32, ys: Seq<i32>) -> Seq<RelationRow>
    decreases ys.len(),
{
    if ys.len() == 0 {
        seq![]
    } else {
        let prev = rows_for(x, ys.drop_last());
        if count_spec(x, ys.last()) != 0 {
            prev.push(row_of(x, ys.last()))
        } else {
            prev
        }
    }
}

/// The rows of every left identifier in `xs`, in order, each against `ys`.
pub open spec fn relation_rows_spec(xs: Seq<i32>, ys: Seq<i32>) -> Seq<RelationRow>
    decreases xs.len(),
{
    if xs.len() == 0 {
        seq![]
    } else {
        relation_rows_spec(xs.drop_last(), ys) + rows_for(xs.last(), ys)
    }
}

/// The relation rows for every pair of `xs` by `ys` whose count is not zero,
/// walking `xs` in the outer loop and `ys` in the inner one.
pub fn relation_rows(xs: &Vec<i32>, ys: &Vec<i32>) -> (r: Vec<RelationRow>)
    ensures
        r@ == relation_rows_spec(xs@, ys@),
{
    let mut out: Vec<RelationRow> = Vec::new();
    let mut i: usize = 0;
    while i < xs.len()
        invariant
            0 <= i <= xs@.len(),
            out@ == relation_rows_spec(xs@.take(i as int), ys@),
        decreases xs@.len() - i,
    {
        let x: i32 = xs[i];
        let ghost before = out@;
        let mut j: usize = 0;
        while j < ys.len()
            invariant
                0 <= i < xs@.len(),
                x == xs@[i as int],
                0 <= j <= ys@.len(),
                out@ == before + rows_for(x, ys@.take(j as int)),
            decreases ys@.len() - j,
        {
            let y: i32 = ys[j];
            let c: i32 = relation_count(x, y);
            proof {
                assert(ys@.take(j as int + 1).drop_last() =~= ys@.take(j as int));
            }
            if c != 0 {
                out.push(RelationRow { left_id: x, product_id: y, count: c });
            }
            j = j + 1;
            proof {
                assert(out@ =~= before + rows_for(x, ys@.take(j as int)));
            }
        }
        proof {
            assert(xs@.take(i as int + 1).drop_last() =~= xs@.take(i as int));
            assert(ys@.take(ys@.len() as int) =~= ys@);
        }
        i = i + 1;
    }
    proof {
        assert(xs@.take(xs@.len() as int) =~= xs@);
    }
    out
}

/// The first `limit` identifiers of `ids` (all of them when there are fewer):
/// the bounded product sample that the relations are generated against.
pub fn first_ids(ids: &Vec<i32>, limit: usize) -> (r: Vec<i32>)
    ensures
        r@ == ids@.take(if limit < ids@.len() { limit as int } else { ids@.len() as int }),
{
    let n: usize = if limit < ids.len() { limit } else { ids.len() };
    let mut out: Vec<i32> = Vec::new();
    let mut i: usize = 0;
    while i < n
        invariant
            n <= ids@.len(),
            0 <= i <= n,
            out@ == ids@.take(i as int),
        decreases n - i,
    {
        out.push(ids[i]);
        i = i + 1;
        proof {
            assert(out@ =~= ids@.take(i as int));
        }
    }
    out
}


/// The relation rows of every left identifier against the first `limit`
/// product identifiers only, which keeps the relation bounded.
pub fn sampled_relation_rows(left_ids: &Vec<i32>, product_ids: &Vec<i32>, limit: usize) -> (r: Vec<
    RelationRow,
>)
    ensures
        r@ == relation_rows_spec(
            left_ids@,
            product_ids@.take(
                if limit < product_ids@.len() { limit as int } else { product_ids@.len() as int },
            ),
        ),
{
    let sample = first_ids(product_ids, limit);
    relation_rows(left_ids, &sample)
}

/// How many rows of `rows` link `x` to `y`.
pub open spec fn pair_count(rows: Seq<RelationRow>, x: i32, y: i32) -> nat
    decreases rows.len(),
{
    if rows.len() == 0 {
        0
    } else {
        pair_count(rows.drop_last(), x, y) + if rows.last().left_id == x
            && rows.last().product_id == y { 1nat } else { 0nat }
    }
}

proof fn lemma_pair_count_concat(a: Seq<RelationRow>, b: Seq<RelationRow>, x: i32, y: i32)
    ensures
        pair_count(a + b, x, y) == pair_count(a, x, y) + pair_count(b, x, y),
    decreases b.len(),
{
    if b.len() > 0 {
        assert((a + b).drop_last() =~= a + b.drop_last());
        lemma_pair_count_concat(a, b.drop_last(), x, y);
    } else {
        assert(a + b =~= a);
    }
}

proof fn lemma_rows_for(x0: i32, ys: Seq<i32>, x: i32, y: i32)
    requires
        ys.no_duplicates(),
    ensures
        pair_count(rows_for(x0, ys), x, y) == if x0 == x && ys.contains(y) && count_spec(x, y)
            != 0 { 1nat } else { 0nat },
        forall|k: int|
            0 <= k < rows_for(x0, ys).len() ==> #[trigger] rows_for(x0, ys)[k] == row_of(
                x0,
                rows_for(x0, ys)[k].product_id,
            ) && count_spec(x0, rows_for(x0, ys)[k].product_id) != 0,
    decreases ys.len(),
{
    if ys.len() > 0 {
        let init = ys.drop_last();
        assert(init.no_duplicates());
        lemma_rows_for(x0, init, x, y);
        assert(ys =~= init.push(ys.last()));
        assert(ys.contains(y) <==> (init.contains(y) || ys.last() == y)) by {
            if ys.contains(y) {
                let k = choose|k: int| 0 <= k < ys.len() && ys[k] == y;
                if k < ys.len() - 1 {
                    assert(init[k] == y);
                }
            }
            if init.contains(y) {
                let k = choose|k: int| 0 <= k < init.len() && init[k] == y;
                assert(ys[k] == y);
            }
        }
        if ys.last() == y {
            assert(!init.contains(y)) by {
                if init.contains(y) {
                    let k = choose|k: int| 0 <= k < init.len() && init[k] == y;
                    assert(ys[k] == ys[ys.len() - 1]);
                }
            }
        }
        let prev = rows_for(x0, init);
        if count_spec(x0, ys.last()) != 0 {
            assert(prev.push(row_of(x0, ys.last())).drop_last() =~= prev);
        }
    }
}

/// Every pair decides its own rows: when the left identifiers and the product
/// identifiers are each free of repeats, a pair of them has no row when its
/// count is zero and exactly one row otherwise; and every row carries the
/// count of its own pair, which is never zero.
pub proof fn lemma_relation_rows_exact(xs: Seq<i32>, ys: Seq<i32>, x: i32, y: i32)
    requires
        xs.no_duplicates(),
        ys.no_duplicates(),
    ensures
        pair_count(relation_rows_spec(xs, ys), x, y) == if xs.contains(x) && ys.contains(y)
            && count_spec(x, y) != 0 { 1nat } else { 0nat },
        forall|k: int|
            0 <= k < relation_rows_spec(xs, ys).len() ==> {
                let r = #[trigger] relation_rows_spec(xs, ys)[k];
                &&& r.count as int == count_spec(r.left_id, r.product_id)
                &&& r.count != 0
            },
    decreases xs.len(),
{
    if xs.len() > 0 {
        let init = xs.drop_last();
        assert(init.no_duplicates());
        lemma_relation_rows_exact(init, ys, x, y);
        lemma_rows_for(xs.last(), ys, x, y);
        lemma_pair_count_concat(relation_rows_spec(init, ys), rows_for(xs.last(), ys), x, y);
        assert(xs =~= init.push(xs.last()));
        assert(xs.contains(x) <==> (init.contains(x) || xs.last() == x)) by {
            if xs.contains(x) {
                let k = choose|k: int| 0 <= k < xs.len() && xs[k] == x;
                if k < xs.len() - 1 {
                    assert(init[k] == x);
                }
            }
            if init.contains(x) {
                let k = choose|k: int| 0 <= k < init.len() && init[k] == x;
                assert(xs[k] == x);
            }
        }
        if xs.last() == x {
            assert(!init.contains(x)) by {
                if init.contains(x) {
                    let k = choose|k: int| 0 <= k < init.len() && init[k] == x;
                    assert(xs[k] == xs[xs.len() - 1]);
                }
            }
        }
        let a = relation_rows_spec(init, ys);
        let b = rows_for(xs.last(), ys);
        assert forall|k: int| 0 <= k < (a + b).len() implies {
            let r = #[trigger] (a + b)[k];
            &&& r.count as int == count_spec(r.left_id, r.product_id)
            &&& r.count != 0
        } by {
            if k < a.len() {
                assert((a + b)[k] == a[k]);
            } else {
                assert((a + b)[k] == b[k - a.len()]);
                assert(-300 < count_spec(xs.last(), b[k - a.len()].product_id) < 300);
            }
        }
    }
}

} // verus!
