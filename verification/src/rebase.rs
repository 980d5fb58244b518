//! Proportional distribution of newly accrued shares over a table of holders.

use vstd::prelude::*;
use crate::arith::{lemma_product_monotone, mul_div_floor, share_of_delta};
use crate::holdings::{
    amount_of, distinct, holds, lemma_first_row, lemma_row_of, lemma_row_within_total, row_of,
    table_of, total, Holding, Table,
};

verus! {

/// A row after its holder received the holder's part of `delta`, measured
/// against `whole`.
pub open spec fn raised(row: (Seq<char>, nat), delta: nat, whole: nat) -> (Seq<char>, nat) {
    (row.0, row.1 + share_of_delta(delta, row.1, whole))
}

/// Every row of `t` raised by its part of `delta` out of `whole`.
pub open spec fn spread(t: Table, delta: nat, whole: nat) -> Table {
    t.map_values(|row: (Seq<char>, nat)| raised(row, delta, whole))
}

/// What the holders of `t` receive of `delta` together.
pub open spec fn distributed(t: Table, delta: nat, whole: nat) -> nat
    decreases t.len(),
{
    if t.len() == 0 {
        0
    } else {
        distributed(t.drop_last(), delta, whole) + share_of_delta(delta, t.last().1, whole)
    }
}

/// The table after `delta` was distributed over its holders in proportion to
/// what each holds of the table's own sum.
pub open spec fn rebased(t: Table, delta: nat) -> Table {
    spread(t, delta, total(t))
}

/// What one holder receives lies within one unit below the exact proportion:
/// `share * whole <= delta * held < (share + 1) * whole`.
pub proof fn lemma_share_bounds(delta: nat, held: nat, whole: nat)
    requires
        whole > 0,
    ensures
        share_of_delta(delta, held, whole) * whole <= delta * held,
        delta * held < share_of_delta(delta, held, whole) * whole + whole,
{
    let n: int = (delta * held) as int;
    let w: int = whole as int;
    assert((n / w) * w <= n && n < (n / w) * w + w) by (nonlinear_arith)
        requires
            w > 0,
            n >= 0,
    ;
}

/// A holder who holds no more than `whole` receives no more than `delta`.
pub proof fn lemma_share_within_delta(delta: nat, held: nat, whole: nat)
    requires
        held <= whole,
    ensures
        share_of_delta(delta, held, whole) <= delta,
{
    if whole > 0 {
        lemma_share_bounds(delta, held, whole);
        lemma_product_monotone(delta as int, held as int, whole as int);
        let s: int = share_of_delta(delta, held, whole) as int;
        assert(s <= delta) by (nonlinear_arith)
            requires
                whole > 0,
                s * whole <= delta * whole,
        ;
    }
}

/// Spreading adds to the sum exactly what is distributed.
pub proof fn lemma_spread_total(t: Table, delta: nat, whole: nat)
    ensures
        total(spread(t, delta, whole)) == total(t) + distributed(t, delta, whole),
    decreases t.len(),
{
    if t.len() > 0 {
        assert(spread(t, delta, whole).drop_last() =~= spread(t.drop_last(), delta, whole));
        lemma_spread_total(t.drop_last(), delta, whole);
    }
}

/// Rounding down never hands out more than the exact proportion, and withholds
/// less than one unit per holder:
/// `distributed * whole <= delta * total <= distributed * whole + rows * (whole - 1)`.
pub proof fn lemma_distributed_bounds(t: Table, delta: nat, whole: nat)
    requires
        whole > 0,
    ensures
        distributed(t, delta, whole) * whole <= delta * total(t),
        delta * total(t) <= distributed(t, delta, whole) * whole + t.len() * (whole - 1),
    decreases t.len(),
{
    if t.len() == 0 {
        assert(delta * total(t) == 0) by (nonlinear_arith)
            requires
                total(t) == 0,
        ;
        assert(distributed(t, delta, whole) * whole == 0) by (nonlinear_arith)
            requires
                distributed(t, delta, whole) == 0,
        ;
        assert(t.len() * (whole - 1) == 0) by (nonlinear_arith)
            requires
                t.len() == 0,
        ;
    } else {
        let rest = t.drop_last();
        let held = t.last().1;
        lemma_distributed_bounds(rest, delta, whole);
        lemma_share_bounds(delta, held, whole);
        let d0: int = distributed(rest, delta, whole) as int;
        let s: int = share_of_delta(delta, held, whole) as int;
        let t0: int = total(rest) as int;
        let n: int = rest.len() as int;
        let w: int = whole as int;
        let dl: int = delta as int;
        let h: int = held as int;
        assert((d0 + s) * w <= dl * (t0 + h) && dl * (t0 + h) <= (d0 + s) * w + (n + 1) * (w - 1))
            by (nonlinear_arith)
            requires
                d0 * w <= dl * t0,
                dl * t0 <= d0 * w + n * (w - 1),
                s * w <= dl * h,
                dl * h < s * w + w,
        ;
    }
}

/// Distributing over a table measured against its own sum hands out at most
/// `delta`, and fewer than one unit per holder stays behind.
pub proof fn lemma_rebased_total(t: Table, delta: nat)
    ensures
        total(rebased(t, delta)) == total(t) + distributed(t, delta, total(t)),
        distributed(t, delta, total(t)) <= delta,
        total(t) > 0 ==> delta < distributed(t, delta, total(t)) + t.len(),
        total(t) == 0 ==> distributed(t, delta, total(t)) == 0,
{
    let whole = total(t);
    lemma_spread_total(t, delta, whole);
    if whole > 0 {
        lemma_distributed_bounds(t, delta, whole);
        let d: int = distributed(t, delta, whole) as int;
        let w: int = whole as int;
        let dl: int = delta as int;
        let n: int = t.len() as int;
        assert(d <= dl) by (nonlinear_arith)
            requires
                w > 0,
                d * w <= dl * w,
        ;
        assert(dl < d + n) by (nonlinear_arith)
            requires
                w > 0,
                n >= 1,
                dl * w <= d * w + n * (w - 1),
        {
            assert((dl - d) * w <= n * (w - 1));
            assert(n * (w - 1) < n * w);
        }
    } else {
        lemma_nothing_distributed(t, delta);
    }
}

/// Measured against zero nothing is handed out.
pub proof fn lemma_nothing_distributed(t: Table, delta: nat)
    ensures
        distributed(t, delta, 0) == 0,
    decreases t.len(),
{
    if t.len() > 0 {
        lemma_nothing_distributed(t.drop_last(), delta);
    }
}

/// Spreading keeps the names and their order, so names that were distinct
/// stay so, and each name holds what it held plus its part.
pub proof fn lemma_spread_rows(t: Table, delta: nat, whole: nat, id: Seq<char>)
    ensures
        distinct(t) ==> distinct(spread(t, delta, whole)),
        holds(spread(t, delta, whole), id) == holds(t, id),
        amount_of(spread(t, delta, whole), id) == amount_of(t, id) + share_of_delta(
            delta,
            amount_of(t, id),
            whole,
        ),
{
    let s = spread(t, delta, whole);
    if distinct(t) {
        assert forall|i: int, j: int| 0 <= i < j < s.len() implies (#[trigger] s[i]).0 != (
        #[trigger] s[j]).0 by {
            assert(t[i].0 != t[j].0);
        }
    }
    if holds(t, id) {
        lemma_row_of(t, id);
        let r = row_of(t, id);
        assert(s[r].0 == id);
        assert forall|j: int| 0 <= j < r implies (#[trigger] s[j]).0 != id by {
            assert(t[j].0 != id);
        }
        lemma_first_row(s, id, r);
    } else {
        if holds(s, id) {
            let r = choose|i: int| 0 <= i < s.len() && (#[trigger] s[i]).0 == id;
            assert(t[r].0 == id);
        }
        assert(delta * 0 == 0) by (nonlinear_arith);
        assert(share_of_delta(delta, 0, whole) == 0);
    }
}

/// Proportionality: of two holders with `a` and `b` shares, what each
/// receives per share held differs by less than one unit of rounding. With
/// `ra` and `rb` the amounts received, `-b < ra * b - rb * a < a`, which is
/// `|ra / a - rb / b| < 1 / min(a, b)`.
pub proof fn lemma_rebase_proportional(delta: nat, a: nat, b: nat, whole: nat)
    requires
        a > 0,
        b > 0,
        whole > 0,
    ensures
        share_of_delta(delta, a, whole) * b - share_of_delta(delta, b, whole) * a < a,
        share_of_delta(delta, b, whole) * a - share_of_delta(delta, a, whole) * b < b,
{
    lemma_share_bounds(delta, a, whole);
    lemma_share_bounds(delta, b, whole);
    let ra: int = share_of_delta(delta, a, whole) as int;
    let rb: int = share_of_delta(delta, b, whole) as int;
    let w: int = whole as int;
    let d: int = delta as int;
    let ai: int = a as int;
    let bi: int = b as int;
    assert(ra * bi - rb * ai < ai) by (nonlinear_arith)
        requires
            w > 0,
            ai > 0,
            bi > 0,
            ra * w <= d * ai,
            d * bi < rb * w + w,
    {
        assert((ra * w) * bi <= (d * ai) * bi);
        assert((d * bi) * ai < (rb * w + w) * ai);
        assert((ra * bi) * w < (rb * ai + ai) * w);
    }
    assert(rb * ai - ra * bi < bi) by (nonlinear_arith)
        requires
            w > 0,
            ai > 0,
            bi > 0,
            rb * w <= d * bi,
            d * ai < ra * w + w,
    {
        assert((rb * w) * ai <= (d * bi) * ai);
        assert((d * ai) * bi < (ra * w + w) * bi);
        assert((rb * ai) * w < (ra * bi + bi) * w);
    }
}

/// Distributes `delta` over `rows` in proportion to what each holds of their
/// sum `whole`, rounding each part down. Returns the new rows and what was
/// handed out in all.
pub fn distribute(rows: &Vec<Holding>, delta: u128, whole: u128) -> (res: (Vec<Holding>, u128))
    requires
        whole == total(table_of(rows@)),
        whole + delta <= u128::MAX,
    ensures
        table_of(res.0@) == rebased(table_of(rows@), delta as nat),
        res.1 == distributed(table_of(rows@), delta as nat, whole as nat),
{
    let ghost t = table_of(rows@);
    let mut out: Vec<Holding> = Vec::new();
    let mut given: u128 = 0;
    let mut i: usize = 0;
    proof {
        assert(t.take(0) =~= Seq::<(Seq<char>, nat)>::empty());
        assert(table_of(out@) =~= spread(t.take(0), delta as nat, whole as nat));
    }
    while i < rows.len()
        invariant
            i <= rows.len(),
            t == table_of(rows@),
            whole == total(t),
            whole + delta <= u128::MAX,
            table_of(out@) == spread(t.take(i as int), delta as nat, whole as nat),
            given == distributed(t.take(i as int), delta as nat, whole as nat),
            given <= delta,
        decreases rows.len() - i,
    {
        let held: u128 = rows[i].amount;
        let ghost head = t.take(i as int);
        let ghost next = t.take(i as int + 1);
        proof {
            assert(t[i as int].1 == held);
            lemma_row_within_total(t, i as int);
            lemma_share_within_delta(delta as nat, held as nat, whole as nat);
            assert(next.drop_last() =~= head);
            assert(next.last() == t[i as int]);
            lemma_total_prefix(t, i as int + 1);
            if whole > 0 {
                lemma_distributed_bounds(next, delta as nat, whole as nat);
                lemma_product_monotone(delta as int, total(next) as int, whole as int);
                let d: int = distributed(next, delta as nat, whole as nat) as int;
                assert(d <= delta) by (nonlinear_arith)
                    requires
                        whole > 0,
                        d * whole <= delta * whole,
                ;
            } else {
                lemma_nothing_distributed(next, delta as nat);
            }
        }
        let part: u128 = if whole == 0 {
            0
        } else {
            mul_div_floor(delta, held, whole)
        };
        assert(part == share_of_delta(delta as nat, held as nat, whole as nat));
        let ghost before = table_of(out@);
        out.push(Holding { id: rows[i].id.clone(), amount: held + part });
        given = given + part;
        proof {
            let row = raised(t[i as int], delta as nat, whole as nat);
            assert(table_of(out@) =~= before.push(row));
            assert(spread(next, delta as nat, whole as nat) =~= spread(
                head,
                delta as nat,
                whole as nat,
            ).push(row));
        }
        i += 1;
    }
    proof {
        assert(t.take(rows.len() as int) =~= t);
    }
    (out, given)
}

/// The sum of the first rows is no more than the sum of all.
pub proof fn lemma_total_prefix(t: Table, n: int)
    requires
        0 <= n <= t.len(),
    ensures
        total(t.take(n)) <= total(t),
    decreases t.len(),
{
    if n == t.len() {
        assert(t.take(n) =~= t);
    } else {
        assert(t.drop_last().take(n) =~= t.take(n));
        lemma_total_prefix(t.drop_last(), n);
    }
}

} // verus!
