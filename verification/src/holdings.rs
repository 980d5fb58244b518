//! Tables of named amounts: who holds how much.
//!
//! A table is modelled as a sequence of `(name, amount)` pairs. A name is read
//! by the first row that bears it; the tables that the vault keeps hold no name
//! twice. The share ledger, the rewards kept and the balances that the exchange
//! reports are all tables of this kind.

use vstd::prelude::*;

verus! {

/// The model of a table: names with their amounts, in the order of first entry.
pub type Table = Seq<(Seq<char>, nat)>;

/// One row of a table.
#[derive(Clone, PartialEq, Eq, Debug)]
pub struct Holding {
    /// The name: an account, a token or a key.
    pub id: String,
    /// What is held under the name.
    pub amount: u128,
}

impl View for Holding {
    type V = (Seq<char>, nat);

    open spec fn view(&self) -> (Seq<char>, nat) {
        (self.id@, self.amount as nat)
    }
}

/// The table that a vector of rows stands for.
pub open spec fn table_of(rows: Seq<Holding>) -> Table {
    rows.map_values(|h: Holding| h@)
}

/// No name occurs twice.
pub open spec fn distinct(t: Table) -> bool {
    forall|i: int, j: int| 0 <= i < j < t.len() ==> (#[trigger] t[i]).0 != (#[trigger] t[j]).0
}

/// Whether `id` has a row, be its amount zero or not.
pub open spec fn holds(t: Table, id: Seq<char>) -> bool {
    exists|i: int| 0 <= i < t.len() && (#[trigger] t[i]).0 == id
}

/// Whether `i` is the first row of `id`.
pub open spec fn is_first_row(t: Table, id: Seq<char>, i: int) -> bool {
    &&& 0 <= i < t.len()
    &&& t[i].0 == id
    &&& forall|j: int| 0 <= j < i ==> (#[trigger] t[j]).0 != id
}

/// The first row of `id`, where it has one.
pub open spec fn row_of(t: Table, id: Seq<char>) -> int {
    choose|i: int| is_first_row(t, id, i)
}

/// The amount that `id` holds, by the first row that bears the name; zero
/// where it has no row.
pub open spec fn amount_of(t: Table, id: Seq<char>) -> nat {
    if holds(t, id) {
        t[row_of(t, id)].1
    } else {
        0
    }
}

/// The sum of all amounts.
pub open spec fn total(t: Table) -> nat
    decreases t.len(),
{
    if t.len() == 0 {
        0
    } else {
        total(t.drop_last()) + t.last().1
    }
}

/// The table with `id` set to `amount`: its row is overwritten in place, or a
/// new row is put at the end.
pub open spec fn assigned(t: Table, id: Seq<char>, amount: nat) -> Table {
    if holds(t, id) {
        t.update(row_of(t, id), (id, amount))
    } else {
        t.push((id, amount))
    }
}

/// The table as a map from names to amounts.
pub open spec fn as_map(t: Table) -> Map<Seq<char>, nat> {
    Map::new(|id: Seq<char>| holds(t, id), |id: Seq<char>| amount_of(t, id))
}

/// A name that has a row at or before `upto` has a first row.
proof fn lemma_first_row_exists(t: Table, id: Seq<char>, upto: int)
    requires
        0 <= upto < t.len(),
        t[upto].0 == id,
    ensures
        exists|i: int| is_first_row(t, id, i),
    decreases upto,
{
    if exists|j: int| 0 <= j < upto && (#[trigger] t[j]).0 == id {
        let j = choose|j: int| 0 <= j < upto && (#[trigger] t[j]).0 == id;
        lemma_first_row_exists(t, id, j);
    } else {
        assert(is_first_row(t, id, upto));
    }
}

/// The row of a name that has one is the first that bears the name.
pub proof fn lemma_row_of(t: Table, id: Seq<char>)
    requires
        holds(t, id),
    ensures
        is_first_row(t, id, row_of(t, id)),
{
    let k = choose|i: int| 0 <= i < t.len() && (#[trigger] t[i]).0 == id;
    lemma_first_row_exists(t, id, k);
}

/// The first row that bears a name is the row of that name.
pub proof fn lemma_first_row(t: Table, id: Seq<char>, i: int)
    requires
        is_first_row(t, id, i),
    ensures
        holds(t, id),
        row_of(t, id) == i,
        amount_of(t, id) == t[i].1,
{
    lemma_row_of(t, id);
    let r = row_of(t, id);
    if r < i {
        assert(t[r].0 != id);
    } else if i < r {
        assert(t[i].0 != id);
    }
}

/// Overwriting one row changes the sum by the difference of the amounts.
pub proof fn lemma_total_update(t: Table, i: int, row: (Seq<char>, nat))
    requires
        0 <= i < t.len(),
    ensures
        total(t.update(i, row)) + t[i].1 == total(t) + row.1,
    decreases t.len(),
{
    let u = t.update(i, row);
    if i == t.len() - 1 {
        assert(u.drop_last() =~= t.drop_last());
    } else {
        assert(u.drop_last() =~= t.drop_last().update(i, row));
        lemma_total_update(t.drop_last(), i, row);
    }
}

/// A new row adds its amount to the sum.
pub proof fn lemma_total_push(t: Table, row: (Seq<char>, nat))
    ensures
        total(t.push(row)) == total(t) + row.1,
{
    assert(t.push(row).drop_last() =~= t);
}

/// No row holds more than the sum of all rows.
pub proof fn lemma_row_within_total(t: Table, i: int)
    requires
        0 <= i < t.len(),
    ensures
        t[i].1 <= total(t),
    decreases t.len(),
{
    if i < t.len() - 1 {
        lemma_row_within_total(t.drop_last(), i);
    }
}

/// What setting one name does to the table: the name holds the new amount,
/// every other name holds what it held, the sum moves by the difference, and
/// names that were distinct stay so.
pub proof fn lemma_assigned(t: Table, id: Seq<char>, amount: nat)
    ensures
        distinct(t) ==> distinct(assigned(t, id, amount)),
        holds(assigned(t, id, amount), id),
        amount_of(assigned(t, id, amount), id) == amount,
        forall|other: Seq<char>|
            other != id ==> holds(assigned(t, id, amount), other) == holds(t, other),
        forall|other: Seq<char>|
            other != id ==> amount_of(assigned(t, id, amount), other) == amount_of(
                t,
                other,
            ),
        total(assigned(t, id, amount)) + amount_of(t, id) == total(t) + amount,
{
    let a = assigned(t, id, amount);
    let at: int = if holds(t, id) { row_of(t, id) } else { t.len() as int };
    if holds(t, id) {
        lemma_row_of(t, id);
        lemma_total_update(t, at, (id, amount));
    } else {
        lemma_total_push(t, (id, amount));
    }
    assert(a.len() > at && a[at] == (id, amount));
    assert(forall|k: int| 0 <= k < a.len() && k != at ==> a[k] == t[k]);
    assert forall|j: int| 0 <= j < at implies (#[trigger] a[j]).0 != id by {
        assert(a[j] == t[j]);
        assert(t[j].0 != id);
    }
    lemma_first_row(a, id, at);
    if distinct(t) {
        assert forall|i: int, j: int| 0 <= i < j < a.len() implies (#[trigger] a[i]).0 != (
        #[trigger] a[j]).0 by {
            if i == at {
                assert(a[j] == t[j]);
                if holds(t, id) {
                    assert(t[at].0 != t[j].0);
                }
            } else if j == at {
                assert(a[i] == t[i]);
                if holds(t, id) {
                    assert(t[i].0 != t[at].0);
                }
            } else {
                assert(t[i].0 != t[j].0);
            }
        }
    }
    assert forall|other: Seq<char>| other != id implies holds(a, other) == holds(t, other) && amount_of(
        a,
        other,
    ) == amount_of(t, other) by {
        if holds(t, other) {
            lemma_row_of(t, other);
            let r = row_of(t, other);
            assert(r != at);
            assert(a[r] == t[r]);
            assert forall|j: int| 0 <= j < r implies (#[trigger] a[j]).0 != other by {
                if j != at {
                    assert(a[j] == t[j]);
                    assert(t[j].0 != other);
                }
            }
            lemma_first_row(a, other, r);
        } else if holds(a, other) {
            let r = choose|i: int| 0 <= i < a.len() && (#[trigger] a[i]).0 == other;
            assert(r != at);
            assert(t[r].0 == other);
        }
    }
}

/// The row of `id` in `rows`, if it has one.
pub fn find_row(rows: &Vec<Holding>, id: &String) -> (found: Option<usize>)
    ensures
        found is Some <==> holds(table_of(rows@), id@),
        found matches Some(i) ==> is_first_row(table_of(rows@), id@, i as int),
{
    let mut i: usize = 0;
    while i < rows.len()
        invariant
            i <= rows.len(),
            forall|k: int| 0 <= k < i ==> (#[trigger] table_of(rows@)[k]).0 != id@,
        decreases rows.len() - i,
    {
        if rows[i].id == *id {
            assert(table_of(rows@)[i as int].0 == id@);
            return Some(i);
        }
        i += 1;
    }
    None
}

/// The amount that `id` holds in `rows`; zero where it has no row.
pub fn lookup(rows: &Vec<Holding>, id: &String) -> (amount: u128)
    ensures
        amount == amount_of(table_of(rows@), id@),
{
    match find_row(rows, id) {
        Some(i) => {
            proof {
                lemma_first_row(table_of(rows@), id@, i as int);
            }
            rows[i].amount
        },
        None => 0,
    }
}

/// Sets `id` to `amount` in `rows`, in its row or in a new one at the end.
pub fn assign(rows: &mut Vec<Holding>, id: &String, amount: u128)
    ensures
        table_of(final(rows)@) == assigned(table_of(old(rows)@), id@, amount as nat),
        distinct(table_of(old(rows)@)) ==> distinct(table_of(final(rows)@)),
{
    let ghost before = table_of(rows@);
    proof {
        lemma_assigned(before, id@, amount as nat);
    }
    match find_row(rows, id) {
        Some(i) => {
            proof {
                lemma_first_row(before, id@, i as int);
            }
            rows.set(i, Holding { id: id.clone(), amount });
            assert(table_of(rows@) =~= before.update(i as int, (id@, amount as nat)));
        },
        None => {
            rows.push(Holding { id: id.clone(), amount });
            assert(table_of(rows@) =~= before.push((id@, amount as nat)));
        },
    }
}

} // verus!
