//! The share ledger: who holds how many of the vault's shares, beside the
//! number of shares that the pool reports the vault to hold in all.
//!
//! The ledger never gives out more than the pool has reported: the sum of all
//! entries stays at or below the vault's total. What the total exceeds the sum
//! by is owed to nobody; it grows by what rounding withholds when newly accrued
//! shares are distributed, and by what the pool had grown by, unrecorded, when
//! a deposit found it.

use vstd::prelude::*;
use crate::errors::VaultError;
use crate::holdings::{
    amount_of, assign, assigned, distinct, find_row, holds, lemma_assigned, lookup, table_of, total,
    Holding, Table,
};
use crate::rebase::{distribute, distributed, lemma_rebased_total, lemma_spread_rows, rebased};

verus! {

/// The model of a ledger.
pub struct LedgerState {
    /// The depositors with their shares. An entry is never removed.
    pub holdings: Table,
    /// The shares that the pool last reported for the vault.
    pub vault_total: nat,
}

impl LedgerState {
    /// The sum of all entries.
    pub open spec fn assigned(self) -> nat {
        total(self.holdings)
    }

    /// No depositor has two entries, and no more is given out than the pool
    /// reported.
    pub open spec fn wf(self) -> bool {
        &&& distinct(self.holdings)
        &&& self.assigned() <= self.vault_total
    }

    /// The shares of the vault that are owed to nobody.
    pub open spec fn gap(self) -> int {
        self.vault_total - self.assigned()
    }

    /// The shares of `id`; zero for one who never deposited.
    pub open spec fn share(self, id: Seq<char>) -> nat {
        amount_of(self.holdings, id)
    }

    /// By how much `pool_total` exceeds the recorded total.
    pub open spec fn increase(self, pool_total: nat) -> nat {
        if pool_total > self.vault_total {
            (pool_total - self.vault_total) as nat
        } else {
            0
        }
    }

    /// The ledger with the recorded total replaced.
    pub open spec fn refreshed(self, pool_total: nat) -> LedgerState {
        LedgerState { holdings: self.holdings, vault_total: pool_total }
    }

    /// The ledger after `delta` shares were added to the entry of `id`, which is
    /// made where there was none.
    pub open spec fn credited(self, id: Seq<char>, delta: nat) -> LedgerState {
        LedgerState {
            holdings: assigned(self.holdings, id, self.share(id) + delta),
            vault_total: self.vault_total,
        }
    }

    /// The ledger after `amount` shares were taken from the entry of `id`.
    /// Nothing is taken from one who has no entry.
    pub open spec fn debited(self, id: Seq<char>, amount: nat) -> LedgerState {
        if holds(self.holdings, id) {
            LedgerState {
                holdings: assigned(self.holdings, id, (self.share(id) - amount) as nat),
                vault_total: self.vault_total,
            }
        } else {
            self
        }
    }

    /// Whether a deposit can settle that found the pool at `baseline` before
    /// its liquidity went in and at `pool_total` after: the pool did not
    /// shrink in between, and what it held before covers what the ledger has
    /// given out.
    pub open spec fn can_settle(self, baseline: nat, pool_total: nat) -> bool {
        self.assigned() <= baseline <= pool_total
    }

    /// The ledger after a deposit of `id` settled that found the pool at
    /// `baseline` before its liquidity went in and at `pool_total` after: what
    /// the pool grew by in between goes to `id`, and `pool_total` is recorded.
    pub open spec fn deposited(self, id: Seq<char>, baseline: nat, pool_total: nat) -> LedgerState {
        self.refreshed(pool_total).credited(id, (pool_total - baseline) as nat)
    }

    /// The ledger after a compound settled against the pool's report
    /// `pool_total`: the increase over the recorded total is distributed over
    /// all holders in proportion to their holdings, each part rounded down.
    pub open spec fn compounded(self, pool_total: nat) -> LedgerState {
        LedgerState {
            holdings: rebased(self.holdings, self.increase(pool_total)),
            vault_total: pool_total,
        }
    }
}

/// A deposit that settles keeps the ledger sound: the depositor holds what
/// the pool grew by more, nobody else holds more or less, and what is owed to
/// nobody afterwards is what the pool held before beyond what was given out.
/// Where the deposit found the pool as it was recorded, that is as much as was
/// owed to nobody before.
pub proof fn lemma_deposit_conserves(s: LedgerState, id: Seq<char>, baseline: nat, pool_total: nat)
    requires
        s.wf(),
        s.can_settle(baseline, pool_total),
    ensures
        s.deposited(id, baseline, pool_total).wf(),
        s.deposited(id, baseline, pool_total).vault_total == pool_total,
        s.deposited(id, baseline, pool_total).share(id) == s.share(id) + pool_total - baseline,
        forall|other: Seq<char>|
            other != id ==> s.deposited(id, baseline, pool_total).share(other) == s.share(other),
        s.deposited(id, baseline, pool_total).gap() == baseline - s.assigned(),
        baseline == s.vault_total ==> s.deposited(id, baseline, pool_total).gap() == s.gap(),
{
    lemma_assigned(s.holdings, id, (s.share(id) + pool_total - baseline) as nat);
}

/// A compound that settles keeps the ledger sound. Every holder receives the
/// holder's part of the increase, rounded down; together they receive no more
/// than the increase and, while anything is held, rounding withholds less than
/// one share per entry.
pub proof fn lemma_compound_conserves(s: LedgerState, pool_total: nat)
    requires
        s.wf(),
        pool_total >= s.assigned(),
    ensures
        s.compounded(pool_total).wf(),
        s.compounded(pool_total).assigned() == s.assigned() + distributed(
            s.holdings,
            s.increase(pool_total),
            s.assigned(),
        ),
        s.compounded(pool_total).assigned() <= s.assigned() + s.increase(pool_total),
        s.assigned() > 0 ==> s.compounded(pool_total).gap() < s.gap() + s.holdings.len(),
        s.assigned() == 0 ==> s.compounded(pool_total).holdings == s.holdings,
{
    let delta = s.increase(pool_total);
    lemma_rebased_total(s.holdings, delta);
    lemma_spread_rows(s.holdings, delta, s.assigned(), Seq::<char>::empty());
    if s.assigned() == 0 {
        lemma_unchanged_without_holdings(s.holdings, delta);
    }
}

/// Proportionality of a compound: of two depositors who hold `a` and `b`
/// shares, what each receives per share held differs by less than one unit of
/// rounding. With `ra` and `rb` the shares received, `-b < ra * b - rb * a < a`,
/// which is `|ra / a - rb / b| < 1 / min(a, b)`.
pub proof fn lemma_compound_proportional(
    s: LedgerState,
    pool_total: nat,
    first: Seq<char>,
    second: Seq<char>,
)
    requires
        s.wf(),
        pool_total >= s.assigned(),
        s.share(first) > 0,
        s.share(second) > 0,
    ensures
        s.compounded(pool_total).share(first) >= s.share(first),
        s.compounded(pool_total).share(second) >= s.share(second),
        (s.compounded(pool_total).share(first) - s.share(first)) * s.share(second) - (s.compounded(
            pool_total,
        ).share(second) - s.share(second)) * s.share(first) < s.share(first),
        (s.compounded(pool_total).share(second) - s.share(second)) * s.share(first) - (
        s.compounded(pool_total).share(first) - s.share(first)) * s.share(second) < s.share(second),
{
    let delta = s.increase(pool_total);
    lemma_spread_rows(s.holdings, delta, s.assigned(), first);
    lemma_spread_rows(s.holdings, delta, s.assigned(), second);
    crate::holdings::lemma_row_of(s.holdings, first);
    crate::holdings::lemma_row_within_total(
        s.holdings,
        crate::holdings::row_of(s.holdings, first),
    );
    crate::rebase::lemma_rebase_proportional(
        delta,
        s.share(first),
        s.share(second),
        s.assigned(),
    );
}

/// While nothing is held, distributing changes no entry.
pub proof fn lemma_unchanged_without_holdings(t: Table, delta: nat)
    requires
        total(t) == 0,
    ensures
        rebased(t, delta) == t,
{
    assert(rebased(t, delta) =~= t);
}

/// Withdrawing everything twice: the second time finds nothing, takes
/// nothing and leaves the ledger as the first left it.
pub proof fn lemma_debit_to_zero_idempotent(s: LedgerState, id: Seq<char>)
    requires
        s.wf(),
    ensures
        s.debited(id, s.share(id)).wf(),
        s.debited(id, s.share(id)).share(id) == 0,
        s.debited(id, s.share(id)).debited(id, 0) == s.debited(id, s.share(id)),
{
    let once = s.debited(id, s.share(id));
    if holds(s.holdings, id) {
        lemma_assigned(s.holdings, id, 0);
        lemma_assigned(once.holdings, id, 0);
        crate::holdings::lemma_row_of(once.holdings, id);
        assert(assigned(once.holdings, id, 0) =~= once.holdings);
    }
}

/// What moves the ledger while nobody withdraws.
pub enum LedgerEvent {
    /// A deposit of `id` settles that found the pool at `baseline` before and
    /// at `pool_total` after.
    Deposit { id: Seq<char>, baseline: nat, pool_total: nat },
    /// A compound settles against the pool's report.
    Compound { pool_total: nat },
}

/// Whether the ledger takes the event. A deposit is refused that cannot
/// settle, and a compound whose report lies below what the ledger has given
/// out.
pub open spec fn is_taken(s: LedgerState, e: LedgerEvent) -> bool {
    match e {
        LedgerEvent::Deposit { baseline, pool_total, .. } => s.can_settle(baseline, pool_total),
        LedgerEvent::Compound { pool_total } => pool_total >= s.assigned(),
    }
}

/// The ledger after one event. An event that is refused changes nothing.
pub open spec fn after_event(s: LedgerState, e: LedgerEvent) -> LedgerState {
    if !is_taken(s, e) {
        s
    } else {
        match e {
            LedgerEvent::Deposit { id, baseline, pool_total } => s.deposited(
                id,
                baseline,
                pool_total,
            ),
            LedgerEvent::Compound { pool_total } => s.compounded(pool_total),
        }
    }
}

/// The most that one event leaves unowed beyond what was unowed before. A
/// deposit that found the pool as it was recorded leaves nothing; one that
/// found it larger leaves what it was larger by. A compound leaves one share
/// less than there are entries, or the whole increase while nothing is held.
pub open spec fn withheld_by(s: LedgerState, e: LedgerEvent) -> nat {
    if !is_taken(s, e) {
        0
    } else {
        match e {
            LedgerEvent::Deposit { baseline, .. } => s.increase(baseline),
            LedgerEvent::Compound { pool_total } => if s.assigned() > 0 {
                (s.holdings.len() - 1) as nat
            } else {
                s.increase(pool_total)
            },
        }
    }
}

/// The ledger after a sequence of events, first to last.
pub open spec fn after_events(s: LedgerState, events: Seq<LedgerEvent>) -> LedgerState
    decreases events.len(),
{
    if events.len() == 0 {
        s
    } else {
        after_events(after_event(s, events.first()), events.drop_first())
    }
}

/// The most that a sequence of events leaves unowed beyond what was unowed
/// before it.
pub open spec fn withheld(s: LedgerState, events: Seq<LedgerEvent>) -> nat
    decreases events.len(),
{
    if events.len() == 0 {
        0
    } else {
        withheld_by(s, events.first()) + withheld(
            after_event(s, events.first()),
            events.drop_first(),
        )
    }
}

/// Conservation: whatever deposits and compounds settle, in whatever order
/// and against whatever reports, the entries never sum up to more than the
/// vault's total, and what the total exceeds them by grows by no more than
/// what was withheld: by rounding, and by deposits that found the pool larger
/// than it was recorded.
pub proof fn lemma_conservation(s: LedgerState, events: Seq<LedgerEvent>)
    requires
        s.wf(),
    ensures
        after_events(s, events).wf(),
        after_events(s, events).assigned() <= after_events(s, events).vault_total,
        0 <= after_events(s, events).gap() <= s.gap() + withheld(s, events),
    decreases events.len(),
{
    if events.len() > 0 {
        let e = events.first();
        let next = after_event(s, e);
        if is_taken(s, e) {
            match e {
                LedgerEvent::Deposit { id, baseline, pool_total } => {
                    lemma_deposit_conserves(s, id, baseline, pool_total);
                },
                LedgerEvent::Compound { pool_total } => {
                    lemma_compound_conserves(s, pool_total);
                },
            }
        }
        lemma_conservation(next, events.drop_first());
    }
}

/// The ledger of the vault.
#[derive(Debug)]
pub struct ShareLedger {
    entries: Vec<Holding>,
    given: u128,
    vault_total: u128,
}

impl View for ShareLedger {
    type V = LedgerState;

    closed spec fn view(&self) -> LedgerState {
        LedgerState { holdings: table_of(self.entries@), vault_total: self.vault_total as nat }
    }
}

impl ShareLedger {
    /// The ledger is sound and its running sum is the sum of its entries.
    pub closed spec fn wf(&self) -> bool {
        &&& self@.wf()
        &&& self.given == total(table_of(self.entries@))
    }

    /// What `wf` says of the model.
    pub proof fn lemma_wf(&self)
        requires
            self.wf(),
        ensures
            self@.wf(),
            self@.vault_total <= u128::MAX,
    {
    }

    /// A ledger without entries for a vault that holds `vault_total` shares.
    pub fn new(vault_total: u128) -> (ledger: ShareLedger)
        ensures
            ledger.wf(),
            ledger@ == (LedgerState {
                holdings: Seq::<(Seq<char>, nat)>::empty(),
                vault_total: vault_total as nat,
            }),
    {
        let ledger = ShareLedger { entries: Vec::new(), given: 0, vault_total };
        assert(table_of(ledger.entries@) =~= Seq::<(Seq<char>, nat)>::empty());
        ledger
    }

    /// The ledger that holds `entries` beside `vault_total`, if no depositor
    /// occurs twice in them and they sum up to no more than `vault_total`.
    pub fn restore(entries: Vec<Holding>, vault_total: u128) -> (ledger: Option<ShareLedger>)
        ensures
            ledger is Some <==> distinct(table_of(entries@)) && total(table_of(entries@))
                <= vault_total,
            ledger matches Some(l) ==> l.wf() && l@ == (LedgerState {
                holdings: table_of(entries@),
                vault_total: vault_total as nat,
            }),
    {
        let ghost t = table_of(entries@);
        let mut given: u128 = 0;
        let mut i: usize = 0;
        proof {
            assert(t.take(0) =~= Seq::<(Seq<char>, nat)>::empty());
        }
        while i < entries.len()
            invariant
                i <= entries.len(),
                t == table_of(entries@),
                given == total(t.take(i as int)),
                given <= vault_total,
                distinct(t.take(i as int)),
            decreases entries.len() - i,
        {
            let ghost head = t.take(i as int);
            let ghost next = t.take(i as int + 1);
            proof {
                assert(next.drop_last() =~= head);
                assert(next.last() == t[i as int]);
                crate::rebase::lemma_total_prefix(t, i as int + 1);
            }
            let amount: u128 = entries[i].amount;
            if amount > vault_total - given {
                return None;
            }
            let mut j: usize = 0;
            while j < i
                invariant
                    j <= i < entries.len(),
                    t == table_of(entries@),
                    forall|k: int| 0 <= k < j ==> (#[trigger] t[k]).0 != t[i as int].0,
                decreases i - j,
            {
                if entries[j].id == entries[i].id {
                    assert(t[j as int].0 == t[i as int].0);
                    return None;
                }
                j += 1;
            }
            proof {
                assert forall|a: int, b: int| 0 <= a < b < next.len() implies (#[trigger] next[a]).0
                    != (#[trigger] next[b]).0 by {
                    if b < i {
                        assert(head[a].0 != head[b].0);
                    } else {
                        assert(t[a].0 != t[i as int].0);
                    }
                }
            }
            given = given + amount;
            i += 1;
        }
        proof {
            assert(t.take(entries.len() as int) =~= t);
        }
        Some(ShareLedger { entries, given, vault_total })
    }

    /// The shares of `id`; zero for one who never deposited.
    pub fn get_share(&self, id: &String) -> (shares: u128)
        ensures
            shares == self@.share(id@),
    {
        lookup(&self.entries, id)
    }

    /// Whether `id` has an entry, be it zero or not.
    pub fn has_entry(&self, id: &String) -> (found: bool)
        ensures
            found == holds(self@.holdings, id@),
    {
        find_row(&self.entries, id).is_some()
    }

    /// The shares that the pool last reported for the vault.
    pub fn vault_total(&self) -> (shares: u128)
        ensures
            shares == self@.vault_total,
    {
        self.vault_total
    }

    /// The sum of all entries.
    pub fn assigned_total(&self) -> (shares: u128)
        requires
            self.wf(),
        ensures
            shares == self@.assigned(),
    {
        self.given
    }

    /// The entries, in the order in which the depositors first appeared.
    pub fn entries(&self) -> (rows: &Vec<Holding>)
        ensures
            table_of(rows@) == self@.holdings,
    {
        &self.entries
    }

    /// Records what the pool reports the vault to hold, and returns by how much
    /// that exceeds what was recorded before. A report below what the ledger
    /// has given out is refused.
    pub fn refresh_total(&mut self, pool_total: u128) -> (res: Result<u128, VaultError>)
        requires
            old(self).wf(),
        ensures
            final(self).wf(),
            res is Err <==> pool_total < old(self)@.assigned(),
            res matches Ok(delta) ==> delta == old(self)@.increase(pool_total as nat) && final(self)@ == old(self)@.refreshed(pool_total as nat),
            res matches Err(e) ==> e == VaultError::LedgerUnderflow && *final(self) == *old(self),
    {
        if pool_total < self.given {
            return Err(VaultError::LedgerUnderflow);
        }
        let delta: u128 = if pool_total > self.vault_total {
            pool_total - self.vault_total
        } else {
            0
        };
        self.vault_total = pool_total;
        Ok(delta)
    }

    /// Adds `delta` shares to the entry of `id`, making the entry where there
    /// is none. Refused where the ledger would then have given out more than
    /// the pool reported.
    pub fn credit_share(&mut self, id: &String, delta: u128) -> (res: Result<(), VaultError>)
        requires
            old(self).wf(),
        ensures
            final(self).wf(),
            res is Err <==> old(self)@.assigned() + delta > old(self)@.vault_total,
            res is Ok ==> final(self)@ == old(self)@.credited(id@, delta as nat),
            res matches Err(e) ==> e == VaultError::LedgerOverflow && *final(self) == *old(self),
    {
        if delta > self.vault_total - self.given {
            return Err(VaultError::LedgerOverflow);
        }
        let held: u128 = lookup(&self.entries, id);
        proof {
            lemma_assigned(self@.holdings, id@, (held + delta) as nat);
            if holds(self@.holdings, id@) {
                crate::holdings::lemma_row_of(self@.holdings, id@);
                crate::holdings::lemma_row_within_total(
                    self@.holdings,
                    crate::holdings::row_of(self@.holdings, id@),
                );
            }
        }
        assign(&mut self.entries, id, held + delta);
        self.given = self.given + delta;
        Ok(())
    }

    /// Takes `amount` shares from the entry of `id`. Refused where `id` holds
    /// fewer. Taking nothing from one who has no entry changes nothing.
    pub fn debit_share(&mut self, id: &String, amount: u128) -> (res: Result<(), VaultError>)
        requires
            old(self).wf(),
        ensures
            final(self).wf(),
            res is Err <==> amount > old(self)@.share(id@),
            res is Ok ==> final(self)@ == old(self)@.debited(id@, amount as nat),
            res matches Err(e) ==> e == VaultError::InsufficientShares && *final(self) == *old(self),
    {
        let held: u128 = lookup(&self.entries, id);
        if amount > held {
            return Err(VaultError::InsufficientShares);
        }
        if find_row(&self.entries, id).is_some() {
            proof {
                lemma_assigned(self@.holdings, id@, (held - amount) as nat);
            }
            assign(&mut self.entries, id, held - amount);
            self.given = self.given - amount;
        }
        Ok(())
    }

    /// Takes all shares of `id` and returns how many they were. The entry
    /// stays, at zero.
    pub fn debit_all(&mut self, id: &String) -> (taken: u128)
        requires
            old(self).wf(),
        ensures
            final(self).wf(),
            taken == old(self)@.share(id@),
            final(self)@ == old(self)@.debited(id@, taken as nat),
            final(self)@.share(id@) == 0,
    {
        let held: u128 = lookup(&self.entries, id);
        proof {
            lemma_debit_to_zero_idempotent(self@, id@);
        }
        if find_row(&self.entries, id).is_some() {
            proof {
                lemma_assigned(self@.holdings, id@, 0);
            }
            assign(&mut self.entries, id, 0);
            self.given = self.given - held;
        }
        held
    }

    /// Records what the pool reports the vault to hold after a compound, and
    /// distributes the increase over all holders in proportion to their
    /// holdings, each part rounded down. Returns the increase. A report below
    /// what the ledger has given out is refused.
    pub fn rebase_all(&mut self, pool_total: u128) -> (res: Result<u128, VaultError>)
        requires
            old(self).wf(),
        ensures
            final(self).wf(),
            res is Err <==> pool_total < old(self)@.assigned(),
            res matches Ok(delta) ==> delta == old(self)@.increase(pool_total as nat) && final(self)@ == old(self)@.compounded(pool_total as nat),
            res matches Err(e) ==> e == VaultError::LedgerUnderflow && *final(self) == *old(self),
    {
        if pool_total < self.given {
            return Err(VaultError::LedgerUnderflow);
        }
        let delta: u128 = if pool_total > self.vault_total {
            pool_total - self.vault_total
        } else {
            0
        };
        proof {
            lemma_compound_conserves(self@, pool_total as nat);
        }
        let res = distribute(&self.entries, delta, self.given);
        self.entries = res.0;
        self.given = self.given + res.1;
        self.vault_total = pool_total;
        Ok(delta)
    }
}

} // verus!
