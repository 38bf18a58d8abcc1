use vstd::prelude::*;
use crate::error::ContractError;

verus! {

/// What `a` holds according to the rows: the sum of the rows keyed `a`.
pub open spec fn holding_of(rows: Seq<(String, u128)>, a: Seq<char>) -> nat
    decreases rows.len(),
{
    if rows.len() == 0 {
        0
    } else {
        holding_of(rows.drop_last(), a) + if rows.last().0@ == a {
            rows.last().1 as nat
        } else {
            0nat
        }
    }
}

/// The sum of all amounts in the rows.
pub open spec fn sum_of(rows: Seq<(String, u128)>) -> nat
    decreases rows.len(),
{
    if rows.len() == 0 {
        0
    } else {
        sum_of(rows.drop_last()) + rows.last().1 as nat
    }
}

pub open spec fn accounts_unique(rows: Seq<(String, u128)>) -> bool {
    forall|i: int, j: int| 0 <= i < rows.len() && 0 <= j < rows.len() && i != j ==> rows[i].0@ != rows[j].0@
}

pub proof fn lemma_holding_absent(rows: Seq<(String, u128)>, a: Seq<char>)
    requires
        forall|i: int| 0 <= i < rows.len() ==> rows[i].0@ != a,
    ensures
        holding_of(rows, a) == 0,
    decreases rows.len(),
{
    if rows.len() > 0 {
        lemma_holding_absent(rows.drop_last(), a);
    }
}

pub proof fn lemma_holding_at(rows: Seq<(String, u128)>, i: int)
    requires
        accounts_unique(rows),
        0 <= i < rows.len(),
    ensures
        holding_of(rows, rows[i].0@) == rows[i].1,
    decreases rows.len(),
{
    let pre = rows.drop_last();
    if i == rows.len() - 1 {
        lemma_holding_absent(pre, rows[i].0@);
    } else {
        assert(rows[i] == pre[i]);
        lemma_holding_at(pre, i);
    }
}

pub proof fn lemma_holding_le_sum(rows: Seq<(String, u128)>, a: Seq<char>)
    ensures
        holding_of(rows, a) <= sum_of(rows),
    decreases rows.len(),
{
    if rows.len() > 0 {
        lemma_holding_le_sum(rows.drop_last(), a);
    }
}

/// Replacing the amount of row `i` changes the holding of its account, and
/// the sum, by the difference.
pub proof fn lemma_update(rows: Seq<(String, u128)>, i: int, v: u128)
    requires
        0 <= i < rows.len(),
    ensures
        ({
            let next = rows.update(i, (rows[i].0, v));
            &&& sum_of(next) + rows[i].1 == sum_of(rows) + v
            &&& forall|a: Seq<char>|
                #[trigger] holding_of(next, a) + (if rows[i].0@ == a {
                    rows[i].1 as nat
                } else {
                    0nat
                }) == holding_of(rows, a) + (if rows[i].0@ == a {
                    v as nat
                } else {
                    0nat
                })
        }),
    decreases rows.len(),
{
    let next = rows.update(i, (rows[i].0, v));
    if i == rows.len() - 1 {
        assert(next.drop_last() =~= rows.drop_last());
        assert(next.last() == (rows[i].0, v));
    } else {
        let pre = rows.drop_last();
        lemma_update(pre, i, v);
        assert(next.drop_last() =~= pre.update(i, (pre[i].0, v)));
        assert(next.last() == rows.last());
        assert(pre[i] == rows[i]);
    }
    assert forall|a: Seq<char>|
        #[trigger] holding_of(next, a) + (if rows[i].0@ == a {
            rows[i].1 as nat
        } else {
            0nat
        }) == holding_of(rows, a) + (if rows[i].0@ == a {
            v as nat
        } else {
            0nat
        }) by {
        if i < rows.len() - 1 {
            let pre = rows.drop_last();
            assert(holding_of(pre.update(i, (pre[i].0, v)), a) + (if pre[i].0@ == a {
                pre[i].1 as nat
            } else {
                0nat
            }) == holding_of(pre, a) + (if pre[i].0@ == a {
                v as nat
            } else {
                0nat
            }));
        }
    }
}

pub proof fn lemma_push(rows: Seq<(String, u128)>, e: (String, u128))
    ensures
        sum_of(rows.push(e)) == sum_of(rows) + e.1,
        forall|a: Seq<char>|
            #[trigger] holding_of(rows.push(e), a) == holding_of(rows, a) + (if e.0@ == a {
                e.1 as nat
            } else {
                0nat
            }),
{
    assert(rows.push(e).drop_last() =~= rows);
}

/// The balance table: one row per account that has held tokens.
pub struct BalanceStore {
    pub rows: Vec<(String, u128)>,
}

impl BalanceStore {
    /// No account has two rows.
    pub open spec fn wf(&self) -> bool {
        accounts_unique(self.rows@)
    }

    /// The balance of `a`; zero where it has no row.
    pub open spec fn balance(&self, a: Seq<char>) -> nat {
        holding_of(self.rows@, a)
    }

    /// The sum of all balances.
    pub open spec fn total(&self) -> nat {
        sum_of(self.rows@)
    }

    /// The balances of `next` are those of `self` with `amount` moved from
    /// `from` to `to`.
    pub open spec fn moved(&self, next: &BalanceStore, from: Seq<char>, to: Seq<char>, amount: nat) -> bool {
        forall|b: Seq<char>|
            #[trigger] next.balance(b) + (if b == from {
                amount
            } else {
                0nat
            }) == self.balance(b) + (if b == to {
                amount
            } else {
                0nat
            })
    }

    /// The balances of `next` are those of `self` with `a` changed to `v`.
    pub open spec fn set_to(&self, next: &BalanceStore, a: Seq<char>, v: nat) -> bool {
        &&& next.balance(a) == v
        &&& forall|b: Seq<char>| b != a ==> #[trigger] next.balance(b) == self.balance(b)
    }

    pub fn new() -> (r: BalanceStore)
        ensures
            r.wf(),
            r.total() == 0,
            forall|b: Seq<char>| #[trigger] r.balance(b) == 0,
    {
        BalanceStore { rows: Vec::new() }
    }

    fn find(&self, a: &String) -> (r: Option<usize>)
        ensures
            match r {
                Some(i) => i < self.rows@.len() && self.rows@[i as int].0@ == a@,
                None => forall|i: int| 0 <= i < self.rows@.len() ==> self.rows@[i].0@ != a@,
            },
    {
        let mut i: usize = 0;
        while i < self.rows.len()
            invariant
                i <= self.rows@.len(),
                forall|j: int| 0 <= j < i ==> self.rows@[j].0@ != a@,
            decreases self.rows@.len() - i,
        {
            if self.rows[i].0 == *a {
                return Some(i);
            }
            i += 1;
        }
        None
    }

    /// Whether no account has two rows.
    pub fn rows_unique(&self) -> (r: bool)
        ensures
            r == self.wf(),
    {
        let n = self.rows.len();
        let mut i: usize = 0;
        while i < n
            invariant
                n == self.rows@.len(),
                i <= n,
                forall|a: int, b: int| 0 <= a < i && a < b < n ==> self.rows@[a].0@ != self.rows@[b].0@,
            decreases n - i,
        {
            let mut j: usize = i + 1;
            while j < n
                invariant
                    n == self.rows@.len(),
                    i < n,
                    i + 1 <= j <= n,
                    forall|a: int, b: int| 0 <= a < i && a < b < n ==> self.rows@[a].0@ != self.rows@[b].0@,
                    forall|b: int| i < b < j ==> self.rows@[i as int].0@ != self.rows@[b].0@,
                decreases n - j,
            {
                if self.rows[i].0 == self.rows[j].0 {
                    return false;
                }
                j += 1;
            }
            i += 1;
        }
        assert forall|a: int, b: int| 0 <= a < n && 0 <= b < n && a != b implies self.rows@[a].0@ != self.rows@[b].0@ by {
            if b < a {
                assert(self.rows@[b].0@ != self.rows@[a].0@);
            }
        }
        true
    }

    /// The sum of all balances where it fits in 128 bits.
    pub fn checked_total(&self) -> (r: Option<u128>)
        ensures
            match r {
                Some(t) => t == self.total(),
                None => self.total() > u128::MAX,
            },
    {
        let mut total: u128 = 0;
        let mut i: usize = 0;
        while i < self.rows.len()
            invariant
                i <= self.rows@.len(),
                total == sum_of(self.rows@.subrange(0, i as int)),
            decreases self.rows@.len() - i,
        {
            proof {
                let p = self.rows@.subrange(0, i + 1);
                assert(p.drop_last() =~= self.rows@.subrange(0, i as int));
            }
            match total.checked_add(self.rows[i].1) {
                Some(t) => {
                    total = t;
                },
                None => {
                    proof {
                        lemma_sum_prefix(self.rows@, i + 1);
                    }
                    return None;
                },
            }
            i += 1;
        }
        assert(self.rows@.subrange(0, i as int) =~= self.rows@);
        Some(total)
    }

    /// get: the balance of `a`, zero where it holds nothing. Never fails.
    pub fn get(&self, a: &String) -> (r: u128)
        requires
            self.wf(),
        ensures
            r == self.balance(a@),
    {
        match self.find(a) {
            Some(i) => {
                proof {
                    lemma_holding_at(self.rows@, i as int);
                }
                self.rows[i].1
            },
            None => {
                proof {
                    lemma_holding_absent(self.rows@, a@);
                }
                0
            },
        }
    }

    /// Every balance is at most the sum of all balances.
    pub proof fn lemma_balance_le_total(&self, a: Seq<char>)
        ensures
            self.balance(a) <= self.total(),
    {
        lemma_holding_le_sum(self.rows@, a);
    }

    /// set: the balance of `a` becomes `v`; the others stay.
    pub fn set(&mut self, a: &String, v: u128)
        requires
            old(self).wf(),
        ensures
            final(self).wf(),
            old(self).set_to(final(self), a@, v as nat),
            final(self).total() + old(self).balance(a@) == old(self).total() + v,
    {
        match self.find(a) {
            Some(i) => {
                proof {
                    lemma_holding_at(self.rows@, i as int);
                    lemma_update(self.rows@, i as int, v);
                }
                let key = self.rows[i].0.clone();
                self.rows.set(i, (key, v));
                assert(forall|j: int| 0 <= j < self.rows@.len() ==> #[trigger] self.rows@[j].0@ == old(self).rows@[j].0@);
            },
            None => {
                proof {
                    lemma_holding_absent(self.rows@, a@);
                }
                let row = (a.clone(), v);
                proof {
                    lemma_push(self.rows@, row);
                }
                self.rows.push(row);
            },
        }
    }

    /// add: credits `amount` to `a`; fails on overflow and then changes nothing.
    pub fn add(&mut self, a: &String, amount: u128) -> (r: Result<(), ContractError>)
        requires
            old(self).wf(),
        ensures
            final(self).wf(),
            r is Ok <==> old(self).balance(a@) + amount <= u128::MAX,
            r is Err ==> r == Err::<(), ContractError>(ContractError::ArithmeticOverflow)
                && *final(self) == *old(self),
            r is Ok ==> old(self).set_to(final(self), a@, (old(self).balance(a@) + amount) as nat)
                && final(self).total() == old(self).total() + amount,
    {
        let cur = self.get(a);
        match cur.checked_add(amount) {
            Some(v) => {
                self.set(a, v);
                Ok(())
            },
            None => Err(ContractError::ArithmeticOverflow),
        }
    }

    /// sub: debits `amount` from `a`; fails with `InsufficientFunds` when `a`
    /// holds less, and then changes nothing.
    pub fn sub(&mut self, a: &String, amount: u128) -> (r: Result<(), ContractError>)
        requires
            old(self).wf(),
        ensures
            final(self).wf(),
            r is Ok <==> amount <= old(self).balance(a@),
            r is Err ==> r == Err::<(), ContractError>(ContractError::InsufficientFunds)
                && *final(self) == *old(self),
            r is Ok ==> old(self).set_to(final(self), a@, (old(self).balance(a@) - amount) as nat)
                && final(self).total() + amount == old(self).total(),
    {
        let cur = self.get(a);
        if amount > cur {
            return Err(ContractError::InsufficientFunds);
        }
        self.set(a, cur - amount);
        Ok(())
    }
}

} // verus!

verus! {

/// A prefix of the rows sums to at most the whole.
pub proof fn lemma_sum_prefix(rows: Seq<(String, u128)>, k: int)
    requires
        0 <= k <= rows.len(),
    ensures
        sum_of(rows.subrange(0, k)) <= sum_of(rows),
    decreases rows.len(),
{
    if k == rows.len() {
        assert(rows.subrange(0, k) =~= rows);
    } else {
        let pre = rows.drop_last();
        assert(rows.subrange(0, k) =~= pre.subrange(0, k));
        lemma_sum_prefix(pre, k);
    }
}

} // verus!
