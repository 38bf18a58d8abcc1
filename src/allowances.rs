use vstd::prelude::*;
use crate::error::ContractError;
use crate::expiration::{BlockInfo, Expiration};

verus! {

/// What a spender may still take from an owner, and until when.
#[derive(Clone, Copy, Debug, PartialEq, Eq, Structural)]
pub struct Allowance {
    pub allowance: u128,
    pub expires: Expiration,
}

/// One row of the allowance table.
pub struct AllowanceRow {
    pub owner: String,
    pub spender: String,
    pub grant: Allowance,
}

pub open spec fn row_is(r: AllowanceRow, o: Seq<char>, s: Seq<char>) -> bool {
    r.owner@ == o && r.spender@ == s
}

/// The grant of `o` to `s` according to the rows, if any.
pub open spec fn grant_of(rows: Seq<AllowanceRow>, o: Seq<char>, s: Seq<char>) -> Option<Allowance>
    decreases rows.len(),
{
    if rows.len() == 0 {
        None
    } else if row_is(rows.last(), o, s) {
        Some(rows.last().grant)
    } else {
        grant_of(rows.drop_last(), o, s)
    }
}

pub open spec fn pairs_unique(rows: Seq<AllowanceRow>) -> bool {
    forall|i: int, j: int|
        0 <= i < rows.len() && 0 <= j < rows.len() && i != j ==> !row_is(
            rows[j],
            rows[i].owner@,
            rows[i].spender@,
        )
}

pub proof fn lemma_grant_absent(rows: Seq<AllowanceRow>, o: Seq<char>, s: Seq<char>)
    requires
        forall|i: int| 0 <= i < rows.len() ==> !row_is(rows[i], o, s),
    ensures
        grant_of(rows, o, s) is None,
    decreases rows.len(),
{
    if rows.len() > 0 {
        lemma_grant_absent(rows.drop_last(), o, s);
    }
}

pub proof fn lemma_grant_at(rows: Seq<AllowanceRow>, i: int)
    requires
        pairs_unique(rows),
        0 <= i < rows.len(),
    ensures
        grant_of(rows, rows[i].owner@, rows[i].spender@) == Some(rows[i].grant),
    decreases rows.len(),
{
    let pre = rows.drop_last();
    if i < rows.len() - 1 {
        assert(rows[i] == pre[i]);
        assert(!row_is(rows.last(), rows[i].owner@, rows[i].spender@));
        lemma_grant_at(pre, i);
    }
}

/// Replacing row `i` by a row of the same pair changes that pair's grant only.
pub proof fn lemma_grant_update(rows: Seq<AllowanceRow>, i: int, e: AllowanceRow)
    requires
        pairs_unique(rows),
        0 <= i < rows.len(),
        e.owner@ == rows[i].owner@,
        e.spender@ == rows[i].spender@,
    ensures
        pairs_unique(rows.update(i, e)),
        forall|o: Seq<char>, s: Seq<char>|
            #[trigger] grant_of(rows.update(i, e), o, s) == if row_is(e, o, s) {
                Some(e.grant)
            } else {
                grant_of(rows, o, s)
            },
    decreases rows.len(),
{
    let next = rows.update(i, e);
    let pre = rows.drop_last();
    assert forall|a: int, b: int|
        0 <= a < next.len() && 0 <= b < next.len() && a != b implies !row_is(
            next[b],
            next[a].owner@,
            next[a].spender@,
        ) by {
        assert(!row_is(rows[b], rows[a].owner@, rows[a].spender@));
    }
    if i == rows.len() - 1 {
        assert(next.drop_last() =~= pre);
        assert(next.last() == e);
        assert forall|o: Seq<char>, s: Seq<char>|
            #[trigger] grant_of(next, o, s) == if row_is(e, o, s) {
                Some(e.grant)
            } else {
                grant_of(rows, o, s)
            } by {
            assert(row_is(rows.last(), o, s) == row_is(e, o, s));
        }
    } else {
        assert(pre[i] == rows[i]);
        lemma_grant_update(pre, i, e);
        assert(next.drop_last() =~= pre.update(i, e));
        assert(next.last() == rows.last());
        assert(!row_is(rows.last(), rows[i].owner@, rows[i].spender@));
        assert forall|o: Seq<char>, s: Seq<char>|
            #[trigger] grant_of(next, o, s) == if row_is(e, o, s) {
                Some(e.grant)
            } else {
                grant_of(rows, o, s)
            } by {
            assert(grant_of(pre.update(i, e), o, s) == if row_is(e, o, s) {
                Some(e.grant)
            } else {
                grant_of(pre, o, s)
            });
        }
    }
}

pub proof fn lemma_grant_push(rows: Seq<AllowanceRow>, e: AllowanceRow)
    requires
        pairs_unique(rows),
        forall|i: int| 0 <= i < rows.len() ==> !row_is(rows[i], e.owner@, e.spender@),
    ensures
        pairs_unique(rows.push(e)),
        forall|o: Seq<char>, s: Seq<char>|
            #[trigger] grant_of(rows.push(e), o, s) == if row_is(e, o, s) {
                Some(e.grant)
            } else {
                grant_of(rows, o, s)
            },
{
    assert(rows.push(e).drop_last() =~= rows);
}

pub proof fn lemma_grant_remove(rows: Seq<AllowanceRow>, i: int)
    requires
        pairs_unique(rows),
        0 <= i < rows.len(),
    ensures
        pairs_unique(rows.remove(i)),
        forall|o: Seq<char>, s: Seq<char>|
            #[trigger] grant_of(rows.remove(i), o, s) == if row_is(rows[i], o, s) {
                None
            } else {
                grant_of(rows, o, s)
            },
    decreases rows.len(),
{
    let next = rows.remove(i);
    let pre = rows.drop_last();
    assert forall|a: int, b: int|
        0 <= a < next.len() && 0 <= b < next.len() && a != b implies !row_is(
            next[b],
            next[a].owner@,
            next[a].spender@,
        ) by {
        let a2 = if a < i { a } else { a + 1 };
        let b2 = if b < i { b } else { b + 1 };
        assert(next[a] == rows[a2]);
        assert(next[b] == rows[b2]);
    }
    if i == rows.len() - 1 {
        assert(next =~= pre);
        assert(rows.last() == rows[i]);
        assert forall|o: Seq<char>, s: Seq<char>|
            #[trigger] grant_of(next, o, s) == if row_is(rows[i], o, s) {
                None
            } else {
                grant_of(rows, o, s)
            } by {
            if row_is(rows[i], o, s) {
                assert forall|k: int| 0 <= k < pre.len() implies !row_is(pre[k], o, s) by {
                    assert(pre[k] == rows[k]);
                    assert(!row_is(rows[k], rows[i].owner@, rows[i].spender@));
                }
                lemma_grant_absent(pre, o, s);
            } else {
                assert(grant_of(rows, o, s) == grant_of(pre, o, s));
            }
        }
    } else {
        assert(pre[i] == rows[i]);
        lemma_grant_remove(pre, i);
        assert(next.drop_last() =~= pre.remove(i));
        assert(next.last() == rows.last());
        assert(!row_is(rows.last(), rows[i].owner@, rows[i].spender@));
        assert forall|o: Seq<char>, s: Seq<char>|
            #[trigger] grant_of(next, o, s) == if row_is(rows[i], o, s) {
                None
            } else {
                grant_of(rows, o, s)
            } by {
            assert(grant_of(pre.remove(i), o, s) == if row_is(pre[i], o, s) {
                None
            } else {
                grant_of(pre, o, s)
            });
        }
    }
}

/// The allowance table: at most one row per (owner, spender) pair.
pub struct AllowanceStore {
    pub rows: Vec<AllowanceRow>,
}

impl AllowanceStore {
    pub open spec fn wf(&self) -> bool {
        pairs_unique(self.rows@)
    }

    /// The grant of `o` to `s`, if there is one.
    pub open spec fn grant(&self, o: Seq<char>, s: Seq<char>) -> Option<Allowance> {
        grant_of(self.rows@, o, s)
    }

    /// The grants of `next` are those of `self` with the grant of `o` to `s`
    /// replaced by `g` (`None`: removed).
    pub open spec fn replaced(&self, next: &AllowanceStore, o: Seq<char>, s: Seq<char>, g: Option<Allowance>) -> bool {
        &&& next.grant(o, s) == g
        &&& forall|o2: Seq<char>, s2: Seq<char>|
            !(o2 == o && s2 == s) ==> #[trigger] next.grant(o2, s2) == self.grant(o2, s2)
    }

    /// The grant of `o` to `s`, or zero that never expires where there is none.
    pub open spec fn grant_or_default(&self, o: Seq<char>, s: Seq<char>) -> Allowance {
        match self.grant(o, s) {
            Some(g) => g,
            None => Allowance { allowance: 0, expires: Expiration::Never },
        }
    }

    /// Whether increasing the grant of `o` to `s` by `amount` fits in 128 bits.
    pub open spec fn increase_fits(&self, o: Seq<char>, s: Seq<char>, amount: u128) -> bool {
        self.grant_or_default(o, s).allowance + amount <= u128::MAX
    }

    /// The grant of `o` to `s` after an increase by `amount`.
    pub open spec fn increased(&self, o: Seq<char>, s: Seq<char>, amount: u128, expires: Option<Expiration>) -> Allowance {
        let g = self.grant_or_default(o, s);
        Allowance {
            allowance: (g.allowance + amount) as u128,
            expires: match expires {
                Some(e) => e,
                None => g.expires,
            },
        }
    }

    /// The grant of `o` to `s` after a decrease by `amount`: gone where it
    /// would reach zero or less.
    pub open spec fn decreased(&self, o: Seq<char>, s: Seq<char>, amount: u128, expires: Option<Expiration>) -> Option<Allowance> {
        let g = self.grant_or_default(o, s);
        if amount < g.allowance {
            Some(
                Allowance {
                    allowance: (g.allowance - amount) as u128,
                    expires: match expires {
                        Some(e) => e,
                        None => g.expires,
                    },
                },
            )
        } else {
            None
        }
    }

    /// The grant of `o` to `s` after a spend of `amount`.
    pub open spec fn spent(&self, o: Seq<char>, s: Seq<char>, amount: u128) -> Allowance {
        let g = self.grant_or_default(o, s);
        Allowance { allowance: (g.allowance - amount) as u128, expires: g.expires }
    }

    pub fn new() -> (r: AllowanceStore)
        ensures
            r.wf(),
            forall|o: Seq<char>, s: Seq<char>| #[trigger] r.grant(o, s) is None,
    {
        AllowanceStore { rows: Vec::new() }
    }

    fn find(&self, o: &String, s: &String) -> (r: Option<usize>)
        ensures
            match r {
                Some(i) => i < self.rows@.len() && row_is(self.rows@[i as int], o@, s@),
                None => forall|i: int| 0 <= i < self.rows@.len() ==> !row_is(self.rows@[i], o@, s@),
            },
    {
        let mut i: usize = 0;
        while i < self.rows.len()
            invariant
                i <= self.rows@.len(),
                forall|j: int| 0 <= j < i ==> !row_is(self.rows@[j], o@, s@),
            decreases self.rows@.len() - i,
        {
            if self.rows[i].owner == *o && self.rows[i].spender == *s {
                return Some(i);
            }
            i += 1;
        }
        None
    }

    /// Whether no (owner, spender) pair has two rows.
    pub fn rows_unique(&self) -> (r: bool)
        ensures
            r == self.wf(),
    {
        let n = self.rows.len();
        let mut i: usize = 0;
        while i < n
            invariant
                n == self.rows@.len(),
                i <= n,
                forall|a: int, b: int| 0 <= a < i && a < b < n ==> !row_is(self.rows@[b], self.rows@[a].owner@, self.rows@[a].spender@),
            decreases n - i,
        {
            let mut j: usize = i + 1;
            while j < n
                invariant
                    n == self.rows@.len(),
                    i < n,
                    i + 1 <= j <= n,
                    forall|a: int, b: int| 0 <= a < i && a < b < n ==> !row_is(self.rows@[b], self.rows@[a].owner@, self.rows@[a].spender@),
                    forall|b: int| i < b < j ==> !row_is(self.rows@[b], self.rows@[i as int].owner@, self.rows@[i as int].spender@),
                decreases n - j,
            {
                if self.rows[i].owner == self.rows[j].owner && self.rows[i].spender == self.rows[j].spender {
                    assert(row_is(self.rows@[j as int], self.rows@[i as int].owner@, self.rows@[i as int].spender@));
                    return false;
                }
                j += 1;
            }
            i += 1;
        }
        assert forall|a: int, b: int| 0 <= a < n && 0 <= b < n && a != b implies !row_is(self.rows@[b], self.rows@[a].owner@, self.rows@[a].spender@) by {
            if b < a {
                assert(!row_is(self.rows@[a], self.rows@[b].owner@, self.rows@[b].spender@));
            }
        }
        true
    }

    /// The grant of `o` to `s`, if there is one.
    pub fn get(&self, o: &String, s: &String) -> (r: Option<Allowance>)
        requires
            self.wf(),
        ensures
            r == self.grant(o@, s@),
    {
        match self.find(o, s) {
            Some(i) => {
                proof {
                    lemma_grant_at(self.rows@, i as int);
                }
                Some(self.rows[i].grant)
            },
            None => {
                proof {
                    lemma_grant_absent(self.rows@, o@, s@);
                }
                None
            },
        }
    }

    /// Sets the grant of `o` to `s` to `g`, or removes it where `g` is `None`.
    pub fn put(&mut self, o: &String, s: &String, g: Option<Allowance>)
        requires
            old(self).wf(),
        ensures
            final(self).wf(),
            old(self).replaced(final(self), o@, s@, g),
    {
        match self.find(o, s) {
            Some(i) => {
                match g {
                    Some(grant) => {
                        let row = AllowanceRow {
                            owner: self.rows[i].owner.clone(),
                            spender: self.rows[i].spender.clone(),
                            grant,
                        };
                        proof {
                            lemma_grant_update(self.rows@, i as int, row);
                        }
                        self.rows.set(i, row);
                    },
                    None => {
                        proof {
                            lemma_grant_remove(self.rows@, i as int);
                        }
                        self.rows.remove(i);
                    },
                }
            },
            None => {
                proof {
                    lemma_grant_absent(self.rows@, o@, s@);
                }
                match g {
                    Some(grant) => {
                        let row = AllowanceRow { owner: o.clone(), spender: s.clone(), grant };
                        proof {
                            lemma_grant_push(self.rows@, row);
                        }
                        self.rows.push(row);
                    },
                    None => {},
                }
            },
        }
    }

    /// increase: adds `amount` to the grant of `o` to `s` (from zero where
    /// there is none) and replaces its expiration where one is given. Fails
    /// on overflow and then changes nothing.
    pub fn increase(&mut self, o: &String, s: &String, amount: u128, expires: Option<Expiration>) -> (r: Result<(), ContractError>)
        requires
            old(self).wf(),
        ensures
            final(self).wf(),
            r is Ok <==> old(self).increase_fits(o@, s@, amount),
            r is Err ==> r == Err::<(), ContractError>(ContractError::ArithmeticOverflow)
                && *final(self) == *old(self),
            r is Ok ==> old(self).replaced(final(self), o@, s@, Some(old(self).increased(o@, s@, amount, expires))),
    {
        let cur = match self.get(o, s) {
            Some(g) => g,
            None => Allowance { allowance: 0, expires: Expiration::Never },
        };
        match cur.allowance.checked_add(amount) {
            Some(v) => {
                let exp = match expires {
                    Some(e) => e,
                    None => cur.expires,
                };
                self.put(o, s, Some(Allowance { allowance: v, expires: exp }));
                Ok(())
            },
            None => Err(ContractError::ArithmeticOverflow),
        }
    }

    /// decrease: lowers the grant of `o` to `s` by `amount`, replacing its
    /// expiration where one is given; a grant that would reach zero or less is
    /// removed. Fails with `NoAllowance` where there is no grant.
    pub fn decrease(&mut self, o: &String, s: &String, amount: u128, expires: Option<Expiration>) -> (r: Result<(), ContractError>)
        requires
            old(self).wf(),
        ensures
            final(self).wf(),
            r is Ok <==> old(self).grant(o@, s@) is Some,
            r is Err ==> r == Err::<(), ContractError>(ContractError::NoAllowance)
                && *final(self) == *old(self),
            r is Ok ==> old(self).replaced(final(self), o@, s@, old(self).decreased(o@, s@, amount, expires)),
    {
        match self.get(o, s) {
            None => Err(ContractError::NoAllowance),
            Some(g) => {
                if amount < g.allowance {
                    let exp = match expires {
                        Some(e) => e,
                        None => g.expires,
                    };
                    self.put(o, s, Some(Allowance { allowance: g.allowance - amount, expires: exp }));
                } else {
                    self.put(o, s, None);
                }
                Ok(())
            },
        }
    }

    /// Whether a spend of `amount` by `s` from `o` succeeds at `block`, and
    /// with which error it fails.
    pub open spec fn spend_outcome(&self, o: Seq<char>, s: Seq<char>, amount: u128, block: BlockInfo) -> Result<(), ContractError> {
        match self.grant(o, s) {
            None => Err(ContractError::NoAllowance),
            Some(g) => if g.expires.spec_is_expired(block) {
                Err(ContractError::Expired)
            } else if amount > g.allowance {
                Err(ContractError::InsufficientAllowance)
            } else {
                Ok(())
            },
        }
    }

    /// Tells, without changing anything, how a spend would end.
    pub fn check_spend(&self, o: &String, s: &String, amount: u128, block: &BlockInfo) -> (r: Result<(), ContractError>)
        requires
            self.wf(),
        ensures
            r == self.spend_outcome(o@, s@, amount, *block),
    {
        match self.get(o, s) {
            None => Err(ContractError::NoAllowance),
            Some(g) => {
                if g.expires.is_expired(block) {
                    Err(ContractError::Expired)
                } else if amount > g.allowance {
                    Err(ContractError::InsufficientAllowance)
                } else {
                    Ok(())
                }
            },
        }
    }

    /// spend: takes `amount` from the grant of `o` to `s`. Fails with
    /// `NoAllowance` where there is none, `Expired` past its expiration,
    /// `InsufficientAllowance` where it is smaller; a failure changes nothing.
    pub fn spend(&mut self, o: &String, s: &String, amount: u128, block: &BlockInfo) -> (r: Result<(), ContractError>)
        requires
            old(self).wf(),
        ensures
            final(self).wf(),
            r == old(self).spend_outcome(o@, s@, amount, *block),
            r is Err ==> *final(self) == *old(self),
            r is Ok ==> old(self).replaced(final(self), o@, s@, Some(old(self).spent(o@, s@, amount))),
    {
        match self.get(o, s) {
            None => Err(ContractError::NoAllowance),
            Some(g) => {
                if g.expires.is_expired(block) {
                    return Err(ContractError::Expired);
                }
                if amount > g.allowance {
                    return Err(ContractError::InsufficientAllowance);
                }
                self.put(o, s, Some(Allowance { allowance: g.allowance - amount, expires: g.expires }));
                Ok(())
            },
        }
    }
}

} // verus!
