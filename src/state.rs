use vstd::prelude::*;

use crate::constants::MAX_GROUP_USERS;
use crate::error::ErrorCode;
use crate::key::Key;

verus! {

/// One member of a group: what the member is owed (positive) or owes (negative),
/// and whether the member has approved their membership.
#[derive(Clone, Copy, Debug)]
pub struct UserBalance {
    pub user: Key,
    pub balance: i64,
    pub approved: bool,
}

/// An expense-sharing group. The member at position 0 of `balances` is the admin.
pub struct Group {
    pub currency: Key,
    pub escrow: Key,
    pub balances: Vec<UserBalance>,
}

/// `i` is the position of `user` in `bals`.
pub open spec fn slot_of(bals: Seq<UserBalance>, user: Seq<u8>, i: int) -> bool {
    0 <= i < bals.len() && bals[i].user@ == user
}

pub open spec fn is_member(bals: Seq<UserBalance>, user: Seq<u8>) -> bool {
    exists|i: int| slot_of(bals, user, i)
}

/// The position of a member (meaningful only when `is_member` holds).
pub open spec fn position(bals: Seq<UserBalance>, user: Seq<u8>) -> int {
    choose|i: int| slot_of(bals, user, i)
}

pub open spec fn distinct_users(bals: Seq<UserBalance>) -> bool {
    forall|i: int, j: int|
        0 <= i < bals.len() && 0 <= j < bals.len() && i != j ==> bals[i].user@ != bals[j].user@
}

/// A ledger holds at most `MAX_GROUP_USERS` entries, with no member twice.
pub open spec fn ledger_wf(bals: Seq<UserBalance>) -> bool {
    bals.len() <= MAX_GROUP_USERS && distinct_users(bals)
}

pub open spec fn balance_of(bals: Seq<UserBalance>, user: Seq<u8>) -> Option<i64> {
    if is_member(bals, user) {
        Some(bals[position(bals, user)].balance)
    } else {
        None
    }
}

pub open spec fn admin_of(bals: Seq<UserBalance>) -> Option<Key> {
    if bals.len() > 0 {
        Some(bals[0].user)
    } else {
        None
    }
}

/// Admitting `user` with an opening `balance`, unapproved, at the end of the ledger.
pub open spec fn ledger_add(bals: Seq<UserBalance>, user: Key, balance: i64) -> Result<
    Seq<UserBalance>,
    ErrorCode,
> {
    if bals.len() >= MAX_GROUP_USERS {
        Err(ErrorCode::GroupAtCapacity)
    } else if is_member(bals, user@) {
        Err(ErrorCode::UserAlreadyExists)
    } else {
        Ok(bals.push(UserBalance { user, balance, approved: false }))
    }
}

/// Marking `user` as approved.
pub open spec fn ledger_approve(bals: Seq<UserBalance>, user: Seq<u8>) -> Result<
    Seq<UserBalance>,
    ErrorCode,
> {
    if !is_member(bals, user) {
        Err(ErrorCode::UserDoesNotExist)
    } else {
        let i = position(bals, user);
        Ok(bals.update(i, UserBalance { user: bals[i].user, balance: bals[i].balance, approved: true }))
    }
}

/// Removing `user`, who must not be the admin and must be settled to exactly zero.
pub open spec fn ledger_remove(bals: Seq<UserBalance>, user: Seq<u8>) -> Result<
    Seq<UserBalance>,
    ErrorCode,
> {
    if !is_member(bals, user) {
        Err(ErrorCode::UserDoesNotExist)
    } else if position(bals, user) == 0 {
        Err(ErrorCode::CannotRemoveAdmin)
    } else if bals[position(bals, user)].balance != 0 {
        Err(ErrorCode::UserBalanceNonZero)
    } else {
        Ok(bals.remove(position(bals, user)))
    }
}

/// Exchanging the admin's entry with the entry of an approved `user`.
pub open spec fn ledger_transfer_admin(bals: Seq<UserBalance>, user: Seq<u8>) -> Result<
    Seq<UserBalance>,
    ErrorCode,
> {
    if !is_member(bals, user) {
        Err(ErrorCode::UserDoesNotExist)
    } else if position(bals, user) == 0 {
        Err(ErrorCode::AlreadyAdmin)
    } else if !bals[position(bals, user)].approved {
        Err(ErrorCode::UserNotApproved)
    } else {
        let i = position(bals, user);
        Ok(bals.update(0, bals[i]).update(i, bals[0]))
    }
}

/// Adding `amount` to the balance of an approved `user`, within the range of `i64`.
pub open spec fn ledger_change(bals: Seq<UserBalance>, user: Seq<u8>, amount: int) -> Result<
    Seq<UserBalance>,
    ErrorCode,
> {
    if !is_member(bals, user) {
        Err(ErrorCode::UserDoesNotExist)
    } else if !bals[position(bals, user)].approved {
        Err(ErrorCode::UserNotApproved)
    } else if bals[position(bals, user)].balance + amount > i64::MAX
        || bals[position(bals, user)].balance + amount < i64::MIN {
        Err(ErrorCode::AmountOverflow)
    } else {
        let i = position(bals, user);
        Ok(
            bals.update(
                i,
                UserBalance {
                    user: bals[i].user,
                    balance: (bals[i].balance + amount) as i64,
                    approved: true,
                },
            ),
        )
    }
}

/// `after` is `expected` when it is a ledger, and `before` when it is an error,
/// and `r` reports which.
pub open spec fn applied(
    r: Result<(), ErrorCode>,
    before: Seq<UserBalance>,
    after: Seq<UserBalance>,
    expected: Result<Seq<UserBalance>, ErrorCode>,
) -> bool {
    match expected {
        Ok(s) => r is Ok && after == s,
        Err(e) => r == Err::<(), ErrorCode>(e) && after == before,
    }
}

/// A member's position is the one position that holds the member.
pub proof fn lemma_position_unique(bals: Seq<UserBalance>, user: Seq<u8>, i: int)
    requires
        distinct_users(bals),
        slot_of(bals, user, i),
    ensures
        is_member(bals, user),
        position(bals, user) == i,
{
    let j = position(bals, user);
    assert(slot_of(bals, user, j));
}

/// Admitting a member keeps a ledger well formed, so never above `MAX_GROUP_USERS` entries.
pub proof fn lemma_add_keeps_ledger_wf(bals: Seq<UserBalance>, user: Key, balance: i64)
    requires
        ledger_wf(bals),
    ensures
        ledger_add(bals, user, balance) matches Ok(s) ==> ledger_wf(s) && s.len()
            <= MAX_GROUP_USERS,
{
    if let Ok(s) = ledger_add(bals, user, balance) {
        assert forall|i: int, j: int|
            0 <= i < s.len() && 0 <= j < s.len() && i != j implies s[i].user@ != s[j].user@ by {
            if i == s.len() - 1 {
                assert(!slot_of(bals, user@, j));
            } else if j == s.len() - 1 {
                assert(!slot_of(bals, user@, i));
            }
        }
    }
}

/// Removing a member keeps a ledger well formed, so never above `MAX_GROUP_USERS` entries.
pub proof fn lemma_remove_keeps_ledger_wf(bals: Seq<UserBalance>, user: Seq<u8>)
    requires
        ledger_wf(bals),
    ensures
        ledger_remove(bals, user) matches Ok(s) ==> ledger_wf(s) && s.len() <= MAX_GROUP_USERS,
{
    if let Ok(s) = ledger_remove(bals, user) {
        let p = position(bals, user);
        bals.remove_ensures(p);
        assert forall|a: int, b: int|
            0 <= a < s.len() && 0 <= b < s.len() && a != b implies s[a].user@ != s[b].user@ by {
            let oa = if a < p { a } else { a + 1 };
            let ob = if b < p { b } else { b + 1 };
            assert(s[a] == bals[oa]);
            assert(s[b] == bals[ob]);
        }
    }
}

impl Group {
    pub open spec fn wf(&self) -> bool {
        ledger_wf(self.balances@)
    }

    /// Whether the group holds at most `MAX_GROUP_USERS` members, none twice.
    pub fn is_well_formed(&self) -> (r: bool)
        ensures
            r == self.wf(),
    {
        let n = self.balances.len();
        if n > MAX_GROUP_USERS {
            return false;
        }
        let mut i: usize = 0;
        while i < n
            invariant
                n == self.balances@.len(),
                i <= n,
                forall|a: int, b: int|
                    0 <= a < i && 0 <= b < n && a != b ==> self.balances@[a].user@
                        != self.balances@[b].user@,
            decreases n - i,
        {
            let mut j: usize = 0;
            while j < n
                invariant
                    n == self.balances@.len(),
                    i < n,
                    j <= n,
                    forall|a: int, b: int|
                        0 <= a < i && 0 <= b < n && a != b ==> self.balances@[a].user@
                            != self.balances@[b].user@,
                    forall|b: int|
                        0 <= b < j && b != i ==> self.balances@[i as int].user@
                            != self.balances@[b].user@,
                decreases n - j,
            {
                if j != i && self.balances[i].user == self.balances[j].user {
                    return false;
                }
                j = j + 1;
            }
            i = i + 1;
        }
        true
    }

    /// A copy of the ledger entries.
    pub(crate) fn copy_balances(&self) -> (r: Vec<UserBalance>)
        ensures
            r@ == self.balances@,
    {
        let mut r: Vec<UserBalance> = Vec::with_capacity(self.balances.len());
        let mut i: usize = 0;
        while i < self.balances.len()
            invariant
                i <= self.balances@.len(),
                r@ == self.balances@.subrange(0, i as int),
            decreases self.balances@.len() - i,
        {
            r.push(self.balances[i]);
            i = i + 1;
        }
        assert(r@ =~= self.balances@);
        r
    }

    /// The position of `user`, if a member.
    fn find(&self, user: &Key) -> (r: Option<usize>)
        requires
            self.wf(),
        ensures
            match r {
                Some(i) => slot_of(self.balances@, user@, i as int) && position(
                    self.balances@,
                    user@,
                ) == i,
                None => !is_member(self.balances@, user@),
            },
    {
        let mut i: usize = 0;
        while i < self.balances.len()
            invariant
                self.wf(),
                i <= self.balances@.len(),
                forall|j: int| 0 <= j < i ==> self.balances@[j].user@ != user@,
            decreases self.balances@.len() - i,
        {
            if self.balances[i].user == *user {
                proof {
                    lemma_position_unique(self.balances@, user@, i as int);
                }
                return Some(i);
            }
            i = i + 1;
        }
        None
    }

    pub fn add_balance(&mut self, user: Key, balance: i64) -> (r: Result<(), ErrorCode>)
        requires
            old(self).wf(),
        ensures
            final(self).wf(),
            final(self).currency == old(self).currency,
            final(self).escrow == old(self).escrow,
            applied(
                r,
                old(self).balances@,
                final(self).balances@,
                ledger_add(old(self).balances@, user, balance),
            ),
    {
        if self.balances.len() >= MAX_GROUP_USERS {
            return Err(ErrorCode::GroupAtCapacity);
        }
        if self.find(&user).is_some() {
            return Err(ErrorCode::UserAlreadyExists);
        }
        proof {
            lemma_add_keeps_ledger_wf(old(self).balances@, user, balance);
        }
        self.balances.push(UserBalance { user, balance, approved: false });
        Ok(())
    }

    pub fn approve_balance(&mut self, user: Key) -> (r: Result<(), ErrorCode>)
        requires
            old(self).wf(),
        ensures
            final(self).wf(),
            final(self).currency == old(self).currency,
            final(self).escrow == old(self).escrow,
            applied(
                r,
                old(self).balances@,
                final(self).balances@,
                ledger_approve(old(self).balances@, user@),
            ),
    {
        match self.find(&user) {
            None => Err(ErrorCode::UserDoesNotExist),
            Some(i) => {
                let b = self.balances[i];
                self.balances[i] = UserBalance { user: b.user, balance: b.balance, approved: true };
                Ok(())
            },
        }
    }

    pub fn get_balance(&self, user: Key) -> (r: Option<i64>)
        requires
            self.wf(),
        ensures
            r == balance_of(self.balances@, user@),
    {
        match self.find(&user) {
            None => None,
            Some(i) => Some(self.balances[i].balance),
        }
    }

    pub fn remove_balance(&mut self, user: Key) -> (r: Result<(), ErrorCode>)
        requires
            old(self).wf(),
        ensures
            final(self).wf(),
            final(self).currency == old(self).currency,
            final(self).escrow == old(self).escrow,
            applied(
                r,
                old(self).balances@,
                final(self).balances@,
                ledger_remove(old(self).balances@, user@),
            ),
    {
        let i = match self.find(&user) {
            None => {
                return Err(ErrorCode::UserDoesNotExist);
            },
            Some(i) => i,
        };
        if i == 0 {
            return Err(ErrorCode::CannotRemoveAdmin);
        }
        if self.balances[i].balance != 0 {
            return Err(ErrorCode::UserBalanceNonZero);
        }
        proof {
            lemma_remove_keeps_ledger_wf(old(self).balances@, user@);
        }
        self.balances.remove(i);
        Ok(())
    }

    pub fn get_admin(&self) -> (r: Option<Key>)
        ensures
            r == admin_of(self.balances@),
    {
        if self.balances.len() > 0 {
            Some(self.balances[0].user)
        } else {
            None
        }
    }

    pub fn transfer_admin(&mut self, user: Key) -> (r: Result<(), ErrorCode>)
        requires
            old(self).wf(),
        ensures
            final(self).wf(),
            final(self).currency == old(self).currency,
            final(self).escrow == old(self).escrow,
            applied(
                r,
                old(self).balances@,
                final(self).balances@,
                ledger_transfer_admin(old(self).balances@, user@),
            ),
    {
        let i = match self.find(&user) {
            None => {
                return Err(ErrorCode::UserDoesNotExist);
            },
            Some(i) => i,
        };
        if i == 0 {
            return Err(ErrorCode::AlreadyAdmin);
        }
        if !self.balances[i].approved {
            return Err(ErrorCode::UserNotApproved);
        }
        let first = self.balances[0];
        let chosen = self.balances[i];
        self.balances[0] = chosen;
        self.balances[i] = first;
        proof {
            let o = old(self).balances@;
            let s = self.balances@;
            assert forall|a: int, b: int|
                0 <= a < s.len() && 0 <= b < s.len() && a != b implies s[a].user@ != s[b].user@ by {
                let oa = if a == 0 { i as int } else if a == i { 0 } else { a };
                let ob = if b == 0 { i as int } else if b == i { 0 } else { b };
                assert(s[a] == o[oa]);
                assert(s[b] == o[ob]);
            }
        }
        Ok(())
    }

    /// Where `amount` can be added to the balance of `user`, the position of `user`
    /// and the new balance.
    pub(crate) fn balance_after(&self, user: &Key, amount: i64) -> (r: Result<
        (usize, i64),
        ErrorCode,
    >)
        requires
            self.wf(),
        ensures
            r is Ok <==> ledger_change(self.balances@, user@, amount as int) is Ok,
            r matches Err(e) ==> ledger_change(self.balances@, user@, amount as int) == Err::<Seq<UserBalance>, ErrorCode>(e),
            r matches Ok((i, b)) ==> slot_of(self.balances@, user@, i as int) && position(
                self.balances@,
                user@,
            ) == i && b == self.balances@[i as int].balance + amount,
    {
        let i = match self.find(user) {
            None => {
                return Err(ErrorCode::UserDoesNotExist);
            },
            Some(i) => i,
        };
        if !self.balances[i].approved {
            return Err(ErrorCode::UserNotApproved);
        }
        match self.balances[i].balance.checked_add(amount) {
            None => Err(ErrorCode::AmountOverflow),
            Some(b) => Ok((i, b)),
        }
    }

    pub fn change_balance(&mut self, user: Key, amount: i64) -> (r: Result<(), ErrorCode>)
        requires
            old(self).wf(),
        ensures
            final(self).wf(),
            final(self).currency == old(self).currency,
            final(self).escrow == old(self).escrow,
            applied(
                r,
                old(self).balances@,
                final(self).balances@,
                ledger_change(old(self).balances@, user@, amount as int),
            ),
    {
        match self.balance_after(&user, amount) {
            Err(e) => Err(e),
            Ok((i, b)) => {
                let entry = self.balances[i];
                self.balances[i] = UserBalance { user: entry.user, balance: b, approved: true };
                Ok(())
            },
        }
    }
}

} // verus!
