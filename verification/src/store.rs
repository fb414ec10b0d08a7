//! The persistence store as the service sees it: inserts that a uniqueness
//! constraint may reject, and a query by token.

use vstd::prelude::*;
use vstd::string::StringExecFns;
use crate::errors::StoreError;
use crate::models::{Confirmation, ConfirmationView, User, UserView};

verus! {

/// The stored records, in the order of their insertion.
pub struct RegistryView {
    pub confirmations: Seq<ConfirmationView>,
    pub users: Seq<UserView>,
}

/// The confirmation stored under a token; of several, the one inserted last.
pub open spec fn find(cs: Seq<ConfirmationView>, id: u128) -> Option<ConfirmationView>
    decreases cs.len(),
{
    if cs.len() == 0 {
        None
    } else if cs.last().id == id {
        Some(cs.last())
    } else {
        find(cs.drop_last(), id)
    }
}

/// The confirmations that are left when a token is withdrawn.
pub open spec fn without(cs: Seq<ConfirmationView>, id: u128) -> Seq<ConfirmationView>
    decreases cs.len(),
{
    if cs.len() == 0 {
        cs
    } else if cs.last().id == id {
        without(cs.drop_last(), id)
    } else {
        without(cs.drop_last(), id).push(cs.last())
    }
}

pub open spec fn confirmation_has_email(cs: Seq<ConfirmationView>, email: Seq<char>) -> bool {
    exists|i: int| 0 <= i < cs.len() && #[trigger] cs[i].email == email
}

pub open spec fn confirmation_has_id(cs: Seq<ConfirmationView>, id: u128) -> bool {
    exists|i: int| 0 <= i < cs.len() && #[trigger] cs[i].id == id
}

pub open spec fn user_has_email(us: Seq<UserView>, email: Seq<char>) -> bool {
    exists|i: int| 0 <= i < us.len() && #[trigger] us[i].email == email
}

pub open spec fn user_has_id(us: Seq<UserView>, id: u128) -> bool {
    exists|i: int| 0 <= i < us.len() && #[trigger] us[i].id == id
}

/// No two accounts share an address.
pub open spec fn distinct_emails(us: Seq<UserView>) -> bool {
    forall|i: int, j: int|
        0 <= i < us.len() && 0 <= j < us.len() && i != j ==> #[trigger] us[i].email
            != #[trigger] us[j].email
}

/// No two confirmations share a token or an address.
pub open spec fn distinct_confirmations(cs: Seq<ConfirmationView>) -> bool {
    forall|i: int, j: int|
        0 <= i < cs.len() && 0 <= j < cs.len() && i != j ==> (#[trigger] cs[i]).id != (
        #[trigger] cs[j]).id && cs[i].email != cs[j].email
}

impl RegistryView {
    /// The uniqueness constraint on confirmations: the token is new, and the
    /// address has neither an outstanding confirmation nor an account.
    pub open spec fn admits_confirmation(self, c: ConfirmationView) -> bool {
        !confirmation_has_id(self.confirmations, c.id) && !confirmation_has_email(
            self.confirmations,
            c.email,
        ) && !user_has_email(self.users, c.email)
    }

    /// The uniqueness constraint on accounts: identifier and address are new.
    pub open spec fn admits_user(self, u: UserView) -> bool {
        !user_has_id(self.users, u.id) && !user_has_email(self.users, u.email)
    }

    pub open spec fn with_confirmation(self, c: ConfirmationView) -> RegistryView {
        RegistryView { confirmations: self.confirmations.push(c), users: self.users }
    }

    pub open spec fn with_user(self, u: UserView) -> RegistryView {
        RegistryView { confirmations: self.confirmations, users: self.users.push(u) }
    }

    pub open spec fn without_confirmation(self, id: u128) -> RegistryView {
        RegistryView { confirmations: without(self.confirmations, id), users: self.users }
    }

    /// No two accounts share an address, and no two confirmations a token or
    /// an address.
    pub open spec fn wf(self) -> bool {
        distinct_emails(self.users) && distinct_confirmations(self.confirmations)
    }
}

/// Whether a confirmation occurs among the given ones.
pub open spec fn occurs(cs: Seq<ConfirmationView>, c: ConfirmationView) -> bool {
    exists|m: int| 0 <= m < cs.len() && cs[m] == c
}

/// What is left when a token is withdrawn was there before and does not
/// carry that token.
pub proof fn lemma_without_is_part(cs: Seq<ConfirmationView>, id: u128)
    ensures
        forall|k: int|
            0 <= k < without(cs, id).len() ==> (#[trigger] without(cs, id)[k]).id != id && occurs(
                cs,
                without(cs, id)[k],
            ),
    decreases cs.len(),
{
    if cs.len() > 0 {
        let init = cs.drop_last();
        let out = without(cs, id);
        lemma_without_is_part(init, id);
        assert forall|k: int| 0 <= k < out.len() implies (#[trigger] out[k]).id != id && occurs(
            cs,
            out[k],
        ) by {
            if k < without(init, id).len() {
                assert(occurs(init, without(init, id)[k]));
                let m = choose|m: int| 0 <= m < init.len() && init[m] == without(init, id)[k];
                assert(cs[m] == out[k]);
            } else {
                assert(cs[cs.len() - 1] == out[k]);
            }
        }
    }
}

/// Withdrawing a token keeps the confirmations distinct.
pub proof fn lemma_without_keeps_distinct(cs: Seq<ConfirmationView>, id: u128)
    requires
        distinct_confirmations(cs),
    ensures
        distinct_confirmations(without(cs, id)),
    decreases cs.len(),
{
    if cs.len() > 0 {
        let init = cs.drop_last();
        assert(distinct_confirmations(init)) by {
            assert forall|i: int, j: int|
                0 <= i < init.len() && 0 <= j < init.len() && i != j implies (#[trigger] init[i]).id
                != (#[trigger] init[j]).id && init[i].email != init[j].email by {
                assert(init[i] == cs[i] && init[j] == cs[j]);
            }
        }
        lemma_without_keeps_distinct(init, id);
        lemma_without_is_part(init, id);
        let rest = without(init, id);
        let out = without(cs, id);
        if cs.last().id != id {
            assert forall|i: int, j: int|
                0 <= i < out.len() && 0 <= j < out.len() && i != j implies (#[trigger] out[i]).id
                != (#[trigger] out[j]).id && out[i].email != out[j].email by {
                if i < rest.len() && j < rest.len() {
                    assert(out[i] == rest[i] && out[j] == rest[j]);
                } else if i < rest.len() {
                    assert(occurs(init, rest[i]));
                    let m = choose|m: int| 0 <= m < init.len() && init[m] == rest[i];
                    assert(cs[m] == out[i] && cs[cs.len() - 1] == out[j]);
                } else {
                    assert(occurs(init, rest[j]));
                    let m = choose|m: int| 0 <= m < init.len() && init[m] == rest[j];
                    assert(cs[m] == out[j] && cs[cs.len() - 1] == out[i]);
                }
            }
        }
    }
}

/// The detail that a violated uniqueness constraint is reported with.
pub open spec fn duplicate_text() -> Seq<char> {
    "duplicate key value violates unique constraint"@
}

pub open spec fn is_unique_violation(e: StoreError) -> bool {
    match e {
        StoreError::Database { unique, message, details } => unique && message@
            == duplicate_text() && details is None,
        StoreError::Other => false,
    }
}

/// Confirmations and accounts, held in memory under the constraints of the
/// persistence store.
pub struct Registry {
    confirmations: Vec<Confirmation>,
    users: Vec<User>,
}

impl View for Registry {
    type V = RegistryView;

    closed spec fn view(&self) -> RegistryView {
        RegistryView {
            confirmations: Seq::new(
                self.confirmations@.len(),
                |i: int| self.confirmations@[i]@,
            ),
            users: Seq::new(self.users@.len(), |i: int| self.users@[i]@),
        }
    }
}

fn unique_violation() -> (e: StoreError)
    ensures
        is_unique_violation(e),
{
    StoreError::Database {
        unique: true,
        message: String::from_str("duplicate key value violates unique constraint"),
        details: None,
    }
}

impl Registry {
    /// What is stored meets the uniqueness constraints.
    pub open spec fn wf(&self) -> bool {
        self@.wf()
    }

    pub fn new() -> (r: Registry)
        ensures
            r@.confirmations.len() == 0,
            r@.users.len() == 0,
            r.wf(),
    {
        Registry { confirmations: Vec::new(), users: Vec::new() }
    }

    fn holds_confirmation(&self, id: u128, email: &String) -> (b: bool)
        ensures
            b == (confirmation_has_id(self@.confirmations, id) || confirmation_has_email(
                self@.confirmations,
                email@,
            )),
    {
        let mut i: usize = 0;
        while i < self.confirmations.len()
            invariant
                i <= self.confirmations@.len(),
                forall|k: int|
                    0 <= k < i ==> (#[trigger] self@.confirmations[k]).id != id
                        && self@.confirmations[k].email != email@,
            decreases self.confirmations@.len() - i,
        {
            if self.confirmations[i].id == id || self.confirmations[i].email == *email {
                assert(self@.confirmations[i as int].id == id || self@.confirmations[i as int].email
                    == email@);
                return true;
            }
            i += 1;
        }
        false
    }

    fn holds_user(&self, id: Option<u128>, email: &String) -> (b: bool)
        ensures
            b == ((id is Some && user_has_id(self@.users, id->0)) || user_has_email(
                self@.users,
                email@,
            )),
    {
        let mut i: usize = 0;
        while i < self.users.len()
            invariant
                i <= self.users@.len(),
                forall|k: int|
                    0 <= k < i ==> (id is Some ==> (#[trigger] self@.users[k]).id != id->0)
                        && self@.users[k].email != email@,
            decreases self.users@.len() - i,
        {
            let same_id = match id {
                Some(v) => self.users[i].id == v,
                None => false,
            };
            if same_id || self.users[i].email == *email {
                assert((id is Some && self@.users[i as int].id == id->0) || self@.users[i as int].email
                    == email@);
                return true;
            }
            i += 1;
        }
        false
    }

    /// Stores a confirmation unless the uniqueness constraint rejects it.
    pub fn insert_confirmation(&mut self, c: Confirmation) -> (r: Result<(), StoreError>)
        requires
            old(self).wf(),
        ensures
            final(self).wf(),
            old(self)@.admits_confirmation(c@) ==> r is Ok && final(self)@ == old(self)@.with_confirmation(c@),
            !old(self)@.admits_confirmation(c@) ==> r is Err && is_unique_violation(r->Err_0)
                && final(self)@ == old(self)@,
    {
        if self.holds_confirmation(c.id, &c.email) || self.holds_user(None, &c.email) {
            return Err(unique_violation());
        }
        self.confirmations.push(c);
        assert(self@.confirmations =~= old(self)@.confirmations.push(c@));
        assert(self@.users =~= old(self)@.users);
        Ok(())
    }

    /// The confirmation stored under a token.
    pub fn find_confirmation(&self, id: u128) -> (r: Option<Confirmation>)
        ensures
            match r {
                Some(c) => find(self@.confirmations, id) == Some(c@),
                None => find(self@.confirmations, id) is None,
            },
    {
        let mut i: usize = self.confirmations.len();
        assert(self@.confirmations.take(i as int) =~= self@.confirmations);
        while i > 0
            invariant
                i <= self.confirmations@.len(),
                find(self@.confirmations, id) == find(self@.confirmations.take(i as int), id),
            decreases i,
        {
            let ghost prefix = self@.confirmations.take(i as int);
            assert(prefix.last() == self@.confirmations[i - 1]);
            assert(prefix.drop_last() =~= self@.confirmations.take(i - 1));
            if self.confirmations[i - 1].id == id {
                return Some(self.confirmations[i - 1].duplicate());
            }
            i -= 1;
        }
        assert(self@.confirmations.take(0).len() == 0);
        None
    }

    /// Withdraws a token.
    pub fn remove_confirmation(&mut self, id: u128)
        requires
            old(self).wf(),
        ensures
            final(self).wf(),
            final(self)@ == old(self)@.without_confirmation(id),
    {
        let mut kept: Vec<Confirmation> = Vec::new();
        let ghost all = self@.confirmations;
        let mut i: usize = 0;
        while i < self.confirmations.len()
            invariant
                i <= self.confirmations@.len(),
                self@ == old(self)@,
                all == self@.confirmations,
                Seq::new(kept@.len(), |k: int| kept@[k]@) =~= without(all.take(i as int), id),
            decreases self.confirmations@.len() - i,
        {
            let ghost next = all.take(i + 1);
            assert(next.last() == all[i as int]);
            assert(next.drop_last() =~= all.take(i as int));
            if self.confirmations[i].id != id {
                kept.push(self.confirmations[i].duplicate());
            }
            i += 1;
        }
        assert(all.take(i as int) =~= all);
        proof {
            lemma_without_keeps_distinct(all, id);
        }
        self.confirmations = kept;
        assert(self@.confirmations =~= without(all, id));
        assert(self@.users =~= old(self)@.users);
    }

    /// Stores an account unless the uniqueness constraint rejects it.
    pub fn insert_user(&mut self, u: User) -> (r: Result<(), StoreError>)
        requires
            old(self).wf(),
        ensures
            final(self).wf(),
            old(self)@.admits_user(u@) ==> r is Ok && final(self)@ == old(self)@.with_user(u@),
            !old(self)@.admits_user(u@) ==> r is Err && is_unique_violation(r->Err_0) && final(self)@ == old(self)@,
    {
        if self.holds_user(Some(u.id), &u.email) {
            return Err(unique_violation());
        }
        self.users.push(u);
        assert(self@.users =~= old(self)@.users.push(u@));
        assert(self@.confirmations =~= old(self)@.confirmations);
        Ok(())
    }

    /// How many confirmations are stored.
    pub fn confirmation_count(&self) -> (n: usize)
        ensures
            n == self@.confirmations.len(),
    {
        self.confirmations.len()
    }

    /// How many accounts are stored.
    pub fn user_count(&self) -> (n: usize)
        ensures
            n == self@.users.len(),
    {
        self.users.len()
    }
}

} // verus!
