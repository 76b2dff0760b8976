//! The user-lookup/insert capability that the auth core persists records
//! through: an in-memory store keyed by email, whose one invariant is that
//! emails stay unique. Lookup finds the first (and, under the invariant,
//! only) record with a given email.

use vstd::prelude::*;

use crate::model::User;

verus! {

/// The first record in `users` whose email is `email`, if any.
pub open spec fn spec_find_user(users: Seq<User>, email: Seq<char>) -> Option<User>
    decreases users.len(),
{
    if users.len() == 0 {
        None
    } else if users[0].email@ == email {
        Some(users[0])
    } else {
        spec_find_user(users.drop_first(), email)
    }
}

/// No two records share an email.
pub open spec fn emails_unique(users: Seq<User>) -> bool {
    forall|i: int, j: int|
        0 <= i < users.len() && 0 <= j < users.len() && i != j ==> users[i].email@
            != users[j].email@
}

/// Looking past a prefix with no match does not change what is found.
pub proof fn lemma_find_user_skip(users: Seq<User>, email: Seq<char>, i: int)
    requires
        0 <= i <= users.len(),
        forall|k: int| 0 <= k < i ==> users[k].email@ != email,
    ensures
        spec_find_user(users, email) == spec_find_user(users.skip(i), email),
    decreases i,
{
    if i > 0 {
        assert(users[0].email@ != email);
        lemma_find_user_skip(users.drop_first(), email, i - 1);
        assert(users.drop_first().skip(i - 1) =~= users.skip(i));
    } else {
        assert(users.skip(0) =~= users);
    }
}

/// A record with a matching email makes the lookup succeed.
pub proof fn lemma_find_user_occupied(users: Seq<User>, email: Seq<char>, i: int)
    requires
        0 <= i < users.len(),
        users[i].email@ == email,
    ensures
        spec_find_user(users, email) is Some,
        spec_find_user(users, email) matches Some(u) && u.email@ == email,
    decreases i,
{
    if users[0].email@ != email {
        lemma_find_user_occupied(users.drop_first(), email, i - 1);
    }
}

/// Appending a record with a fresh email makes it the one the lookup finds.
pub proof fn lemma_find_user_push_fresh(users: Seq<User>, u: User, email: Seq<char>)
    requires
        spec_find_user(users, email) is None,
        u.email@ == email,
    ensures
        spec_find_user(users.push(u), email) == Some(u),
    decreases users.len(),
{
    if users.len() == 0 {
        assert(users.push(u)[0] == u);
    } else {
        assert(users.push(u).drop_first() =~= users.drop_first().push(u));
        lemma_find_user_push_fresh(users.drop_first(), u, email);
    }
}

/// Appending a record leaves lookups under every other email unchanged.
pub proof fn lemma_find_user_push_other(users: Seq<User>, u: User, email: Seq<char>)
    requires
        u.email@ != email,
    ensures
        spec_find_user(users.push(u), email) == spec_find_user(users, email),
    decreases users.len(),
{
    if users.len() > 0 {
        assert(users.push(u)[0] == users[0]);
        assert(users.push(u).drop_first() =~= users.drop_first().push(u));
        lemma_find_user_push_other(users.drop_first(), u, email);
    } else {
        assert(users.push(u)[0] == u);
        assert(users.push(u).drop_first() =~= Seq::<User>::empty());
        assert(spec_find_user(Seq::<User>::empty(), email) is None);
    }
}

/// A lookup that comes back empty means no record carries the email.
pub proof fn lemma_find_user_none(users: Seq<User>, email: Seq<char>)
    requires
        spec_find_user(users, email) is None,
    ensures
        forall|i: int| 0 <= i < users.len() ==> users[i].email@ != email,
    decreases users.len(),
{
    if users.len() > 0 {
        lemma_find_user_none(users.drop_first(), email);
        assert forall|i: int| 0 <= i < users.len() implies users[i].email@ != email by {
            if i > 0 {
                assert(users.drop_first()[i - 1] == users[i]);
            }
        }
    }
}

/// In-memory record storage with unique emails.
pub struct UserStore {
    users: Vec<User>,
}

impl View for UserStore {
    type V = Seq<User>;

    closed spec fn view(&self) -> Seq<User> {
        self.users@
    }
}

impl UserStore {
    pub fn new() -> (r: Self)
        ensures
            r@ == Seq::<User>::empty(),
    {
        UserStore { users: Vec::new() }
    }

    /// The first record with this email, if any.
    pub fn find_user_by_email(&self, email: &String) -> (r: Option<&User>)
        ensures
            match r {
                Some(u) => spec_find_user(self@, email@) == Some(*u),
                None => spec_find_user(self@, email@) is None,
            },
    {
        let n = self.users.len();
        for i in 0..n
            invariant
                n == self.users.len(),
                forall|k: int| 0 <= k < i ==> self.users@[k].email@ != email@,
        {
            if self.users[i].email == *email {
                proof {
                    lemma_find_user_skip(self.users@, email@, i as int);
                    assert(self.users@.skip(i as int)[0] == self.users@[i as int]);
                }
                return Some(&self.users[i]);
            }
        }
        proof {
            lemma_find_user_skip(self.users@, email@, n as int);
            assert(self.users@.skip(n as int) =~= Seq::<User>::empty());
        }
        None
    }

    /// Append a record and hand back its id.
    pub fn insert_user(&mut self, user: User) -> (r: u128)
        ensures
            final(self)@ == old(self)@.push(user),
            r == user.id,
    {
        let id = user.id;
        self.users.push(user);
        id
    }
}

} // verus!
