//! The user directory: usernames, their credentials and their roles.
//!
//! Usernames are unique. A credential is generated server-side when the
//! user is created and returned exactly once; login resolves a credential
//! back to its user. Seal gating and root-key checks are enforced by the
//! store that wraps this directory.

use vstd::prelude::*;

verus! {

use crate::access::Role;
use crate::crypto::{fresh_credential, str_eq, CREDENTIAL_LEN, GCM_P_MAX};
use crate::errors::DatabaseError;
use vstd::utf8::encode_utf8;

/// A username must be short enough that a session token's claim encoding
/// of it stays within the cipher's plaintext bound.
pub open spec fn name_len_ok(name: Seq<char>) -> bool {
    encode_utf8(name).len() + 17 < GCM_P_MAX
}

/// One user: a unique name, the server-generated credential that acts as
/// the user's password, and the user's role.
pub struct User {
    pub username: String,
    pub password: String,
    pub role: Role,
}

/// The mathematical image of one user.
pub ghost struct UserV {
    pub username: Seq<char>,
    pub password: Seq<char>,
    pub role: Role,
}

impl View for User {
    type V = UserV;

    open spec fn view(&self) -> UserV {
        UserV { username: self.username@, password: self.password@, role: self.role }
    }
}

impl Clone for User {
    fn clone(&self) -> (r: User)
        ensures
            r@ == self@,
    {
        User {
            username: self.username.clone(),
            password: self.password.clone(),
            role: self.role,
        }
    }
}

/// The first user named `name`, if any.
pub open spec fn find_user(s: Seq<UserV>, name: Seq<char>) -> Option<UserV>
    decreases s.len(),
{
    if s.len() == 0 {
        None
    } else if s[0].username == name {
        Some(s[0])
    } else {
        find_user(s.drop_first(), name)
    }
}

/// The first user whose credential is `password`, if any.
pub open spec fn find_cred(s: Seq<UserV>, password: Seq<char>) -> Option<UserV>
    decreases s.len(),
{
    if s.len() == 0 {
        None
    } else if s[0].password == password {
        Some(s[0])
    } else {
        find_cred(s.drop_first(), password)
    }
}

/// No two users share a username.
pub open spec fn unique_usernames(s: Seq<UserV>) -> bool {
    forall|i: int, j: int| 0 <= i < j < s.len() ==> s[i].username != s[j].username
}

proof fn lemma_find_user_none(s: Seq<UserV>, name: Seq<char>)
    requires
        forall|j: int| 0 <= j < s.len() ==> (#[trigger] s[j]).username != name,
    ensures
        find_user(s, name) is None,
    decreases s.len(),
{
    if s.len() > 0 {
        assert(forall|j: int|
            0 <= j < s.drop_first().len() ==> (#[trigger] s.drop_first()[j]).username != name);
        lemma_find_user_none(s.drop_first(), name);
    }
}

proof fn lemma_find_user_at(s: Seq<UserV>, name: Seq<char>, i: int)
    requires
        0 <= i < s.len(),
        s[i].username == name,
        forall|j: int| 0 <= j < i ==> (#[trigger] s[j]).username != name,
    ensures
        find_user(s, name) == Some(s[i]),
    decreases i,
{
    if i > 0 {
        assert(forall|j: int|
            0 <= j < i - 1 ==> (#[trigger] s.drop_first()[j]).username != name) by {
            assert(forall|j: int|
                0 <= j < i - 1 ==> s.drop_first()[j] == s[j + 1] && (#[trigger] s[j + 1]).username
                    != name);
        }
        lemma_find_user_at(s.drop_first(), name, i - 1);
    }
}

proof fn lemma_find_cred_none(s: Seq<UserV>, password: Seq<char>)
    requires
        forall|j: int| 0 <= j < s.len() ==> (#[trigger] s[j]).password != password,
    ensures
        find_cred(s, password) is None,
    decreases s.len(),
{
    if s.len() > 0 {
        assert(forall|j: int|
            0 <= j < s.drop_first().len() ==> (#[trigger] s.drop_first()[j]).password != password);
        lemma_find_cred_none(s.drop_first(), password);
    }
}

proof fn lemma_find_cred_at(s: Seq<UserV>, password: Seq<char>, i: int)
    requires
        0 <= i < s.len(),
        s[i].password == password,
        forall|j: int| 0 <= j < i ==> (#[trigger] s[j]).password != password,
    ensures
        find_cred(s, password) == Some(s[i]),
    decreases i,
{
    if i > 0 {
        assert(forall|j: int|
            0 <= j < i - 1 ==> (#[trigger] s.drop_first()[j]).password != password) by {
            assert(forall|j: int|
                0 <= j < i - 1 ==> s.drop_first()[j] == s[j + 1] && (#[trigger] s[j + 1]).password
                    != password);
        }
        lemma_find_cred_at(s.drop_first(), password, i - 1);
    }
}

proof fn lemma_find_user_push_miss(s: Seq<UserV>, x: UserV, name: Seq<char>)
    requires
        x.username != name,
    ensures
        find_user(s.push(x), name) == find_user(s, name),
    decreases s.len(),
{
    if s.len() == 0 {
        assert(s.push(x).drop_first() =~= Seq::<UserV>::empty());
    } else {
        assert(s.push(x)[0] == s[0]);
        assert(s.push(x).drop_first() =~= s.drop_first().push(x));
        lemma_find_user_push_miss(s.drop_first(), x, name);
    }
}

proof fn lemma_find_user_push_hit(s: Seq<UserV>, x: UserV)
    requires
        forall|j: int| 0 <= j < s.len() ==> (#[trigger] s[j]).username != x.username,
    ensures
        find_user(s.push(x), x.username) == Some(x),
{
    lemma_find_user_at(s.push(x), x.username, s.len() as int);
}

proof fn lemma_find_user_remove_miss(s: Seq<UserV>, i: int, name: Seq<char>)
    requires
        0 <= i < s.len(),
        s[i].username != name,
    ensures
        find_user(s.remove(i), name) == find_user(s, name),
    decreases s.len(),
{
    if i == 0 {
        assert(s.remove(0) =~= s.drop_first());
    } else {
        assert(s.remove(i)[0] == s[0]);
        assert(s.remove(i).drop_first() =~= s.drop_first().remove(i - 1));
        if s[0].username != name {
            lemma_find_user_remove_miss(s.drop_first(), i - 1, name);
        }
    }
}

/// The user store. Usernames are unique.
pub struct UserDirectory {
    users: Vec<User>,
}

impl UserDirectory {
    /// The stored users, in storage order.
    pub closed spec fn members(self) -> Seq<UserV> {
        Seq::new(self.users@.len(), |i: int| self.users@[i]@)
    }

    /// Internal invariant: usernames are unique and short enough for
    /// session issuance.
    pub closed spec fn wf(self) -> bool {
        &&& unique_usernames(self.members())
        &&& forall|i: int|
            0 <= i < self.members().len() ==> name_len_ok(
                (#[trigger] self.members()[i]).username,
            )
    }

    /// An empty directory.
    pub fn new() -> (r: UserDirectory)
        ensures
            r.wf(),
            r.members().len() == 0,
    {
        UserDirectory { users: Vec::new() }
    }

    /// Index of the user named `name`, if any.
    fn index_of_name(&self, name: &String) -> (r: Option<usize>)
        ensures
            r matches Some(i) ==> i < self.members().len() && self.members()[i as int].username
                == name@ && (forall|j: int|
                0 <= j < i ==> (#[trigger] self.members()[j]).username != name@),
            r is None ==> forall|j: int|
                0 <= j < self.members().len() ==> (#[trigger] self.members()[j]).username != name@,
    {
        let n = self.users.len();
        let mut i: usize = 0;
        while i < n
            invariant
                n == self.members().len(),
                i <= n,
                forall|j: int| 0 <= j < i ==> (#[trigger] self.members()[j]).username != name@,
            decreases n - i,
        {
            if self.users[i].username == *name {
                return Some(i);
            }
            i += 1;
        }
        None
    }

    /// Index of the user whose credential is `password`, if any.
    fn index_of_password(&self, password: &String) -> (r: Option<usize>)
        ensures
            r matches Some(i) ==> i < self.members().len() && self.members()[i as int].password
                == password@ && (forall|j: int|
                0 <= j < i ==> (#[trigger] self.members()[j]).password != password@),
            r is None ==> forall|j: int|
                0 <= j < self.members().len() ==> (#[trigger] self.members()[j]).password
                    != password@,
    {
        let n = self.users.len();
        let mut i: usize = 0;
        while i < n
            invariant
                n == self.members().len(),
                i <= n,
                forall|j: int| 0 <= j < i ==> (#[trigger] self.members()[j]).password != password@,
            decreases n - i,
        {
            if str_eq(&self.users[i].password, password) {
                return Some(i);
            }
            i += 1;
        }
        None
    }

    /// Create a user with a freshly generated credential and the given
    /// role. Fails, and changes nothing, when the name is already taken;
    /// otherwise returns the credential, which is not retrievable again.
    pub fn create(&mut self, name: String, role: Role) -> (r: Result<String, DatabaseError>)
        requires
            old(self).wf(),
            name_len_ok(name@),
        ensures
            final(self).wf(),
            find_user(old(self).members(), name@) is Some ==> r == Err::<String, DatabaseError>(
                DatabaseError::UserAlreadyExists,
            ) && *final(self) == *old(self),
            find_user(old(self).members(), name@) is None ==> (r matches Ok(c) && c@.len()
                == CREDENTIAL_LEN && final(self).members() == old(self).members().push(
                UserV { username: name@, password: c@, role },
            )),
    {
        let found = self.index_of_name(&name);
        match found {
            Some(i) => {
                proof {
                    lemma_find_user_at(self.members(), name@, i as int);
                }
                Err(DatabaseError::UserAlreadyExists)
            },
            None => {
                proof {
                    lemma_find_user_none(self.members(), name@);
                }
                let ghost pre = self.members();
                let password = fresh_credential();
                let ghost u = UserV { username: name@, password: password@, role };
                self.users.push(User { username: name.clone(), password: password.clone(), role });
                proof {
                    assert(self.members() =~= pre.push(u));
                }
                Ok(password)
            },
        }
    }

    /// Resolve a credential to its user, uniformly failing with
    /// `UserNotFound` when no user holds it.
    pub fn find_by_credential(&self, password: &String) -> (r: Result<User, DatabaseError>)
        requires
            self.wf(),
        ensures
            r matches Ok(u) ==> find_cred(self.members(), password@) == Some(u@) && name_len_ok(
                u@.username,
            ),
            r matches Err(e) ==> e == DatabaseError::UserNotFound && find_cred(
                self.members(),
                password@,
            ) is None,
    {
        let found = self.index_of_password(password);
        match found {
            None => {
                proof {
                    lemma_find_cred_none(self.members(), password@);
                }
                Err(DatabaseError::UserNotFound)
            },
            Some(i) => {
                proof {
                    lemma_find_cred_at(self.members(), password@, i as int);
                }
                Ok(self.users[i].clone())
            },
        }
    }

    /// Look a user up by name; fails with `UserNotFound` when absent.
    pub fn find_by_name(&self, name: &String) -> (r: Result<User, DatabaseError>)
        ensures
            r matches Ok(u) ==> find_user(self.members(), name@) == Some(u@),
            r matches Err(e) ==> e == DatabaseError::UserNotFound && find_user(
                self.members(),
                name@,
            ) is None,
    {
        let found = self.index_of_name(name);
        match found {
            None => {
                proof {
                    lemma_find_user_none(self.members(), name@);
                }
                Err(DatabaseError::UserNotFound)
            },
            Some(i) => {
                proof {
                    lemma_find_user_at(self.members(), name@, i as int);
                }
                Ok(self.users[i].clone())
            },
        }
    }

    /// Give the named user a new role, keeping name and credential.
    /// Fails with `UserNotFound`, changing nothing, when the name is
    /// absent.
    pub fn update_role(&mut self, name: &String, role: Role) -> (r: Result<(), DatabaseError>)
        requires
            old(self).wf(),
        ensures
            final(self).wf(),
            r is Ok <==> find_user(old(self).members(), name@) is Some,
            r matches Err(e) ==> e == DatabaseError::UserNotFound && *final(self) == *old(self),
            r is Ok ==> (find_user(old(self).members(), name@) matches Some(u) && find_user(
                final(self).members(),
                name@,
            ) == Some(UserV { username: name@, password: u.password, role })),
            forall|other: Seq<char>|
                other != name@ ==> #[trigger] find_user(final(self).members(), other) == find_user(
                    old(self).members(),
                    other,
                ),
    {
        let ghost pre = self.members();
        let found = self.index_of_name(name);
        match found {
            None => {
                proof {
                    lemma_find_user_none(pre, name@);
                }
                Err(DatabaseError::UserNotFound)
            },
            Some(i) => {
                proof {
                    lemma_find_user_at(pre, name@, i as int);
                }
                let old_user = self.users.remove(i);
                proof {
                    assert(self.members() =~= pre.remove(i as int));
                    assert(forall|j: int|
                        0 <= j < self.members().len() ==> (#[trigger] self.members()[j]).username
                            != name@);
                }
                let ghost mid = self.members();
                let ghost u2 = UserV { username: name@, password: old_user.password@, role };
                self.users.push(
                    User { username: old_user.username, password: old_user.password, role },
                );
                proof {
                    assert(self.members() =~= mid.push(u2));
                    lemma_find_user_push_hit(mid, u2);
                    assert forall|other: Seq<char>| other != name@ implies #[trigger] find_user(
                        self.members(),
                        other,
                    ) == find_user(pre, other) by {
                        lemma_find_user_push_miss(mid, u2, other);
                        lemma_find_user_remove_miss(pre, i as int, other);
                    }
                }
                Ok(())
            },
        }
    }

    /// Remove the named user; fails with `UserNotFound` when absent.
    pub fn delete(&mut self, name: &String) -> (r: Result<(), DatabaseError>)
        requires
            old(self).wf(),
        ensures
            final(self).wf(),
            r is Ok <==> find_user(old(self).members(), name@) is Some,
            r matches Err(e) ==> e == DatabaseError::UserNotFound && *final(self) == *old(self),
            r is Ok ==> find_user(final(self).members(), name@) is None,
            forall|other: Seq<char>|
                other != name@ ==> #[trigger] find_user(final(self).members(), other) == find_user(
                    old(self).members(),
                    other,
                ),
    {
        let ghost pre = self.members();
        let found = self.index_of_name(name);
        match found {
            None => {
                proof {
                    lemma_find_user_none(pre, name@);
                }
                Err(DatabaseError::UserNotFound)
            },
            Some(i) => {
                proof {
                    lemma_find_user_at(pre, name@, i as int);
                }
                self.users.remove(i);
                proof {
                    assert(self.members() =~= pre.remove(i as int));
                    assert(forall|j: int|
                        0 <= j < self.members().len() ==> (#[trigger] self.members()[j]).username
                            != name@);
                    lemma_find_user_none(self.members(), name@);
                    assert forall|other: Seq<char>| other != name@ implies #[trigger] find_user(
                        self.members(),
                        other,
                    ) == find_user(pre, other) by {
                        lemma_find_user_remove_miss(pre, i as int, other);
                    }
                }
                Ok(())
            },
        }
    }

    /// Every stored user, in storage order.
    pub fn all_users(&self) -> (r: Vec<User>)
        ensures
            r@.len() == self.members().len(),
            forall|i: int| 0 <= i < r@.len() ==> (#[trigger] r@[i])@ == self.members()[i],
    {
        let n = self.users.len();
        let mut out: Vec<User> = Vec::new();
        let mut i: usize = 0;
        while i < n
            invariant
                n == self.members().len(),
                n == self.users@.len(),
                i <= n,
                out@.len() == i,
                forall|j: int| 0 <= j < i ==> (#[trigger] out@[j])@ == self.members()[j],
            decreases n - i,
        {
            out.push(self.users[i].clone());
            i += 1;
        }
        out
    }
}

} // verus!
