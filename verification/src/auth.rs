//! The people who may edit alerts, and the check of their passwords.
//!
//! Passwords are kept as scrypt hashes in PHC string form. Hashing and
//! checking are done by the scrypt crate; which user a name belongs to and
//! what a failed check means is decided here. The users are kept in a hash
//! map under their ids, so a search by name walks them in no defined order.

use vstd::prelude::*;
use vstd::std_specs::hash::*;
use std::collections::HashMap;
use crate::text::same_text;

verus! {

/// The PHC string that scrypt, with its recommended parameters, gives for a
/// password and a salt in B64; `None` where it refuses the salt or fails.
pub uninterp spec fn password_hash(password: Seq<u8>, salt: Seq<char>) -> Option<Seq<char>>;

/// Whether `hash` is a PHC string that scrypt accepts for `password`.
pub uninterp spec fn password_verifies(hash: Seq<char>, password: Seq<u8>) -> bool;

/// `PasswordHasher::hash_password` of `scrypt::Scrypt`, on a salt read with
/// `SaltString::from_b64`, written out with `PasswordHash::serialize`. The
/// result depends on the password and the salt alone; the contract gives it
/// its name.
#[verifier::external_body]
fn scrypt_hash(password: &[u8], salt: &str) -> (hash: Option<String>)
    ensures
        match hash {
            Some(hash) => password_hash(password@, salt@) == Some(hash@),
            None => password_hash(password@, salt@) is None,
        },
{
    let salt = scrypt::password_hash::SaltString::from_b64(salt).ok()?;
    let hash = scrypt::password_hash::PasswordHasher::hash_password(&scrypt::Scrypt, password, &salt);
    Some(hash.ok()?.serialize().to_string())
}

/// `PasswordHash::verify_password` with `scrypt::Scrypt` as the only
/// verifier, on a hash read with `PasswordHash::new`. A string that is no
/// PHC string verifies for no password.
#[verifier::external_body]
fn scrypt_verify(hash: &str, password: &[u8]) -> (verified: bool)
    ensures
        verified == password_verifies(hash@, password@),
{
    match scrypt::password_hash::PasswordHash::new(hash) {
        Ok(parsed) => parsed.verify_password(&[&scrypt::Scrypt], password).is_ok(),
        Err(_) => false,
    }
}

/// Someone who may log in.
#[derive(Debug)]
pub struct User {
    pub name: String,
    pub id: i64,
    /// The scrypt hash of the password, as a PHC string.
    password_hash: String,
}

/// What a `User` holds, as plain values.
pub struct UserView {
    pub name: Seq<char>,
    pub id: i64,
    pub password_hash: Seq<char>,
}

impl View for User {
    type V = UserView;

    closed spec fn view(&self) -> UserView {
        UserView { name: self.name@, id: self.id, password_hash: self.password_hash@ }
    }
}

impl Clone for User {
    fn clone(&self) -> (copy: Self)
        ensures
            copy@ == self@,
    {
        User { name: self.name.clone(), id: self.id, password_hash: self.password_hash.clone() }
    }
}

impl User {
    /// A user whose password is kept as its scrypt hash under `salt`, a salt
    /// in B64 that the caller has drawn at random. `None` where scrypt
    /// refuses the salt.
    pub fn new(name: String, id: i64, password: &[u8], salt: &str) -> (made: Option<Self>)
        ensures
            match password_hash(password@, salt@) {
                Some(hash) => made is Some && made->0@ == (UserView {
                    name: name@,
                    id,
                    password_hash: hash,
                }),
                None => made is None,
            },
    {
        match scrypt_hash(password, salt) {
            Some(password_hash) => Some(User { name, id, password_hash }),
            None => None,
        }
    }

    /// A user whose password hash is already known, as it was kept from an
    /// earlier `new`.
    pub fn from_stored(name: String, id: i64, password_hash: String) -> (made: Self)
        ensures
            made@ == (UserView { name: name@, id, password_hash: password_hash@ }),
    {
        User { name, id, password_hash }
    }

    /// The scrypt hash of the password, as a PHC string.
    pub fn password(&self) -> (hash: &str)
        ensures
            hash@ == self@.password_hash,
    {
        self.password_hash.as_str()
    }

    /// Whether `password` is this user's password.
    pub fn verify(&self, password: &[u8]) -> (verified: bool)
        ensures
            verified == password_verifies(self@.password_hash, password@),
    {
        scrypt_verify(self.password_hash.as_str(), password)
    }
}

/// The users that can log in, each under its id.
#[derive(Debug)]
pub struct Users {
    users: HashMap<i64, User>,
}

impl View for Users {
    type V = Map<i64, UserView>;

    closed spec fn view(&self) -> Map<i64, UserView> {
        self.users@.map_values(|user: User| user@)
    }
}

impl Users {
    pub fn empty() -> (users: Self)
        ensures
            users@ == Map::<i64, UserView>::empty(),
    {
        Users { users: HashMap::new() }
    }

    /// Adds `user` under its id, in the place of the user that had the id if
    /// there was one.
    pub fn insert(&mut self, user: User)
        ensures
            final(self)@ == old(self)@.insert(user@.id, user@),
    {
        broadcast use group_hash_axioms;

        let id = user.id;
        self.users.insert(id, user);
    }

    /// The user with this id.
    pub fn get_user(&self, user_id: i64) -> (found: Option<User>)
        ensures
            match found {
                Some(user) => self@.contains_key(user_id) && user@ == self@[user_id],
                None => !self@.contains_key(user_id),
            },
    {
        broadcast use group_hash_axioms;

        match self.users.get(&user_id) {
            Some(user) => Some(user.clone()),
            None => None,
        }
    }

    /// A user called `username`, if `password` is that user's password. Where
    /// several users share the name, one of them is tried and the others are
    /// not; which one is not defined.
    pub fn get(&self, username: &str, password: &[u8]) -> (found: Option<User>)
        ensures
            match found {
                Some(user) => {
                    &&& exists|id: i64| self@.contains_key(id) && self@[id] == user@
                    &&& user@.name == username@
                    &&& password_verifies(user@.password_hash, password@)
                },
                None => {
                    ||| forall|id: i64| self@.contains_key(id) ==> self@[id].name != username@
                    ||| exists|id: i64|
                        self@.contains_key(id) && self@[id].name == username@ && !password_verifies(
                            self@[id].password_hash,
                            password@,
                        )
                },
            },
    {
        broadcast use group_hash_axioms;

        for user in it: self.users.values()
            invariant
                it.seq().unref().to_set() == self.users@.values(),
                forall|j: int| 0 <= j < it.index() ==> it.seq()[j].name@ != username@,
        {
            if same_text(user.name.as_str(), username) {
                proof {
                    let walked = it.seq().unref();
                    assert(walked.to_set().contains(*user));
                    let id = choose|id: i64|
                        self.users@.contains_key(id) && self.users@[id] == *user;
                    assert(self@.contains_key(id) && self@[id] == user@);
                }
                if user.verify(password) {
                    return Some(user.clone());
                } else {
                    return None;
                }
            }
        }
        assert forall|id: i64| self@.contains_key(id) implies self@[id].name != username@ by {
            assert(self.users@.values().contains(self.users@[id]));
        }
        None
    }

    /// The user that the credentials, a name and a password, belong to.
    pub fn authenticate(&self, credentials: (String, Vec<u8>)) -> (found: Option<User>)
        ensures
            match found {
                Some(user) => {
                    &&& exists|id: i64| self@.contains_key(id) && self@[id] == user@
                    &&& user@.name == credentials.0@
                    &&& password_verifies(user@.password_hash, credentials.1@)
                },
                None => {
                    ||| forall|id: i64| self@.contains_key(id) ==> self@[id].name != credentials.0@
                    ||| exists|id: i64|
                        self@.contains_key(id) && self@[id].name == credentials.0@
                            && !password_verifies(self@[id].password_hash, credentials.1@)
                },
            },
    {
        self.get(credentials.0.as_str(), credentials.1.as_slice())
    }
}

} // verus!
