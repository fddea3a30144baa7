//! The register of users.

use vstd::prelude::*;
use crate::models::{User, UserView};
use crate::table::{views, Table};
use crate::text::texts;

verus! {

/// What a user with the given name, password and role holds.
pub open spec fn user(username: Seq<char>, password: Seq<char>, role: Seq<char>) -> UserView {
    UserView { username, password, role }
}

/// The users that every register starts with, under their names.
pub open spec fn default_users() -> Map<Seq<char>, UserView> {
    Map::<Seq<char>, UserView>::empty().insert("admin"@, user("admin"@, "admin123"@, "admin"@)).insert(
        "user"@,
        user("user"@, "user123"@, "user"@),
    ).insert("alice"@, user("alice"@, "alice123"@, "user"@)).insert(
        "bob"@,
        user("bob"@, "bob123"@, "user"@),
    ).insert("charlie"@, user("charlie"@, "charlie123"@, "user"@)).insert(
        "diana"@,
        user("diana"@, "diana123"@, "user"@),
    )
}

/// The users who may log in, under their names.
pub struct UserService {
    users: Table<User>,
}

impl View for UserService {
    type V = Map<Seq<char>, UserView>;

    closed spec fn view(&self) -> Map<Seq<char>, UserView> {
        views(self.users@)
    }
}

impl UserService {
    fn enrol(&mut self, username: &str, password: &str, role: &str)
        ensures
            final(self)@ == old(self)@.insert(username@, user(username@, password@, role@)),
    {
        let entry = User::new(username.to_owned(), password.to_owned(), role.to_owned());
        self.users.insert(username.to_owned(), entry);
        assert(self@ =~= old(self)@.insert(username@, user(username@, password@, role@)));
    }

    /// A register with the users that every register starts with.
    pub fn new() -> (service: Self)
        ensures
            service@ == default_users(),
    {
        let mut service = UserService { users: Table::new() };
        assert(service@ =~= Map::<Seq<char>, UserView>::empty());
        service.enrol("admin", "admin123", "admin");
        service.enrol("user", "user123", "user");
        service.enrol("alice", "alice123", "user");
        service.enrol("bob", "bob123", "user");
        service.enrol("charlie", "charlie123", "user");
        service.enrol("diana", "diana123", "user");
        service
    }

    /// The user `username`, if there is one and `password` is that user's
    /// password.
    pub fn authenticate(&self, username: &str, password: &str) -> (found: Option<&User>)
        ensures
            match found {
                Some(u) => self@.contains_key(username@) && u@ == self@[username@] && u@.password
                    == password@,
                None => !(self@.contains_key(username@) && self@[username@].password == password@),
            },
    {
        match self.users.get(username) {
            Some(u) => {
                if *u.password.as_str() == *password {
                    Some(u)
                } else {
                    None
                }
            },
            None => None,
        }
    }

    /// The name of every user, once.
    pub fn get_all_usernames(&self) -> (names: Vec<String>)
        ensures
            texts(names@).no_duplicates(),
            texts(names@).to_set() == self@.dom(),
    {
        let names = self.users.key_list();
        assert(self@.dom() =~= self.users@.dom());
        names
    }

    /// The user `username`, if there is one.
    pub fn get_user(&self, username: &str) -> (found: Option<&User>)
        ensures
            match found {
                Some(u) => self@.contains_key(username@) && u@ == self@[username@],
                None => !self@.contains_key(username@),
            },
    {
        self.users.get(username)
    }
}

} // verus!
