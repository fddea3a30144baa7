//! Users, and what logging in carries.

use vstd::prelude::*;

verus! {

/// What a request to log in carries.
#[derive(Debug)]
pub struct LoginRequest {
    pub username: String,
    pub password: String,
}

/// The answer to a request to log in.
#[derive(Debug)]
pub struct LoginResponse {
    pub success: bool,
    pub username: String,
    pub role: String,
    pub message: String,
}

/// What is told of a user to others.
#[derive(Debug)]
pub struct UserInfo {
    pub username: String,
    pub role: String,
}

/// A user with a password and a role.
#[derive(Debug)]
pub struct User {
    pub username: String,
    pub password: String,
    pub role: String,
}

/// What a [`User`] holds, as plain text.
pub struct UserView {
    pub username: Seq<char>,
    pub password: Seq<char>,
    pub role: Seq<char>,
}

impl View for User {
    type V = UserView;

    open spec fn view(&self) -> UserView {
        UserView { username: self.username@, password: self.password@, role: self.role@ }
    }
}

impl Clone for User {
    fn clone(&self) -> (copy: Self)
        ensures
            copy@ == self@,
    {
        User { username: self.username.clone(), password: self.password.clone(), role: self.role.clone() }
    }
}

impl User {
    /// A user with the given name, password and role.
    pub fn new(username: String, password: String, role: String) -> (user: Self)
        ensures
            user@ == (UserView { username: username@, password: password@, role: role@ }),
    {
        User { username, password, role }
    }
}

} // verus!
