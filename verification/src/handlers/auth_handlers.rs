//! What a request to log in is answered with.

use vstd::prelude::*;
use crate::models::{LoginRequest, LoginResponse};
use crate::services::UserService;

verus! {

/// The message of a successful login.
pub open spec fn login_message() -> Seq<char> {
    "Login successful"@
}

/// Answers a request to log in. Where the register holds the request's
/// user and the password is that user's, the answer reports success with
/// the user's name and role; else there is no answer to give.
pub fn login(user_service: &UserService, req: &LoginRequest) -> (answer: Option<LoginResponse>)
    ensures
        match answer {
            Some(r) => user_service@.contains_key(req.username@) && user_service@[req.username@].password
                == req.password@ && r.success && r.username@ == req.username@ && r.role@
                == user_service@[req.username@].role && r.message@ == login_message(),
            None => !(user_service@.contains_key(req.username@) && user_service@[req.username@].password
                == req.password@),
        },
{
    match user_service.authenticate(req.username.as_str(), req.password.as_str()) {
        Some(user) => Some(
            LoginResponse {
                success: true,
                username: req.username.clone(),
                role: user.role.clone(),
                message: "Login successful".to_owned(),
            },
        ),
        None => None,
    }
}

} // verus!
