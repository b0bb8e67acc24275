//! Request bodies of the auth endpoints, with their validation.
//!
//! How the bodies arrive (JSON, form data) is a transport concern; the shapes
//! and the rules they must satisfy stand here.

use vstd::prelude::*;

verus! {

use crate::policy::{
    email_accepted, is_valid_email, password_strong, validate_password_strength,
};

/// The registration request: an email and a password, both validated before
/// any hashing or persistence work.
#[derive(Debug)]
pub struct RegisterRequest {
    pub email: String,
    pub password: String,
}

impl RegisterRequest {
    /// Accepts only an RFC-shaped email and a password meeting the policy;
    /// the message names what failed.
    pub fn validate(&self) -> (r: Result<(), String>)
        ensures
            r is Ok <==> (email_accepted(self.email@) && password_strong(self.password@)),
            !email_accepted(self.email@) ==> (r matches Err(m) && m@ == "Invalid email format"@),
    {
        if !is_valid_email(self.email.as_str()) {
            return Err(String::from_str("Invalid email format"));
        }
        if let Err(e) = validate_password_strength(self.password.as_str()) {
            return Err(e.code());
        }
        Ok(())
    }
}

/// The login request: an email, a password, and whether the refresh cookie
/// should outlive the browser session.
#[derive(Debug)]
pub struct LoginRequest {
    pub email: String,
    pub password: String,
    pub remember_me: bool,
}

impl LoginRequest {
    /// Accepts only an RFC-shaped email and a nonempty password; the message
    /// names what failed.
    pub fn validate(&self) -> (r: Result<(), String>)
        ensures
            r is Ok <==> (email_accepted(self.email@) && self.password@.len() > 0),
            !email_accepted(self.email@) ==> (r matches Err(m) && m@ == "Invalid email format"@),
            email_accepted(self.email@) && self.password@.len() == 0 ==> (r matches Err(m) && m@
                == "Password is required"@),
    {
        if !is_valid_email(self.email.as_str()) {
            return Err(String::from_str("Invalid email format"));
        }
        if self.password.as_str().unicode_len() == 0 {
            return Err(String::from_str("Password is required"));
        }
        Ok(())
    }
}

} // verus!
