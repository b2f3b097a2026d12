//! Users of the service.
use vstd::prelude::*;
use vstd::string::*;
use crate::time::Timestamp;

verus! {

/// A user, as identified by the token subject.
#[derive(Debug, Clone, PartialEq)]
pub struct User {
    pub id: String,
    pub email: String,
    pub display_name: String,
    pub role: UserRole,
    pub locale: String,
    pub active: bool,
    pub created_at: Timestamp,
}

#[derive(Debug, Clone, Copy, PartialEq, Eq, Structural)]
pub enum UserRole {
    Admin,
    Manager,
    Member,
    Guest,
}

/// The lower-case name of a role.
pub open spec fn role_text(r: UserRole) -> Seq<char> {
    match r {
        UserRole::Admin => "admin"@,
        UserRole::Manager => "manager"@,
        UserRole::Member => "member"@,
        UserRole::Guest => "guest"@,
    }
}

impl UserRole {
    /// The text that `Display` shows for the role.
    pub fn to_string(&self) -> (r: String)
        ensures
            r@ == role_text(*self),
    {
        let s = match self {
            UserRole::Admin => "admin",
            UserRole::Manager => "manager",
            UserRole::Member => "member",
            UserRole::Guest => "guest",
        };
        String::from_str(s)
    }
}

} // verus!
