//! Contacts: the persons responsible for tasks.
use vstd::prelude::*;
use vstd::string::*;
use crate::models::party::Address;
use crate::time::Timestamp;

verus! {

/// A person that tasks can be assigned to.
#[derive(Debug, Clone, PartialEq)]
pub struct Contact {
    pub id: String,
    pub first_name: String,
    pub last_name: String,
    pub email: Option<String>,
    pub phone: Option<String>,
    pub role: String,
    pub department: String,
    /// Party record id.
    pub party_id: Option<String>,
    pub status: ContactStatus,
    pub avatar_url: Option<String>,
    /// User record id.
    pub assigned_to: Option<String>,
    pub address: Option<Address>,
    pub created_at: Timestamp,
    pub updated_at: Timestamp,
}

impl Contact {
    /// First and last name, separated by one space.
    pub fn full_name(&self) -> (r: String)
        ensures
            r@ == self.first_name@ + " "@ + self.last_name@,
    {
        let s = self.first_name.clone();
        let s = s.concat(" ");
        s.concat(self.last_name.as_str())
    }
}

/// Lightweight projection for list views and dropdowns.
#[derive(Debug, Clone, PartialEq)]
pub struct ContactSummary {
    pub id: String,
    pub full_name: String,
    pub role: String,
    pub party_name: Option<String>,
    pub status: ContactStatus,
    pub avatar_url: Option<String>,
}

#[derive(Debug, Clone, Copy, PartialEq, Eq, Structural)]
pub enum ContactStatus {
    Active,
    Inactive,
    Prospect,
}

/// The lower-case name of a contact status.
pub open spec fn contact_status_text(s: ContactStatus) -> Seq<char> {
    match s {
        ContactStatus::Active => "active"@,
        ContactStatus::Inactive => "inactive"@,
        ContactStatus::Prospect => "prospect"@,
    }
}

impl ContactStatus {
    /// The text that `Display` shows for the status.
    pub fn to_string(&self) -> (r: String)
        ensures
            r@ == contact_status_text(*self),
    {
        let s = match self {
            ContactStatus::Active => "active",
            ContactStatus::Inactive => "inactive",
            ContactStatus::Prospect => "prospect",
        };
        String::from_str(s)
    }
}

} // verus!
