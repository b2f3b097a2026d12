//! Business parties: customers, suppliers and the like.
use vstd::prelude::*;
use crate::time::Timestamp;

verus! {

/// A business party.
#[derive(Debug, Clone, PartialEq)]
pub struct Party {
    pub id: String,
    /// Internal business id (unique).
    pub party_id: String,
    pub name: Option<String>,
    pub kind: PartyKind,
    pub address: Option<Address>,
    /// DUNS number for data exchange.
    pub vda_duns: Option<String>,
    pub created_at: Timestamp,
    pub updated_at: Timestamp,
}

#[derive(Debug, Clone, Copy, PartialEq, Eq, Structural)]
pub enum PartyKind {
    Customer,
    Supplier,
    Internal,
    Other,
}

#[derive(Debug, Clone, PartialEq)]
pub struct Address {
    pub street: Option<String>,
    pub city: Option<String>,
    pub zip: Option<String>,
    pub state: Option<String>,
    /// ISO 3166-1 alpha-2
    pub country: Option<String>,
}

} // verus!
