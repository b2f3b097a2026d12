//! The tenant and actor a request acts for, and the database that holds
//! the tenant's data.
use vstd::prelude::*;
use vstd::string::*;
use crate::ids;

verus! {

/// Tenant and actor of a request, as forwarded by the gateway.
#[derive(Debug, Clone)]
pub struct TenantContext {
    pub tenant_id: u128,
    /// Token subject: the user performing the action.
    pub actor_id: String,
}

/// The tenant used when a request names none (development only).
pub open spec fn dev_tenant() -> u128 {
    1
}

/// The name of a tenant's database: `tenant_` and the tenant id's 32 hex digits.
pub open spec fn db_name_of(tenant_id: u128) -> Seq<char> {
    "tenant_"@ + ids::simple_text(tenant_id)
}

impl TenantContext {
    /// The name of the database that holds this tenant's data.
    pub fn db_name(&self) -> (r: String)
        ensures
            r@ == db_name_of(self.tenant_id),
    {
        String::from_str("tenant_").concat(ids::simple_string(self.tenant_id).as_str())
    }

    /// The context of a request given the parsed tenant header and the actor
    /// header: the development tenant when no valid tenant id came, and the
    /// actor `dev-user` when none came.
    pub fn from_parsed(tenant: Option<u128>, actor: Option<&str>) -> (r: TenantContext)
        ensures
            r.tenant_id == match tenant { Some(t) => t, None => dev_tenant() },
            r.actor_id@ == match actor { Some(a) => a@, None => "dev-user"@ },
    {
        let tenant_id: u128 = match tenant {
            Some(t) => t,
            None => 1,
        };
        let actor_id = match actor {
            Some(a) => String::from_str(a),
            None => String::from_str("dev-user"),
        };
        TenantContext { tenant_id, actor_id }
    }

    /// The context of a request from its `X-Tenant-ID` and `X-Actor-ID`
    /// header texts (absent when missing or not visible ASCII).
    pub fn from_headers(tenant: Option<&str>, actor: Option<&str>) -> (r: TenantContext)
        ensures
            r.tenant_id == match tenant {
                Some(t) => match ids::uuid_parsed(t@) {
                    Some(v) => v,
                    None => dev_tenant(),
                },
                None => dev_tenant(),
            },
            r.actor_id@ == match actor { Some(a) => a@, None => "dev-user"@ },
    {
        let parsed = match tenant {
            Some(t) => ids::parse(t),
            None => None,
        };
        Self::from_parsed(parsed, actor)
    }
}

} // verus!
