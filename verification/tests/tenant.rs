use apqp::ids;
use apqp::tenant::TenantContext;

#[test]
fn db_name_of_dev_tenant() {
    let t = TenantContext { tenant_id: 1, actor_id: "dev-user".into() };
    assert_eq!(t.db_name(), "tenant_00000000000000000000000000000001");
}

#[test]
fn db_names_differ_between_tenants() {
    let a = TenantContext { tenant_id: 0xffu128, actor_id: String::new() };
    let b = TenantContext { tenant_id: 0xff00u128, actor_id: String::new() };
    assert_ne!(a.db_name(), b.db_name());
    assert_eq!(b.db_name(), "tenant_0000000000000000000000000000ff00");
}

#[test]
fn context_from_headers() {
    let t = TenantContext::from_headers(Some("67e55044-10b1-426f-9247-bb680e5fe0c8"), Some("u7"));
    assert_eq!(t.tenant_id, 0x67e5504410b1426f9247bb680e5fe0c8u128);
    assert_eq!(t.actor_id, "u7");
    let t = TenantContext::from_headers(Some("not-a-uuid"), None);
    assert_eq!(t.tenant_id, 1);
    assert_eq!(t.actor_id, "dev-user");
    let t = TenantContext::from_headers(None, None);
    assert_eq!(t.tenant_id, 1);
    let t = TenantContext::from_parsed(Some(9), Some("a"));
    assert_eq!((t.tenant_id, t.actor_id.as_str()), (9, "a"));
}

#[test]
fn uuid_texts() {
    let v = 0x67e5504410b1426f9247bb680e5fe0c8u128;
    assert_eq!(ids::simple_string(v), "67e5504410b1426f9247bb680e5fe0c8");
    assert_eq!(ids::hyphenated_string(v), "67e55044-10b1-426f-9247-bb680e5fe0c8");
    assert_eq!(ids::parse("67e5504410b1426f9247bb680e5fe0c8"), Some(v));
    assert_eq!(ids::parse("{67e55044-10b1-426f-9247-bb680e5fe0c8}"), Some(v));
    assert_eq!(ids::parse("67e55044"), None);
}

#[test]
fn fresh_ids_are_version_4() {
    let a = ids::new_v4();
    let b = ids::new_v4();
    assert_ne!(a, b);
    assert_eq!((a >> 76) & 0xf, 4);
    assert_eq!((a >> 62) & 0x3, 2);
}
