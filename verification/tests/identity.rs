use sutra_erp::identity::{tenant_from_header, AuditInfo, EntityId, TenantHeaderError, TenantId, Timestamp};
use uuid::Uuid;

#[derive(Debug, PartialEq, Eq)]
struct Journal;

#[test]
fn test_type_safety() {
    let j1: EntityId<Journal> = EntityId::new();
    let j2: EntityId<Journal> = EntityId::new();
    assert_ne!(j1, j2);
}

#[test]
fn test_v7_is_time_ordered() {
    let first = EntityId::<()>::new();
    let second = EntityId::<()>::new();
    let t1 = first.as_uuid().get_timestamp().unwrap().to_unix();
    let t2 = second.as_uuid().get_timestamp().unwrap().to_unix();
    assert!(t1 <= t2);
}

#[test]
fn test_new_creates_different_ids() {
    let a = TenantId::new();
    let b = TenantId::new();
    assert_ne!(a, b);
}

#[test]
fn test_from_uuid_roundtrip() {
    let uuid = Uuid::new_v4();
    let tid = TenantId::from_uuid(uuid);
    assert_eq!(*tid.as_uuid(), uuid);
    assert_eq!(tid.into_inner(), uuid);
}

#[test]
fn entity_id_from_uuid_roundtrip() {
    let uuid = Uuid::new_v4();
    let id: EntityId<Journal> = EntityId::from_uuid(uuid);
    assert_eq!(*id.as_uuid(), uuid);
    assert_eq!(id.into_inner(), uuid);
    let v4: EntityId<Journal> = EntityId::new_v4();
    assert_eq!(v4.as_uuid().get_version_num(), 4);
    let v7: EntityId<Journal> = EntityId::new();
    assert_eq!(v7.as_uuid().get_version_num(), 7);
}

#[test]
fn audit_touch_keeps_creation_data() {
    let creator = Uuid::new_v4();
    let editor = Uuid::new_v4();
    let mut a = AuditInfo::new(creator);
    assert_eq!(a.created_by, creator);
    assert_eq!(a.updated_by, creator);
    assert_eq!(a.created_at, a.updated_at);
    let created_at = a.created_at;
    a.touch(editor);
    assert_eq!(a.created_by, creator);
    assert_eq!(a.created_at, created_at);
    assert_eq!(a.updated_by, editor);
    assert!(a.updated_at >= created_at);
}

#[test]
fn timestamps_are_recent_microseconds() {
    let t = Timestamp::now();
    // 2020-01-01T00:00:00Z in microseconds.
    assert!(t.micros > 1_577_836_800_000_000);
}

#[test]
fn tenant_header_decisions() {
    let u = Uuid::new_v4();
    let text = u.to_string();
    assert_eq!(tenant_from_header(Some(Some(&text))), Ok(TenantId::from_uuid(u)));
    assert_eq!(tenant_from_header(None), Err(TenantHeaderError::Missing));
    assert_eq!(tenant_from_header(Some(None)), Err(TenantHeaderError::Invalid));
    assert_eq!(tenant_from_header(Some(Some("not-a-uuid"))), Err(TenantHeaderError::Invalid));
    assert_eq!(TenantHeaderError::Missing.message(), "missing X-Tenant-Id");
    assert_eq!(TenantHeaderError::Invalid.message(), "invalid X-Tenant-Id");
    assert_eq!(TenantHeaderError::Invalid.status(), 400);
}

#[test]
fn defaults_of_identity_types() {
    let a = AuditInfo::default();
    assert_eq!(a.created_by, Uuid::nil());
    assert_eq!(Some(a.created_by), Uuid::parse_str("00000000-0000-0000-0000-000000000000").ok());
    assert_eq!(a.updated_by, Uuid::nil());
    assert_ne!(TenantId::default(), TenantId::default());
    let e: EntityId<Journal> = EntityId::default();
    assert_eq!(e.as_uuid().get_version_num(), 7);
}
