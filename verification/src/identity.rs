//! Identity types: tenant ids, typed entity ids and audit metadata.

use vstd::prelude::*;
use core::marker::PhantomData;

verus! {

/// A universally unique identifier (the `uuid` crate's type).
#[verifier::external_type_specification]
#[verifier::external_body]
pub struct ExUuid(uuid::Uuid);

/// Calendar dates (the `chrono` crate's type).
#[verifier::external_type_specification]
#[verifier::external_body]
pub struct ExNaiveDate(chrono::NaiveDate);

/// `Clone` of `chrono::NaiveDate`: the type is `Copy`, so a clone is the
/// same date.
pub assume_specification[ <chrono::NaiveDate as Clone>::clone ](d: &chrono::NaiveDate) -> (r: chrono::NaiveDate)
    ensures
        r == *d,
;

/// `Clone` of `uuid::Uuid`: the type is `Copy`, so a clone is the same
/// identifier.
pub assume_specification[ <uuid::Uuid as Clone>::clone ](u: &uuid::Uuid) -> (r: uuid::Uuid)
    ensures
        r == *u,
;

/// A fresh random (version 4) identifier, from `uuid::Uuid::new_v4`.
/// Nothing is claimed of its value: it comes from the random source.
#[verifier::external_body]
fn random_uuid_v4() -> uuid::Uuid {
    uuid::Uuid::new_v4()
}

/// The nil identifier (all 128 bits zero), from `uuid::Uuid::nil`: the
/// identifier that the all-zero hyphenated text denotes.
#[verifier::external_body]
fn nil_uuid() -> (r: uuid::Uuid)
    ensures
        uuid_of_text("00000000-0000-0000-0000-000000000000"@) == Some(r),
{
    uuid::Uuid::nil()
}

/// A fresh time-ordered (version 7) identifier, from `uuid::Uuid::now_v7`.
/// Nothing is claimed of its value: it comes from the clock and the random
/// source.
#[verifier::external_body]
pub(crate) fn time_ordered_uuid() -> uuid::Uuid {
    uuid::Uuid::now_v7()
}

/// The current instant in microseconds since the Unix epoch, from
/// `chrono::Utc::now`. Nothing is claimed of it: it comes from the system
/// clock.
#[verifier::external_body]
fn utc_now_micros() -> i64 {
    chrono::Utc::now().timestamp_micros()
}

/// The identifier a text denotes, as `uuid::Uuid::parse_str` reads it:
/// `None` when the text is not a UUID in one of the formats it accepts.
pub uninterp spec fn uuid_of_text(s: Seq<char>) -> Option<uuid::Uuid>;

/// Parse a UUID text with `uuid::Uuid::parse_str`; `None` when it does not
/// parse.
#[verifier::external_body]
pub(crate) fn parse_uuid(s: &str) -> (r: Option<uuid::Uuid>)
    ensures
        r == uuid_of_text(s@),
{
    uuid::Uuid::parse_str(s).ok()
}

/// A UTC instant, held as microseconds since the Unix epoch.
#[derive(Debug, Clone, Copy, PartialEq, Eq, PartialOrd, Ord, Hash, Structural)]
pub struct Timestamp {
    /// Microseconds since 1970-01-01T00:00:00Z.
    pub micros: i64,
}

impl Timestamp {
    /// The current instant.
    pub fn now() -> (t: Timestamp) {
        Timestamp { micros: utc_now_micros() }
    }
}

/// Tenant identifier newtype.
///
/// Every data row belongs to a tenant; the tenant id is taken from the
/// request context and injected into every query.
#[derive(Debug, Clone, Copy, PartialEq, Eq, Hash)]
pub struct TenantId(uuid::Uuid);

impl TenantId {
    /// The identifier a tenant id wraps.
    pub closed spec fn spec_uuid(self) -> uuid::Uuid {
        self.0
    }

    /// Create a new random TenantId.
    pub fn new() -> (t: Self) {
        TenantId(random_uuid_v4())
    }

    /// Create from an existing UUID.
    pub fn from_uuid(uuid: uuid::Uuid) -> (t: Self)
        ensures
            t.spec_uuid() == uuid,
    {
        TenantId(uuid)
    }

    /// Access the inner UUID.
    pub fn as_uuid(&self) -> (u: &uuid::Uuid)
        ensures
            *u == self.spec_uuid(),
    {
        &self.0
    }

    /// Consume and return the inner UUID.
    pub fn into_inner(self) -> (u: uuid::Uuid)
        ensures
            u == self.spec_uuid(),
    {
        self.0
    }
}

impl Default for TenantId {
    /// A new random tenant id.
    fn default() -> (t: Self) {
        TenantId::new()
    }
}

/// Why a request's tenant header was refused.
#[derive(Debug, Clone, Copy, PartialEq, Eq, Structural)]
pub enum TenantHeaderError {
    /// The request has no `X-Tenant-Id` header.
    Missing,
    /// The header is not visible text holding a UUID.
    Invalid,
}

impl TenantHeaderError {
    /// The HTTP status of the refusal: `400 Bad Request`.
    pub fn status(&self) -> (code: u16)
        ensures
            code == 400,
    {
        400
    }

    /// The text of the refusal.
    pub fn message(&self) -> (m: &'static str)
        ensures
            *self is Missing ==> m@ == "missing X-Tenant-Id"@,
            *self is Invalid ==> m@ == "invalid X-Tenant-Id"@,
    {
        match self {
            TenantHeaderError::Missing => "missing X-Tenant-Id",
            TenantHeaderError::Invalid => "invalid X-Tenant-Id",
        }
    }
}

/// The tenant a request names in its `X-Tenant-Id` header. `header` is
/// `None` when the request has no such header, `Some(None)` when the header
/// is not visible ASCII text, and `Some(Some(v))` when its text is `v`.
pub fn tenant_from_header(header: Option<Option<&str>>) -> (r: Result<TenantId, TenantHeaderError>)
    ensures
        header is None ==> r == Err::<TenantId, TenantHeaderError>(TenantHeaderError::Missing),
        header == Some(None::<&str>) ==> r == Err::<TenantId, TenantHeaderError>(
            TenantHeaderError::Invalid,
        ),
        forall|v: &str|
            #![auto]
            header == Some(Some(v)) ==> match uuid_of_text(v@) {
                Some(u) => r matches Ok(t) && t.spec_uuid() == u,
                None => r == Err::<TenantId, TenantHeaderError>(TenantHeaderError::Invalid),
            },
{
    match header {
        None => Err(TenantHeaderError::Missing),
        Some(None) => Err(TenantHeaderError::Invalid),
        Some(Some(v)) => match parse_uuid(v) {
            Some(u) => Ok(TenantId::from_uuid(u)),
            None => Err(TenantHeaderError::Invalid),
        },
    }
}

/// Typed identifier of an aggregate: the type parameter keeps the ids of
/// different aggregates apart at compile time.
#[derive(Debug, PartialEq, Eq, Hash)]
#[verifier::reject_recursive_types(T)]
pub struct EntityId<T> {
    id: uuid::Uuid,
    _phantom: PhantomData<T>,
}

impl<T> Clone for EntityId<T> {
    fn clone(&self) -> (r: Self)
        ensures
            r == *self,
    {
        EntityId { id: self.id, _phantom: PhantomData }
    }
}

impl<T> Copy for EntityId<T> {
}

impl<T> EntityId<T> {
    /// The identifier an entity id wraps.
    pub closed spec fn spec_uuid(self) -> uuid::Uuid {
        self.id
    }

    /// Create a new time-ordered (v7) id, for aggregate roots.
    pub fn new() -> (e: Self) {
        EntityId { id: time_ordered_uuid(), _phantom: PhantomData }
    }

    /// Create a new random (v4) id, for non-root entities.
    pub fn new_v4() -> (e: Self) {
        EntityId { id: random_uuid_v4(), _phantom: PhantomData }
    }

    /// Create from an existing UUID.
    pub fn from_uuid(uuid: uuid::Uuid) -> (e: Self)
        ensures
            e.spec_uuid() == uuid,
    {
        EntityId { id: uuid, _phantom: PhantomData }
    }

    /// Access the inner UUID.
    pub fn as_uuid(&self) -> (u: &uuid::Uuid)
        ensures
            *u == self.spec_uuid(),
    {
        &self.id
    }

    /// Consume and return the inner UUID.
    pub fn into_inner(self) -> (u: uuid::Uuid)
        ensures
            u == self.spec_uuid(),
    {
        self.id
    }
}

impl<T> Default for EntityId<T> {
    /// A new time-ordered id.
    fn default() -> (e: Self) {
        EntityId::new()
    }
}

/// Audit trail metadata attached to every entity.
#[derive(Debug, Clone, Copy, PartialEq, Eq)]
pub struct AuditInfo {
    /// UUID of the user who created this record.
    pub created_by: uuid::Uuid,
    /// Timestamp when this record was created.
    pub created_at: Timestamp,
    /// UUID of the user who last updated this record.
    pub updated_by: uuid::Uuid,
    /// Timestamp when this record was last updated.
    pub updated_at: Timestamp,
}

impl AuditInfo {
    /// A new AuditInfo with the given user as both creator and updater,
    /// created and updated at the same instant.
    pub fn new(created_by: uuid::Uuid) -> (a: Self)
        ensures
            a.created_by == created_by,
            a.updated_by == created_by,
            a.created_at == a.updated_at,
    {
        let now = Timestamp::now();
        AuditInfo { created_by, created_at: now, updated_by: created_by, updated_at: now }
    }

    /// Mark as updated by the given user now; creation data is kept.
    pub fn touch(&mut self, updated_by: uuid::Uuid)
        ensures
            final(self).updated_by == updated_by,
            final(self).created_by == old(self).created_by,
            final(self).created_at == old(self).created_at,
    {
        self.updated_by = updated_by;
        self.updated_at = Timestamp::now();
    }
}

impl Default for AuditInfo {
    /// Audit data of no user (the nil id as creator and updater), stamped
    /// now.
    fn default() -> (a: Self)
        ensures
            uuid_of_text("00000000-0000-0000-0000-000000000000"@) == Some(a.created_by),
            a.created_by == a.updated_by,
    {
        let nobody = nil_uuid();
        AuditInfo {
            created_by: nobody,
            created_at: Timestamp::now(),
            updated_by: nobody,
            updated_at: Timestamp::now(),
        }
    }
}

} // verus!
