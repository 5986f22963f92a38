//! Shared enums, constants and helpers used by every Remitwise component.

use vstd::prelude::*;

verus! {

/// An account identity. Every component only ever compares accounts for
/// equality, so an account is represented by a stable integer handle.
pub type AccountId = u64;

/// Financial categories for remittance allocation.
#[derive(Clone, Copy, Debug, PartialEq, Eq, Structural)]
pub enum Category {
    Spending,
    Savings,
    Bills,
    Insurance,
}

/// Family roles for access control. Declaration order is privilege order:
/// `Owner < Admin < Member < Viewer`.
#[derive(Clone, Copy, Debug, PartialEq, Eq, Structural, PartialOrd, Ord)]
pub enum FamilyRole {
    Owner,
    Admin,
    Member,
    Viewer,
}

/// Insurance coverage types.
#[derive(Clone, Copy, Debug, PartialEq, Eq, Structural)]
pub enum CoverageType {
    Health,
    Life,
    Property,
    Auto,
    Liability,
}

/// Event categories for logging.
#[derive(Clone, Copy, Debug, PartialEq, Eq, Structural)]
pub enum EventCategory {
    Transaction,
    State,
    Alert,
    System,
    Access,
}

/// Event priorities for logging.
#[derive(Clone, Copy, Debug, PartialEq, Eq, Structural)]
pub enum EventPriority {
    Low,
    Medium,
    High,
}

/// Wire code of a category (stable across releases).
pub open spec fn category_code(c: Category) -> u32 {
    match c {
        Category::Spending => 1,
        Category::Savings => 2,
        Category::Bills => 3,
        Category::Insurance => 4,
    }
}

/// Wire code of a family role (stable across releases).
pub open spec fn family_role_code(r: FamilyRole) -> u32 {
    match r {
        FamilyRole::Owner => 1,
        FamilyRole::Admin => 2,
        FamilyRole::Member => 3,
        FamilyRole::Viewer => 4,
    }
}

/// Wire code of a coverage type (stable across releases).
pub open spec fn coverage_type_code(c: CoverageType) -> u32 {
    match c {
        CoverageType::Health => 1,
        CoverageType::Life => 2,
        CoverageType::Property => 3,
        CoverageType::Auto => 4,
        CoverageType::Liability => 5,
    }
}

/// Wire code of an event category (the topic value in published events).
pub open spec fn event_category_code(c: EventCategory) -> u32 {
    match c {
        EventCategory::Transaction => 0,
        EventCategory::State => 1,
        EventCategory::Alert => 2,
        EventCategory::System => 3,
        EventCategory::Access => 4,
    }
}

/// Wire code of an event priority (the topic value in published events).
pub open spec fn event_priority_code(p: EventPriority) -> u32 {
    match p {
        EventPriority::Low => 0,
        EventPriority::Medium => 1,
        EventPriority::High => 2,
    }
}

impl Category {
    pub fn to_u32(self) -> (r: u32)
        ensures
            r == category_code(self),
    {
        match self {
            Category::Spending => 1,
            Category::Savings => 2,
            Category::Bills => 3,
            Category::Insurance => 4,
        }
    }
}

impl FamilyRole {
    pub fn to_u32(self) -> (r: u32)
        ensures
            r == family_role_code(self),
    {
        match self {
            FamilyRole::Owner => 1,
            FamilyRole::Admin => 2,
            FamilyRole::Member => 3,
            FamilyRole::Viewer => 4,
        }
    }
}

impl CoverageType {
    pub fn to_u32(self) -> (r: u32)
        ensures
            r == coverage_type_code(self),
    {
        match self {
            CoverageType::Health => 1,
            CoverageType::Life => 2,
            CoverageType::Property => 3,
            CoverageType::Auto => 4,
            CoverageType::Liability => 5,
        }
    }
}

impl EventCategory {
    pub fn to_u32(self) -> (r: u32)
        ensures
            r == event_category_code(self),
    {
        match self {
            EventCategory::Transaction => 0,
            EventCategory::State => 1,
            EventCategory::Alert => 2,
            EventCategory::System => 3,
            EventCategory::Access => 4,
        }
    }
}

impl EventPriority {
    pub fn to_u32(self) -> (r: u32)
        ensures
            r == event_priority_code(self),
    {
        match self {
            EventPriority::Low => 0,
            EventPriority::Medium => 1,
            EventPriority::High => 2,
        }
    }
}

/// Default page size used when a caller asks for a limit of zero.
pub const DEFAULT_PAGE_LIMIT: u32 = 20;

/// Largest page size any paginated query returns.
pub const MAX_PAGE_LIMIT: u32 = 50;

/// Signature expiration time (24 hours in seconds).
pub const SIGNATURE_EXPIRATION: u64 = 86400;

/// Contract version reported before any upgrade.
pub const CONTRACT_VERSION: u32 = 1;

/// Maximum batch size for operations.
pub const MAX_BATCH_SIZE: u32 = 50;

/// Ledgers per day (about 5 seconds per ledger).
pub const DAY_IN_LEDGERS: u32 = 17280;

/// Instance storage TTL extension (30 days).
pub const INSTANCE_BUMP_AMOUNT: u32 = 30 * DAY_IN_LEDGERS;

/// Instance storage TTL threshold (1 day).
pub const INSTANCE_LIFETIME_THRESHOLD: u32 = 1 * DAY_IN_LEDGERS;

/// Persistent storage TTL extension (60 days).
pub const PERSISTENT_BUMP_AMOUNT: u32 = 60 * DAY_IN_LEDGERS;

/// Persistent storage TTL threshold (15 days).
pub const PERSISTENT_LIFETIME_THRESHOLD: u32 = 15 * DAY_IN_LEDGERS;

/// Storage TTL for archived contract data (150 days).
pub const ARCHIVE_BUMP_AMOUNT: u32 = 150 * DAY_IN_LEDGERS;

/// Archive TTL threshold (1 day).
pub const ARCHIVE_LIFETIME_THRESHOLD: u32 = DAY_IN_LEDGERS;

/// The page size that a requested `limit` is normalised to.
pub open spec fn clamped_limit(limit: u32) -> u32 {
    if limit == 0 {
        DEFAULT_PAGE_LIMIT
    } else if limit > MAX_PAGE_LIMIT {
        MAX_PAGE_LIMIT
    } else {
        limit
    }
}

/// Normalises a caller-supplied page size: zero means the default, anything
/// above the maximum is capped, and every other value passes through.
/// The result always lies in `[1, MAX_PAGE_LIMIT]`.
pub fn clamp_limit(limit: u32) -> (r: u32)
    ensures
        r == clamped_limit(limit),
        1 <= r <= MAX_PAGE_LIMIT,
        1 <= limit <= MAX_PAGE_LIMIT ==> r == limit,
{
    if limit == 0 {
        DEFAULT_PAGE_LIMIT
    } else if limit > MAX_PAGE_LIMIT {
        MAX_PAGE_LIMIT
    } else {
        limit
    }
}

/// Clamping a limit twice gives the same page size as clamping it once.
pub proof fn lemma_clamp_limit_idempotent(limit: u32)
    ensures
        clamped_limit(clamped_limit(limit)) == clamped_limit(limit),
{
}

/// Topic schema of the events that every component publishes.
///
/// A published event carries four topics: the fixed namespace `"Remitwise"`,
/// the category code, the priority code and an action name. Batch events
/// always use the low priority and the action name `"batch"`, moving the
/// real action into the payload.
pub struct RemitwiseEvents;

impl RemitwiseEvents {
    /// The numeric topics (category, priority) of a single event.
    pub fn topic_codes(category: EventCategory, priority: EventPriority) -> (r: (u32, u32))
        ensures
            r == (event_category_code(category), event_priority_code(priority)),
    {
        (category.to_u32(), priority.to_u32())
    }

    /// The numeric topics (category, priority) of a batch event.
    pub fn batch_topic_codes(category: EventCategory) -> (r: (u32, u32))
        ensures
            r == (event_category_code(category), event_priority_code(EventPriority::Low)),
    {
        (category.to_u32(), EventPriority::Low.to_u32())
    }
}

} // verus!
