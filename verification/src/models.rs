//! The records of the referral service. JSON documents are held as their
//! text, and timestamps as seconds and nanoseconds since the Unix epoch.
use vstd::prelude::*;

verus! {

/// A point in time without a zone, as seconds and nanoseconds counted from
/// 1970-01-01 00:00:00.
#[derive(Debug, Clone, Copy, PartialEq, Eq, Structural)]
pub struct Timestamp {
    pub secs: i64,
    pub nanos: u32,
}

/// An owner of a referral code, with the JSON text of its metadata.
#[derive(Debug)]
pub struct ReferralOwner {
    pub id: i64,
    pub meta: String,
    pub created_at: Timestamp,
    pub updated_at: Timestamp,
}

/// The data of an owner to be created.
#[derive(Debug)]
pub struct ReferralOwnerNew {
    pub meta: String,
}

/// A stored referral code.
#[derive(Debug)]
pub struct ReferralCode {
    pub owner_id: i64,
    pub code: String,
    pub is_active: bool,
    pub use_count: i32,
    pub created_at: Timestamp,
    pub updated_at: Timestamp,
}

/// A referral code to be stored.
#[derive(Debug)]
pub struct ReferralCodeNew {
    pub owner_id: i64,
    pub code: String,
    pub is_active: bool,
    pub use_count: i32,
}

/// A stored redemption of a code, with the JSON text of its metadata if any.
#[derive(Debug)]
pub struct ReferralRedemption {
    pub id: i64,
    pub code: String,
    pub meta: Option<String>,
    pub created_at: Timestamp,
}

/// A redemption to be stored.
#[derive(Debug)]
pub struct ReferralRedemptionNew {
    pub code: String,
    pub meta: Option<String>,
}

/// An owner together with its code.
#[derive(Debug)]
pub struct ReferralOwnerWithCode {
    pub owner: ReferralOwner,
    pub code: ReferralCode,
}

/// The path parameters of a redemption request.
#[derive(Debug)]
pub struct RedemptionPath {
    pub code: String,
    pub meta: String,
    pub ts: String,
}

/// One row of a project export: an owner, its code, and one of the code's
/// redemptions if it has any.
#[derive(Debug)]
pub struct ProjectExportRow {
    pub owner_id: i64,
    pub owner_meta: String,
    pub owner_created_at: Timestamp,
    pub owner_updated_at: Timestamp,
    pub code: String,
    pub code_is_active: bool,
    pub code_use_count: i32,
    pub code_created_at: Timestamp,
    pub code_updated_at: Timestamp,
    pub redemption_id: Option<i64>,
    pub redemption_meta: Option<String>,
    pub redemption_created_at: Option<Timestamp>,
}

} // verus!
