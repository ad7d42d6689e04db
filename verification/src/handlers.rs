//! The decisions of the HTTP handlers: which owners may be created, what is
//! answered when creation fails, which redemptions are recorded, and which
//! project the plain export lists.
use vstd::prelude::*;

use crate::json::{json_shape, json_shape_of, JsonShape};
use crate::models::{RedemptionPath, ReferralOwnerWithCode, ReferralRedemptionNew};
use crate::service::ReferralServiceError;
use crate::text::{trim, trimmed_text};

verus! {

/// The status of a request that the service refuses.
pub const BAD_REQUEST: u16 = 400;
/// The status of a request that failed inside the service.
pub const INTERNAL_SERVER_ERROR: u16 = 500;

/// A refused or failed request: the HTTP status and the text of the answer.
#[derive(Debug)]
pub struct Rejection {
    pub status: u16,
    pub message: String,
}

/// What is wrong with the metadata of a new owner, if anything: it must be a
/// JSON object with at least one member.
pub open spec fn owner_meta_problem(meta: Seq<char>) -> Option<Seq<char>> {
    match json_shape_of(meta) {
        Some(JsonShape::Object { members }) => if members == 0 {
            Some("owner meta object cannot be empty"@)
        } else {
            None
        },
        _ => Some("owner meta must be an object"@),
    }
}

/// Checks the metadata of an owner to be created: `Ok` for a JSON object with
/// members; otherwise a `400` answer that says what is wrong.
pub fn check_owner_meta(meta: &str) -> (result: Result<(), Rejection>)
    ensures
        owner_meta_problem(meta@) is None ==> result is Ok,
        owner_meta_problem(meta@) matches Some(message) ==> (result matches Err(rejection)
            && rejection.status == BAD_REQUEST && rejection.message@ == message),
{
    match json_shape(meta) {
        Some(JsonShape::Object { members }) => {
            if members == 0 {
                Err(
                    Rejection {
                        status: BAD_REQUEST,
                        message: "owner meta object cannot be empty".to_string(),
                    },
                )
            } else {
                Ok(())
            }
        },
        _ => Err(Rejection { status: BAD_REQUEST, message: "owner meta must be an object".to_string() }),
    }
}

/// What follows an attempt to create an owner.
#[derive(Debug)]
pub enum OwnerCreationStep {
    /// The owner was created: answer with it.
    Created(ReferralOwnerWithCode),
    /// Creation failed (the owner may exist already): look it up by its metadata.
    LookUpExisting,
}

/// The step after an attempt to create an owner: answer with the new owner,
/// or, whatever the failure, look for an owner with the same metadata.
pub fn after_owner_creation(result: Result<ReferralOwnerWithCode, ReferralServiceError>) -> (step:
    OwnerCreationStep)
    ensures
        result matches Ok(created) ==> step == OwnerCreationStep::Created(created),
        result is Err ==> step == OwnerCreationStep::LookUpExisting,
{
    match result {
        Ok(created) => OwnerCreationStep::Created(created),
        Err(_) => OwnerCreationStep::LookUpExisting,
    }
}

/// The answer after looking up an owner whose creation failed: the owner
/// found; otherwise, when there is none or the lookup failed, a `500` answer
/// `owner creation failed`.
pub fn after_existing_owner_lookup(
    lookup: Result<Option<ReferralOwnerWithCode>, ReferralServiceError>,
) -> (answer: Result<ReferralOwnerWithCode, Rejection>)
    ensures
        lookup matches Ok(Some(owner)) ==> answer == Ok::<ReferralOwnerWithCode, Rejection>(owner),
        !(lookup matches Ok(Some(_))) ==> (answer matches Err(rejection) && rejection.status
            == INTERNAL_SERVER_ERROR && rejection.message@ == "owner creation failed"@),
{
    match lookup {
        Ok(Some(owner)) => Ok(owner),
        _ => Err(Rejection { status: INTERNAL_SERVER_ERROR, message: "owner creation failed".to_string() }),
    }
}

/// The metadata kept with a redemption: the given text when it is a JSON
/// document other than `null` and the empty object; nothing otherwise.
pub open spec fn kept_redemption_meta(meta: Seq<char>) -> Option<Seq<char>> {
    match json_shape_of(meta) {
        None => None,
        Some(JsonShape::Null) => None,
        Some(JsonShape::Object { members }) => if members == 0 {
            None
        } else {
            Some(meta)
        },
        Some(_) => Some(meta),
    }
}

/// The redemption to record for a request: `None` when the code is blank
/// (such a request is answered like any other but records nothing);
/// otherwise the trimmed code with the metadata that is kept.
pub fn redemption_from_path(path: &RedemptionPath) -> (redemption: Option<ReferralRedemptionNew>)
    ensures
        trimmed_text(path.code@).len() == 0 ==> redemption is None,
        trimmed_text(path.code@).len() > 0 ==> (redemption matches Some(r) && r.code@
            == trimmed_text(path.code@) && (r.meta is None <==> kept_redemption_meta(path.meta@) is None)
            && (r.meta matches Some(m) ==> kept_redemption_meta(path.meta@) == Some(m@))),
{
    let trimmed = trim(path.code.as_str());
    if trimmed.is_empty() {
        return None;
    }
    let code = trimmed.to_string();
    let meta = match json_shape(path.meta.as_str()) {
        None => None,
        Some(JsonShape::Null) => None,
        Some(JsonShape::Object { members }) => if members == 0 {
            None
        } else {
            Some(path.meta.clone())
        },
        Some(_) => Some(path.meta.clone()),
    };
    Some(ReferralRedemptionNew { code, meta })
}

/// The project that the plain export lists.
pub fn default_export_project() -> (project: &'static str)
    ensures
        project@ == "bitDCA"@,
{
    "bitDCA"
}

/// Owner metadata is accepted exactly when it is a JSON object with at least
/// one member; an empty object is refused as empty, anything else as not an
/// object.
pub proof fn lemma_owner_meta_acceptance(meta: Seq<char>)
    ensures
        (owner_meta_problem(meta) is None) <==> (json_shape_of(meta) matches Some(
            JsonShape::Object { members },
        ) && members >= 1),
        json_shape_of(meta) == Some(JsonShape::Object { members: 0 }) ==> owner_meta_problem(meta)
            == Some("owner meta object cannot be empty"@),
        !(json_shape_of(meta) matches Some(JsonShape::Object { .. })) ==> owner_meta_problem(meta)
            == Some("owner meta must be an object"@),
{
}

/// The metadata of a redemption is kept, as given, exactly when it is a JSON
/// document other than `null` and the empty object: every object with a
/// member, and every array, string, number and boolean, is kept.
pub proof fn lemma_redemption_meta_kept(meta: Seq<char>)
    ensures
        (kept_redemption_meta(meta) is Some) <==> (json_shape_of(meta) is Some && json_shape_of(meta)
            != Some(JsonShape::Null) && json_shape_of(meta) != Some(JsonShape::Object { members: 0 })),
        kept_redemption_meta(meta) is Some ==> kept_redemption_meta(meta) == Some(meta),
        (json_shape_of(meta) matches Some(JsonShape::Object { members }) && members >= 1)
            ==> kept_redemption_meta(meta) == Some(meta),
{
}

} // verus!
