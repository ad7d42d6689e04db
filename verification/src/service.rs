//! The referral service's own rules: the code it builds for an owner, and how
//! repository failures are reported to its callers.
use vstd::prelude::*;

use crate::referral_code::{
    lemma_distinct_ids_have_distinct_codes, map_to_referral_code, referral_code_text,
    ReferralCodeGenerationError, MAX_ID,
};
use crate::repo::ReferralRepoError;

verus! {

/// Why a service operation failed.
#[derive(Debug, Clone, Copy, PartialEq, Eq, Structural)]
pub enum ReferralServiceError {
    DatabaseError,
    CodeGenerationError,
}

/// The service error that reports a repository error: a code that could not
/// be built is a code generation error, anything else a database error.
pub fn service_error(err: &ReferralRepoError) -> (result: ReferralServiceError)
    ensures
        err is CodeGeneration ==> result == ReferralServiceError::CodeGenerationError,
        !(err is CodeGeneration) ==> result == ReferralServiceError::DatabaseError,
{
    match err {
        ReferralRepoError::CodeGeneration(_) => ReferralServiceError::CodeGenerationError,
        _ => ReferralServiceError::DatabaseError,
    }
}

/// The referral code of the owner with identifier `owner_id`: the code of the
/// identifier's low 32 bits.
pub fn owner_referral_code(owner_id: i64) -> (result: Result<String, ReferralCodeGenerationError>)
    ensures
        (owner_id as u32) > MAX_ID ==> result == Err::<String, ReferralCodeGenerationError>(
            ReferralCodeGenerationError::IdTooLarge(owner_id as u32),
        ),
        (owner_id as u32) <= MAX_ID ==> (result matches Ok(code) && code@ == referral_code_text(
            (owner_id as u32) as int,
        )),
{
    map_to_referral_code(owner_id as u32)
}

/// Distinct owners whose identifiers have codes are given distinct codes.
pub proof fn lemma_distinct_owners_get_distinct_codes(owner1: i64, owner2: i64)
    requires
        0 <= owner1 <= MAX_ID,
        0 <= owner2 <= MAX_ID,
        owner1 != owner2,
    ensures
        (owner1 as u32) <= MAX_ID,
        (owner2 as u32) <= MAX_ID,
        referral_code_text((owner1 as u32) as int) != referral_code_text((owner2 as u32) as int),
{
    assert((owner1 as u32) as int == owner1);
    assert((owner2 as u32) as int == owner2);
    lemma_distinct_ids_have_distinct_codes(owner1 as int, owner2 as int);
}

} // verus!
