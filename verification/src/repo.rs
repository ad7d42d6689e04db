//! The decisions of the referral repository: which stored code belongs to an
//! owner, when a redemption failed to count, and the code row of a new owner.
use vstd::prelude::*;

use crate::models::{ReferralCode, ReferralCodeNew};

verus! {

/// A failure reported by the database.
#[derive(Debug)]
pub enum DatabaseError {
    /// The row that was looked for does not exist.
    NotFound,
    /// Any other failure, with the database's description of it.
    Failed(String),
}

/// Why a repository operation failed.
#[derive(Debug)]
pub enum ReferralRepoError {
    /// No connection could be taken from the pool.
    Pool(String),
    /// The database reported a failure.
    Diesel(DatabaseError),
    /// An owner has more than one code.
    MultipleCodes { owner_id: i64, count: usize },
    /// The code of a new owner could not be built; the message says why.
    CodeGeneration(String),
}

/// The code of an owner, from the codes stored for it (the query asks for at
/// most two): the code when there is exactly one, `NotFound` when there is
/// none, and `MultipleCodes` with their number otherwise.
pub fn select_owner_code(owner_id: i64, codes: Vec<ReferralCode>) -> (result: Result<
    ReferralCode,
    ReferralRepoError,
>)
    ensures
        codes.len() == 1 ==> result == Ok::<ReferralCode, ReferralRepoError>(codes@[0]),
        codes.len() == 0 ==> result == Err::<ReferralCode, ReferralRepoError>(
            ReferralRepoError::Diesel(DatabaseError::NotFound),
        ),
        codes.len() > 1 ==> result == Err::<ReferralCode, ReferralRepoError>(
            ReferralRepoError::MultipleCodes { owner_id, count: codes.len() },
        ),
{
    let count = codes.len();
    if count == 1 {
        let mut codes = codes;
        match codes.pop() {
            Some(code) => Ok(code),
            None => Err(ReferralRepoError::Diesel(DatabaseError::NotFound)),
        }
    } else if count == 0 {
        Err(ReferralRepoError::Diesel(DatabaseError::NotFound))
    } else {
        Err(ReferralRepoError::MultipleCodes { owner_id, count })
    }
}

/// After a redemption is stored, the use count of its code is raised; when
/// no code row was updated the redemption fails with `NotFound`.
pub fn check_code_counted(updated: usize) -> (result: Result<(), ReferralRepoError>)
    ensures
        updated == 0 ==> result == Err::<(), ReferralRepoError>(
            ReferralRepoError::Diesel(DatabaseError::NotFound),
        ),
        updated != 0 ==> result == Ok::<(), ReferralRepoError>(()),
{
    if updated == 0 {
        Err(ReferralRepoError::Diesel(DatabaseError::NotFound))
    } else {
        Ok(())
    }
}

/// The code row stored for a new owner, from the outcome of building its
/// code: an active code, not used yet; or `CodeGeneration` with the message
/// when the code could not be built.
pub fn code_row_for_owner(owner_id: i64, built: Result<String, String>) -> (result: Result<
    ReferralCodeNew,
    ReferralRepoError,
>)
    ensures
        built is Err ==> result == Err::<ReferralCodeNew, ReferralRepoError>(
            ReferralRepoError::CodeGeneration(built->Err_0),
        ),
        built is Ok ==> result == Ok::<ReferralCodeNew, ReferralRepoError>(
            ReferralCodeNew { owner_id, code: built->Ok_0, is_active: true, use_count: 0 },
        ),
{
    match built {
        Ok(code) => Ok(ReferralCodeNew { owner_id, code, is_active: true, use_count: 0 }),
        Err(message) => Err(ReferralRepoError::CodeGeneration(message)),
    }
}

} // verus!
