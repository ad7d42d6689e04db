//! The arguments of the program that lists the codes of a range of
//! identifiers.
use vstd::prelude::*;

use crate::decimal::{parse_u32, parsed_u32};
use crate::referral_code::{
    code_line, code_line_text, ReferralCodeGenerationError, MAX_ID,
};

verus! {

/// Why the arguments do not name a range of identifiers.
#[derive(Debug, Clone, Copy, PartialEq, Eq, Structural)]
pub enum RangeArgsError {
    /// The first argument is not a 32-bit unsigned number.
    InvalidStart,
    /// The second argument is not a 32-bit unsigned number.
    InvalidEnd,
    /// The first identifier is larger than the last.
    StartAfterEnd,
}

/// The range that the arguments name, checked in this order: the start must
/// parse, then the end, and the start must not exceed the end.
pub open spec fn range_args(start: Seq<char>, end: Seq<char>) -> Result<(u32, u32), RangeArgsError> {
    match parsed_u32(start) {
        None => Err(RangeArgsError::InvalidStart),
        Some(first) => match parsed_u32(end) {
            None => Err(RangeArgsError::InvalidEnd),
            Some(last) => if first > last {
                Err(RangeArgsError::StartAfterEnd)
            } else {
                Ok((first, last))
            },
        },
    }
}

/// Reads the first and last identifier of the range to list.
pub fn parse_range_args(start: &str, end: &str) -> (range: Result<(u32, u32), RangeArgsError>)
    ensures
        range == range_args(start@, end@),
{
    let first = match parse_u32(start) {
        Some(value) => value,
        None => return Err(RangeArgsError::InvalidStart),
    };
    let last = match parse_u32(end) {
        Some(value) => value,
        None => return Err(RangeArgsError::InvalidEnd),
    };
    if first > last {
        return Err(RangeArgsError::StartAfterEnd);
    }
    Ok((first, last))
}

/// One step of listing the codes of a range of identifiers.
#[derive(Debug)]
pub enum ListingStep {
    /// Print this line, then go on with `next`, if any.
    Line { text: String, next: Option<u32> },
    /// The identifier has no code: report the error and stop.
    Failed(ReferralCodeGenerationError),
}

/// The step of the listing at identifier `id` of a range that ends at `end`:
/// the line `<id> <code>` and the identifier after `id` while `id < end`; or
/// the error when `id` has no code.
pub fn listing_step(id: u32, end: u32) -> (step: ListingStep)
    ensures
        id > MAX_ID ==> step == ListingStep::Failed(ReferralCodeGenerationError::IdTooLarge(id)),
        id <= MAX_ID ==> (step matches ListingStep::Line { text, next } && text@ == code_line_text(
            id as int,
        ) && next == (if id < end {
            Some((id + 1) as u32)
        } else {
            None::<u32>
        })),
{
    match code_line(id) {
        Ok(text) => {
            let next = if id < end {
                Some(id + 1)
            } else {
                None
            };
            ListingStep::Line { text, next }
        },
        Err(error) => ListingStep::Failed(error),
    }
}

/// A range is accepted only when both arguments parse and its start does not
/// exceed its end; when both parse and the start exceeds the end, it is
/// refused as `StartAfterEnd`.
pub proof fn lemma_range_args_ordered(start: Seq<char>, end: Seq<char>)
    ensures
        range_args(start, end) matches Ok((first, last)) ==> first <= last && parsed_u32(start)
            == Some(first) && parsed_u32(end) == Some(last),
        (parsed_u32(start) is Some && parsed_u32(end) is Some && parsed_u32(start)->Some_0
            > parsed_u32(end)->Some_0) ==> range_args(start, end) == Err::<(u32, u32), RangeArgsError>(
            RangeArgsError::StartAfterEnd,
        ),
        (parsed_u32(start) is Some && parsed_u32(end) is Some && parsed_u32(start)->Some_0
            <= parsed_u32(end)->Some_0) ==> range_args(start, end) == Ok::<(u32, u32), RangeArgsError>(
            (parsed_u32(start)->Some_0, parsed_u32(end)->Some_0),
        ),
        parsed_u32(start) is None ==> range_args(start, end) == Err::<(u32, u32), RangeArgsError>(
            RangeArgsError::InvalidStart,
        ),
{
}

} // verus!
