//! Errors that the Mars program reports to the runtime as custom error codes.

use solana_program::program_error::ProgramError;
use vstd::prelude::*;

verus! {

/// The outside error type that a Solana program returns.
#[verifier::external_type_specification]
#[verifier::external_body]
pub struct ExProgramError(ProgramError);

/// The value of `ProgramError::Custom(code)`.
pub uninterp spec fn custom_program_error(code: u32) -> ProgramError;

/// Builds `ProgramError::Custom(code)`: the contract names the result as
/// `custom_program_error(code)`, a function of `code` alone, and says that
/// `Custom` is a plain constructor: no other code gives the same error.
#[verifier::external_body]
fn program_error_custom(code: u32) -> (e: ProgramError)
    ensures
        e == custom_program_error(code),
        forall|other: u32| #[trigger] custom_program_error(other) == e ==> other == code,
{
    ProgramError::Custom(code)
}

/// The number by which the runtime reports `ProgramError::InvalidAccountData`
/// (four in the upper 32 bits).
pub const INVALID_ACCOUNT_DATA: u64 = 17179869184;

/// The value of `ProgramError::from(number)`, the outside crate's conversion
/// from the runtime's error numbers.
pub uninterp spec fn program_error_from_number(number: u64) -> ProgramError;

/// Calls `ProgramError::from(number)` (`From<u64> for ProgramError`), which
/// maps `INVALID_ACCOUNT_DATA` to `ProgramError::InvalidAccountData`; the
/// contract names the result as `program_error_from_number(number)`.
#[verifier::external_body]
pub(crate) fn program_error_from_u64(number: u64) -> (e: ProgramError)
    ensures
        e == program_error_from_number(number),
{
    ProgramError::from(number)
}

/// Errors of the Mars program; each is reported as a custom program error
/// whose number is its `code`.
#[derive(Debug, Clone, Copy, PartialEq, Eq, Structural)]
pub enum MarsError {
    /// The starting time has not passed yet.
    NotStarted,
    /// The epoch has ended and needs reset.
    NeedsReset,
    /// The epoch is active and cannot be reset at this time.
    ResetTooEarly,
    /// The provided hash was invalid.
    HashInvalid,
    /// The provided hash does not satisfy the difficulty requirement.
    DifficultyNotSatisfied,
    /// The bus does not have enough rewards to issue at this time.
    BusRewardsInsufficient,
    /// The claim amount cannot be greater than the claimable rewards.
    ClaimTooLarge,
    /// The mining has ended.
    HasEnded,
}

impl MarsError {
    /// The number that represents the error: its position in the declaration.
    pub open spec fn spec_code(self) -> u32 {
        match self {
            MarsError::NotStarted => 0,
            MarsError::NeedsReset => 1,
            MarsError::ResetTooEarly => 2,
            MarsError::HashInvalid => 3,
            MarsError::DifficultyNotSatisfied => 4,
            MarsError::BusRewardsInsufficient => 5,
            MarsError::ClaimTooLarge => 6,
            MarsError::HasEnded => 7,
        }
    }

    /// The human-readable description of the error.
    pub open spec fn spec_message(self) -> Seq<char> {
        match self {
            MarsError::NotStarted => "The starting time has not passed yet"@,
            MarsError::NeedsReset => "The epoch has ended and needs reset"@,
            MarsError::ResetTooEarly => "The epoch is active and cannot be reset at this time"@,
            MarsError::HashInvalid => "The provided hash was invalid"@,
            MarsError::DifficultyNotSatisfied => "The provided hash does not satisfy the difficulty requirement"@,
            MarsError::BusRewardsInsufficient => "The bus does not have enough rewards to issue at this time"@,
            MarsError::ClaimTooLarge => "The claim amount cannot be greater than the claimable rewards"@,
            MarsError::HasEnded => "The mining has ended"@,
        }
    }

    /// The error's number, as it is reported to the runtime.
    pub fn code(self) -> (c: u32)
        ensures
            c == self.spec_code(),
    {
        match self {
            MarsError::NotStarted => 0,
            MarsError::NeedsReset => 1,
            MarsError::ResetTooEarly => 2,
            MarsError::HashInvalid => 3,
            MarsError::DifficultyNotSatisfied => 4,
            MarsError::BusRewardsInsufficient => 5,
            MarsError::ClaimTooLarge => 6,
            MarsError::HasEnded => 7,
        }
    }

    /// The error's description.
    pub fn message(self) -> (s: &'static str)
        ensures
            s@ == self.spec_message(),
    {
        match self {
            MarsError::NotStarted => "The starting time has not passed yet",
            MarsError::NeedsReset => "The epoch has ended and needs reset",
            MarsError::ResetTooEarly => "The epoch is active and cannot be reset at this time",
            MarsError::HashInvalid => "The provided hash was invalid",
            MarsError::DifficultyNotSatisfied => "The provided hash does not satisfy the difficulty requirement",
            MarsError::BusRewardsInsufficient => "The bus does not have enough rewards to issue at this time",
            MarsError::ClaimTooLarge => "The claim amount cannot be greater than the claimable rewards",
            MarsError::HasEnded => "The mining has ended",
        }
    }
}

/// Distinct errors have distinct codes, so the runtime's error number tells
/// which error the program raised.
pub proof fn lemma_error_codes_distinct(a: MarsError, b: MarsError)
    ensures
        a.spec_code() == b.spec_code() <==> a == b,
{
}

/// The error codes are exactly the numbers below eight.
pub proof fn lemma_error_codes_cover(n: u32)
    ensures
        n < 8 <==> exists|e: MarsError| e.spec_code() == n,
{
    if n < 8 {
        let e = if n == 0 {
            MarsError::NotStarted
        } else if n == 1 {
            MarsError::NeedsReset
        } else if n == 2 {
            MarsError::ResetTooEarly
        } else if n == 3 {
            MarsError::HashInvalid
        } else if n == 4 {
            MarsError::DifficultyNotSatisfied
        } else if n == 5 {
            MarsError::BusRewardsInsufficient
        } else if n == 6 {
            MarsError::ClaimTooLarge
        } else {
            MarsError::HasEnded
        };
        assert(e.spec_code() == n);
    }
}

impl From<MarsError> for u32 {
    fn from(e: MarsError) -> (c: u32) {
        e.code()
    }
}

impl vstd::std_specs::convert::FromSpecImpl<MarsError> for u32 {
    open spec fn obeys_from_spec() -> bool {
        true
    }

    open spec fn from_spec(e: MarsError) -> u32 {
        e.spec_code()
    }
}

impl From<MarsError> for ProgramError {
    /// The custom program error of the error's code. Distinct Mars errors
    /// stay distinct: no other Mars error converts to the same value.
    fn from(e: MarsError) -> (p: ProgramError)
        ensures
            p == custom_program_error(e.spec_code()),
            forall|other: MarsError|
                #[trigger] custom_program_error(other.spec_code()) == p <==> other == e,
    {
        let p = program_error_custom(e.code());
        proof {
            assert forall|other: MarsError|
                #[trigger] custom_program_error(other.spec_code()) == p implies other == e by {
                lemma_error_codes_distinct(other, e);
            }
        }
        p
    }
}

impl vstd::std_specs::convert::FromSpecImpl<MarsError> for ProgramError {
    open spec fn obeys_from_spec() -> bool {
        true
    }

    open spec fn from_spec(e: MarsError) -> ProgramError {
        custom_program_error(e.spec_code())
    }
}

} // verus!
