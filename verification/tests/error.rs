use mars::MarsError;
use solana_program::program_error::ProgramError;

const ALL: [MarsError; 8] = [
    MarsError::NotStarted,
    MarsError::NeedsReset,
    MarsError::ResetTooEarly,
    MarsError::HashInvalid,
    MarsError::DifficultyNotSatisfied,
    MarsError::BusRewardsInsufficient,
    MarsError::ClaimTooLarge,
    MarsError::HasEnded,
];

#[test]
fn error_codes_follow_declaration_order() {
    for (i, e) in ALL.iter().enumerate() {
        assert_eq!(e.code(), i as u32);
        assert_eq!(u32::from(*e), i as u32);
    }
}

#[test]
fn error_codes_are_distinct() {
    for a in ALL.iter() {
        for b in ALL.iter() {
            assert_eq!(a.code() == b.code(), a == b);
        }
    }
}

#[test]
fn error_into_program_error_is_custom_code() {
    assert_eq!(ProgramError::from(MarsError::NotStarted), ProgramError::Custom(0));
    assert_eq!(ProgramError::from(MarsError::HashInvalid), ProgramError::Custom(3));
    assert_eq!(ProgramError::from(MarsError::HasEnded), ProgramError::Custom(7));
    let e: ProgramError = MarsError::ClaimTooLarge.into();
    assert_eq!(e, ProgramError::Custom(6));
}

#[test]
fn error_messages() {
    assert_eq!(MarsError::NotStarted.message(), "The starting time has not passed yet");
    assert_eq!(MarsError::NeedsReset.message(), "The epoch has ended and needs reset");
    assert_eq!(
        MarsError::ResetTooEarly.message(),
        "The epoch is active and cannot be reset at this time"
    );
    assert_eq!(MarsError::HashInvalid.message(), "The provided hash was invalid");
    assert_eq!(
        MarsError::DifficultyNotSatisfied.message(),
        "The provided hash does not satisfy the difficulty requirement"
    );
    assert_eq!(
        MarsError::BusRewardsInsufficient.message(),
        "The bus does not have enough rewards to issue at this time"
    );
    assert_eq!(
        MarsError::ClaimTooLarge.message(),
        "The claim amount cannot be greater than the claimable rewards"
    );
    assert_eq!(MarsError::HasEnded.message(), "The mining has ended");
}

#[test]
fn error_program_errors_pairwise_distinct() {
    let converted: Vec<ProgramError> = ALL.iter().map(|e| ProgramError::from(*e)).collect();
    for (i, p) in converted.iter().enumerate() {
        assert_eq!(*p, ProgramError::Custom(i as u32));
    }
    for i in 0..converted.len() {
        for j in 0..converted.len() {
            assert_eq!(converted[i] == converted[j], i == j);
        }
    }
}

#[test]
fn invalid_account_data_number() {
    assert_eq!(mars::error::INVALID_ACCOUNT_DATA, 4u64 << 32);
    assert_eq!(
        mars::error::INVALID_ACCOUNT_DATA,
        solana_program::program_error::INVALID_ACCOUNT_DATA
    );
}
