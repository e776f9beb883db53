use solbridge_rewards::error::{ProcessError, SurveyError};
use solbridge_rewards::processor::Processor;
use solbridge_rewards::state::{Identity, ParticipantAccount, SurveyAccount};

fn identity(n: u64) -> Identity {
    Identity { w0: n, w1: n.wrapping_mul(31), w2: n.wrapping_add(7), w3: !n }
}

fn make_survey(owner: Identity, sol: u64, token: u64, max: u32) -> SurveyAccount {
    SurveyAccount::new(b"test_survey_001".to_vec(), owner, sol, token, identity(99), max, 1_700_000_000)
}

#[test]
fn test_initialize_survey() {
    let owner = identity(1);
    let token_mint = identity(2);
    let survey_id = b"test_survey_001".to_vec();
    let sol_reward_amount = 1_000_000u64;
    let token_reward_amount = 100_000_000u64;
    let max_participants = 1000u32;

    let r = Processor::process_initialize_survey(
        None,
        owner,
        true,
        token_mint,
        10_000_000_000,
        2_000_000,
        1_700_000_000,
        survey_id.clone(),
        sol_reward_amount,
        token_reward_amount,
        max_participants,
    );
    let survey = r.expect("Survey account not found");
    assert!(survey.is_initialized);
    assert!(survey.is_active);
    assert_eq!(survey.survey_id, survey_id);
    assert_eq!(survey.owner, owner);
    assert_eq!(survey.sol_reward_amount, sol_reward_amount);
    assert_eq!(survey.token_reward_amount, token_reward_amount);
    assert_eq!(survey.token_mint, token_mint);
    assert_eq!(survey.max_participants, max_participants);
    assert_eq!(survey.current_participants, 0);
    assert_eq!(survey.created_at, 1_700_000_000);
    assert_eq!(survey.nft_collection, None);
}

#[test]
fn test_claim_reward() {
    let owner = identity(1);
    let participant = identity(10);
    let survey = make_survey(owner, 1_000_000, 100_000_000, 1000);
    let survey_id = survey.survey_id.clone();

    let r = Processor::process_claim_reward(
        &survey,
        None,
        participant,
        true,
        &survey_id,
        5_000_000,
        300,
        1_700_000_100,
    );
    let o = r.expect("claim should succeed");
    assert_eq!(o.survey.current_participants, 1);
    assert_eq!(o.survey_lamports, 4_000_000);
    assert_eq!(o.participant_lamports, 1_000_300);
    assert_eq!(o.token_transfer_amount, 100_000_000);
    assert!(o.participant.has_claimed_sol);
    assert!(o.participant.has_claimed_token);
    assert!(!o.participant.has_received_nft);
    assert_eq!(o.participant.claimed_at, Some(1_700_000_100));
    assert_eq!(o.participant.participant, participant);
    assert_eq!(o.participant.survey_id, survey_id);
}

#[test]
fn test_distribute_nft() {
    let owner = identity(1);
    let participant = identity(10);
    let survey = make_survey(owner, 0, 100, 10);
    let survey_id = survey.survey_id.clone();
    let part = ParticipantAccount::new(survey_id.clone(), participant);

    let r = Processor::process_distribute_nft(&survey, Some(&part), owner, true, &survey_id);
    let o = r.expect("distribution should succeed");
    assert!(o.participant.has_received_nft);
    assert_eq!(o.mint_amount, 1);

    // A second distribution against the updated record is rejected.
    let again =
        Processor::process_distribute_nft(&survey, Some(&o.participant), owner, true, &survey_id);
    assert_eq!(again, Err(ProcessError::Survey(SurveyError::AlreadyClaimed)));
}

#[test]
fn test_close_survey() {
    let owner = identity(1);
    let survey = make_survey(owner, 500, 0, 10);
    let survey_id = survey.survey_id.clone();

    let r = Processor::process_close_survey(&survey, owner, true, &survey_id, 7_777, 1_000);
    let o = r.expect("closure should succeed");
    assert!(!o.survey.is_active);
    assert_eq!(o.survey_lamports, 0);
    assert_eq!(o.owner_lamports, 8_777);

    // The campaign is terminal: nothing succeeds against it afterwards.
    let claim = Processor::process_claim_reward(
        &o.survey,
        None,
        identity(50),
        true,
        &survey_id,
        0,
        0,
        1_700_000_200,
    );
    assert_eq!(claim, Err(ProcessError::Survey(SurveyError::SurveyClosed)));
    let close_again = Processor::process_close_survey(&o.survey, owner, true, &survey_id, 0, 0);
    assert_eq!(close_again, Err(ProcessError::Survey(SurveyError::SurveyClosed)));
}

#[test]
fn test_full_campaign_scenario() {
    let owner = identity(1);
    let a = identity(11);
    let b = identity(12);
    let c = identity(13);
    let d = identity(14);
    let survey_id = b"s1".to_vec();

    // InitializeSurvey("s1", native=1_000_000, token=100_000_000, max=2).
    let survey = Processor::process_initialize_survey(
        None,
        owner,
        true,
        identity(2),
        10_000_000_000,
        2_000_000,
        1_700_000_000,
        survey_id.clone(),
        1_000_000,
        100_000_000,
        2,
    )
    .expect("initialization should succeed");
    assert!(survey.is_active);
    assert_eq!(survey.current_participants, 0);

    // ClaimReward by A: native and token move, count becomes 1, flags set.
    let mut survey_lamports = 10_000_000_000u64;
    let oa = Processor::process_claim_reward(
        &survey, None, a, true, &survey_id, survey_lamports, 0, 1_700_000_010,
    )
    .expect("first claim by A should succeed");
    survey_lamports = oa.survey_lamports;
    assert_eq!(survey_lamports, 9_999_000_000);
    assert_eq!(oa.participant_lamports, 1_000_000);
    assert_eq!(oa.token_transfer_amount, 100_000_000);
    assert_eq!(oa.survey.current_participants, 1);
    assert!(oa.participant.has_claimed_sol && oa.participant.has_claimed_token);

    // Repeat by A: AlreadyClaimed, count stays 1.
    let again = Processor::process_claim_reward(
        &oa.survey,
        Some(&oa.participant),
        a,
        true,
        &survey_id,
        survey_lamports,
        oa.participant_lamports,
        1_700_000_020,
    );
    assert_eq!(again, Err(ProcessError::Survey(SurveyError::AlreadyClaimed)));
    assert_eq!(oa.survey.current_participants, 1);

    // ClaimReward by B: count becomes 2.
    let ob = Processor::process_claim_reward(
        &oa.survey, None, b, true, &survey_id, survey_lamports, 0, 1_700_000_030,
    )
    .expect("claim by B should succeed");
    survey_lamports = ob.survey_lamports;
    assert_eq!(ob.survey.current_participants, 2);

    // ClaimReward by C: the campaign is full.
    let oc = Processor::process_claim_reward(
        &ob.survey, None, c, true, &survey_id, survey_lamports, 0, 1_700_000_040,
    );
    assert_eq!(oc, Err(ProcessError::Survey(SurveyError::SurveyFull)));

    // CloseSurvey by O: deactivated, the remaining balance goes to O.
    let oclose = Processor::process_close_survey(
        &ob.survey, owner, true, &survey_id, survey_lamports, 0,
    )
    .expect("closure should succeed");
    assert!(!oclose.survey.is_active);
    assert_eq!(oclose.survey_lamports, 0);
    assert_eq!(oclose.owner_lamports, survey_lamports);

    // ClaimReward by D afterwards: the campaign is closed.
    let od = Processor::process_claim_reward(
        &oclose.survey, None, d, true, &survey_id, 0, 0, 1_700_000_050,
    );
    assert_eq!(od, Err(ProcessError::Survey(SurveyError::SurveyClosed)));
}

#[test]
fn test_claim_counts_each_participant_once() {
    // A campaign that pays nothing still counts a participant only once:
    // the second call by the same (already counted) participant does not
    // move the counter.
    let owner = identity(1);
    let survey = make_survey(owner, 0, 0, 5);
    let survey_id = survey.survey_id.clone();
    let a = identity(21);

    let first = Processor::process_claim_reward(
        &survey, None, a, true, &survey_id, 0, 0, 100,
    )
    .expect("first call should succeed");
    assert_eq!(first.survey.current_participants, 1);
    assert_eq!(first.participant.claimed_at, Some(100));

    let second = Processor::process_claim_reward(
        &first.survey,
        Some(&first.participant),
        a,
        true,
        &survey_id,
        0,
        0,
        200,
    )
    .expect("second call should succeed for a no-reward campaign");
    assert_eq!(second.survey.current_participants, 1);
}

#[test]
fn test_error_variants() {
    let owner = identity(1);
    let stranger = identity(3);
    let survey = make_survey(owner, 1_000, 500, 2);
    let survey_id = survey.survey_id.clone();

    // Missing signature.
    let r = Processor::process_claim_reward(
        &survey, None, identity(10), false, &survey_id, 10_000, 0, 1,
    );
    assert_eq!(r, Err(ProcessError::MissingRequiredSignature));

    // Not initialized.
    let mut blank = make_survey(owner, 0, 0, 1);
    blank.is_initialized = false;
    let r = Processor::process_claim_reward(
        &blank, None, identity(10), true, &survey_id, 0, 0, 1,
    );
    assert_eq!(r, Err(ProcessError::Survey(SurveyError::NotInitialized)));

    // Already exists.
    let r = Processor::process_initialize_survey(
        Some(&survey),
        owner,
        true,
        identity(2),
        10_000_000,
        1_000,
        5,
        survey_id.clone(),
        1,
        1,
        1,
    );
    assert_eq!(r, Err(ProcessError::Survey(SurveyError::SurveyAlreadyExists)));

    // Survey not found: payload id differs from the stored one.
    let other_id = b"other_survey".to_vec();
    let r = Processor::process_claim_reward(
        &survey, None, identity(10), true, &other_id, 10_000, 0, 1,
    );
    assert_eq!(r, Err(ProcessError::Survey(SurveyError::SurveyNotFound)));

    // Invalid owner.
    let r = Processor::process_close_survey(&survey, stranger, true, &survey_id, 0, 0);
    assert_eq!(r, Err(ProcessError::Survey(SurveyError::InvalidOwner)));
    let part = ParticipantAccount::new(survey_id.clone(), identity(10));
    let r = Processor::process_distribute_nft(&survey, Some(&part), stranger, true, &survey_id);
    assert_eq!(r, Err(ProcessError::Survey(SurveyError::InvalidOwner)));

    // Distribution needs a stored participant record.
    let r = Processor::process_distribute_nft(&survey, None, owner, true, &survey_id);
    assert_eq!(r, Err(ProcessError::Survey(SurveyError::NotInitialized)));

    // Insufficient funds: the native reward exceeds the campaign's balance.
    let r = Processor::process_claim_reward(
        &survey, None, identity(10), true, &survey_id, 999, 0, 1,
    );
    assert_eq!(r, Err(ProcessError::Survey(SurveyError::InsufficientFunds)));

    // Insufficient funds at initialization: under the store's minimum.
    let r = Processor::process_initialize_survey(
        None,
        owner,
        true,
        identity(2),
        999,
        1_000,
        5,
        survey_id.clone(),
        1,
        1,
        1,
    );
    assert_eq!(r, Err(ProcessError::Survey(SurveyError::InsufficientFunds)));

    // Overflow on the participant's credit.
    let r = Processor::process_claim_reward(
        &survey, None, identity(10), true, &survey_id, 10_000, u64::MAX, 1,
    );
    assert_eq!(r, Err(ProcessError::Survey(SurveyError::Overflow)));

    // Overflow on the owner's credit at closure.
    let r = Processor::process_close_survey(&survey, owner, true, &survey_id, 10, u64::MAX);
    assert_eq!(r, Err(ProcessError::Survey(SurveyError::Overflow)));

    // Invalid metadata: a survey id longer than 64 bytes.
    let long_id = vec![b'x'; 65];
    let r = Processor::process_initialize_survey(
        None,
        owner,
        true,
        identity(2),
        10_000_000,
        1_000,
        5,
        long_id,
        1,
        1,
        1,
    );
    assert_eq!(r, Err(ProcessError::Survey(SurveyError::InvalidMetadata)));
}
