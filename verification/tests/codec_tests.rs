use solbridge_rewards::codec::{PARTICIPANT_RECORD_LEN, SURVEY_RECORD_LEN};
use solbridge_rewards::error::{ProcessError, SurveyError};
use solbridge_rewards::instruction::SurveyInstruction;
use solbridge_rewards::processor::{process_instruction, Effects, RequestContext};
use solbridge_rewards::state::{Identity, ParticipantAccount, SurveyAccount};

fn identity(n: u64) -> Identity {
    Identity { w0: n, w1: n + 1, w2: n + 2, w3: n + 3 }
}

fn init_command(survey_id: &[u8], sol: u64, token: u64, max: u32) -> Vec<u8> {
    let mut data = vec![0u8];
    data.extend_from_slice(&(survey_id.len() as u32).to_le_bytes());
    data.extend_from_slice(survey_id);
    data.extend_from_slice(&sol.to_le_bytes());
    data.extend_from_slice(&token.to_le_bytes());
    data.extend_from_slice(&max.to_le_bytes());
    data
}

fn id_command(tag: u8, survey_id: &[u8]) -> Vec<u8> {
    let mut data = vec![tag];
    data.extend_from_slice(&(survey_id.len() as u32).to_le_bytes());
    data.extend_from_slice(survey_id);
    data
}

#[test]
fn test_unpack_each_operation() {
    let data = init_command(b"s1", 7, 9, 42);
    let inst = SurveyInstruction::unpack(&data).expect("valid initialize command");
    assert_eq!(
        inst,
        SurveyInstruction::InitializeSurvey {
            survey_id: b"s1".to_vec(),
            sol_reward_amount: 7,
            token_reward_amount: 9,
            max_participants: 42,
        }
    );

    let inst = SurveyInstruction::unpack(&id_command(1, b"abc")).expect("valid claim command");
    assert_eq!(inst, SurveyInstruction::ClaimReward { survey_id: b"abc".to_vec() });

    let inst = SurveyInstruction::unpack(&id_command(2, b"")).expect("valid distribute command");
    assert_eq!(inst, SurveyInstruction::DistributeNft { survey_id: b"".to_vec() });

    let inst = SurveyInstruction::unpack(&id_command(3, b"zz")).expect("valid close command");
    assert_eq!(inst, SurveyInstruction::CloseSurvey { survey_id: b"zz".to_vec() });
}

#[test]
fn test_unpack_rejects_malformed_commands() {
    // Empty input.
    assert_eq!(SurveyInstruction::unpack(&[]), Err(SurveyError::InvalidInstruction));
    // Unknown tag.
    assert_eq!(
        SurveyInstruction::unpack(&id_command(4, b"s1")),
        Err(SurveyError::InvalidInstruction)
    );
    // Truncated length prefix.
    assert_eq!(SurveyInstruction::unpack(&[1, 2, 0]), Err(SurveyError::InvalidInstruction));
    // Length prefix promises more bytes than there are.
    assert_eq!(
        SurveyInstruction::unpack(&[1, 5, 0, 0, 0, b'a']),
        Err(SurveyError::InvalidInstruction)
    );
    // Trailing byte after a complete claim command.
    let mut data = id_command(1, b"s1");
    data.push(0);
    assert_eq!(SurveyInstruction::unpack(&data), Err(SurveyError::InvalidInstruction));
    // Initialization payload one byte short.
    let mut data = init_command(b"s1", 7, 9, 42);
    data.pop();
    assert_eq!(SurveyInstruction::unpack(&data), Err(SurveyError::InvalidInstruction));
}

#[test]
fn test_pack_unpack_roundtrip() {
    let inst = SurveyInstruction::InitializeSurvey {
        survey_id: b"roundtrip".to_vec(),
        sol_reward_amount: u64::MAX,
        token_reward_amount: 0,
        max_participants: 7,
    };
    let packed = inst.pack();
    assert_eq!(packed, init_command(b"roundtrip", u64::MAX, 0, 7));
    assert_eq!(SurveyInstruction::unpack(&packed), Ok(inst));

    let inst = SurveyInstruction::CloseSurvey { survey_id: b"s1".to_vec() };
    assert_eq!(SurveyInstruction::unpack(&inst.pack()), Ok(inst));
}

#[test]
fn test_survey_record_roundtrip() {
    let mut survey = SurveyAccount::new(
        b"test_survey_001".to_vec(),
        identity(1),
        1_000_000,
        100_000_000,
        identity(2),
        1000,
        1_700_000_000,
    );
    survey.current_participants = 3;
    survey.nft_collection = Some(identity(77));
    let bytes = survey.encode();
    assert_eq!(bytes.len(), SURVEY_RECORD_LEN);
    assert_eq!(SurveyAccount::decode(&bytes), Some(survey));

    let good = SurveyAccount::new(b"x".to_vec(), identity(1), 0, 0, identity(2), 5, 0).encode();
    // Corrupt the strict boolean byte.
    let mut raw = good.clone();
    raw[0] = 2;
    assert_eq!(SurveyAccount::decode(&raw), None);
    // Wrong length.
    assert_eq!(SurveyAccount::decode(&good[1..]), None);
    // A record claiming more participants than its limit is rejected: the
    // counter field sits at bytes 153..157, the limit at 149..153.
    let mut raw = good.clone();
    raw[153] = 6;
    assert_eq!(SurveyAccount::decode(&raw), None);
}

#[test]
fn test_participant_record_roundtrip() {
    let mut part = ParticipantAccount::new(b"s1".to_vec(), identity(10));
    part.has_claimed_sol = true;
    part.claimed_at = Some(-5);
    let bytes = part.encode();
    assert_eq!(bytes.len(), PARTICIPANT_RECORD_LEN);
    assert_eq!(ParticipantAccount::decode(&bytes), Some(part));

    let fresh = ParticipantAccount::new(b"s1".to_vec(), identity(10));
    let mut raw = fresh.encode();
    // A nonzero byte inside the id field's padding is rejected.
    raw[60] = 1;
    assert_eq!(ParticipantAccount::decode(&raw), None);
}

#[test]
fn test_process_instruction_dispatch() {
    let owner = identity(1);
    let ctx = RequestContext {
        caller: owner,
        caller_is_signer: true,
        survey: None,
        participant: None,
        token_mint: identity(2),
        survey_lamports: 10_000_000,
        caller_lamports: 0,
        rent_minimum_balance: 1_000,
        now: 1_700_000_000,
    };
    let data = init_command(b"s1", 500, 600, 3);
    let effects = process_instruction(&data, &ctx).expect("initialization should succeed");
    let survey = match effects {
        Effects::Initialized { survey } => survey,
        other => panic!("unexpected effects: {:?}", other),
    };
    assert!(survey.is_active);

    // Claim against the stored record.
    let participant = identity(10);
    let ctx = RequestContext {
        caller: participant,
        caller_is_signer: true,
        survey: Some(survey),
        participant: None,
        token_mint: identity(2),
        survey_lamports: 10_000_000,
        caller_lamports: 40,
        rent_minimum_balance: 1_000,
        now: 1_700_000_001,
    };
    let effects = process_instruction(&id_command(1, b"s1"), &ctx).expect("claim should succeed");
    match effects {
        Effects::Claimed(o) => {
            assert_eq!(o.survey_lamports, 9_999_500);
            assert_eq!(o.participant_lamports, 540);
            assert_eq!(o.token_transfer_amount, 600);
            assert_eq!(o.survey.current_participants, 1);
        },
        other => panic!("unexpected effects: {:?}", other),
    }

    // An undecodable command is an invalid instruction.
    let r = process_instruction(&[9, 9, 9], &ctx);
    assert_eq!(r, Err(ProcessError::Survey(SurveyError::InvalidInstruction)));

    // A claim with no stored campaign record is not initialized.
    let ctx2 = RequestContext {
        caller: participant,
        caller_is_signer: true,
        survey: None,
        participant: None,
        token_mint: identity(2),
        survey_lamports: 0,
        caller_lamports: 0,
        rent_minimum_balance: 0,
        now: 0,
    };
    let r = process_instruction(&id_command(1, b"s1"), &ctx2);
    assert_eq!(r, Err(ProcessError::Survey(SurveyError::NotInitialized)));
}
