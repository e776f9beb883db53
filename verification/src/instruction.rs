//! Typed operations and the byte command grammar.
//!
//! A command is one tag byte followed by a fixed-schema payload: a survey id
//! as a 4-byte little-endian length prefix plus that many bytes, and, for
//! initialization, three fixed-width integers. A command must be consumed
//! exactly; any leftover or missing byte, and any unknown tag, is rejected.

use vstd::bytes::*;
use vstd::prelude::*;
use vstd::slice::*;

use crate::error::SurveyError;

verus! {

/// A decoded operation with its payload.
#[derive(Clone, Debug, PartialEq, Eq)]
pub enum SurveyInstruction {
    /// Create a new survey campaign.
    InitializeSurvey {
        survey_id: Vec<u8>,
        sol_reward_amount: u64,
        token_reward_amount: u64,
        max_participants: u32,
    },
    /// Claim the rewards for completing a survey.
    ClaimReward { survey_id: Vec<u8> },
    /// Distribute a collectible to a participant.
    DistributeNft { survey_id: Vec<u8> },
    /// Close a survey campaign.
    CloseSurvey { survey_id: Vec<u8> },
}

/// Mathematical view of a decoded operation.
pub enum SurveyInstructionV {
    InitializeSurvey {
        survey_id: Seq<u8>,
        sol_reward_amount: u64,
        token_reward_amount: u64,
        max_participants: u32,
    },
    ClaimReward { survey_id: Seq<u8> },
    DistributeNft { survey_id: Seq<u8> },
    CloseSurvey { survey_id: Seq<u8> },
}

impl View for SurveyInstruction {
    type V = SurveyInstructionV;

    open spec fn view(&self) -> SurveyInstructionV {
        match self {
            SurveyInstruction::InitializeSurvey {
                survey_id,
                sol_reward_amount,
                token_reward_amount,
                max_participants,
            } => SurveyInstructionV::InitializeSurvey {
                survey_id: survey_id@,
                sol_reward_amount: *sol_reward_amount,
                token_reward_amount: *token_reward_amount,
                max_participants: *max_participants,
            },
            SurveyInstruction::ClaimReward { survey_id } => SurveyInstructionV::ClaimReward {
                survey_id: survey_id@,
            },
            SurveyInstruction::DistributeNft { survey_id } => SurveyInstructionV::DistributeNft {
                survey_id: survey_id@,
            },
            SurveyInstruction::CloseSurvey { survey_id } => SurveyInstructionV::CloseSurvey {
                survey_id: survey_id@,
            },
        }
    }
}

impl SurveyInstructionV {
    /// The operation tag that opens the encoded command.
    pub open spec fn tag(self) -> u8 {
        match self {
            SurveyInstructionV::InitializeSurvey { .. } => 0,
            SurveyInstructionV::ClaimReward { .. } => 1,
            SurveyInstructionV::DistributeNft { .. } => 2,
            SurveyInstructionV::CloseSurvey { .. } => 3,
        }
    }

    /// The survey id carried by the payload.
    pub open spec fn survey_id(self) -> Seq<u8> {
        match self {
            SurveyInstructionV::InitializeSurvey { survey_id, .. } => survey_id,
            SurveyInstructionV::ClaimReward { survey_id } => survey_id,
            SurveyInstructionV::DistributeNft { survey_id } => survey_id,
            SurveyInstructionV::CloseSurvey { survey_id } => survey_id,
        }
    }

    /// The survey id fits behind a 4-byte length prefix.
    pub open spec fn encodable(self) -> bool {
        self.survey_id().len() <= u32::MAX
    }
}

/// The payload bytes that follow the survey id: the three reward parameters
/// for initialization, nothing for the other operations.
pub open spec fn spec_encode_tail(v: SurveyInstructionV) -> Seq<u8> {
    match v {
        SurveyInstructionV::InitializeSurvey {
            sol_reward_amount,
            token_reward_amount,
            max_participants,
            ..
        } => spec_u64_to_le_bytes(sol_reward_amount) + spec_u64_to_le_bytes(token_reward_amount)
            + spec_u32_to_le_bytes(max_participants),
        _ => Seq::empty(),
    }
}

/// The unique byte encoding of an operation: tag, length-prefixed survey id,
/// then the operation's remaining payload.
pub open spec fn spec_encode(v: SurveyInstructionV) -> Seq<u8> {
    seq![v.tag()] + spec_u32_to_le_bytes(v.survey_id().len() as u32) + v.survey_id()
        + spec_encode_tail(v)
}

/// How the encoding of an operation decomposes into its fields.
pub proof fn lemma_encode_parts(v: SurveyInstructionV)
    ensures
        spec_encode(v).len() == 5 + v.survey_id().len() + spec_encode_tail(v).len(),
        spec_encode_tail(v).len() == (if v is InitializeSurvey {
            20int
        } else {
            0int
        }),
        v.tag() == 0 || v.tag() == 1 || v.tag() == 2 || v.tag() == 3,
        (v is InitializeSurvey <==> v.tag() == 0),
        (v is ClaimReward <==> v.tag() == 1),
        (v is DistributeNft <==> v.tag() == 2),
        (v is CloseSurvey <==> v.tag() == 3),
        spec_encode(v)[0] == v.tag(),
        spec_encode(v).subrange(1, 5) == spec_u32_to_le_bytes(v.survey_id().len() as u32),
        spec_encode(v).subrange(5, 5 + v.survey_id().len() as int) == v.survey_id(),
        spec_encode(v).subrange(
            5 + v.survey_id().len() as int,
            spec_encode(v).len() as int,
        ) == spec_encode_tail(v),
{
    lemma_auto_spec_u32_to_from_le_bytes();
    lemma_auto_spec_u64_to_from_le_bytes();
    let e = spec_encode(v);
    let n = v.survey_id().len() as int;
    assert(e.subrange(1, 5) =~= spec_u32_to_le_bytes(v.survey_id().len() as u32));
    assert(e.subrange(5, 5 + n) =~= v.survey_id());
    assert(e.subrange(5 + n, e.len() as int) =~= spec_encode_tail(v));
}

/// The three fixed-width fields inside an initialization payload.
pub proof fn lemma_encode_init_fields(
    survey_id: Seq<u8>,
    sol_reward_amount: u64,
    token_reward_amount: u64,
    max_participants: u32,
)
    ensures
        ({
            let v = SurveyInstructionV::InitializeSurvey {
                survey_id,
                sol_reward_amount,
                token_reward_amount,
                max_participants,
            };
            let n = survey_id.len() as int;
            &&& spec_encode(v).subrange(5 + n, 13 + n) == spec_u64_to_le_bytes(sol_reward_amount)
            &&& spec_encode(v).subrange(13 + n, 21 + n) == spec_u64_to_le_bytes(
                token_reward_amount,
            )
            &&& spec_encode(v).subrange(21 + n, 25 + n) == spec_u32_to_le_bytes(max_participants)
        }),
{
    lemma_auto_spec_u32_to_from_le_bytes();
    lemma_auto_spec_u64_to_from_le_bytes();
    let v = SurveyInstructionV::InitializeSurvey {
        survey_id,
        sol_reward_amount,
        token_reward_amount,
        max_participants,
    };
    let n = survey_id.len() as int;
    lemma_encode_parts(v);
    assert(spec_encode(v).subrange(5 + n, 13 + n) =~= spec_u64_to_le_bytes(sol_reward_amount));
    assert(spec_encode(v).subrange(13 + n, 21 + n) =~= spec_u64_to_le_bytes(token_reward_amount));
    assert(spec_encode(v).subrange(21 + n, 25 + n) =~= spec_u32_to_le_bytes(max_participants));
}

impl SurveyInstruction {
    /// Decode a raw byte command.
    ///
    /// Succeeds exactly on the encodings produced by [`spec_encode`]; every
    /// other input is rejected with `InvalidInstruction`.
    pub fn unpack(input: &[u8]) -> (r: Result<SurveyInstruction, SurveyError>)
        ensures
            r matches Ok(i) ==> i@.encodable() && input@ == spec_encode(i@),
            r matches Err(e) ==> e == SurveyError::InvalidInstruction,
            forall|v: SurveyInstructionV|
                v.encodable() && input@ == spec_encode(v) ==> match r {
                    Ok(i) => i@ == v,
                    Err(_) => false,
                },
    {
        proof {
            lemma_auto_spec_u32_to_from_le_bytes();
            lemma_auto_spec_u64_to_from_le_bytes();
        }
        if input.len() < 5 {
            proof {
                assert forall|v: SurveyInstructionV|
                    v.encodable() && input@ == spec_encode(v) implies false by {
                    lemma_encode_parts(v);
                }
            }
            return Err(SurveyError::InvalidInstruction);
        }
        let tag = input[0];
        if tag > 3 {
            proof {
                assert forall|v: SurveyInstructionV|
                    v.encodable() && input@ == spec_encode(v) implies false by {
                    lemma_encode_parts(v);
                }
            }
            return Err(SurveyError::InvalidInstruction);
        }
        let len32 = u32_from_le_bytes(slice_subrange(input, 1, 5));
        let len = len32 as usize;
        proof {
            assert forall|v: SurveyInstructionV|
                v.encodable() && input@ == spec_encode(v) implies v.survey_id().len() == len by {
                lemma_encode_parts(v);
                assert(input@.subrange(1, 5) == spec_u32_to_le_bytes(v.survey_id().len() as u32));
            }
        }
        if input.len() - 5 < len {
            proof {
                assert forall|v: SurveyInstructionV|
                    v.encodable() && input@ == spec_encode(v) implies false by {
                    lemma_encode_parts(v);
                }
            }
            return Err(SurveyError::InvalidInstruction);
        }
        let id_end = 5 + len;
        let survey_id = slice_to_vec(slice_subrange(input, 5, id_end));
        if tag == 0 {
            if input.len() - id_end != 20 {
                proof {
                    assert forall|v: SurveyInstructionV|
                        v.encodable() && input@ == spec_encode(v) implies false by {
                        lemma_encode_parts(v);
                    }
                }
                return Err(SurveyError::InvalidInstruction);
            }
            let sol_reward_amount = u64_from_le_bytes(slice_subrange(input, id_end, id_end + 8));
            let token_reward_amount = u64_from_le_bytes(
                slice_subrange(input, id_end + 8, id_end + 16),
            );
            let max_participants = u32_from_le_bytes(
                slice_subrange(input, id_end + 16, id_end + 20),
            );
            let r = SurveyInstruction::InitializeSurvey {
                survey_id,
                sol_reward_amount,
                token_reward_amount,
                max_participants,
            };
            proof {
                lemma_encode_parts(r@);
                lemma_encode_init_fields(
                    survey_id@,
                    sol_reward_amount,
                    token_reward_amount,
                    max_participants,
                );
                assert(input@ =~= spec_encode(r@));
                assert forall|v: SurveyInstructionV|
                    v.encodable() && input@ == spec_encode(v) implies r@ == v by {
                    lemma_encode_parts(v);
                    lemma_encode_init_fields(
                        v.survey_id(),
                        v->InitializeSurvey_sol_reward_amount,
                        v->InitializeSurvey_token_reward_amount,
                        v->InitializeSurvey_max_participants,
                    );
                }
            }
            return Ok(r);
        }
        if input.len() != id_end {
            proof {
                assert forall|v: SurveyInstructionV|
                    v.encodable() && input@ == spec_encode(v) implies false by {
                    lemma_encode_parts(v);
                }
            }
            return Err(SurveyError::InvalidInstruction);
        }
        let r = if tag == 1 {
            SurveyInstruction::ClaimReward { survey_id }
        } else if tag == 2 {
            SurveyInstruction::DistributeNft { survey_id }
        } else {
            SurveyInstruction::CloseSurvey { survey_id }
        };
        proof {
            lemma_encode_parts(r@);
            assert(input@ =~= spec_encode(r@));
            assert forall|v: SurveyInstructionV|
                v.encodable() && input@ == spec_encode(v) implies r@ == v by {
                lemma_encode_parts(v);
            }
        }
        Ok(r)
    }

    /// Encode this operation into its byte command.
    pub fn pack(&self) -> (r: Vec<u8>)
        requires
            self@.encodable(),
        ensures
            r@ == spec_encode(self@),
    {
        let mut out: Vec<u8> = Vec::new();
        let tag: u8 = match self {
            SurveyInstruction::InitializeSurvey { .. } => 0,
            SurveyInstruction::ClaimReward { .. } => 1,
            SurveyInstruction::DistributeNft { .. } => 2,
            SurveyInstruction::CloseSurvey { .. } => 3,
        };
        out.push(tag);
        let survey_id: &Vec<u8> = match self {
            SurveyInstruction::InitializeSurvey { survey_id, .. } => survey_id,
            SurveyInstruction::ClaimReward { survey_id } => survey_id,
            SurveyInstruction::DistributeNft { survey_id } => survey_id,
            SurveyInstruction::CloseSurvey { survey_id } => survey_id,
        };
        let len_bytes = u32_to_le_bytes(survey_id.len() as u32);
        out.extend_from_slice(len_bytes.as_slice());
        out.extend_from_slice(survey_id.as_slice());
        match self {
            SurveyInstruction::InitializeSurvey {
                sol_reward_amount,
                token_reward_amount,
                max_participants,
                ..
            } => {
                let sol_bytes = u64_to_le_bytes(*sol_reward_amount);
                out.extend_from_slice(sol_bytes.as_slice());
                let token_bytes = u64_to_le_bytes(*token_reward_amount);
                out.extend_from_slice(token_bytes.as_slice());
                let max_bytes = u32_to_le_bytes(*max_participants);
                out.extend_from_slice(max_bytes.as_slice());
            },
            _ => {},
        }
        proof {
            assert(out@ =~= spec_encode(self@));
        }
        out
    }
}

} // verus!
