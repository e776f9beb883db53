//! Persistent record model: the campaign record and the participant record.
//!
//! Identities are 32-byte values held as four 64-bit little-endian words,
//! so that equality and the byte codec need nothing beyond plain integers.

use vstd::prelude::*;

verus! {

/// The longest survey id a record accepts, which is also the width of the
/// fixed id field in the encoded layouts.
pub const SURVEY_ID_MAX_LEN: usize = 64;

/// A 32-byte identity (a public key in the host environment), stored as
/// four little-endian 64-bit words: word `w0` covers bytes 0..8, and so on.
#[derive(Clone, Copy, Debug, PartialEq, Eq, Structural)]
pub struct Identity {
    pub w0: u64,
    pub w1: u64,
    pub w2: u64,
    pub w3: u64,
}

/// Campaign record: one per survey.
#[derive(Clone, Debug, PartialEq, Eq)]
pub struct SurveyAccount {
    pub is_initialized: bool,
    pub survey_id: Vec<u8>,
    pub owner: Identity,
    pub sol_reward_amount: u64,
    pub token_reward_amount: u64,
    pub token_mint: Identity,
    pub max_participants: u32,
    pub current_participants: u32,
    pub created_at: i64,
    pub is_active: bool,
    pub nft_collection: Option<Identity>,
}

/// Mathematical view of a campaign record.
pub struct SurveyAccountV {
    pub is_initialized: bool,
    pub survey_id: Seq<u8>,
    pub owner: Identity,
    pub sol_reward_amount: u64,
    pub token_reward_amount: u64,
    pub token_mint: Identity,
    pub max_participants: u32,
    pub current_participants: u32,
    pub created_at: i64,
    pub is_active: bool,
    pub nft_collection: Option<Identity>,
}

impl View for SurveyAccount {
    type V = SurveyAccountV;

    open spec fn view(&self) -> SurveyAccountV {
        SurveyAccountV {
            is_initialized: self.is_initialized,
            survey_id: self.survey_id@,
            owner: self.owner,
            sol_reward_amount: self.sol_reward_amount,
            token_reward_amount: self.token_reward_amount,
            token_mint: self.token_mint,
            max_participants: self.max_participants,
            current_participants: self.current_participants,
            created_at: self.created_at,
            is_active: self.is_active,
            nft_collection: self.nft_collection,
        }
    }
}

impl SurveyAccountV {
    /// Well-formedness of a campaign record: the survey id fits the fixed
    /// layout and the participant counter never exceeds the limit.
    pub open spec fn wf(self) -> bool {
        &&& self.survey_id.len() <= SURVEY_ID_MAX_LEN
        &&& self.current_participants <= self.max_participants
    }
}

impl SurveyAccount {
    /// A freshly initialized campaign record: no participants yet, active,
    /// and no collectible collection attached.
    pub fn new(
        survey_id: Vec<u8>,
        owner: Identity,
        sol_reward_amount: u64,
        token_reward_amount: u64,
        token_mint: Identity,
        max_participants: u32,
        created_at: i64,
    ) -> (r: SurveyAccount)
        ensures
            r@ == (SurveyAccountV {
                is_initialized: true,
                survey_id: survey_id@,
                owner,
                sol_reward_amount,
                token_reward_amount,
                token_mint,
                max_participants,
                current_participants: 0,
                created_at,
                is_active: true,
                nft_collection: None,
            }),
    {
        SurveyAccount {
            is_initialized: true,
            survey_id,
            owner,
            sol_reward_amount,
            token_reward_amount,
            token_mint,
            max_participants,
            current_participants: 0,
            created_at,
            is_active: true,
            nft_collection: None,
        }
    }
}

/// Participant record: one per (campaign, participant) pair, keyed by the
/// host's record store deterministically from that pair.
#[derive(Clone, Debug, PartialEq, Eq)]
pub struct ParticipantAccount {
    pub is_initialized: bool,
    pub survey_id: Vec<u8>,
    pub participant: Identity,
    pub has_claimed_sol: bool,
    pub has_claimed_token: bool,
    pub has_received_nft: bool,
    pub claimed_at: Option<i64>,
}

/// Mathematical view of a participant record.
pub struct ParticipantAccountV {
    pub is_initialized: bool,
    pub survey_id: Seq<u8>,
    pub participant: Identity,
    pub has_claimed_sol: bool,
    pub has_claimed_token: bool,
    pub has_received_nft: bool,
    pub claimed_at: Option<i64>,
}

impl View for ParticipantAccount {
    type V = ParticipantAccountV;

    open spec fn view(&self) -> ParticipantAccountV {
        ParticipantAccountV {
            is_initialized: self.is_initialized,
            survey_id: self.survey_id@,
            participant: self.participant,
            has_claimed_sol: self.has_claimed_sol,
            has_claimed_token: self.has_claimed_token,
            has_received_nft: self.has_received_nft,
            claimed_at: self.claimed_at,
        }
    }
}

impl ParticipantAccountV {
    /// Well-formedness of a participant record: the survey id fits the
    /// fixed layout.
    pub open spec fn wf(self) -> bool {
        self.survey_id.len() <= SURVEY_ID_MAX_LEN
    }

    /// A record for a participant who has not claimed anything yet.
    pub open spec fn fresh(survey_id: Seq<u8>, participant: Identity) -> ParticipantAccountV {
        ParticipantAccountV {
            is_initialized: true,
            survey_id,
            participant,
            has_claimed_sol: false,
            has_claimed_token: false,
            has_received_nft: false,
            claimed_at: None,
        }
    }
}

impl ParticipantAccount {
    /// A participant record with every claim flag clear.
    pub fn new(survey_id: Vec<u8>, participant: Identity) -> (r: ParticipantAccount)
        ensures
            r@ == ParticipantAccountV::fresh(survey_id@, participant),
    {
        ParticipantAccount {
            is_initialized: true,
            survey_id,
            participant,
            has_claimed_sol: false,
            has_claimed_token: false,
            has_received_nft: false,
            claimed_at: None,
        }
    }
}

} // verus!
