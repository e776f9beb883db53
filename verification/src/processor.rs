//! The four operation handlers, as pure state transitions.
//!
//! Each handler takes the loaded records and the request's plain facts
//! (identities, signature presence, balances, the clock reading) and either
//! returns the complete new state together with the token actions the
//! external gateway must perform, or an error and nothing else. A host that
//! persists records and moves balances only on success therefore applies
//! each operation atomically.

use vstd::prelude::*;
use vstd::slice::*;

use crate::error::{ProcessError, SurveyError};
use crate::instruction::{SurveyInstruction, SurveyInstructionV};
use crate::state::{
    Identity, ParticipantAccount, ParticipantAccountV, SurveyAccount, SurveyAccountV,
    SURVEY_ID_MAX_LEN,
};

verus! {

/// The result of an operation, with exec values replaced by their views.
pub open spec fn res_view<T: View>(r: Result<T, ProcessError>) -> Result<T::V, ProcessError> {
    match r {
        Ok(t) => Ok(t@),
        Err(e) => Err(e),
    }
}

/// The view of an optionally loaded campaign record.
pub open spec fn opt_survey_view(o: Option<&SurveyAccount>) -> Option<SurveyAccountV> {
    match o {
        None => None,
        Some(s) => Some(s@),
    }
}

/// The view of an optionally loaded participant record.
pub open spec fn opt_participant_view(o: Option<&ParticipantAccount>) -> Option<
    ParticipantAccountV,
> {
    match o {
        None => None,
        Some(p) => Some(p@),
    }
}

/// The participant record a claim starts from: the stored one, or a fresh
/// record derived from the payload's survey id and the claimant.
pub open spec fn part_or_fresh(
    existing: Option<ParticipantAccountV>,
    survey_id: Seq<u8>,
    participant: Identity,
) -> ParticipantAccountV {
    match existing {
        None => ParticipantAccountV::fresh(survey_id, participant),
        Some(p) => p,
    }
}

/// What initializing a survey yields: the checks in order, then the new
/// campaign record.
pub open spec fn spec_initialize_survey(
    existing: Option<SurveyAccountV>,
    owner: Identity,
    owner_is_signer: bool,
    token_mint: Identity,
    survey_lamports: u64,
    rent_minimum_balance: u64,
    now: i64,
    survey_id: Seq<u8>,
    sol_reward_amount: u64,
    token_reward_amount: u64,
    max_participants: u32,
) -> Result<SurveyAccountV, ProcessError> {
    if !owner_is_signer {
        Err(ProcessError::MissingRequiredSignature)
    } else if (match existing {
        Some(s) => s.is_initialized,
        None => false,
    }) {
        Err(ProcessError::Survey(SurveyError::SurveyAlreadyExists))
    } else if survey_lamports < rent_minimum_balance {
        Err(ProcessError::Survey(SurveyError::InsufficientFunds))
    } else if survey_id.len() > SURVEY_ID_MAX_LEN {
        Err(ProcessError::Survey(SurveyError::InvalidMetadata))
    } else {
        Ok(
            SurveyAccountV {
                is_initialized: true,
                survey_id,
                owner,
                sol_reward_amount,
                token_reward_amount,
                token_mint,
                max_participants,
                current_participants: 0,
                created_at: now,
                is_active: true,
                nft_collection: None,
            },
        )
    }
}

/// Everything a successful claim changes: both updated records, both native
/// balances, and the token amount the gateway must move from the campaign's
/// pool to the participant (zero when the campaign pays no token reward).
#[derive(Clone, Debug, PartialEq, Eq)]
pub struct ClaimOutcome {
    pub survey: SurveyAccount,
    pub participant: ParticipantAccount,
    pub survey_lamports: u64,
    pub participant_lamports: u64,
    pub token_transfer_amount: u64,
}

/// Mathematical view of a claim outcome.
pub struct ClaimOutcomeV {
    pub survey: SurveyAccountV,
    pub participant: ParticipantAccountV,
    pub survey_lamports: u64,
    pub participant_lamports: u64,
    pub token_transfer_amount: u64,
}

impl View for ClaimOutcome {
    type V = ClaimOutcomeV;

    open spec fn view(&self) -> ClaimOutcomeV {
        ClaimOutcomeV {
            survey: self.survey@,
            participant: self.participant@,
            survey_lamports: self.survey_lamports,
            participant_lamports: self.participant_lamports,
            token_transfer_amount: self.token_transfer_amount,
        }
    }
}

/// What claiming a reward yields: the checks in order — signature,
/// initialization, survey id, activity, capacity for a not-yet-counted
/// participant, double claim, native balance, credit overflow — then the
/// updated state. The participant counter grows exactly when this is the
/// participant's first successful claim.
pub open spec fn spec_claim_reward(
    survey: SurveyAccountV,
    existing: Option<ParticipantAccountV>,
    participant: Identity,
    participant_is_signer: bool,
    survey_id: Seq<u8>,
    survey_lamports: u64,
    participant_lamports: u64,
    now: i64,
) -> Result<ClaimOutcomeV, ProcessError> {
    let part0 = part_or_fresh(existing, survey_id, participant);
    let counted = part0.claimed_at is Some;
    if !participant_is_signer {
        Err(ProcessError::MissingRequiredSignature)
    } else if !survey.is_initialized {
        Err(ProcessError::Survey(SurveyError::NotInitialized))
    } else if survey.survey_id != survey_id {
        Err(ProcessError::Survey(SurveyError::SurveyNotFound))
    } else if !survey.is_active {
        Err(ProcessError::Survey(SurveyError::SurveyClosed))
    } else if !counted && survey.current_participants >= survey.max_participants {
        Err(ProcessError::Survey(SurveyError::SurveyFull))
    } else if (survey.sol_reward_amount > 0 && part0.has_claimed_sol) || (
    survey.token_reward_amount > 0 && part0.has_claimed_token) {
        Err(ProcessError::Survey(SurveyError::AlreadyClaimed))
    } else if survey.sol_reward_amount > survey_lamports {
        Err(ProcessError::Survey(SurveyError::InsufficientFunds))
    } else if survey.sol_reward_amount > 0 && participant_lamports + survey.sol_reward_amount
        > u64::MAX {
        Err(ProcessError::Survey(SurveyError::Overflow))
    } else {
        Ok(
            ClaimOutcomeV {
                survey: SurveyAccountV {
                    current_participants: if counted {
                        survey.current_participants
                    } else {
                        (survey.current_participants + 1) as u32
                    },
                    ..survey
                },
                participant: ParticipantAccountV {
                    is_initialized: true,
                    has_claimed_sol: part0.has_claimed_sol || survey.sol_reward_amount > 0,
                    has_claimed_token: part0.has_claimed_token || survey.token_reward_amount > 0,
                    claimed_at: Some(now),
                    ..part0
                },
                survey_lamports: (survey_lamports - survey.sol_reward_amount) as u64,
                participant_lamports: (participant_lamports + survey.sol_reward_amount) as u64,
                token_transfer_amount: survey.token_reward_amount,
            },
        )
    }
}

/// Everything a successful distribution changes: the updated participant
/// record and the single unit the gateway must mint to the participant.
#[derive(Clone, Debug, PartialEq, Eq)]
pub struct NftOutcome {
    pub participant: ParticipantAccount,
    pub mint_amount: u64,
}

/// Mathematical view of a distribution outcome.
pub struct NftOutcomeV {
    pub participant: ParticipantAccountV,
    pub mint_amount: u64,
}

impl View for NftOutcome {
    type V = NftOutcomeV;

    open spec fn view(&self) -> NftOutcomeV {
        NftOutcomeV { participant: self.participant@, mint_amount: self.mint_amount }
    }
}

/// What distributing a collectible yields: the checks in order — signature,
/// initialization, ownership, survey id, activity, record presence, repeat
/// distribution — then the updated participant record and a one-unit mint.
pub open spec fn spec_distribute_nft(
    survey: SurveyAccountV,
    existing: Option<ParticipantAccountV>,
    owner: Identity,
    owner_is_signer: bool,
    survey_id: Seq<u8>,
) -> Result<NftOutcomeV, ProcessError> {
    if !owner_is_signer {
        Err(ProcessError::MissingRequiredSignature)
    } else if !survey.is_initialized {
        Err(ProcessError::Survey(SurveyError::NotInitialized))
    } else if survey.owner != owner {
        Err(ProcessError::Survey(SurveyError::InvalidOwner))
    } else if survey.survey_id != survey_id {
        Err(ProcessError::Survey(SurveyError::SurveyNotFound))
    } else if !survey.is_active {
        Err(ProcessError::Survey(SurveyError::SurveyClosed))
    } else {
        match existing {
            None => Err(ProcessError::Survey(SurveyError::NotInitialized)),
            Some(p) => if !p.is_initialized {
                Err(ProcessError::Survey(SurveyError::NotInitialized))
            } else if p.has_received_nft {
                Err(ProcessError::Survey(SurveyError::AlreadyClaimed))
            } else {
                Ok(
                    NftOutcomeV {
                        participant: ParticipantAccountV { has_received_nft: true, ..p },
                        mint_amount: 1,
                    },
                )
            },
        }
    }
}

/// Everything a successful closure changes: the deactivated campaign record,
/// the campaign's native balance zeroed, and the owner's destination balance
/// credited with all of it.
#[derive(Clone, Debug, PartialEq, Eq)]
pub struct CloseOutcome {
    pub survey: SurveyAccount,
    pub survey_lamports: u64,
    pub owner_lamports: u64,
}

/// Mathematical view of a closure outcome.
pub struct CloseOutcomeV {
    pub survey: SurveyAccountV,
    pub survey_lamports: u64,
    pub owner_lamports: u64,
}

impl View for CloseOutcome {
    type V = CloseOutcomeV;

    open spec fn view(&self) -> CloseOutcomeV {
        CloseOutcomeV {
            survey: self.survey@,
            survey_lamports: self.survey_lamports,
            owner_lamports: self.owner_lamports,
        }
    }
}

/// What closing a survey yields: the checks in order — signature,
/// initialization, ownership, survey id, an explicit already-closed guard —
/// then the terminal state: inactive, with the whole remaining native
/// balance moved to the owner's destination.
pub open spec fn spec_close_survey(
    survey: SurveyAccountV,
    owner: Identity,
    owner_is_signer: bool,
    survey_id: Seq<u8>,
    survey_lamports: u64,
    owner_lamports: u64,
) -> Result<CloseOutcomeV, ProcessError> {
    if !owner_is_signer {
        Err(ProcessError::MissingRequiredSignature)
    } else if !survey.is_initialized {
        Err(ProcessError::Survey(SurveyError::NotInitialized))
    } else if survey.owner != owner {
        Err(ProcessError::Survey(SurveyError::InvalidOwner))
    } else if survey.survey_id != survey_id {
        Err(ProcessError::Survey(SurveyError::SurveyNotFound))
    } else if !survey.is_active {
        Err(ProcessError::Survey(SurveyError::SurveyClosed))
    } else if owner_lamports + survey_lamports > u64::MAX {
        Err(ProcessError::Survey(SurveyError::Overflow))
    } else {
        Ok(
            CloseOutcomeV {
                survey: SurveyAccountV { is_active: false, ..survey },
                survey_lamports: 0,
                owner_lamports: (owner_lamports + survey_lamports) as u64,
            },
        )
    }
}

/// Re-initializing a campaign whose record is already initialized always
/// fails with `SurveyAlreadyExists`, whatever the rest of the request says;
/// no new record is produced, so the stored one stands unchanged.
pub proof fn lemma_reinitialize_rejected(
    existing: SurveyAccountV,
    owner: Identity,
    token_mint: Identity,
    survey_lamports: u64,
    rent_minimum_balance: u64,
    now: i64,
    survey_id: Seq<u8>,
    sol_reward_amount: u64,
    token_reward_amount: u64,
    max_participants: u32,
)
    requires
        existing.is_initialized,
    ensures
        spec_initialize_survey(
            Some(existing),
            owner,
            true,
            token_mint,
            survey_lamports,
            rent_minimum_balance,
            now,
            survey_id,
            sol_reward_amount,
            token_reward_amount,
            max_participants,
        ) == Err::<SurveyAccountV, ProcessError>(
            ProcessError::Survey(SurveyError::SurveyAlreadyExists),
        ),
{
}

/// A claim never clears a flag: each claim flag of the participant record
/// moves from false to true at most once, and the collectible flag is
/// untouched by claims.
pub proof fn lemma_claim_flags_monotone(
    survey: SurveyAccountV,
    existing: Option<ParticipantAccountV>,
    participant: Identity,
    participant_is_signer: bool,
    survey_id: Seq<u8>,
    survey_lamports: u64,
    participant_lamports: u64,
    now: i64,
)
    ensures
        spec_claim_reward(
            survey,
            existing,
            participant,
            participant_is_signer,
            survey_id,
            survey_lamports,
            participant_lamports,
            now,
        ) matches Ok(o) ==> ({
            let p0 = part_or_fresh(existing, survey_id, participant);
            &&& (p0.has_claimed_sol ==> o.participant.has_claimed_sol)
            &&& (p0.has_claimed_token ==> o.participant.has_claimed_token)
            &&& o.participant.has_received_nft == p0.has_received_nft
        }),
{
}

/// A distribution never clears a flag either: it only sets the collectible
/// flag, and leaves both claim flags as they were.
pub proof fn lemma_distribute_flags_monotone(
    survey: SurveyAccountV,
    existing: Option<ParticipantAccountV>,
    owner: Identity,
    owner_is_signer: bool,
    survey_id: Seq<u8>,
)
    ensures
        spec_distribute_nft(survey, existing, owner, owner_is_signer, survey_id) matches Ok(o)
            ==> ({
            let p0 = part_or_fresh(existing, survey_id, owner);
            &&& o.participant.has_received_nft
            &&& o.participant.has_claimed_sol == p0.has_claimed_sol
            &&& o.participant.has_claimed_token == p0.has_claimed_token
        }),
{
}

/// After one successful claim of a campaign that pays any reward, a second
/// claim with the updated records fails with `AlreadyClaimed` and yields no
/// outcome, so records and balances stay as the first claim left them.
pub proof fn lemma_second_claim_rejected(
    survey: SurveyAccountV,
    existing: Option<ParticipantAccountV>,
    participant: Identity,
    survey_id: Seq<u8>,
    survey_lamports: u64,
    participant_lamports: u64,
    now: i64,
    survey_lamports2: u64,
    participant_lamports2: u64,
    now2: i64,
)
    requires
        survey.sol_reward_amount > 0 || survey.token_reward_amount > 0,
        spec_claim_reward(
            survey,
            existing,
            participant,
            true,
            survey_id,
            survey_lamports,
            participant_lamports,
            now,
        ) is Ok,
    ensures
        ({
            let o = spec_claim_reward(
                survey,
                existing,
                participant,
                true,
                survey_id,
                survey_lamports,
                participant_lamports,
                now,
            )->Ok_0;
            spec_claim_reward(
                o.survey,
                Some(o.participant),
                participant,
                true,
                survey_id,
                survey_lamports2,
                participant_lamports2,
                now2,
            ) == Err::<ClaimOutcomeV, ProcessError>(ProcessError::Survey(SurveyError::AlreadyClaimed))
        }),
{
}

/// The participant counter never exceeds the limit: a successful claim of a
/// well-formed campaign keeps `current_participants <= max_participants`,
/// and a claim that would exceed it — by a participant not yet counted —
/// fails with `SurveyFull` and yields no outcome, so the counter is
/// unchanged.
pub proof fn lemma_capacity_enforced(
    survey: SurveyAccountV,
    existing: Option<ParticipantAccountV>,
    participant: Identity,
    participant_is_signer: bool,
    survey_id: Seq<u8>,
    survey_lamports: u64,
    participant_lamports: u64,
    now: i64,
)
    requires
        survey.wf(),
    ensures
        spec_claim_reward(
            survey,
            existing,
            participant,
            participant_is_signer,
            survey_id,
            survey_lamports,
            participant_lamports,
            now,
        ) matches Ok(o) ==> o.survey.current_participants <= o.survey.max_participants,
        ({
            let p0 = part_or_fresh(existing, survey_id, participant);
            (participant_is_signer && survey.is_initialized && survey.survey_id == survey_id
                && survey.is_active && p0.claimed_at is None && survey.current_participants
                >= survey.max_participants) ==> spec_claim_reward(
                survey,
                existing,
                participant,
                participant_is_signer,
                survey_id,
                survey_lamports,
                participant_lamports,
                now,
            ) == Err::<ClaimOutcomeV, ProcessError>(ProcessError::Survey(SurveyError::SurveyFull))
        }),
{
}

/// Closure is terminal: once a campaign is inactive, every claim,
/// distribution, or closure against it fails with `SurveyClosed`.
pub proof fn lemma_closed_is_terminal(
    survey: SurveyAccountV,
    existing: Option<ParticipantAccountV>,
    caller: Identity,
    survey_id: Seq<u8>,
    survey_lamports: u64,
    caller_lamports: u64,
    now: i64,
)
    requires
        !survey.is_active,
        survey.is_initialized,
        survey.survey_id == survey_id,
        survey.owner == caller,
    ensures
        spec_claim_reward(
            survey,
            existing,
            caller,
            true,
            survey_id,
            survey_lamports,
            caller_lamports,
            now,
        ) == Err::<ClaimOutcomeV, ProcessError>(ProcessError::Survey(SurveyError::SurveyClosed)),
        spec_distribute_nft(survey, existing, caller, true, survey_id) == Err::<
            NftOutcomeV,
            ProcessError,
        >(ProcessError::Survey(SurveyError::SurveyClosed)),
        spec_close_survey(survey, caller, true, survey_id, survey_lamports, caller_lamports)
            == Err::<CloseOutcomeV, ProcessError>(ProcessError::Survey(SurveyError::SurveyClosed)),
{
}

/// A native reward the campaign's balance cannot cover fails with
/// `InsufficientFunds`, and one whose credit would overflow the recipient
/// fails with `Overflow`; both yield no outcome, so neither side's balance
/// changes.
pub proof fn lemma_native_balance_guarded(
    survey: SurveyAccountV,
    existing: Option<ParticipantAccountV>,
    participant: Identity,
    survey_id: Seq<u8>,
    survey_lamports: u64,
    participant_lamports: u64,
    now: i64,
)
    requires
        survey.is_initialized,
        survey.survey_id == survey_id,
        survey.is_active,
        ({
            let p0 = part_or_fresh(existing, survey_id, participant);
            &&& (p0.claimed_at is Some || survey.current_participants < survey.max_participants)
            &&& !(survey.sol_reward_amount > 0 && p0.has_claimed_sol)
            &&& !(survey.token_reward_amount > 0 && p0.has_claimed_token)
        }),
    ensures
        survey.sol_reward_amount > survey_lamports ==> spec_claim_reward(
            survey,
            existing,
            participant,
            true,
            survey_id,
            survey_lamports,
            participant_lamports,
            now,
        ) == Err::<ClaimOutcomeV, ProcessError>(
            ProcessError::Survey(SurveyError::InsufficientFunds),
        ),
        (survey.sol_reward_amount <= survey_lamports && survey.sol_reward_amount > 0
            && participant_lamports + survey.sol_reward_amount > u64::MAX) ==> spec_claim_reward(
            survey,
            existing,
            participant,
            true,
            survey_id,
            survey_lamports,
            participant_lamports,
            now,
        ) == Err::<ClaimOutcomeV, ProcessError>(ProcessError::Survey(SurveyError::Overflow)),
{
}

/// A successful claim conserves native currency: the campaign account is
/// debited exactly the native reward, and the participant is credited
/// exactly the same amount.
pub proof fn lemma_claim_conserves_native(
    survey: SurveyAccountV,
    existing: Option<ParticipantAccountV>,
    participant: Identity,
    participant_is_signer: bool,
    survey_id: Seq<u8>,
    survey_lamports: u64,
    participant_lamports: u64,
    now: i64,
)
    ensures
        spec_claim_reward(
            survey,
            existing,
            participant,
            participant_is_signer,
            survey_id,
            survey_lamports,
            participant_lamports,
            now,
        ) matches Ok(o) ==> {
            &&& o.survey_lamports + o.participant_lamports == survey_lamports
                + participant_lamports
            &&& o.survey_lamports == survey_lamports - survey.sol_reward_amount
            &&& o.token_transfer_amount == survey.token_reward_amount
        },
{
}

/// Byte-string equality of two survey ids.
fn bytes_eq(a: &Vec<u8>, b: &Vec<u8>) -> (r: bool)
    ensures
        r == (a@ == b@),
{
    if a.len() != b.len() {
        return false;
    }
    let mut i: usize = 0;
    while i < a.len()
        invariant
            0 <= i <= a.len(),
            a@.len() == b@.len(),
            forall|k: int| 0 <= k < i ==> a@[k] == b@[k],
        decreases a.len() - i,
    {
        if a[i] != b[i] {
            return false;
        }
        i = i + 1;
    }
    proof {
        assert(a@ =~= b@);
    }
    true
}

/// An owned copy of a byte string.
fn copy_bytes(v: &Vec<u8>) -> (r: Vec<u8>)
    ensures
        r@ == v@,
{
    slice_to_vec(v.as_slice())
}

/// The instruction-processing logic.
pub struct Processor;

impl Processor {
    /// Initialize a new survey campaign.
    ///
    /// `existing` is the record currently stored at the campaign's address,
    /// if any; `survey_lamports` is that account's funding and
    /// `rent_minimum_balance` the store's minimum for a campaign record.
    pub fn process_initialize_survey(
        existing: Option<&SurveyAccount>,
        owner: Identity,
        owner_is_signer: bool,
        token_mint: Identity,
        survey_lamports: u64,
        rent_minimum_balance: u64,
        now: i64,
        survey_id: Vec<u8>,
        sol_reward_amount: u64,
        token_reward_amount: u64,
        max_participants: u32,
    ) -> (r: Result<SurveyAccount, ProcessError>)
        ensures
            res_view(r) == spec_initialize_survey(
                opt_survey_view(existing),
                owner,
                owner_is_signer,
                token_mint,
                survey_lamports,
                rent_minimum_balance,
                now,
                survey_id@,
                sol_reward_amount,
                token_reward_amount,
                max_participants,
            ),
            r matches Ok(s) ==> s@.wf(),
    {
        if !owner_is_signer {
            return Err(ProcessError::MissingRequiredSignature);
        }
        let already = match existing {
            Some(s) => s.is_initialized,
            None => false,
        };
        if already {
            return Err(ProcessError::Survey(SurveyError::SurveyAlreadyExists));
        }
        if survey_lamports < rent_minimum_balance {
            return Err(ProcessError::Survey(SurveyError::InsufficientFunds));
        }
        if survey_id.len() > SURVEY_ID_MAX_LEN {
            return Err(ProcessError::Survey(SurveyError::InvalidMetadata));
        }
        Ok(
            SurveyAccount::new(
                survey_id,
                owner,
                sol_reward_amount,
                token_reward_amount,
                token_mint,
                max_participants,
                now,
            ),
        )
    }

    /// Claim the native and token rewards of a survey for one participant.
    ///
    /// On success the returned outcome carries both updated records, both
    /// native balances, and the token amount the gateway must transfer; on
    /// any error nothing is to be persisted.
    pub fn process_claim_reward(
        survey: &SurveyAccount,
        existing: Option<&ParticipantAccount>,
        participant: Identity,
        participant_is_signer: bool,
        survey_id: &Vec<u8>,
        survey_lamports: u64,
        participant_lamports: u64,
        now: i64,
    ) -> (r: Result<ClaimOutcome, ProcessError>)
        ensures
            res_view(r) == spec_claim_reward(
                survey@,
                opt_participant_view(existing),
                participant,
                participant_is_signer,
                survey_id@,
                survey_lamports,
                participant_lamports,
                now,
            ),
            r matches Ok(o) ==> (survey@.wf() ==> o.survey@.wf()),
            r matches Ok(o) ==> (survey@.wf() && (match existing {
                Some(p) => p@.wf(),
                None => true,
            }) ==> o.participant@.wf()),
    {
        if !participant_is_signer {
            return Err(ProcessError::MissingRequiredSignature);
        }
        if !survey.is_initialized {
            return Err(ProcessError::Survey(SurveyError::NotInitialized));
        }
        if !bytes_eq(&survey.survey_id, survey_id) {
            return Err(ProcessError::Survey(SurveyError::SurveyNotFound));
        }
        if !survey.is_active {
            return Err(ProcessError::Survey(SurveyError::SurveyClosed));
        }
        let counted = match existing {
            Some(p) => p.claimed_at.is_some(),
            None => false,
        };
        let has_sol0 = match existing {
            Some(p) => p.has_claimed_sol,
            None => false,
        };
        let has_token0 = match existing {
            Some(p) => p.has_claimed_token,
            None => false,
        };
        if !counted && survey.current_participants >= survey.max_participants {
            return Err(ProcessError::Survey(SurveyError::SurveyFull));
        }
        if (survey.sol_reward_amount > 0 && has_sol0) || (survey.token_reward_amount > 0
            && has_token0) {
            return Err(ProcessError::Survey(SurveyError::AlreadyClaimed));
        }
        if survey.sol_reward_amount > survey_lamports {
            return Err(ProcessError::Survey(SurveyError::InsufficientFunds));
        }
        if survey.sol_reward_amount > 0 && participant_lamports > u64::MAX
            - survey.sol_reward_amount {
            return Err(ProcessError::Survey(SurveyError::Overflow));
        }
        let new_survey = SurveyAccount {
            is_initialized: survey.is_initialized,
            survey_id: copy_bytes(&survey.survey_id),
            owner: survey.owner,
            sol_reward_amount: survey.sol_reward_amount,
            token_reward_amount: survey.token_reward_amount,
            token_mint: survey.token_mint,
            max_participants: survey.max_participants,
            current_participants: if counted {
                survey.current_participants
            } else {
                survey.current_participants + 1
            },
            created_at: survey.created_at,
            is_active: survey.is_active,
            nft_collection: survey.nft_collection,
        };
        let new_participant = ParticipantAccount {
            is_initialized: true,
            survey_id: match existing {
                Some(p) => copy_bytes(&p.survey_id),
                None => copy_bytes(survey_id),
            },
            participant: match existing {
                Some(p) => p.participant,
                None => participant,
            },
            has_claimed_sol: has_sol0 || survey.sol_reward_amount > 0,
            has_claimed_token: has_token0 || survey.token_reward_amount > 0,
            has_received_nft: match existing {
                Some(p) => p.has_received_nft,
                None => false,
            },
            claimed_at: Some(now),
        };
        Ok(
            ClaimOutcome {
                survey: new_survey,
                participant: new_participant,
                survey_lamports: survey_lamports - survey.sol_reward_amount,
                participant_lamports: participant_lamports + survey.sol_reward_amount,
                token_transfer_amount: survey.token_reward_amount,
            },
        )
    }

    /// Distribute one unit of the collectible to a participant.
    ///
    /// On success the returned outcome carries the updated participant
    /// record and the one-unit mint the gateway must perform.
    pub fn process_distribute_nft(
        survey: &SurveyAccount,
        existing: Option<&ParticipantAccount>,
        owner: Identity,
        owner_is_signer: bool,
        survey_id: &Vec<u8>,
    ) -> (r: Result<NftOutcome, ProcessError>)
        ensures
            res_view(r) == spec_distribute_nft(
                survey@,
                opt_participant_view(existing),
                owner,
                owner_is_signer,
                survey_id@,
            ),
            r matches Ok(o) ==> ((match existing {
                Some(p) => p@.wf(),
                None => true,
            }) ==> o.participant@.wf()),
    {
        if !owner_is_signer {
            return Err(ProcessError::MissingRequiredSignature);
        }
        if !survey.is_initialized {
            return Err(ProcessError::Survey(SurveyError::NotInitialized));
        }
        if survey.owner != owner {
            return Err(ProcessError::Survey(SurveyError::InvalidOwner));
        }
        if !bytes_eq(&survey.survey_id, survey_id) {
            return Err(ProcessError::Survey(SurveyError::SurveyNotFound));
        }
        if !survey.is_active {
            return Err(ProcessError::Survey(SurveyError::SurveyClosed));
        }
        match existing {
            None => Err(ProcessError::Survey(SurveyError::NotInitialized)),
            Some(p) => {
                if !p.is_initialized {
                    return Err(ProcessError::Survey(SurveyError::NotInitialized));
                }
                if p.has_received_nft {
                    return Err(ProcessError::Survey(SurveyError::AlreadyClaimed));
                }
                Ok(
                    NftOutcome {
                        participant: ParticipantAccount {
                            is_initialized: p.is_initialized,
                            survey_id: copy_bytes(&p.survey_id),
                            participant: p.participant,
                            has_claimed_sol: p.has_claimed_sol,
                            has_claimed_token: p.has_claimed_token,
                            has_received_nft: true,
                            claimed_at: p.claimed_at,
                        },
                        mint_amount: 1,
                    },
                )
            },
        }
    }

    /// Close a survey campaign for good.
    ///
    /// On success the returned outcome carries the deactivated record, the
    /// campaign's native balance zeroed, and the owner's destination balance
    /// credited with all of it.
    pub fn process_close_survey(
        survey: &SurveyAccount,
        owner: Identity,
        owner_is_signer: bool,
        survey_id: &Vec<u8>,
        survey_lamports: u64,
        owner_lamports: u64,
    ) -> (r: Result<CloseOutcome, ProcessError>)
        ensures
            res_view(r) == spec_close_survey(
                survey@,
                owner,
                owner_is_signer,
                survey_id@,
                survey_lamports,
                owner_lamports,
            ),
            r matches Ok(o) ==> (survey@.wf() ==> o.survey@.wf()),
    {
        if !owner_is_signer {
            return Err(ProcessError::MissingRequiredSignature);
        }
        if !survey.is_initialized {
            return Err(ProcessError::Survey(SurveyError::NotInitialized));
        }
        if survey.owner != owner {
            return Err(ProcessError::Survey(SurveyError::InvalidOwner));
        }
        if !bytes_eq(&survey.survey_id, survey_id) {
            return Err(ProcessError::Survey(SurveyError::SurveyNotFound));
        }
        if !survey.is_active {
            return Err(ProcessError::Survey(SurveyError::SurveyClosed));
        }
        if owner_lamports > u64::MAX - survey_lamports {
            return Err(ProcessError::Survey(SurveyError::Overflow));
        }
        Ok(
            CloseOutcome {
                survey: SurveyAccount {
                    is_initialized: survey.is_initialized,
                    survey_id: copy_bytes(&survey.survey_id),
                    owner: survey.owner,
                    sol_reward_amount: survey.sol_reward_amount,
                    token_reward_amount: survey.token_reward_amount,
                    token_mint: survey.token_mint,
                    max_participants: survey.max_participants,
                    current_participants: survey.current_participants,
                    created_at: survey.created_at,
                    is_active: false,
                    nft_collection: survey.nft_collection,
                },
                survey_lamports: 0,
                owner_lamports: owner_lamports + survey_lamports,
            },
        )
    }
}

/// Everything one request needs from the host: the caller's identity and
/// whether it signed, the records loaded for the addresses the request
/// names, the balances of the two native accounts involved, the store's
/// minimum funding for a campaign record, and the clock reading.
pub struct RequestContext {
    /// The first account of the request: the owner for initialization,
    /// distribution and closure, the participant for a claim.
    pub caller: Identity,
    pub caller_is_signer: bool,
    /// The campaign record stored at the survey address, if any.
    pub survey: Option<SurveyAccount>,
    /// The participant record keyed by (survey id, participant), if any.
    pub participant: Option<ParticipantAccount>,
    /// The reward token mint named by an initialization request.
    pub token_mint: Identity,
    /// The native balance of the campaign's account.
    pub survey_lamports: u64,
    /// The native balance of the caller's account: the claimant's for a
    /// claim, the owner's destination for a closure.
    pub caller_lamports: u64,
    /// The store's minimum balance for a record of a campaign's size.
    pub rent_minimum_balance: u64,
    /// The current time, from the host's clock.
    pub now: i64,
}

/// Mathematical view of a request context.
pub struct RequestContextV {
    pub caller: Identity,
    pub caller_is_signer: bool,
    pub survey: Option<SurveyAccountV>,
    pub participant: Option<ParticipantAccountV>,
    pub token_mint: Identity,
    pub survey_lamports: u64,
    pub caller_lamports: u64,
    pub rent_minimum_balance: u64,
    pub now: i64,
}

impl View for RequestContext {
    type V = RequestContextV;

    open spec fn view(&self) -> RequestContextV {
        RequestContextV {
            caller: self.caller,
            caller_is_signer: self.caller_is_signer,
            survey: match self.survey {
                None => None,
                Some(s) => Some(s@),
            },
            participant: match self.participant {
                None => None,
                Some(p) => Some(p@),
            },
            token_mint: self.token_mint,
            survey_lamports: self.survey_lamports,
            caller_lamports: self.caller_lamports,
            rent_minimum_balance: self.rent_minimum_balance,
            now: self.now,
        }
    }
}

/// The effects of one successful operation, for the host to apply.
#[derive(Clone, Debug, PartialEq, Eq)]
pub enum Effects {
    Initialized { survey: SurveyAccount },
    Claimed(ClaimOutcome),
    NftDistributed(NftOutcome),
    Closed(CloseOutcome),
}

/// Mathematical view of an operation's effects.
pub enum EffectsV {
    Initialized { survey: SurveyAccountV },
    Claimed(ClaimOutcomeV),
    NftDistributed(NftOutcomeV),
    Closed(CloseOutcomeV),
}

impl View for Effects {
    type V = EffectsV;

    open spec fn view(&self) -> EffectsV {
        match self {
            Effects::Initialized { survey } => EffectsV::Initialized { survey: survey@ },
            Effects::Claimed(o) => EffectsV::Claimed(o@),
            Effects::NftDistributed(o) => EffectsV::NftDistributed(o@),
            Effects::Closed(o) => EffectsV::Closed(o@),
        }
    }
}

/// What one decoded operation yields against a request context. An
/// operation other than initialization needs a stored campaign record; when
/// there is none it is rejected — after the signature check — as not
/// initialized.
pub open spec fn spec_process(v: SurveyInstructionV, c: RequestContextV) -> Result<
    EffectsV,
    ProcessError,
> {
    match v {
        SurveyInstructionV::InitializeSurvey {
            survey_id,
            sol_reward_amount,
            token_reward_amount,
            max_participants,
        } => match spec_initialize_survey(
            c.survey,
            c.caller,
            c.caller_is_signer,
            c.token_mint,
            c.survey_lamports,
            c.rent_minimum_balance,
            c.now,
            survey_id,
            sol_reward_amount,
            token_reward_amount,
            max_participants,
        ) {
            Ok(s) => Ok(EffectsV::Initialized { survey: s }),
            Err(e) => Err(e),
        },
        SurveyInstructionV::ClaimReward { survey_id } => match c.survey {
            None => if !c.caller_is_signer {
                Err(ProcessError::MissingRequiredSignature)
            } else {
                Err(ProcessError::Survey(SurveyError::NotInitialized))
            },
            Some(s) => match spec_claim_reward(
                s,
                c.participant,
                c.caller,
                c.caller_is_signer,
                survey_id,
                c.survey_lamports,
                c.caller_lamports,
                c.now,
            ) {
                Ok(o) => Ok(EffectsV::Claimed(o)),
                Err(e) => Err(e),
            },
        },
        SurveyInstructionV::DistributeNft { survey_id } => match c.survey {
            None => if !c.caller_is_signer {
                Err(ProcessError::MissingRequiredSignature)
            } else {
                Err(ProcessError::Survey(SurveyError::NotInitialized))
            },
            Some(s) => match spec_distribute_nft(
                s,
                c.participant,
                c.caller,
                c.caller_is_signer,
                survey_id,
            ) {
                Ok(o) => Ok(EffectsV::NftDistributed(o)),
                Err(e) => Err(e),
            },
        },
        SurveyInstructionV::CloseSurvey { survey_id } => match c.survey {
            None => if !c.caller_is_signer {
                Err(ProcessError::MissingRequiredSignature)
            } else {
                Err(ProcessError::Survey(SurveyError::NotInitialized))
            },
            Some(s) => match spec_close_survey(
                s,
                c.caller,
                c.caller_is_signer,
                survey_id,
                c.survey_lamports,
                c.caller_lamports,
            ) {
                Ok(o) => Ok(EffectsV::Closed(o)),
                Err(e) => Err(e),
            },
        },
    }
}

/// Decode a raw command and run it against the request context.
///
/// A command that encodes no operation is rejected as an invalid
/// instruction; otherwise the outcome is exactly that operation's.
pub fn process_instruction(instruction_data: &[u8], ctx: &RequestContext) -> (r: Result<
    Effects,
    ProcessError,
>)
    ensures
        forall|v: SurveyInstructionV|
            v.encodable() && instruction_data@ == crate::instruction::spec_encode(v)
                ==> res_view(r) == spec_process(v, ctx@),
        (forall|v: SurveyInstructionV|
            v.encodable() ==> instruction_data@ != crate::instruction::spec_encode(v)) ==> r
            == Err::<Effects, ProcessError>(ProcessError::Survey(SurveyError::InvalidInstruction)),
{
    let inst = match SurveyInstruction::unpack(instruction_data) {
        Err(_) => {
            return Err(ProcessError::Survey(SurveyError::InvalidInstruction));
        },
        Ok(i) => i,
    };
    match inst {
        SurveyInstruction::InitializeSurvey {
            survey_id,
            sol_reward_amount,
            token_reward_amount,
            max_participants,
        } => {
            let existing: Option<&SurveyAccount> = match &ctx.survey {
                Some(s) => Some(s),
                None => None,
            };
            match Processor::process_initialize_survey(
                existing,
                ctx.caller,
                ctx.caller_is_signer,
                ctx.token_mint,
                ctx.survey_lamports,
                ctx.rent_minimum_balance,
                ctx.now,
                survey_id,
                sol_reward_amount,
                token_reward_amount,
                max_participants,
            ) {
                Ok(s) => Ok(Effects::Initialized { survey: s }),
                Err(e) => Err(e),
            }
        },
        SurveyInstruction::ClaimReward { survey_id } => {
            match &ctx.survey {
                None => if !ctx.caller_is_signer {
                    Err(ProcessError::MissingRequiredSignature)
                } else {
                    Err(ProcessError::Survey(SurveyError::NotInitialized))
                },
                Some(s) => {
                    let existing: Option<&ParticipantAccount> = match &ctx.participant {
                        Some(p) => Some(p),
                        None => None,
                    };
                    match Processor::process_claim_reward(
                        s,
                        existing,
                        ctx.caller,
                        ctx.caller_is_signer,
                        &survey_id,
                        ctx.survey_lamports,
                        ctx.caller_lamports,
                        ctx.now,
                    ) {
                        Ok(o) => Ok(Effects::Claimed(o)),
                        Err(e) => Err(e),
                    }
                },
            }
        },
        SurveyInstruction::DistributeNft { survey_id } => {
            match &ctx.survey {
                None => if !ctx.caller_is_signer {
                    Err(ProcessError::MissingRequiredSignature)
                } else {
                    Err(ProcessError::Survey(SurveyError::NotInitialized))
                },
                Some(s) => {
                    let existing: Option<&ParticipantAccount> = match &ctx.participant {
                        Some(p) => Some(p),
                        None => None,
                    };
                    match Processor::process_distribute_nft(
                        s,
                        existing,
                        ctx.caller,
                        ctx.caller_is_signer,
                        &survey_id,
                    ) {
                        Ok(o) => Ok(Effects::NftDistributed(o)),
                        Err(e) => Err(e),
                    }
                },
            }
        },
        SurveyInstruction::CloseSurvey { survey_id } => {
            match &ctx.survey {
                None => if !ctx.caller_is_signer {
                    Err(ProcessError::MissingRequiredSignature)
                } else {
                    Err(ProcessError::Survey(SurveyError::NotInitialized))
                },
                Some(s) => {
                    match Processor::process_close_survey(
                        s,
                        ctx.caller,
                        ctx.caller_is_signer,
                        &survey_id,
                        ctx.survey_lamports,
                        ctx.caller_lamports,
                    ) {
                        Ok(o) => Ok(Effects::Closed(o)),
                        Err(e) => Err(e),
                    }
                },
            }
        },
    }
}

} // verus!
