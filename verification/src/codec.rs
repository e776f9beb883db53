//! Fixed-layout byte codec for the persisted records.
//!
//! Both records use fixed byte widths: booleans and option tags are one
//! strict 0/1 byte, integers are little-endian, the survey id is a 4-byte
//! length prefix plus a 64-byte field padded with zeroes, identities are 32
//! bytes, and an absent optional value leaves its field all zero. Decoding
//! is strict: a record either is exactly the encoding of a well-formed
//! value or is rejected.

use vstd::bytes::*;
use vstd::prelude::*;
use vstd::slice::*;

use crate::state::{
    Identity, ParticipantAccount, ParticipantAccountV, SurveyAccount, SurveyAccountV,
    SURVEY_ID_MAX_LEN,
};

verus! {

/// Encoded length of a campaign record.
pub const SURVEY_RECORD_LEN: usize = 199;

/// Encoded length of a participant record.
pub const PARTICIPANT_RECORD_LEN: usize = 113;

/// A run of zero bytes.
pub open spec fn spec_zero_bytes(n: int) -> Seq<u8> {
    Seq::new(n as nat, |i: int| 0u8)
}

/// The single strict byte that encodes a boolean.
pub open spec fn spec_bool_byte(b: bool) -> u8 {
    if b {
        1
    } else {
        0
    }
}

/// The two's-complement 64-bit word that holds a timestamp.
pub open spec fn spec_i64_as_u64(x: i64) -> u64 {
    if x >= 0 {
        x as u64
    } else {
        (x + 0x1_0000_0000_0000_0000) as u64
    }
}

/// The timestamp read back from its two's-complement 64-bit word.
pub open spec fn spec_u64_as_i64(x: u64) -> i64 {
    if x < 0x8000_0000_0000_0000 {
        x as i64
    } else {
        (x - 0x1_0000_0000_0000_0000) as i64
    }
}

/// Reading a timestamp's word back yields the timestamp.
pub proof fn lemma_i64_u64_roundtrip(x: i64)
    ensures
        spec_u64_as_i64(spec_i64_as_u64(x)) == x,
{
}

fn i64_to_u64(x: i64) -> (r: u64)
    ensures
        r == spec_i64_as_u64(x),
{
    if x >= 0 {
        x as u64
    } else {
        ((x as i128) + 0x1_0000_0000_0000_0000i128) as u64
    }
}

fn u64_to_i64(x: u64) -> (r: i64)
    ensures
        r == spec_u64_as_i64(x),
{
    if x < 0x8000_0000_0000_0000 {
        x as i64
    } else {
        ((x as i128) - 0x1_0000_0000_0000_0000i128) as i64
    }
}

/// The 32 bytes of an identity: its four words, little-endian.
pub open spec fn spec_identity_bytes(x: Identity) -> Seq<u8> {
    spec_u64_to_le_bytes(x.w0) + spec_u64_to_le_bytes(x.w1) + spec_u64_to_le_bytes(x.w2)
        + spec_u64_to_le_bytes(x.w3)
}

/// The identity read from 32 bytes.
pub open spec fn spec_read_identity(s: Seq<u8>) -> Identity
    recommends
        s.len() == 32,
{
    Identity {
        w0: spec_u64_from_le_bytes(s.subrange(0, 8)),
        w1: spec_u64_from_le_bytes(s.subrange(8, 16)),
        w2: spec_u64_from_le_bytes(s.subrange(16, 24)),
        w3: spec_u64_from_le_bytes(s.subrange(24, 32)),
    }
}

/// The identity codec inverts in both directions.
pub proof fn lemma_identity_bytes_roundtrip(x: Identity, s: Seq<u8>)
    requires
        s.len() == 32,
    ensures
        spec_identity_bytes(x).len() == 32,
        spec_read_identity(spec_identity_bytes(x)) == x,
        spec_identity_bytes(spec_read_identity(s)) == s,
{
    lemma_auto_spec_u64_to_from_le_bytes();
    let e = spec_identity_bytes(x);
    assert(e.subrange(0, 8) =~= spec_u64_to_le_bytes(x.w0));
    assert(e.subrange(8, 16) =~= spec_u64_to_le_bytes(x.w1));
    assert(e.subrange(16, 24) =~= spec_u64_to_le_bytes(x.w2));
    assert(e.subrange(24, 32) =~= spec_u64_to_le_bytes(x.w3));
    assert(spec_identity_bytes(spec_read_identity(s)) =~= s);
}

fn push_identity(out: &mut Vec<u8>, x: Identity)
    ensures
        final(out)@ == old(out)@ + spec_identity_bytes(x),
{
    let b0 = u64_to_le_bytes(x.w0);
    out.extend_from_slice(b0.as_slice());
    let b1 = u64_to_le_bytes(x.w1);
    out.extend_from_slice(b1.as_slice());
    let b2 = u64_to_le_bytes(x.w2);
    out.extend_from_slice(b2.as_slice());
    let b3 = u64_to_le_bytes(x.w3);
    out.extend_from_slice(b3.as_slice());
    proof {
        assert(out@ =~= old(out)@ + spec_identity_bytes(x));
    }
}

fn read_identity(b: &[u8], at: usize) -> (r: Identity)
    requires
        at + 32 <= b@.len(),
        b@.len() <= usize::MAX,
    ensures
        r == spec_read_identity(b@.subrange(at as int, at + 32)),
{
    let w0 = u64_from_le_bytes(slice_subrange(b, at, at + 8));
    let w1 = u64_from_le_bytes(slice_subrange(b, at + 8, at + 16));
    let w2 = u64_from_le_bytes(slice_subrange(b, at + 16, at + 24));
    let w3 = u64_from_le_bytes(slice_subrange(b, at + 24, at + 32));
    proof {
        let s = b@.subrange(at as int, at + 32);
        assert(s.subrange(0, 8) =~= b@.subrange(at as int, at + 8));
        assert(s.subrange(8, 16) =~= b@.subrange(at + 8, at + 16));
        assert(s.subrange(16, 24) =~= b@.subrange(at + 16, at + 24));
        assert(s.subrange(24, 32) =~= b@.subrange(at + 24, at + 32));
    }
    Identity { w0, w1, w2, w3 }
}

/// The survey id field: length prefix, id bytes, zero padding to 64 bytes.
pub open spec fn spec_id_field(id: Seq<u8>) -> Seq<u8>
    recommends
        id.len() <= SURVEY_ID_MAX_LEN,
{
    spec_u32_to_le_bytes(id.len() as u32) + id + spec_zero_bytes(SURVEY_ID_MAX_LEN - id.len())
}

fn push_id_field(out: &mut Vec<u8>, id: &Vec<u8>)
    requires
        id@.len() <= SURVEY_ID_MAX_LEN,
    ensures
        final(out)@ == old(out)@ + spec_id_field(id@),
{
    let lb = u32_to_le_bytes(id.len() as u32);
    out.extend_from_slice(lb.as_slice());
    out.extend_from_slice(id.as_slice());
    let pad_len = SURVEY_ID_MAX_LEN - id.len();
    let pad: Vec<u8> = vec![0u8; pad_len];
    out.extend_from_slice(pad.as_slice());
    proof {
        assert(out@ =~= old(out)@ + spec_id_field(id@));
    }
}

/// Whether every byte of `b` in `from..to` is zero.
fn all_zero(b: &[u8], from: usize, to: usize) -> (r: bool)
    requires
        from <= to <= b@.len(),
    ensures
        r == (forall|k: int| from <= k < to ==> b@[k] == 0),
{
    let mut j = from;
    while j < to
        invariant
            from <= j <= to <= b@.len(),
            forall|k: int| from <= k < j ==> b@[k] == 0,
        decreases to - j,
    {
        if b[j] != 0 {
            return false;
        }
        j = j + 1;
    }
    true
}

/// The 33-byte field of an optional identity: strict 0/1 tag, then the
/// identity's bytes, or zeroes when absent.
pub open spec fn spec_opt_identity_bytes(o: Option<Identity>) -> Seq<u8> {
    match o {
        None => seq![0u8] + spec_zero_bytes(32),
        Some(x) => seq![1u8] + spec_identity_bytes(x),
    }
}

/// The 9-byte field of an optional timestamp.
pub open spec fn spec_opt_time_bytes(o: Option<i64>) -> Seq<u8> {
    match o {
        None => seq![0u8] + spec_zero_bytes(8),
        Some(t) => seq![1u8] + spec_u64_to_le_bytes(spec_i64_as_u64(t)),
    }
}

/// The unique byte encoding of a campaign record.
pub open spec fn spec_survey_record_bytes(v: SurveyAccountV) -> Seq<u8>
    recommends
        v.wf(),
{
    seq![spec_bool_byte(v.is_initialized)] + spec_id_field(v.survey_id)
        + spec_identity_bytes(v.owner) + spec_u64_to_le_bytes(v.sol_reward_amount)
        + spec_u64_to_le_bytes(v.token_reward_amount) + spec_identity_bytes(v.token_mint)
        + spec_u32_to_le_bytes(v.max_participants) + spec_u32_to_le_bytes(v.current_participants)
        + spec_u64_to_le_bytes(spec_i64_as_u64(v.created_at)) + seq![spec_bool_byte(v.is_active)]
        + spec_opt_identity_bytes(v.nft_collection)
}

/// How a campaign record's encoding decomposes into its fields.
pub proof fn lemma_survey_record_parts(v: SurveyAccountV)
    requires
        v.wf(),
    ensures
        ({
            let e = spec_survey_record_bytes(v);
            let n = v.survey_id.len() as int;
            &&& e.len() == SURVEY_RECORD_LEN
            &&& e[0] == spec_bool_byte(v.is_initialized)
            &&& e.subrange(1, 5) == spec_u32_to_le_bytes(v.survey_id.len() as u32)
            &&& e.subrange(5, 5 + n) == v.survey_id
            &&& (forall|k: int| 5 + n <= k < 69 ==> e[k] == 0)
            &&& e.subrange(69, 101) == spec_identity_bytes(v.owner)
            &&& e.subrange(101, 109) == spec_u64_to_le_bytes(v.sol_reward_amount)
            &&& e.subrange(109, 117) == spec_u64_to_le_bytes(v.token_reward_amount)
            &&& e.subrange(117, 149) == spec_identity_bytes(v.token_mint)
            &&& e.subrange(149, 153) == spec_u32_to_le_bytes(v.max_participants)
            &&& e.subrange(153, 157) == spec_u32_to_le_bytes(v.current_participants)
            &&& e.subrange(157, 165) == spec_u64_to_le_bytes(spec_i64_as_u64(v.created_at))
            &&& e[165] == spec_bool_byte(v.is_active)
            &&& e[166] == (if v.nft_collection is Some {
                1u8
            } else {
                0u8
            })
            &&& (v.nft_collection matches Some(x) ==> e.subrange(167, 199)
                == spec_identity_bytes(x))
            &&& (v.nft_collection is None ==> forall|k: int| 167 <= k < 199 ==> e[k] == 0)
        }),
{
    lemma_auto_spec_u32_to_from_le_bytes();
    lemma_auto_spec_u64_to_from_le_bytes();
    lemma_identity_bytes_roundtrip(v.owner, spec_zero_bytes(32));
    lemma_identity_bytes_roundtrip(v.token_mint, spec_zero_bytes(32));
    let e = spec_survey_record_bytes(v);
    let n = v.survey_id.len() as int;
    assert(e.subrange(1, 5) =~= spec_u32_to_le_bytes(v.survey_id.len() as u32));
    assert(e.subrange(5, 5 + n) =~= v.survey_id);
    assert(e.subrange(69, 101) =~= spec_identity_bytes(v.owner));
    assert(e.subrange(101, 109) =~= spec_u64_to_le_bytes(v.sol_reward_amount));
    assert(e.subrange(109, 117) =~= spec_u64_to_le_bytes(v.token_reward_amount));
    assert(e.subrange(117, 149) =~= spec_identity_bytes(v.token_mint));
    assert(e.subrange(149, 153) =~= spec_u32_to_le_bytes(v.max_participants));
    assert(e.subrange(153, 157) =~= spec_u32_to_le_bytes(v.current_participants));
    assert(e.subrange(157, 165) =~= spec_u64_to_le_bytes(spec_i64_as_u64(v.created_at)));
    match v.nft_collection {
        Some(x) => {
            lemma_identity_bytes_roundtrip(x, spec_zero_bytes(32));
            assert(e.subrange(167, 199) =~= spec_identity_bytes(x));
        },
        None => {},
    }
}

impl SurveyAccount {
    /// Encode this record into its fixed 199-byte layout.
    pub fn encode(&self) -> (r: Vec<u8>)
        requires
            self@.wf(),
        ensures
            r@ == spec_survey_record_bytes(self@),
            r@.len() == SURVEY_RECORD_LEN,
    {
        let mut out: Vec<u8> = Vec::new();
        out.push(if self.is_initialized {
            1
        } else {
            0
        });
        push_id_field(&mut out, &self.survey_id);
        push_identity(&mut out, self.owner);
        let sol_bytes = u64_to_le_bytes(self.sol_reward_amount);
        out.extend_from_slice(sol_bytes.as_slice());
        let token_bytes = u64_to_le_bytes(self.token_reward_amount);
        out.extend_from_slice(token_bytes.as_slice());
        push_identity(&mut out, self.token_mint);
        let max_bytes = u32_to_le_bytes(self.max_participants);
        out.extend_from_slice(max_bytes.as_slice());
        let cur_bytes = u32_to_le_bytes(self.current_participants);
        out.extend_from_slice(cur_bytes.as_slice());
        let created_bytes = u64_to_le_bytes(i64_to_u64(self.created_at));
        out.extend_from_slice(created_bytes.as_slice());
        out.push(if self.is_active {
            1
        } else {
            0
        });
        match self.nft_collection {
            None => {
                out.push(0);
                let pad: Vec<u8> = vec![0u8; 32];
                out.extend_from_slice(pad.as_slice());
            },
            Some(x) => {
                out.push(1);
                push_identity(&mut out, x);
            },
        }
        proof {
            lemma_survey_record_parts(self@);
            assert(out@ =~= spec_survey_record_bytes(self@));
        }
        out
    }

    /// Decode a campaign record from its fixed layout.
    ///
    /// Succeeds exactly on the encodings of well-formed records; every other
    /// byte string is rejected.
    #[verifier::rlimit(100)]
    pub fn decode(b: &[u8]) -> (r: Option<SurveyAccount>)
        ensures
            r matches Some(s) ==> s@.wf() && b@ == spec_survey_record_bytes(s@),
            forall|v: SurveyAccountV|
                v.wf() && b@ == spec_survey_record_bytes(v) ==> match r {
                    Some(s) => s@ == v,
                    None => false,
                },
    {
        proof {
            lemma_auto_spec_u32_to_from_le_bytes();
            lemma_auto_spec_u64_to_from_le_bytes();
        }
        if b.len() != SURVEY_RECORD_LEN {
            proof {
                assert forall|v: SurveyAccountV|
                    v.wf() && b@ == spec_survey_record_bytes(v) implies false by {
                    lemma_survey_record_parts(v);
                }
            }
            return None;
        }
        let init_byte = b[0];
        let len32 = u32_from_le_bytes(slice_subrange(b, 1, 5));
        let active_byte = b[165];
        let nft_tag = b[166];
        if init_byte > 1 || active_byte > 1 || nft_tag > 1 || len32 > 64 {
            proof {
                assert forall|v: SurveyAccountV|
                    v.wf() && b@ == spec_survey_record_bytes(v) implies false by {
                    lemma_survey_record_parts(v);
                }
            }
            return None;
        }
        let len = len32 as usize;
        let survey_id = slice_to_vec(slice_subrange(b, 5, 5 + len));
        if !all_zero(b, 5 + len, 69) {
            proof {
                assert forall|v: SurveyAccountV|
                    v.wf() && b@ == spec_survey_record_bytes(v) implies false by {
                    lemma_survey_record_parts(v);
                }
            }
            return None;
        }
        let owner = read_identity(b, 69);
        let sol_reward_amount = u64_from_le_bytes(slice_subrange(b, 101, 109));
        let token_reward_amount = u64_from_le_bytes(slice_subrange(b, 109, 117));
        let token_mint = read_identity(b, 117);
        let max_participants = u32_from_le_bytes(slice_subrange(b, 149, 153));
        let current_participants = u32_from_le_bytes(slice_subrange(b, 153, 157));
        let created_at = u64_to_i64(u64_from_le_bytes(slice_subrange(b, 157, 165)));
        if current_participants > max_participants {
            proof {
                assert forall|v: SurveyAccountV|
                    v.wf() && b@ == spec_survey_record_bytes(v) implies false by {
                    lemma_survey_record_parts(v);
                }
            }
            return None;
        }
        let nft_collection: Option<Identity> = if nft_tag == 0 {
            if !all_zero(b, 167, 199) {
                proof {
                    assert forall|v: SurveyAccountV|
                        v.wf() && b@ == spec_survey_record_bytes(v) implies false by {
                        lemma_survey_record_parts(v);
                    }
                }
                return None;
            }
            None
        } else {
            Some(read_identity(b, 167))
        };
        let s = SurveyAccount {
            is_initialized: init_byte == 1,
            survey_id,
            owner,
            sol_reward_amount,
            token_reward_amount,
            token_mint,
            max_participants,
            current_participants,
            created_at,
            is_active: active_byte == 1,
            nft_collection,
        };
        proof {
            lemma_survey_record_parts(s@);
            lemma_i64_u64_roundtrip(s.created_at);
            if s@.nft_collection is None {
                assert(spec_identity_bytes(spec_read_identity(spec_zero_bytes(32)))
                    =~= spec_zero_bytes(32)) by {
                    lemma_identity_bytes_roundtrip(
                        spec_read_identity(spec_zero_bytes(32)),
                        spec_zero_bytes(32),
                    );
                }
            } else {
                lemma_identity_bytes_roundtrip(s.nft_collection->0, b@.subrange(167, 199));
            }
            lemma_identity_bytes_roundtrip(owner, b@.subrange(69, 101));
            lemma_identity_bytes_roundtrip(token_mint, b@.subrange(117, 149));
            assert(b@ =~= spec_survey_record_bytes(s@));
            assert forall|v: SurveyAccountV|
                v.wf() && b@ == spec_survey_record_bytes(v) implies s@ == v by {
                lemma_survey_record_parts(v);
                lemma_i64_u64_roundtrip(v.created_at);
                lemma_identity_bytes_roundtrip(v.owner, b@.subrange(69, 101));
                lemma_identity_bytes_roundtrip(v.token_mint, b@.subrange(117, 149));
                assert(v.survey_id.len() == len);
                assert(v.survey_id =~= s@.survey_id);
                assert(v.is_initialized == s@.is_initialized);
                assert(v.owner == s@.owner);
                assert(v.sol_reward_amount == s@.sol_reward_amount);
                assert(v.token_reward_amount == s@.token_reward_amount);
                assert(v.token_mint == s@.token_mint);
                assert(v.max_participants == s@.max_participants);
                assert(v.current_participants == s@.current_participants);
                assert(v.created_at == s@.created_at);
                assert(v.is_active == s@.is_active);
                match v.nft_collection {
                    Some(x) => lemma_identity_bytes_roundtrip(x, b@.subrange(167, 199)),
                    None => (),
                }
                assert(v.nft_collection == s@.nft_collection);
            }
        }
        Some(s)
    }
}

/// The unique byte encoding of a participant record.
pub open spec fn spec_participant_record_bytes(v: ParticipantAccountV) -> Seq<u8>
    recommends
        v.wf(),
{
    seq![spec_bool_byte(v.is_initialized)] + spec_id_field(v.survey_id)
        + spec_identity_bytes(v.participant) + seq![spec_bool_byte(v.has_claimed_sol)]
        + seq![spec_bool_byte(v.has_claimed_token)] + seq![spec_bool_byte(v.has_received_nft)]
        + spec_opt_time_bytes(v.claimed_at)
}

/// How a participant record's encoding decomposes into its fields.
pub proof fn lemma_participant_record_parts(v: ParticipantAccountV)
    requires
        v.wf(),
    ensures
        ({
            let e = spec_participant_record_bytes(v);
            let n = v.survey_id.len() as int;
            &&& e.len() == PARTICIPANT_RECORD_LEN
            &&& e[0] == spec_bool_byte(v.is_initialized)
            &&& e.subrange(1, 5) == spec_u32_to_le_bytes(v.survey_id.len() as u32)
            &&& e.subrange(5, 5 + n) == v.survey_id
            &&& (forall|k: int| 5 + n <= k < 69 ==> e[k] == 0)
            &&& e.subrange(69, 101) == spec_identity_bytes(v.participant)
            &&& e[101] == spec_bool_byte(v.has_claimed_sol)
            &&& e[102] == spec_bool_byte(v.has_claimed_token)
            &&& e[103] == spec_bool_byte(v.has_received_nft)
            &&& e[104] == (if v.claimed_at is Some {
                1u8
            } else {
                0u8
            })
            &&& (v.claimed_at matches Some(t) ==> e.subrange(105, 113) == spec_u64_to_le_bytes(
                spec_i64_as_u64(t),
            ))
            &&& (v.claimed_at is None ==> forall|k: int| 105 <= k < 113 ==> e[k] == 0)
        }),
{
    lemma_auto_spec_u32_to_from_le_bytes();
    lemma_auto_spec_u64_to_from_le_bytes();
    lemma_identity_bytes_roundtrip(v.participant, spec_zero_bytes(32));
    let e = spec_participant_record_bytes(v);
    let n = v.survey_id.len() as int;
    assert(e.subrange(1, 5) =~= spec_u32_to_le_bytes(v.survey_id.len() as u32));
    assert(e.subrange(5, 5 + n) =~= v.survey_id);
    assert(e.subrange(69, 101) =~= spec_identity_bytes(v.participant));
    match v.claimed_at {
        Some(t) => {
            assert(e.subrange(105, 113) =~= spec_u64_to_le_bytes(spec_i64_as_u64(t)));
        },
        None => {},
    }
}

impl ParticipantAccount {
    /// Encode this record into its fixed 113-byte layout.
    pub fn encode(&self) -> (r: Vec<u8>)
        requires
            self@.wf(),
        ensures
            r@ == spec_participant_record_bytes(self@),
            r@.len() == PARTICIPANT_RECORD_LEN,
    {
        let mut out: Vec<u8> = Vec::new();
        out.push(if self.is_initialized {
            1
        } else {
            0
        });
        push_id_field(&mut out, &self.survey_id);
        push_identity(&mut out, self.participant);
        out.push(if self.has_claimed_sol {
            1
        } else {
            0
        });
        out.push(if self.has_claimed_token {
            1
        } else {
            0
        });
        out.push(if self.has_received_nft {
            1
        } else {
            0
        });
        match self.claimed_at {
            None => {
                out.push(0);
                let pad: Vec<u8> = vec![0u8; 8];
                out.extend_from_slice(pad.as_slice());
            },
            Some(t) => {
                out.push(1);
                let tb = u64_to_le_bytes(i64_to_u64(t));
                out.extend_from_slice(tb.as_slice());
            },
        }
        proof {
            lemma_participant_record_parts(self@);
            assert(out@ =~= spec_participant_record_bytes(self@));
        }
        out
    }

    /// Decode a participant record from its fixed layout.
    ///
    /// Succeeds exactly on the encodings of well-formed records; every other
    /// byte string is rejected.
    #[verifier::rlimit(100)]
    pub fn decode(b: &[u8]) -> (r: Option<ParticipantAccount>)
        ensures
            r matches Some(p) ==> p@.wf() && b@ == spec_participant_record_bytes(p@),
            forall|v: ParticipantAccountV|
                v.wf() && b@ == spec_participant_record_bytes(v) ==> match r {
                    Some(p) => p@ == v,
                    None => false,
                },
    {
        proof {
            lemma_auto_spec_u32_to_from_le_bytes();
            lemma_auto_spec_u64_to_from_le_bytes();
        }
        if b.len() != PARTICIPANT_RECORD_LEN {
            proof {
                assert forall|v: ParticipantAccountV|
                    v.wf() && b@ == spec_participant_record_bytes(v) implies false by {
                    lemma_participant_record_parts(v);
                }
            }
            return None;
        }
        let init_byte = b[0];
        let len32 = u32_from_le_bytes(slice_subrange(b, 1, 5));
        let sol_byte = b[101];
        let token_byte = b[102];
        let nft_byte = b[103];
        let time_tag = b[104];
        if init_byte > 1 || sol_byte > 1 || token_byte > 1 || nft_byte > 1 || time_tag > 1
            || len32 > 64 {
            proof {
                assert forall|v: ParticipantAccountV|
                    v.wf() && b@ == spec_participant_record_bytes(v) implies false by {
                    lemma_participant_record_parts(v);
                }
            }
            return None;
        }
        let len = len32 as usize;
        let survey_id = slice_to_vec(slice_subrange(b, 5, 5 + len));
        if !all_zero(b, 5 + len, 69) {
            proof {
                assert forall|v: ParticipantAccountV|
                    v.wf() && b@ == spec_participant_record_bytes(v) implies false by {
                    lemma_participant_record_parts(v);
                }
            }
            return None;
        }
        let participant = read_identity(b, 69);
        let claimed_at: Option<i64> = if time_tag == 0 {
            if !all_zero(b, 105, 113) {
                proof {
                    assert forall|v: ParticipantAccountV|
                        v.wf() && b@ == spec_participant_record_bytes(v) implies false by {
                        lemma_participant_record_parts(v);
                    }
                }
                return None;
            }
            None
        } else {
            Some(u64_to_i64(u64_from_le_bytes(slice_subrange(b, 105, 113))))
        };
        let p = ParticipantAccount {
            is_initialized: init_byte == 1,
            survey_id,
            participant,
            has_claimed_sol: sol_byte == 1,
            has_claimed_token: token_byte == 1,
            has_received_nft: nft_byte == 1,
            claimed_at,
        };
        proof {
            lemma_participant_record_parts(p@);
            lemma_identity_bytes_roundtrip(participant, b@.subrange(69, 101));
            match p.claimed_at {
                Some(t) => {
                    lemma_i64_u64_roundtrip(t);
                },
                None => {},
            }
            assert(b@ =~= spec_participant_record_bytes(p@));
            assert forall|v: ParticipantAccountV|
                v.wf() && b@ == spec_participant_record_bytes(v) implies p@ == v by {
                lemma_participant_record_parts(v);
                lemma_identity_bytes_roundtrip(v.participant, b@.subrange(69, 101));
                assert(v.survey_id.len() == len);
                assert(v.survey_id =~= p@.survey_id);
                assert(v.participant == p@.participant);
                match v.claimed_at {
                    Some(t) => {
                        lemma_i64_u64_roundtrip(t);
                    },
                    None => {},
                }
                assert(v.claimed_at == p@.claimed_at);
            }
        }
        Some(p)
    }
}

} // verus!
