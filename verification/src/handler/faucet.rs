//! The admission controller: decides challenge requests and redemptions.
//!
//! A redemption runs through a fixed order of gates — address validity,
//! duplicate challenge, tag, proof of work, withdrawal limit — and the
//! challenge is reserved the moment the duplicate gate passes, whatever
//! happens later: a reservation is never rolled back, so a proof of
//! work can never be spent twice. Cheap keyed checks run before the
//! expensive unkeyed one; the ledger client is consulted only after
//! every local gate has passed.
//!
//! Talking to the ledger is the embedding application's part: it parses
//! the addresses, queries the balance and submits the transfer, and
//! feeds what it saw back into the functions below.

use vstd::prelude::*;

use crate::dto::faucet::FaucetRequestDto;
use crate::dto::faucet::FaucetResponseDto;
use crate::dto::faucet::FaucetResponseStatusDto;
use crate::dto::faucet::FaucetSettingResponse;
use crate::error::api::ApiError;
use crate::error::faucet::FaucetError;
use crate::services::faucet::key_bytes;
use crate::services::faucet::mac_of;
use crate::services::faucet::tag_ok;
use crate::state::faucet::rate_allows;
use crate::state::faucet::FaucetState;
use crate::utils::hex::hex_encode_spec;
use crate::utils::pow::pow_meets;

verus! {

/// Who is asking for a challenge: an anonymous caller, or one bound to
/// a public key that outside eligibility rules may refuse.
pub enum RequesterIdentity {
    Anonymous,
    Keyed(String),
}

/// What the ledger client reported for a submitted transfer.
pub enum SubmitOutcome {
    /// The transaction was applied on chain.
    Applied { accepted: bool, tx_hash: String },
    /// The transaction was broadcast and acknowledged at the network layer.
    Broadcast { accepted: bool, tx_hash: String },
    /// Submission failed or returned nothing usable.
    Rejected,
}

/// The decision a redemption request gets, in gate order: address
/// validity, duplicate challenge, tag, proof of work, withdrawal limit.
pub open spec fn redeem_outcome(
    redeemed: Set<Seq<char>>,
    token_ok: bool,
    target_ok: bool,
    key: Seq<u8>,
    challenge: Seq<char>,
    tag: Seq<char>,
    solution: Seq<char>,
    difficulty: u64,
    amount: u64,
    withdraw_limit: u64,
) -> Result<(), FaucetError> {
    if !token_ok || !target_ok {
        Result::Err(FaucetError::InvalidAddress)
    } else if redeemed.contains(challenge) {
        Result::Err(FaucetError::DuplicateChallenge)
    } else if !tag_ok(key, challenge, tag) {
        Result::Err(FaucetError::InvalidProof)
    } else if !pow_meets(challenge, solution, difficulty) {
        Result::Err(FaucetError::InvalidPoW)
    } else if amount > withdraw_limit {
        Result::Err(FaucetError::InvalidWithdrawLimit(withdraw_limit))
    } else {
        Result::Ok(())
    }
}

/// The ledger after a redemption request: the challenge is reserved as
/// soon as the duplicate gate is reached and passed, and stays reserved
/// whatever later gates decide.
pub open spec fn redeem_reserves(
    redeemed: Set<Seq<char>>,
    token_ok: bool,
    target_ok: bool,
    challenge: Seq<char>,
) -> Set<Seq<char>> {
    if token_ok && target_ok && !redeemed.contains(challenge) {
        redeemed.insert(challenge)
    } else {
        redeemed
    }
}

/// Runs every local gate of a redemption, reserving the challenge on
/// the way; `token_ok` and `target_ok` say whether the embedding
/// application could parse the token and target addresses. On `Ok` the
/// caller may proceed to the ledger client.
pub fn authorize_transfer(
    state: &mut FaucetState,
    payload: &FaucetRequestDto,
    token_ok: bool,
    target_ok: bool,
) -> (r: Result<(), FaucetError>)
    ensures
        r == redeem_outcome(
            old(state).faucet_repo@,
            token_ok,
            target_ok,
            key_bytes(old(state).auth_key@),
            payload.challenge@,
            payload.tag@,
            payload.solution@,
            old(state).difficulty,
            payload.transfer.amount,
            old(state).withdraw_limit,
        ),
        final(state).faucet_repo@ == redeem_reserves(
            old(state).faucet_repo@,
            token_ok,
            target_ok,
            payload.challenge@,
        ),
        final(state).faucet_service == old(state).faucet_service,
        final(state).auth_key == old(state).auth_key,
        final(state).difficulty == old(state).difficulty,
        final(state).chain_id == old(state).chain_id,
        final(state).chain_start == old(state).chain_start,
        final(state).withdraw_limit == old(state).withdraw_limit,
        final(state).request_frequency == old(state).request_frequency,
        final(state).last_requests == old(state).last_requests,
        final(state).webserver_host == old(state).webserver_host,
{
    if !(token_ok && target_ok) {
        return Err(FaucetError::InvalidAddress);
    }
    if !state.faucet_repo.try_reserve(&payload.challenge) {
        return Err(FaucetError::DuplicateChallenge);
    }
    if !state.faucet_service.verify_tag(&state.auth_key, &payload.challenge, &payload.tag) {
        return Err(FaucetError::InvalidProof);
    }
    if !state.faucet_service.verify_pow(&payload.challenge, &payload.solution, state.difficulty) {
        return Err(FaucetError::InvalidPoW);
    }
    if payload.transfer.amount > state.withdraw_limit {
        return Err(FaucetError::InvalidWithdrawLimit(state.withdraw_limit));
    }
    Ok(())
}

/// Decides the balance gate from what the ledger client reported:
/// no answer is a ledger failure, a balance below the requested amount
/// leaves the faucet out of funds, and anything else passes.
pub fn check_balance(balance: Option<u64>, amount: u64) -> (r: Result<(), FaucetError>)
    ensures
        r is Ok <==> (balance matches Some(b) && b >= amount),
        (balance matches Some(b) && b < amount) ==> r == Result::<(), FaucetError>::Err(
            FaucetError::FaucetOutOfBalance,
        ),
        balance is None ==> (r matches Err(e) && e matches FaucetError::SdkError(m) && m@
            == "Can't query faucet balance"@),
{
    match balance {
        Some(b) => {
            if b >= amount {
                Ok(())
            } else {
                Err(FaucetError::FaucetOutOfBalance)
            }
        },
        None => Err(FaucetError::SdkError(String::from_str("Can't query faucet balance"))),
    }
}

/// Reads the ledger client's submission outcome: applied or broadcast
/// responses carry their hash and whether the chain accepted them;
/// anything else was not sent.
pub fn settle_submission(outcome: SubmitOutcome) -> (r: (bool, Option<String>))
    ensures
        r == (match outcome {
            SubmitOutcome::Applied { accepted, tx_hash } => (accepted, Option::Some(tx_hash)),
            SubmitOutcome::Broadcast { accepted, tx_hash } => (accepted, Option::Some(tx_hash)),
            SubmitOutcome::Rejected => (false, Option::<String>::None),
        }),
{
    match outcome {
        SubmitOutcome::Applied { accepted, tx_hash } => (accepted, Some(tx_hash)),
        SubmitOutcome::Broadcast { accepted, tx_hash } => (accepted, Some(tx_hash)),
        SubmitOutcome::Rejected => (false, None),
    }
}

/// The response a finished redemption returns: what was asked, whether
/// it was sent, and the transaction hash when one exists.
pub fn build_status_response(
    payload: &FaucetRequestDto,
    sent: bool,
    tx_hash: Option<String>,
) -> (r: FaucetResponseStatusDto)
    ensures
        r.token == payload.transfer.token,
        r.amount == payload.transfer.amount,
        r.target == payload.transfer.target,
        r.sent == sent,
        r.tx_hash == tx_hash,
{
    FaucetResponseStatusDto {
        token: payload.transfer.token.clone(),
        amount: payload.transfer.amount,
        target: payload.transfer.target.clone(),
        sent,
        tx_hash,
    }
}

/// The public settings of the faucet, with the native token's address
/// listed under its alias.
pub fn faucet_settings(state: &FaucetState, nam_token_address: String) -> (r:
    FaucetSettingResponse)
    ensures
        r.difficulty == state.difficulty,
        r.chain_id == state.chain_id,
        r.start_at == state.chain_start,
        r.withdraw_limit == state.withdraw_limit,
        r.tokens_alias_to_address@.len() == 1,
        r.tokens_alias_to_address@[0].0@ == "NAM"@,
        r.tokens_alias_to_address@[0].1 == nam_token_address,
{
    let mut aliases: Vec<(String, String)> = Vec::new();
    aliases.push((String::from_str("NAM"), nam_token_address));
    FaucetSettingResponse {
        difficulty: state.difficulty,
        chain_id: state.chain_id.clone(),
        start_at: state.chain_start,
        withdraw_limit: state.withdraw_limit,
        tokens_alias_to_address: aliases,
    }
}

/// Issues a fresh challenge and tag, hex-encoded for the wire.
pub fn request_challenge(state: &mut FaucetState) -> (r: Result<FaucetResponseDto, ApiError>)
    requires
        32 <= key_bytes(old(state).auth_key@).len() <= 64,
    ensures
        r matches Ok(dto) && dto.challenge@.len() == 32 && dto.tag@.len() == 64 && (exists|
            c: Seq<u8>,
        |
            c.len() == 16 && dto.challenge@ == hex_encode_spec(c) && dto.tag@ == hex_encode_spec(
                #[trigger] mac_of(key_bytes(old(state).auth_key@), c),
            )),
        final(state).faucet_repo == old(state).faucet_repo,
        final(state).auth_key == old(state).auth_key,
        final(state).difficulty == old(state).difficulty,
        final(state).chain_id == old(state).chain_id,
        final(state).chain_start == old(state).chain_start,
        final(state).withdraw_limit == old(state).withdraw_limit,
        final(state).request_frequency == old(state).request_frequency,
        final(state).last_requests == old(state).last_requests,
        final(state).webserver_host == old(state).webserver_host,
{
    let auth_key = state.auth_key.clone();
    let faucet_request = state.faucet_service.generate_faucet_request(auth_key)?;
    let ghost challenge_bytes = faucet_request.challenge@;
    let ghost tag_bytes = faucet_request.tag@;
    let dto = FaucetResponseDto::from(faucet_request);
    proof {
        crate::utils::hex::lemma_hex_round_trip(challenge_bytes);
        crate::utils::hex::lemma_hex_round_trip(tag_bytes);
        assert(challenge_bytes.len() == 16 && dto.challenge@ == hex_encode_spec(challenge_bytes)
            && dto.tag@ == hex_encode_spec(mac_of(key_bytes(old(state).auth_key@), challenge_bytes)));
    }
    Ok(dto)
}

/// Decides a challenge request for an identity: a keyed identity must
/// be eligible and within its rate limit before a challenge is issued;
/// an anonymous one is issued a challenge directly. Only a granted
/// keyed request updates the rate limiter.
pub fn issue_challenge(
    state: &mut FaucetState,
    identity: &RequesterIdentity,
    eligible: bool,
    now: u64,
) -> (r: Result<FaucetResponseDto, ApiError>)
    requires
        32 <= key_bytes(old(state).auth_key@).len() <= 64,
    ensures
        identity matches RequesterIdentity::Keyed(pk) ==> (!eligible ==> (r == Result::<
            FaucetResponseDto,
            ApiError,
        >::Err(ApiError::FaucetError(FaucetError::NotPlayer(*pk))) && *final(state) == *old(state))),
        identity matches RequesterIdentity::Keyed(pk) ==> ((eligible && !rate_allows(
            old(state).last_requests.spec_last_request(pk@),
            now,
            old(state).request_frequency,
        )) ==> (r == Result::<FaucetResponseDto, ApiError>::Err(
            ApiError::FaucetError(FaucetError::TooManyRequests),
        ) && *final(state) == *old(state))),
        identity matches RequesterIdentity::Keyed(pk) ==> ((eligible && rate_allows(
            old(state).last_requests.spec_last_request(pk@),
            now,
            old(state).request_frequency,
        )) ==> (r matches Ok(dto) && dto.challenge@.len() == 32 && dto.tag@.len() == 64 && (exists|
            c: Seq<u8>,
        |
            c.len() == 16 && dto.challenge@ == hex_encode_spec(c) && dto.tag@ == hex_encode_spec(
                #[trigger] mac_of(key_bytes(old(state).auth_key@), c),
            )) && final(state).last_requests.spec_last_request(pk@) == Option::Some(now))),
        identity is Anonymous ==> (r matches Ok(dto) && dto.challenge@.len() == 32 && dto.tag@.len()
            == 64 && (exists|c: Seq<u8>|
            c.len() == 16 && dto.challenge@ == hex_encode_spec(c) && dto.tag@ == hex_encode_spec(
                #[trigger] mac_of(key_bytes(old(state).auth_key@), c),
            )) && final(state).last_requests == old(state).last_requests),
        final(state).faucet_repo == old(state).faucet_repo,
        final(state).auth_key == old(state).auth_key,
        final(state).difficulty == old(state).difficulty,
        final(state).chain_id == old(state).chain_id,
        final(state).chain_start == old(state).chain_start,
        final(state).withdraw_limit == old(state).withdraw_limit,
        final(state).request_frequency == old(state).request_frequency,
        final(state).webserver_host == old(state).webserver_host,
{
    match identity {
        RequesterIdentity::Keyed(pk) => {
            if !eligible {
                return Err(ApiError::FaucetError(FaucetError::NotPlayer(pk.clone())));
            }
            if !state.last_requests.allow(pk, now, state.request_frequency) {
                return Err(ApiError::FaucetError(FaucetError::TooManyRequests));
            }
        },
        RequesterIdentity::Anonymous => {},
    }
    request_challenge(state)
}

} // verus!
