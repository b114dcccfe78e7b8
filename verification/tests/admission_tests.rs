use namada_faucet::dto::faucet::FaucetRequestDto;
use namada_faucet::dto::faucet::Transfer;
use namada_faucet::error::api::ApiError;
use namada_faucet::error::faucet::FaucetError;
use namada_faucet::handler::faucet::authorize_transfer;
use namada_faucet::handler::faucet::build_status_response;
use namada_faucet::handler::faucet::check_balance;
use namada_faucet::handler::faucet::faucet_settings;
use namada_faucet::handler::faucet::issue_challenge;
use namada_faucet::handler::faucet::request_challenge;
use namada_faucet::handler::faucet::settle_submission;
use namada_faucet::handler::faucet::RequesterIdentity;
use namada_faucet::handler::faucet::SubmitOutcome;
use namada_faucet::state::faucet::FaucetState;

const KEY: &str = "0123456789abcdef0123456789abcdef";
const TOKEN: &str = "tok1qqqqqqqqqqqqqqqqqqqqqqqqqqqqqqqqqqqqqq";

fn fresh_state(difficulty: u64, withdraw_limit: u64) -> FaucetState {
    FaucetState::new(
        KEY.to_string(),
        difficulty,
        "local-test-chain".to_string(),
        0,
        withdraw_limit,
        "localhost:5000".to_string(),
        30,
    )
}

fn solve(state: &FaucetState, challenge: &str, difficulty: u64) -> String {
    for candidate in 0u32..1_000_000 {
        let solution = format!("{:08x}", candidate);
        if state
            .faucet_service
            .verify_pow(&challenge.to_string(), &solution, difficulty)
        {
            return solution;
        }
    }
    panic!("no solution found within the bounded search");
}

fn redeem_payload(challenge: String, tag: String, solution: String, amount: u64) -> FaucetRequestDto {
    FaucetRequestDto {
        solution,
        challenge,
        tag,
        transfer: Transfer {
            token: TOKEN.to_string(),
            target: TOKEN.to_string(),
            amount,
        },
    }
}

/// End to end: issue a challenge, solve it at difficulty 2, redeem, see
/// the transfer sent with a hash; the identical payload a second time
/// is a duplicate.
#[test]
fn end_to_end_redemption_then_duplicate() {
    let mut state = fresh_state(2, 1_000_000);
    let dto = request_challenge(&mut state).expect("challenge issuance never fails");
    assert_eq!(dto.challenge.len(), 32);
    assert_eq!(dto.tag.len(), 64);

    let solution = solve(&state, &dto.challenge, 2);
    let payload = redeem_payload(dto.challenge.clone(), dto.tag.clone(), solution, 1000);

    assert!(authorize_transfer(&mut state, &payload, true, true).is_ok());
    assert!(check_balance(Some(10_000), payload.transfer.amount).is_ok());
    let (sent, tx_hash) = settle_submission(SubmitOutcome::Applied {
        accepted: true,
        tx_hash: "ABCDEF0123".to_string(),
    });
    let response = build_status_response(&payload, sent, tx_hash);
    assert!(response.sent);
    assert_eq!(response.tx_hash, Some("ABCDEF0123".to_string()));
    assert_eq!(response.amount, 1000);
    assert_eq!(response.token, TOKEN);

    let again = authorize_transfer(&mut state, &payload, true, true);
    assert!(matches!(again, Err(FaucetError::DuplicateChallenge)));
}

/// An amount over the cap is refused, but the challenge is reserved all
/// the same — the proof of work cannot be replayed with a lower amount.
#[test]
fn over_limit_is_refused_and_challenge_stays_burned() {
    let mut state = fresh_state(2, 1000);
    let dto = request_challenge(&mut state).expect("challenge issuance never fails");
    let solution = solve(&state, &dto.challenge, 2);
    let payload = redeem_payload(dto.challenge.clone(), dto.tag.clone(), solution.clone(), 5000);

    let refused = authorize_transfer(&mut state, &payload, true, true);
    assert!(matches!(refused, Err(FaucetError::InvalidWithdrawLimit(1000))));
    assert!(state.faucet_repo.contains(&dto.challenge), "reservation happened exactly once");

    let retry = redeem_payload(dto.challenge, dto.tag, solution, 100);
    let second = authorize_transfer(&mut state, &retry, true, true);
    assert!(matches!(second, Err(FaucetError::DuplicateChallenge)));
}

#[test]
fn unparsable_address_is_refused_before_any_reservation() {
    let mut state = fresh_state(0, 1000);
    let dto = request_challenge(&mut state).expect("challenge issuance never fails");
    let payload = redeem_payload(dto.challenge.clone(), dto.tag.clone(), "00".to_string(), 100);

    let refused = authorize_transfer(&mut state, &payload, false, true);
    assert!(matches!(refused, Err(FaucetError::InvalidAddress)));
    assert!(!state.faucet_repo.contains(&dto.challenge), "no reservation yet");

    assert!(authorize_transfer(&mut state, &payload, true, true).is_ok());
}

#[test]
fn forged_tag_is_refused_after_reservation() {
    let mut state = fresh_state(0, 1000);
    let dto = request_challenge(&mut state).expect("challenge issuance never fails");
    let forged = "00".repeat(32);
    let payload = redeem_payload(dto.challenge.clone(), forged, "00".to_string(), 100);

    let refused = authorize_transfer(&mut state, &payload, true, true);
    assert!(matches!(refused, Err(FaucetError::InvalidProof)));
    assert!(state.faucet_repo.contains(&dto.challenge), "duplicate gate ran first");
}

#[test]
fn failed_proof_of_work_is_refused() {
    let mut state = fresh_state(6, 1000);
    let dto = request_challenge(&mut state).expect("challenge issuance never fails");
    let payload = redeem_payload(dto.challenge, dto.tag, "00".to_string(), 100);

    let refused = authorize_transfer(&mut state, &payload, true, true);
    assert!(matches!(refused, Err(FaucetError::InvalidPoW)));
}

#[test]
fn balance_gate_decides_from_the_reported_balance() {
    assert!(check_balance(Some(1000), 1000).is_ok());
    assert!(matches!(
        check_balance(Some(999), 1000),
        Err(FaucetError::FaucetOutOfBalance)
    ));
    match check_balance(None, 1) {
        Err(FaucetError::SdkError(message)) => {
            assert_eq!(message, "Can't query faucet balance");
        },
        other => panic!("expected a ledger failure, got {:?}", other),
    }
}

#[test]
fn submission_outcomes_map_to_sent_and_hash() {
    let applied = settle_submission(SubmitOutcome::Applied {
        accepted: true,
        tx_hash: "aa".to_string(),
    });
    assert_eq!(applied, (true, Some("aa".to_string())));

    let broadcast_rejected = settle_submission(SubmitOutcome::Broadcast {
        accepted: false,
        tx_hash: "bb".to_string(),
    });
    assert_eq!(broadcast_rejected, (false, Some("bb".to_string())));

    assert_eq!(settle_submission(SubmitOutcome::Rejected), (false, None));
}

#[test]
fn keyed_identity_is_rate_limited() {
    let mut state = fresh_state(0, 1000);
    let identity = RequesterIdentity::Keyed("pk-one".to_string());

    assert!(issue_challenge(&mut state, &identity, true, 100).is_ok());
    let refused = issue_challenge(&mut state, &identity, true, 110);
    assert!(matches!(
        refused,
        Err(ApiError::FaucetError(FaucetError::TooManyRequests))
    ));
    assert!(issue_challenge(&mut state, &identity, true, 130).is_ok());
}

#[test]
fn ineligible_keyed_identity_is_refused() {
    let mut state = fresh_state(0, 1000);
    let identity = RequesterIdentity::Keyed("pk-two".to_string());
    let refused = issue_challenge(&mut state, &identity, false, 100);
    match refused {
        Err(ApiError::FaucetError(FaucetError::NotPlayer(pk))) => assert_eq!(pk, "pk-two"),
        other => panic!("expected an eligibility refusal, got {:?}", other.map(|_| ())),
    }
}

#[test]
fn anonymous_identity_is_never_rate_limited() {
    let mut state = fresh_state(0, 1000);
    assert!(issue_challenge(&mut state, &RequesterIdentity::Anonymous, true, 100).is_ok());
    assert!(issue_challenge(&mut state, &RequesterIdentity::Anonymous, true, 100).is_ok());
}

#[test]
fn settings_reflect_the_configuration() {
    let state = fresh_state(3, 777);
    let settings = faucet_settings(&state, "tnam1native".to_string());
    assert_eq!(settings.difficulty, 3);
    assert_eq!(settings.chain_id, "local-test-chain");
    assert_eq!(settings.start_at, 0);
    assert_eq!(settings.withdraw_limit, 777);
    assert_eq!(settings.tokens_alias_to_address.len(), 1);
    assert_eq!(settings.tokens_alias_to_address[0].0, "NAM");
    assert_eq!(settings.tokens_alias_to_address[0].1, "tnam1native");
}
