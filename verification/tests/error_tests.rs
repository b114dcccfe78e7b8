use namada_faucet::error::api::ApiError;
use namada_faucet::error::faucet::FaucetError;

#[test]
fn status_codes_match_the_original_mapping() {
    assert_eq!(FaucetError::InvalidPoW.status_code(), 400);
    assert_eq!(FaucetError::InvalidProof.status_code(), 403);
    assert_eq!(FaucetError::DuplicateChallenge.status_code(), 409);
    assert_eq!(FaucetError::InvalidAddress.status_code(), 400);
    assert_eq!(FaucetError::ChainNotStarted.status_code(), 400);
    assert_eq!(FaucetError::InvalidWithdrawLimit(7).status_code(), 400);
    assert_eq!(FaucetError::FaucetOutOfBalance.status_code(), 409);
    assert_eq!(FaucetError::SdkError("boom".to_string()).status_code(), 400);
    assert_eq!(FaucetError::NotPlayer("pk".to_string()).status_code(), 400);
    assert_eq!(FaucetError::TooManyRequests.status_code(), 400);
    assert_eq!(FaucetError::InvalidPublicKey.status_code(), 400);
    assert_eq!(FaucetError::InvalidSignature.status_code(), 400);
}

#[test]
fn api_error_wraps_and_keeps_the_code() {
    let wrapped = ApiError::from(FaucetError::DuplicateChallenge);
    assert_eq!(wrapped.status_code(), 409);
    assert!(matches!(wrapped, ApiError::FaucetError(FaucetError::DuplicateChallenge)));
}
