use namada_faucet::dto::faucet::FaucetResponseDto;
use namada_faucet::entity::faucet::Faucet;
use namada_faucet::response::faucet::FaucetResponse;

#[test]
fn request_holds_challenge_and_tag_without_solution() {
    let faucet = Faucet::request(vec![1, 2, 3], vec![4, 5, 6]);
    assert_eq!(faucet.challenge, vec![1, 2, 3]);
    assert_eq!(faucet.tag, vec![4, 5, 6]);
    assert!(faucet.solution.is_none());
}

#[test]
fn challenge_response_is_hex_encoded() {
    let faucet = Faucet::request(vec![0xab; 16], vec![0xcd; 32]);
    let dto = FaucetResponseDto::from(faucet);
    assert_eq!(dto.challenge, "ab".repeat(16));
    assert_eq!(dto.tag, "cd".repeat(32));
}

#[test]
fn legacy_challenge_response_is_hex_encoded() {
    let faucet = Faucet::request(vec![0x01, 0x2f], vec![0xf0]);
    let response = FaucetResponse::from(faucet);
    assert_eq!(response.challenge, "012f");
    assert_eq!(response.tag, "f0");
}
