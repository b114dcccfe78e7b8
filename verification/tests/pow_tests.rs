use namada_faucet::utils::pow::is_valid_proof_of_work;

/// SHA-256 of the empty input starts with "e3b0c442...", so an empty
/// challenge and solution pass difficulty 0 and nothing higher.
#[test]
fn empty_input_known_digest() {
    assert!(is_valid_proof_of_work(&"".to_string(), &"".to_string(), 0));
    assert!(!is_valid_proof_of_work(&"".to_string(), &"".to_string(), 1));
}

#[test]
fn zero_difficulty_accepts_any_wellformed_pair() {
    assert!(is_valid_proof_of_work(&"00".to_string(), &"ff".to_string(), 0));
    assert!(is_valid_proof_of_work(&"a1b2".to_string(), &"0000".to_string(), 0));
}

#[test]
fn malformed_hex_fails_closed_even_at_zero_difficulty() {
    assert!(!is_valid_proof_of_work(&"zz".to_string(), &"00".to_string(), 0));
    assert!(!is_valid_proof_of_work(&"00".to_string(), &"abc".to_string(), 0));
    assert!(!is_valid_proof_of_work(&"G0".to_string(), &"".to_string(), 2));
}

fn brute_force(challenge: &str, difficulty: u64) -> Option<String> {
    for candidate in 0u32..1_000_000 {
        let solution = format!("{:08x}", candidate);
        if is_valid_proof_of_work(&challenge.to_string(), &solution, difficulty) {
            return Some(solution);
        }
    }
    None
}

/// A solution exists for small difficulties and is found by a bounded
/// search; pairs that do not meet the target are rejected on the way.
#[test]
fn brute_forced_solution_passes_and_near_misses_fail() {
    let challenge = "a1b2c3d4e5f60718293a4b5c6d7e8f90";
    let solution = brute_force(challenge, 2).expect("a difficulty-2 solution exists");
    assert!(is_valid_proof_of_work(&challenge.to_string(), &solution, 2));
    // The same pair at a higher target usually fails; a mutated solution
    // that was not searched for certainly has no guarantee. Check the
    // exact reject case instead: every candidate before the found one
    // failed the target.
    let found: u32 = u32::from_str_radix(&solution, 16).unwrap();
    if found > 0 {
        let miss = format!("{:08x}", found - 1);
        assert!(!is_valid_proof_of_work(&challenge.to_string(), &miss, 2));
    }
}

#[test]
fn difficulty_is_monotone_on_a_found_solution() {
    let challenge = "00ff00ff00ff00ff00ff00ff00ff00ff";
    let solution = brute_force(challenge, 2).expect("a difficulty-2 solution exists");
    assert!(is_valid_proof_of_work(&challenge.to_string(), &solution, 1));
    assert!(is_valid_proof_of_work(&challenge.to_string(), &solution, 0));
}
