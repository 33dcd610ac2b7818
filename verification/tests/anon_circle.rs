use mopro_bindings::anon_circle::{
    proving_request, verification_request, CIRCUIT_PATH, SIGNAL_COUNT, SRS_PATH,
};
use mopro_bindings::report::{report_generation, report_verification};

#[test]
fn test_noir_anon_circle() {
    let srs_path = "./test-vectors/noir/anon_circle.srs".to_string();
    let circuit_path = "./test-vectors/noir/anon_circle.json".to_string();
    // secret, circle_commitment, nullifier, circle_id, action_type, content_hash, vote_option
    let circuit_inputs = vec![
        "1".to_string(),
        "1".to_string(),
        "2".to_string(),
        "3".to_string(),
        "0".to_string(),
        "4".to_string(),
        "0".to_string(),
    ];
    let request = proving_request(
        "1".to_string(),
        "1".to_string(),
        "2".to_string(),
        "3".to_string(),
        "0".to_string(),
        "4".to_string(),
        "0".to_string(),
    );
    assert_eq!(request.circuit_path, circuit_path);
    assert_eq!(request.srs_path, Some(srs_path));
    assert_eq!(request.inputs, circuit_inputs);

    // The engine answers with a proof, which is reported and then checked.
    let result = report_generation(Ok("0a1b2c".to_string()));
    assert!(result.is_ok());
    let proof = result.unwrap();
    assert_eq!(proof, "0a1b2c");
    let request = verification_request(proof);
    assert_eq!(request.circuit_path, circuit_path);
    assert_eq!(request.proof, "0a1b2c");
    let result = report_verification(Ok(true));
    assert!(result.is_ok());
    let valid = result.unwrap();
    assert!(valid);
}

#[test]
fn paths_are_the_fixed_artifacts() {
    assert_eq!(CIRCUIT_PATH, "./test-vectors/noir/anon_circle.json");
    assert_eq!(SRS_PATH, "./test-vectors/noir/anon_circle.srs");
}

#[test]
fn signals_keep_the_circuit_order() {
    let request = proving_request(
        "secret".to_string(),
        "commitment".to_string(),
        "nullifier".to_string(),
        "circle".to_string(),
        "action".to_string(),
        "content".to_string(),
        "vote".to_string(),
    );
    assert_eq!(
        request.inputs,
        vec!["secret", "commitment", "nullifier", "circle", "action", "content", "vote"]
    );
    assert_eq!(request.inputs.len(), SIGNAL_COUNT);
    assert_eq!(SIGNAL_COUNT, 7);
}

#[test]
fn signals_are_not_validated_or_altered() {
    let request = proving_request(
        String::new(),
        " 12 ".to_string(),
        "not a number".to_string(),
        "0x1F".to_string(),
        "-1".to_string(),
        "\u{e9}\n".to_string(),
        "0".to_string(),
    );
    assert_eq!(
        request.inputs,
        vec!["", " 12 ", "not a number", "0x1F", "-1", "\u{e9}\n", "0"]
    );
    assert_eq!(request.circuit_path, CIRCUIT_PATH);
    assert_eq!(request.srs_path.as_deref(), Some(SRS_PATH));
}

#[test]
fn requests_do_not_depend_on_earlier_calls() {
    let first = proving_request(
        "1".to_string(),
        "2".to_string(),
        "3".to_string(),
        "4".to_string(),
        "5".to_string(),
        "6".to_string(),
        "7".to_string(),
    );
    let second = proving_request(
        "1".to_string(),
        "2".to_string(),
        "3".to_string(),
        "4".to_string(),
        "5".to_string(),
        "6".to_string(),
        "7".to_string(),
    );
    assert_eq!(first.inputs, second.inputs);
    assert_eq!(first.circuit_path, second.circuit_path);
    assert_eq!(first.srs_path, second.srs_path);
}

#[test]
fn verification_request_keeps_the_proof() {
    let request = verification_request("not a proof".to_string());
    assert_eq!(request.circuit_path, "./test-vectors/noir/anon_circle.json");
    assert_eq!(request.proof, "not a proof");
    let empty = verification_request(String::new());
    assert_eq!(empty.proof, "");
}
