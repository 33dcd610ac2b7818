//! What the proving engine is asked on behalf of the anonymous-circle circuit.
//!
//! The circuit and its reference string are fixed files, and the circuit
//! reads seven signals in a fixed order. A request names the files and
//! carries the signal values in that order, exactly as the caller gave them:
//! nothing is parsed, trimmed or checked here.

use vstd::prelude::*;

verus! {

/// Where the compiled circuit is read from, relative to the working directory.
pub const CIRCUIT_PATH: &'static str = "./test-vectors/noir/anon_circle.json";

/// Where the circuit's structured reference string is read from.
pub const SRS_PATH: &'static str = "./test-vectors/noir/anon_circle.srs";

/// How many signals the circuit reads.
pub const SIGNAL_COUNT: usize = 7;

/// The signal values in the order in which the circuit declares them.
pub open spec fn signals(
    secret: Seq<char>,
    circle_commitment: Seq<char>,
    nullifier: Seq<char>,
    circle_id: Seq<char>,
    action_type: Seq<char>,
    content_hash: Seq<char>,
    vote_option: Seq<char>,
) -> Seq<Seq<char>> {
    seq![
        secret,
        circle_commitment,
        nullifier,
        circle_id,
        action_type,
        content_hash,
        vote_option,
    ]
}

/// A request to generate a proof.
#[derive(Debug)]
pub struct ProofRequest {
    pub circuit_path: String,
    pub srs_path: Option<String>,
    pub inputs: Vec<String>,
}

/// The mathematical content of a [`ProofRequest`].
pub struct ProofRequestView {
    pub circuit_path: Seq<char>,
    pub srs_path: Option<Seq<char>>,
    pub inputs: Seq<Seq<char>>,
}

impl View for ProofRequest {
    type V = ProofRequestView;

    open spec fn view(&self) -> ProofRequestView {
        ProofRequestView {
            circuit_path: self.circuit_path@,
            srs_path: match self.srs_path {
                Some(path) => Some(path@),
                None => None,
            },
            inputs: self.inputs.deep_view(),
        }
    }
}

/// A request to verify a proof.
#[derive(Debug)]
pub struct VerifyRequest {
    pub circuit_path: String,
    pub proof: String,
}

/// The mathematical content of a [`VerifyRequest`].
pub struct VerifyRequestView {
    pub circuit_path: Seq<char>,
    pub proof: Seq<char>,
}

impl View for VerifyRequest {
    type V = VerifyRequestView;

    open spec fn view(&self) -> VerifyRequestView {
        VerifyRequestView { circuit_path: self.circuit_path@, proof: self.proof@ }
    }
}

/// What [`proving_request`] asks for: the fixed circuit, its reference
/// string, and the seven signal values in the circuit's order.
pub open spec fn proving_request_of(
    secret: Seq<char>,
    circle_commitment: Seq<char>,
    nullifier: Seq<char>,
    circle_id: Seq<char>,
    action_type: Seq<char>,
    content_hash: Seq<char>,
    vote_option: Seq<char>,
) -> ProofRequestView {
    ProofRequestView {
        circuit_path: CIRCUIT_PATH@,
        srs_path: Some(SRS_PATH@),
        inputs: signals(
            secret,
            circle_commitment,
            nullifier,
            circle_id,
            action_type,
            content_hash,
            vote_option,
        ),
    }
}

/// What [`verification_request`] asks for: the fixed circuit and the proof.
pub open spec fn verification_request_of(proof: Seq<char>) -> VerifyRequestView {
    VerifyRequestView { circuit_path: CIRCUIT_PATH@, proof }
}

/// The request that proves one action in a circle. The signal values are
/// handed on as they came, whatever they hold.
pub fn proving_request(
    secret: String,
    circle_commitment: String,
    nullifier: String,
    circle_id: String,
    action_type: String,
    content_hash: String,
    vote_option: String,
) -> (request: ProofRequest)
    ensures
        request@ == proving_request_of(
            secret@,
            circle_commitment@,
            nullifier@,
            circle_id@,
            action_type@,
            content_hash@,
            vote_option@,
        ),
        request.inputs@.len() == SIGNAL_COUNT,
{
    let mut inputs: Vec<String> = Vec::new();
    inputs.push(secret);
    inputs.push(circle_commitment);
    inputs.push(nullifier);
    inputs.push(circle_id);
    inputs.push(action_type);
    inputs.push(content_hash);
    inputs.push(vote_option);
    let request = ProofRequest {
        circuit_path: CIRCUIT_PATH.to_string(),
        srs_path: Some(SRS_PATH.to_string()),
        inputs,
    };
    assert(request@.inputs =~= signals(
        secret@,
        circle_commitment@,
        nullifier@,
        circle_id@,
        action_type@,
        content_hash@,
        vote_option@,
    ));
    request
}

/// The request that checks `proof` against the fixed circuit. The proof is
/// handed on as it came.
pub fn verification_request(proof: String) -> (request: VerifyRequest)
    ensures
        request@ == verification_request_of(proof@),
        request.proof == proof,
{
    VerifyRequest { circuit_path: CIRCUIT_PATH.to_string(), proof }
}

/// Every proving request carries exactly [`SIGNAL_COUNT`] signal values, each
/// at the place of its signal, and names the reference string.
pub proof fn lemma_request_is_complete(
    secret: Seq<char>,
    circle_commitment: Seq<char>,
    nullifier: Seq<char>,
    circle_id: Seq<char>,
    action_type: Seq<char>,
    content_hash: Seq<char>,
    vote_option: Seq<char>,
)
    ensures
        ({
            let request = proving_request_of(
                secret,
                circle_commitment,
                nullifier,
                circle_id,
                action_type,
                content_hash,
                vote_option,
            );
            &&& request.inputs.len() == SIGNAL_COUNT
            &&& request.inputs[0] == secret
            &&& request.inputs[1] == circle_commitment
            &&& request.inputs[2] == nullifier
            &&& request.inputs[3] == circle_id
            &&& request.inputs[4] == action_type
            &&& request.inputs[5] == content_hash
            &&& request.inputs[6] == vote_option
            &&& request.srs_path == Some(SRS_PATH@)
        }),
{
}

/// A proof is checked against the circuit that it was generated for: the two
/// requests name the same circuit, whatever the signals and the proof.
pub proof fn lemma_one_circuit(
    secret: Seq<char>,
    circle_commitment: Seq<char>,
    nullifier: Seq<char>,
    circle_id: Seq<char>,
    action_type: Seq<char>,
    content_hash: Seq<char>,
    vote_option: Seq<char>,
    proof: Seq<char>,
)
    ensures
        verification_request_of(proof).circuit_path == proving_request_of(
            secret,
            circle_commitment,
            nullifier,
            circle_id,
            action_type,
            content_hash,
            vote_option,
        ).circuit_path,
        verification_request_of(proof).proof == proof,
{
}

} // verus!
