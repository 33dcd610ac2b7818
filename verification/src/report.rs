//! How the proving engine's answer is reported to the host.
//!
//! A success passes through untouched. A failure is flattened to one line of
//! text: a fixed prefix that says which operation failed, then the cause as
//! the engine worded it.

use vstd::prelude::*;

verus! {

/// What precedes the cause when no proof could be generated.
pub const GENERATE_FAILURE: &'static str = "Failed to generate proof: ";

/// What precedes the cause when a proof could not be checked.
pub const VERIFY_FAILURE: &'static str = "Failed to verify proof: ";

/// The report on a generation: the proof itself, or the prefixed cause.
pub open spec fn generation_report(outcome: Result<Seq<char>, Seq<char>>) -> Result<
    Seq<char>,
    Seq<char>,
> {
    match outcome {
        Ok(proof) => Ok(proof),
        Err(cause) => Err(GENERATE_FAILURE@ + cause),
    }
}

/// The report on a verification: the verdict itself, or the prefixed cause.
pub open spec fn verification_report(outcome: Result<bool, Seq<char>>) -> Result<
    bool,
    Seq<char>,
> {
    match outcome {
        Ok(valid) => Ok(valid),
        Err(cause) => Err(VERIFY_FAILURE@ + cause),
    }
}

/// The content of a generation's outcome or report.
pub open spec fn text_of(outcome: Result<String, String>) -> Result<Seq<char>, Seq<char>> {
    match outcome {
        Ok(proof) => Ok(proof@),
        Err(cause) => Err(cause@),
    }
}

/// The content of a verification's outcome or report.
pub open spec fn verdict_of(outcome: Result<bool, String>) -> Result<bool, Seq<char>> {
    match outcome {
        Ok(valid) => Ok(valid),
        Err(cause) => Err(cause@),
    }
}

/// Reports what came of generating a proof. `outcome` is the engine's answer,
/// its error already put into words.
pub fn report_generation(outcome: Result<String, String>) -> (report: Result<String, String>)
    ensures
        text_of(report) == generation_report(text_of(outcome)),
        outcome is Ok ==> report == outcome,
{
    match outcome {
        Ok(proof) => Ok(proof),
        Err(cause) => {
            let message = GENERATE_FAILURE.to_string().concat(cause.as_str());
            Err(message)
        },
    }
}

/// Reports what came of checking a proof. `outcome` is the engine's answer,
/// its error already put into words.
pub fn report_verification(outcome: Result<bool, String>) -> (report: Result<bool, String>)
    ensures
        verdict_of(report) == verification_report(verdict_of(outcome)),
{
    match outcome {
        Ok(valid) => Ok(valid),
        Err(cause) => {
            let message = VERIFY_FAILURE.to_string().concat(cause.as_str());
            Err(message)
        },
    }
}

/// A generation is reported as failed exactly when the engine failed, and the
/// message then starts with [`GENERATE_FAILURE`] and goes on with the
/// engine's cause, unaltered.
pub proof fn lemma_generation_failure_is_prefixed(outcome: Result<Seq<char>, Seq<char>>)
    ensures
        generation_report(outcome) is Err <==> outcome is Err,
        outcome is Err ==> {
            let message = generation_report(outcome)->Err_0;
            &&& GENERATE_FAILURE@.is_prefix_of(message)
            &&& message.skip(GENERATE_FAILURE@.len() as int) == outcome->Err_0
        },
{
    if let Err(cause) = outcome {
        let message = GENERATE_FAILURE@ + cause;
        assert(message.subrange(0, GENERATE_FAILURE@.len() as int) =~= GENERATE_FAILURE@);
        assert(message.skip(GENERATE_FAILURE@.len() as int) =~= cause);
    }
}

/// A verification is reported as failed exactly when the engine failed, and
/// the message then starts with [`VERIFY_FAILURE`] and goes on with the
/// engine's cause, unaltered.
pub proof fn lemma_verification_failure_is_prefixed(outcome: Result<bool, Seq<char>>)
    ensures
        verification_report(outcome) is Err <==> outcome is Err,
        outcome is Err ==> {
            let message = verification_report(outcome)->Err_0;
            &&& VERIFY_FAILURE@.is_prefix_of(message)
            &&& message.skip(VERIFY_FAILURE@.len() as int) == outcome->Err_0
        },
{
    if let Err(cause) = outcome {
        let message = VERIFY_FAILURE@ + cause;
        assert(message.subrange(0, VERIFY_FAILURE@.len() as int) =~= VERIFY_FAILURE@);
        assert(message.skip(VERIFY_FAILURE@.len() as int) =~= cause);
    }
}

/// A proof is reported as valid only when the engine accepted it: neither a
/// rejection nor a failure of the engine is ever reported as acceptance.
pub proof fn lemma_acceptance_is_the_engines(outcome: Result<bool, Seq<char>>)
    ensures
        verification_report(outcome) == Ok::<bool, Seq<char>>(true) <==> outcome == Ok::<
            bool,
            Seq<char>,
        >(true),
        verification_report(outcome) == Ok::<bool, Seq<char>>(false) <==> outcome == Ok::<
            bool,
            Seq<char>,
        >(false),
{
}

/// A generated proof reaches the host as the engine produced it.
pub proof fn lemma_proof_passes_unchanged(proof: Seq<char>)
    ensures
        generation_report(Ok(proof)) == Ok::<Seq<char>, Seq<char>>(proof),
{
}

} // verus!
