//! What a command reports once its script was evaluated.

use vstd::prelude::*;

verus! {

/// A failed evaluation, as the window reports it. Only its description is
/// kept: no kinds of failure are told apart.
#[derive(Debug, Clone)]
pub struct EvalFailure {
    pub description: String,
}

/// What the window answers to a request to evaluate a script.
pub type Evaluation = Result<(), EvalFailure>;

/// The result of a command whose script was evaluated with `evaluation`:
/// success stays success, and a failure becomes its description.
pub open spec fn reported(evaluation: Evaluation) -> Result<(), String> {
    match evaluation {
        Ok(_) => Ok(()),
        Err(failure) => Err(failure.description),
    }
}

/// Turns the window's answer into the command's result.
pub fn report(evaluation: Evaluation) -> (result: Result<(), String>)
    ensures
        result == reported(evaluation),
        result is Ok <==> evaluation is Ok,
        evaluation matches Err(failure) ==> result == Err::<(), String>(failure.description),
{
    match evaluation {
        Ok(_) => Ok(()),
        Err(failure) => Err(failure.description),
    }
}

/// A command succeeds exactly when the evaluation did, and a failed
/// evaluation whose description is not empty gives an error that is not
/// empty: the description itself.
pub proof fn lemma_report_follows_evaluation(evaluation: Evaluation)
    ensures
        reported(evaluation) is Ok <==> evaluation is Ok,
        evaluation matches Err(failure) ==> (reported(evaluation) matches Err(message)
            && message@ == failure.description@ && (failure.description@.len() > 0
            ==> message@.len() > 0)),
{
}

} // verus!
