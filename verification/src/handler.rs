//! The four commands of the shell.
//!
//! A command builds its script, has the window evaluate it, and reports how
//! that went. The window is given as the function that evaluates a script in
//! its document, so a command keeps no state and touches nothing else.

use vstd::prelude::*;
use crate::outcome::{reported, report, Evaluation};
use crate::script::{
    back_script, back_text, forward_script, forward_text, navigate_text, navigate_script,
    refresh_script, refresh_text,
};

verus! {

/// A remote invocation: one of the four operations, with its arguments.
#[derive(Debug, Clone)]
pub enum Command {
    NavigateTo { url: String },
    RefreshPage,
    GoBack,
    GoForward,
}

impl Command {
    /// The script that the command has the window evaluate.
    pub open spec fn script_text(self) -> Seq<char> {
        match self {
            Command::NavigateTo { url } => navigate_text(url@),
            Command::RefreshPage => refresh_text(),
            Command::GoBack => back_text(),
            Command::GoForward => forward_text(),
        }
    }

    /// Builds the command's script.
    pub fn script(&self) -> (script: String)
        ensures
            script@ == self.script_text(),
    {
        match self {
            Command::NavigateTo { url } => navigate_script(url.as_str()),
            Command::RefreshPage => refresh_script(),
            Command::GoBack => back_script(),
            Command::GoForward => forward_script(),
        }
    }
}

/// `eval` may be asked to evaluate any script that reads `text`.
pub open spec fn accepts<F: FnOnce(&str) -> Evaluation>(eval: F, text: Seq<char>) -> bool {
    forall|script: &str| script@ == text ==> call_requires(eval, (script,))
}

/// `result` is what a command reports that had `eval` evaluate a script
/// reading `text`: some answer that `eval` can give to such a script, turned
/// into a result by `reported`.
pub open spec fn handled<F: FnOnce(&str) -> Evaluation>(
    eval: F,
    text: Seq<char>,
    result: Result<(), String>,
) -> bool {
    exists|script: &str, evaluation: Evaluation|
        script@ == text && #[trigger] call_ensures(eval, (script,), evaluation) && result
            == reported(evaluation)
}

/// Evaluates `script` once and reports the answer.
fn run<F: FnOnce(&str) -> Evaluation>(eval: F, script: String) -> (result: Result<(), String>)
    requires
        accepts(eval, script@),
    ensures
        handled(eval, script@, result),
{
    let evaluation = eval(script.as_str());
    report(evaluation)
}

/// Replaces the container's content by a new element that shows `url`.
pub fn navigate_to<F: FnOnce(&str) -> Evaluation>(eval: F, url: String) -> (result: Result<
    (),
    String,
>)
    requires
        accepts(eval, navigate_text(url@)),
    ensures
        handled(eval, navigate_text(url@), result),
{
    run(eval, navigate_script(url.as_str()))
}

/// Reloads the element's page; does nothing where the container has no
/// element.
pub fn refresh_page<F: FnOnce(&str) -> Evaluation>(eval: F) -> (result: Result<(), String>)
    requires
        accepts(eval, refresh_text()),
    ensures
        handled(eval, refresh_text(), result),
{
    run(eval, refresh_script())
}

/// Steps the element back in its history; does nothing where the container
/// has no element.
pub fn go_back<F: FnOnce(&str) -> Evaluation>(eval: F) -> (result: Result<(), String>)
    requires
        accepts(eval, back_text()),
    ensures
        handled(eval, back_text(), result),
{
    run(eval, back_script())
}

/// Steps the element forward in its history; does nothing where the
/// container has no element.
pub fn go_forward<F: FnOnce(&str) -> Evaluation>(eval: F) -> (result: Result<(), String>)
    requires
        accepts(eval, forward_text()),
    ensures
        handled(eval, forward_text(), result),
{
    run(eval, forward_script())
}

/// Routes an invocation to its command.
pub fn dispatch<F: FnOnce(&str) -> Evaluation>(eval: F, command: Command) -> (result: Result<
    (),
    String,
>)
    requires
        accepts(eval, command.script_text()),
    ensures
        handled(eval, command.script_text(), result),
{
    match command {
        Command::NavigateTo { url } => navigate_to(eval, url),
        Command::RefreshPage => refresh_page(eval),
        Command::GoBack => go_back(eval),
        Command::GoForward => go_forward(eval),
    }
}

/// A command succeeds wherever the evaluation of its script does: if the
/// window can answer the script with success only, the command's result is
/// success, whichever command it is and whatever was evaluated before.
pub proof fn lemma_success_is_reported<F: FnOnce(&str) -> Evaluation>(
    eval: F,
    text: Seq<char>,
    result: Result<(), String>,
)
    requires
        handled(eval, text, result),
        forall|script: &str, evaluation: Evaluation|
            script@ == text && #[trigger] call_ensures(eval, (script,), evaluation)
                ==> evaluation is Ok,
    ensures
        result is Ok,
{
}

/// A command fails wherever the evaluation of its script does, and says why:
/// if the window can answer the script only with a failure that reads
/// `description`, the command's result is an error that reads the same. It
/// is not empty unless the description is.
pub proof fn lemma_failure_is_reported<F: FnOnce(&str) -> Evaluation>(
    eval: F,
    text: Seq<char>,
    result: Result<(), String>,
    description: Seq<char>,
)
    requires
        handled(eval, text, result),
        forall|script: &str, evaluation: Evaluation|
            script@ == text && #[trigger] call_ensures(eval, (script,), evaluation) ==> (
            evaluation matches Err(failure) && failure.description@ == description),
    ensures
        result matches Err(message) && message@ == description,
        description.len() > 0 ==> (result matches Err(message) && message@.len() > 0),
{
}

} // verus!
