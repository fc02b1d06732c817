//! What an agent reports when it has finished.

use vstd::prelude::*;

use crate::error::AISDKError;
use crate::generate_text::{same_step, LanguageModelUsage, StepResult};
use crate::prompt::{AgentCallParameters, Prompt};
use crate::tool::opt_text;

verus! {

/// The end of an agent's run: its last step, all its steps and the usage
/// of all of them.
#[derive(Debug, Clone)]
pub struct AgentFinishEvent {
    pub step: StepResult,
    pub steps: Vec<StepResult>,
    pub total_usage: LanguageModelUsage,
}

impl AgentFinishEvent {
    /// The event of the given steps; the last one is the event's step.
    pub fn new(steps: Vec<StepResult>, total_usage: LanguageModelUsage) -> (e: Self)
        requires
            steps@.len() > 0,
        ensures
            same_step(e.step, steps@.last()),
            e.steps == steps,
            e.total_usage == total_usage,
    {
        let step = steps[steps.len() - 1].clone();
        AgentFinishEvent { step, steps, total_usage }
    }

    /// The event of the given parts.
    pub fn from_components(
        step: StepResult,
        steps: Vec<StepResult>,
        total_usage: LanguageModelUsage,
    ) -> (e: Self)
        ensures
            e == (AgentFinishEvent { step, steps, total_usage }),
    {
        AgentFinishEvent { step, steps, total_usage }
    }
}

/// The prompt of an agent call: what the call asks, with the agent's
/// instructions, if it has any, as the system instruction. This never
/// fails.
pub fn build_prompt(params: AgentCallParameters, instructions: &Option<String>) -> (r: Result<
    Prompt,
    AISDKError,
>)
    ensures
        r matches Ok(p) && p.content == params.prompt && opt_text(p.system) == opt_text(*instructions),
{
    let prompt = Prompt { system: None, content: params.prompt };
    match instructions {
        Some(i) => Ok(prompt.with_system(i.as_str())),
        None => Ok(prompt),
    }
}

} // verus!
