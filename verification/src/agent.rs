use vstd::prelude::*;
use crate::searchrunner::SearchError;
use crate::webclient::WebError;

verus! {

/// What an agent does next in its loop.
#[derive(Debug, Clone, Copy, PartialEq, Eq, Structural)]
pub enum AgentStep {
    /// Ask the server whether to run.
    Poll,
    /// Tell the server that a run starts.
    Notify,
    /// Run the searches and report what they found.
    Scan,
    /// Sleep for the poll interval.
    Sleep,
}

/// What happened to the step that an agent took.
#[derive(Debug)]
pub enum AgentEvent {
    /// The sleep is over.
    Woke,
    /// The server answered the question whether to run, or the call failed.
    ShouldRun(Result<bool, WebError>),
    /// The server noted the start of a run, or the call failed.
    Notified(Result<bool, WebError>),
    /// The run is over, or it failed.
    Ran(Result<(), SearchError>),
}

/// The step that follows `step` after `event`. After its sleep the agent
/// asks whether to run. It goes on to a run only if the server says so, and
/// starts the run only after it told the server. Whatever fails, and
/// whatever comes out of turn, the agent goes back to sleep.
pub open spec fn step_after(step: AgentStep, event: AgentEvent) -> AgentStep {
    match (step, event) {
        (AgentStep::Sleep, AgentEvent::Woke) => AgentStep::Poll,
        (AgentStep::Poll, AgentEvent::ShouldRun(Ok(true))) => AgentStep::Notify,
        (AgentStep::Notify, AgentEvent::Notified(Ok(_))) => AgentStep::Scan,
        _ => AgentStep::Sleep,
    }
}

/// The first step of an agent, from what its login gave: it asks whether
/// to run once the server let it in, and does not start otherwise.
pub fn first_step(login: &Result<bool, WebError>) -> (step: Option<AgentStep>)
    ensures
        step == if login matches Ok(true) {
            Some(AgentStep::Poll)
        } else {
            None
        },
{
    match login {
        Ok(true) => Some(AgentStep::Poll),
        _ => None,
    }
}

/// The step that follows `step` after `event`.
pub fn next_step(step: AgentStep, event: &AgentEvent) -> (next: AgentStep)
    ensures
        next == step_after(step, *event),
{
    match step {
        AgentStep::Sleep => match event {
            AgentEvent::Woke => AgentStep::Poll,
            _ => AgentStep::Sleep,
        },
        AgentStep::Poll => match event {
            AgentEvent::ShouldRun(Ok(true)) => AgentStep::Notify,
            _ => AgentStep::Sleep,
        },
        AgentStep::Notify => match event {
            AgentEvent::Notified(Ok(_)) => AgentStep::Scan,
            _ => AgentStep::Sleep,
        },
        AgentStep::Scan => AgentStep::Sleep,
    }
}

/// No failure ends the loop: after a call that failed, and after a run
/// that failed, the agent sleeps and then asks again.
pub proof fn lemma_failure_leads_to_sleep(step: AgentStep, event: AgentEvent)
    requires
        event matches AgentEvent::ShouldRun(Err(_)) || event matches AgentEvent::Notified(Err(_))
            || event matches AgentEvent::Ran(Err(_)),
    ensures
        step_after(step, event) == AgentStep::Sleep,
        step_after(AgentStep::Sleep, AgentEvent::Woke) == AgentStep::Poll,
{
}

/// A run starts only after the server said to run and was told that the
/// run starts.
pub proof fn lemma_run_needs_go_ahead(step: AgentStep, event: AgentEvent)
    ensures
        step_after(step, event) == AgentStep::Scan ==> step == AgentStep::Notify
            && event matches AgentEvent::Notified(Ok(_)),
        step_after(step, event) == AgentStep::Notify ==> step == AgentStep::Poll
            && event matches AgentEvent::ShouldRun(Ok(true)),
{
}

} // verus!
