//! The dispatcher: turns a decided action into a tool request and produces
//! the next-cycle input, rewriting tool-level failure into an observation
//! carrying the `TOOL_ERROR:` sentinel instead of propagating a hard error.

use vstd::prelude::*;
use crate::output::ToolError;
use crate::output::ToolOutput;
use crate::output::is_error_observation;
use crate::planner::ActionPlan;
use crate::planner::AgentActionView;
use crate::planner::AgentAction;

verus! {

/// The two tool-backed collaborators an action can address.
#[derive(Debug, Clone, Copy, PartialEq, Eq, Structural)]
pub enum ToolKind {
    Search,
    Scrape,
}

/// Spec-level image of a [`DispatchDecision`].
pub enum DispatchDecisionView {
    Invoke { kind: ToolKind, argument: Seq<char> },
    Halt { final_answer: Seq<char> },
}

/// What an action requires of the dispatcher: invoke a tool with an
/// argument, or halt the run with the final answer.
#[derive(Debug, Clone, PartialEq, Eq)]
pub enum DispatchDecision {
    Invoke { kind: ToolKind, argument: String },
    Halt { final_answer: String },
}

impl View for DispatchDecision {
    type V = DispatchDecisionView;

    open spec fn view(&self) -> DispatchDecisionView {
        match self {
            DispatchDecision::Invoke { kind, argument } => DispatchDecisionView::Invoke {
                kind: *kind,
                argument: argument@,
            },
            DispatchDecision::Halt { final_answer } => DispatchDecisionView::Halt {
                final_answer: final_answer@,
            },
        }
    }
}

/// The observation content synthesized for a failed tool invocation: the
/// sentinel, the failed tool's name, and the cause.
pub open spec fn failure_content(kind: ToolKind, reason: Seq<char>) -> Seq<char> {
    match kind {
        ToolKind::Search => "TOOL_ERROR: Search failed. Reason: "@ + reason,
        ToolKind::Scrape => "TOOL_ERROR: Scrape failed. Reason: "@ + reason,
    }
}

/// A synthesized failure observation carries the sentinel, whatever the
/// cause: the dispatcher recovers every tool-level failure.
pub proof fn lemma_failure_is_error_observation(kind: ToolKind, reason: Seq<char>)
    ensures
        is_error_observation(failure_content(kind, reason)),
{
    reveal_strlit("TOOL_ERROR:");
    reveal_strlit("TOOL_ERROR: Search failed. Reason: ");
    reveal_strlit("TOOL_ERROR: Scrape failed. Reason: ");
    let content = failure_content(kind, reason);
    let sentinel = "TOOL_ERROR:"@;
    assert forall|k: int| 0 <= k < sentinel.len() implies content[k] == sentinel[k] by {
        match kind {
            ToolKind::Search => {
                assert(content[k] == "TOOL_ERROR: Search failed. Reason: "@[k]);
            },
            ToolKind::Scrape => {
                assert(content[k] == "TOOL_ERROR: Scrape failed. Reason: "@[k]);
            },
        }
    }
}

/// Maps a decided action to what the dispatcher must do for it. The match is
/// exhaustive over the closed action set, with no default branch.
pub fn dispatch_action(action: &AgentAction) -> (d: DispatchDecision)
    ensures
        (match action@ {
            AgentActionView::Search { query } => d@ == (DispatchDecisionView::Invoke {
                kind: ToolKind::Search,
                argument: query,
            }),
            AgentActionView::Scrape { url } => d@ == (DispatchDecisionView::Invoke {
                kind: ToolKind::Scrape,
                argument: url,
            }),
            AgentActionView::Finish { final_answer } => d@
                == (DispatchDecisionView::Halt { final_answer: final_answer }),
        }),
{
    match action {
        AgentAction::Search { query } => DispatchDecision::Invoke {
            kind: ToolKind::Search,
            argument: query.clone(),
        },
        AgentAction::Scrape { url } => DispatchDecision::Invoke {
            kind: ToolKind::Scrape,
            argument: url.clone(),
        },
        AgentAction::Finish { final_answer } => DispatchDecision::Halt {
            final_answer: final_answer.clone(),
        },
    }
}

/// Builds the recovered observation for a failed tool invocation.
pub fn recover_tool_failure(kind: ToolKind, error: ToolError) -> (obs: ToolOutput)
    ensures
        obs@ == failure_content(kind, error@),
{
    let mut content = match kind {
        ToolKind::Search => String::from_str("TOOL_ERROR: Search failed. Reason: "),
        ToolKind::Scrape => String::from_str("TOOL_ERROR: Scrape failed. Reason: "),
    };
    content.append(error.message.as_str());
    ToolOutput { content }
}

/// Normalizes a tool invocation's outcome: a success passes through
/// unchanged, a failure becomes a sentinel-carrying observation.
pub fn settle_tool_outcome(kind: ToolKind, outcome: Result<ToolOutput, ToolError>) -> (obs:
    ToolOutput)
    ensures
        (match outcome {
            Ok(o) => obs == o,
            Err(e) => obs@ == failure_content(kind, e@),
        }),
        outcome is Err ==> is_error_observation(obs@),
{
    proof {
        if outcome is Err {
            lemma_failure_is_error_observation(kind, outcome->Err_0@);
        }
    }
    match outcome {
        Ok(o) => o,
        Err(e) => recover_tool_failure(kind, e),
    }
}

/// The dispatcher's contract over a whole cycle: `plan` is the decided plan
/// and `outcome` the invoked collaborator's result, present exactly when the
/// action addresses a tool. A `Some` result is the next cycle's observation;
/// `None` means the goal is achieved and the loop halts. A `Finish` action
/// always yields `None`; a tool failure always yields a recovered,
/// sentinel-carrying observation.
pub fn tool_executor(plan: ActionPlan, outcome: Option<Result<ToolOutput, ToolError>>) -> (r:
    Option<ToolOutput>)
    requires
        (outcome is Some) <==> !(plan.action is Finish),
    ensures
        (plan.action is Finish) <==> (r is None),
        (match plan.action@ {
            AgentActionView::Search { query } => r->Some_0@ == (match outcome
                ->Some_0 {
                Ok(o) => o@,
                Err(e) => failure_content(ToolKind::Search, e@),
            }),
            AgentActionView::Scrape { url } => r->Some_0@ == (match outcome
                ->Some_0 {
                Ok(o) => o@,
                Err(e) => failure_content(ToolKind::Scrape, e@),
            }),
            AgentActionView::Finish { final_answer } => r is None,
        }),
        (outcome is Some && outcome->Some_0 is Err) ==> r is Some && is_error_observation(
            r->Some_0@,
        ),
{
    match plan.action {
        AgentAction::Search { query: _ } => Some(
            settle_tool_outcome(ToolKind::Search, outcome.unwrap()),
        ),
        AgentAction::Scrape { url: _ } => Some(
            settle_tool_outcome(ToolKind::Scrape, outcome.unwrap()),
        ),
        AgentAction::Finish { final_answer: _ } => None,
    }
}

} // verus!
