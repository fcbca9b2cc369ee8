//! The loop controller: drives Observe-Reason-Act cycles, owns the agent
//! context, and enforces termination.
//!
//! A run is `Running` until it reaches one of three terminal states: the goal
//! was achieved (`Finished`), the fixed cycle ceiling was hit
//! (`SafetyLimit`), or a planning failure ended the run (`Fatal`). Terminal
//! states end the run; no resumption is supported.
//!
//! Each cycle is driven in two steps: `begin_cycle` counts the cycle against
//! the ceiling, then — once the planner and the dispatcher have spoken —
//! either `complete_cycle` records the outcome or `record_plan_failure` ends
//! the run. The scripted driver `run_scripted` runs whole cycles against the
//! deterministic reasoning stand-in, with tool outcomes supplied as data.

use vstd::prelude::*;
use crate::context::AgentContext;
use crate::context::HistoryEntry;
use crate::context::HistoryEntryView;
use crate::executor::DispatchDecision;
use crate::executor::ToolKind;
use crate::executor::dispatch_action;
use crate::executor::failure_content;
use crate::executor::settle_tool_outcome;
use crate::output::ToolError;
use crate::output::ToolOutput;
use crate::planner::AgentAction;
use crate::planner::call_llm_for_plan;
use crate::planner::plan_for;
use crate::planner::render_action;
use crate::planner::render_action_view;

verus! {

/// The ceiling on cycles per run: the loop's only backpressure mechanism,
/// guarding against a non-converging reasoning collaborator.
pub const CYCLE_LIMIT: u64 = 5;

/// Why a run ended.
#[derive(Debug, Clone, Copy, PartialEq, Eq, Structural)]
pub enum TerminationReason {
    /// A `Finish` action was dispatched: goal achieved.
    Finished,
    /// The cycle ceiling was reached with no `Finish` in sight.
    SafetyLimit,
    /// The reasoning collaborator's output could not be used.
    Fatal,
}

/// The controller's state: running, or terminated for a recorded reason.
#[derive(Debug, Clone, Copy, PartialEq, Eq, Structural)]
pub enum LoopState {
    Running,
    Terminated(TerminationReason),
}

/// The loop controller. It exclusively owns the context: the history grows
/// by exactly one entry per completed non-terminal cycle.
#[derive(Debug)]
pub struct LoopController {
    /// Running, or terminated with a reason.
    pub state: LoopState,
    /// Cycles begun so far, the safety ceiling counting against it.
    pub cycle_count: u64,
    /// Whether a begun cycle awaits its outcome.
    pub in_cycle: bool,
    /// The agent's memory: goal and append-only history.
    pub context: AgentContext,
    /// What the next reasoning step will observe.
    pub current_observation: ToolOutput,
}

/// The observation a run is seeded with, stating the goal.
pub open spec fn initial_observation_content(goal: Seq<char>) -> Seq<char> {
    "The user wants to find information on: "@ + goal
}

impl LoopController {
    /// The controller's invariant: the history holds exactly one entry per
    /// completed cycle, the count respects the ceiling while running, and a
    /// safety-limit stop happens exactly when the ceiling is exceeded.
    pub open spec fn wf(self) -> bool {
        &&& self.cycle_count <= CYCLE_LIMIT + 1
        &&& (self.state is Running && !self.in_cycle ==> self.context@.history.len()
            == self.cycle_count)
        &&& (self.state is Running && self.in_cycle ==> self.context@.history.len() + 1
            == self.cycle_count)
        &&& (self.state is Running ==> self.cycle_count <= CYCLE_LIMIT)
        &&& (!(self.state is Running) ==> !self.in_cycle)
        &&& (self.state == LoopState::Terminated(TerminationReason::SafetyLimit)
            ==> self.cycle_count == CYCLE_LIMIT + 1 && self.context@.history.len() == CYCLE_LIMIT)
    }

    /// A fresh run: no cycles yet, an empty history, and an initial
    /// observation seeded from the goal statement.
    pub fn new(goal: String) -> (c: LoopController)
        ensures
            c.wf(),
            c.state == LoopState::Running,
            c.cycle_count == 0,
            !c.in_cycle,
            c.context@.goal == goal@,
            c.context@.history == Seq::<HistoryEntryView>::empty(),
            c.current_observation@ == initial_observation_content(goal@),
    {
        let mut content = String::from_str("The user wants to find information on: ");
        content.append(goal.as_str());
        LoopController {
            state: LoopState::Running,
            cycle_count: 0,
            in_cycle: false,
            context: AgentContext::new(goal),
            current_observation: ToolOutput { content },
        }
    }

    /// Counts a new cycle against the ceiling. When the ceiling is exceeded
    /// the run stops with `SafetyLimit` before any planner is invoked;
    /// otherwise the cycle is underway and awaits its outcome.
    pub fn begin_cycle(&mut self) -> (proceed: bool)
        requires
            old(self).wf(),
            old(self).state is Running,
            !old(self).in_cycle,
        ensures
            final(self).wf(),
            final(self).cycle_count == old(self).cycle_count + 1,
            final(self).context == old(self).context,
            final(self).current_observation == old(self).current_observation,
            proceed == (old(self).cycle_count + 1 <= CYCLE_LIMIT),
            proceed ==> final(self).state == LoopState::Running && final(self).in_cycle,
            !proceed ==> final(self).state == LoopState::Terminated(
                TerminationReason::SafetyLimit,
            ) && !final(self).in_cycle,
    {
        self.cycle_count = self.cycle_count + 1;
        if self.cycle_count > CYCLE_LIMIT {
            self.state = LoopState::Terminated(TerminationReason::SafetyLimit);
            false
        } else {
            self.in_cycle = true;
            true
        }
    }

    /// Ends the run after the reasoning collaborator's output could not be
    /// used. The context is untouched: a planning failure is fatal, not
    /// recovered.
    pub fn record_plan_failure(&mut self)
        requires
            old(self).wf(),
            old(self).state is Running,
            old(self).in_cycle,
        ensures
            final(self).wf(),
            final(self).state == LoopState::Terminated(TerminationReason::Fatal),
            !final(self).in_cycle,
            final(self).cycle_count == old(self).cycle_count,
            final(self).context == old(self).context,
            final(self).current_observation == old(self).current_observation,
    {
        self.state = LoopState::Terminated(TerminationReason::Fatal);
        self.in_cycle = false;
    }

    /// Settles a begun cycle with the dispatcher's result.
    ///
    /// A present observation records the completed cycle — the rendered
    /// action and the observation content, appended to the history — and
    /// becomes the next cycle's input, with the run still `Running`. An
    /// absent one means a `Finish` action was dispatched: the run terminates
    /// in the same cycle with `Finished`, and nothing is appended for that
    /// cycle.
    pub fn complete_cycle(&mut self, action: &AgentAction, outcome: Option<ToolOutput>)
        requires
            old(self).wf(),
            old(self).state is Running,
            old(self).in_cycle,
        ensures
            final(self).wf(),
            final(self).cycle_count == old(self).cycle_count,
            !final(self).in_cycle,
            final(self).context@.goal == old(self).context@.goal,
            (match outcome {
                Some(obs) => {
                    &&& final(self).state == LoopState::Running
                    &&& final(self).context@.history == old(self).context@.history.push(
                        (HistoryEntryView {
                            action: render_action_view(action@),
                            observation: obs@,
                        }),
                    )
                    &&& final(self).current_observation == obs
                },
                None => {
                    &&& final(self).state == LoopState::Terminated(TerminationReason::Finished)
                    &&& final(self).context == old(self).context
                    &&& final(self).current_observation == old(self).current_observation
                },
            }),
    {
        match outcome {
            Some(obs) => {
                let entry = HistoryEntry {
                    action: render_action(action),
                    observation: obs.content.clone(),
                };
                self.context.append(entry);
                self.current_observation = obs;
                self.in_cycle = false;
            },
            None => {
                self.state = LoopState::Terminated(TerminationReason::Finished);
                self.in_cycle = false;
            },
        }
    }

    /// Whether the run is still going.
    pub fn is_running(&self) -> (r: bool)
        ensures
            r == (self.state is Running),
    {
        match self.state {
            LoopState::Running => true,
            LoopState::Terminated(_) => false,
        }
    }
}

/// One entry per completed cycle: whenever the run is between cycles, the
/// history length equals the number of cycles begun so far.
pub proof fn lemma_history_counts_cycles(c: LoopController)
    requires
        c.wf(),
        c.state is Running,
        !c.in_cycle,
    ensures
        c.context@.history.len() == c.cycle_count,
{
}

/// Duplicates a scripted tool outcome without consuming it.
fn clone_outcome(outcome: &Result<ToolOutput, ToolError>) -> (r: Result<ToolOutput, ToolError>)
    ensures
        r == *outcome,
{
    match outcome {
        Ok(o) => Ok(ToolOutput { content: o.content.clone() }),
        Err(e) => Err(ToolError { message: e.message.clone() }),
    }
}

/// Spec-level outcome of a scripted run: why it ended, the history it
/// recorded, and the observation current when it ended.
pub struct ScriptedRun {
    pub reason: TerminationReason,
    pub history: Seq<HistoryEntryView>,
    pub observation: Seq<char>,
}

/// The observation a cycle ends on: the tool's output, or the recovered
/// failure observation.
pub open spec fn after_tool(kind: ToolKind, outcome: Result<ToolOutput, ToolError>) -> Seq<char> {
    match outcome {
        Ok(o) => o@,
        Err(e) => failure_content(kind, e@),
    }
}

/// What a run against the deterministic reasoning stand-in does, as a
/// function of the current observation, the scripted tool outcomes from
/// position `idx` on, and the cycles left under the ceiling: each cycle
/// plans from the observation alone, finishes on a `Finish` action, and
/// otherwise records the (settled) scripted outcome and goes on.
pub open spec fn run_model(
    obs: Seq<char>,
    script: Seq<Result<ToolOutput, ToolError>>,
    idx: int,
    cycles_left: nat,
) -> ScriptedRun
    decreases cycles_left,
{
    if cycles_left == 0 {
        ScriptedRun {
            reason: TerminationReason::SafetyLimit,
            history: Seq::empty(),
            observation: obs,
        }
    } else {
        let plan = plan_for(obs);
        if plan.action is Finish {
            ScriptedRun { reason: TerminationReason::Finished, history: Seq::empty(), observation: obs }
        } else {
            let kind = if plan.action is Search {
                ToolKind::Search
            } else {
                ToolKind::Scrape
            };
            let next_obs = after_tool(kind, script[idx]);
            let entry = HistoryEntryView {
                action: render_action_view(plan.action),
                observation: next_obs,
            };
            let rest = run_model(next_obs, script, idx + 1, (cycles_left - 1) as nat);
            ScriptedRun {
                reason: rest.reason,
                history: seq![entry] + rest.history,
                observation: rest.observation,
            }
        }
    }
}

/// How the model counts: it never ends `Fatal`, a safety stop records one
/// entry per available cycle, and a finish leaves at least one cycle's
/// worth unrecorded.
pub proof fn lemma_run_model_counts(
    obs: Seq<char>,
    script: Seq<Result<ToolOutput, ToolError>>,
    idx: int,
    cycles_left: nat,
)
    ensures
        run_model(obs, script, idx, cycles_left).reason != TerminationReason::Fatal,
        run_model(obs, script, idx, cycles_left).history.len() <= cycles_left,
        run_model(obs, script, idx, cycles_left).reason == TerminationReason::SafetyLimit ==> run_model(
            obs,
            script,
            idx,
            cycles_left,
        ).history.len() == cycles_left,
        run_model(obs, script, idx, cycles_left).reason == TerminationReason::Finished ==> run_model(
            obs,
            script,
            idx,
            cycles_left,
        ).history.len() < cycles_left,
    decreases cycles_left,
{
    if cycles_left > 0 {
        let plan = plan_for(obs);
        if !(plan.action is Finish) {
            let kind = if plan.action is Search {
                ToolKind::Search
            } else {
                ToolKind::Scrape
            };
            let next_obs = after_tool(kind, script[idx]);
            lemma_run_model_counts(next_obs, script, idx + 1, (cycles_left - 1) as nat);
        }
    }
}

/// Runs a whole agent run against the deterministic reasoning stand-in, with
/// the tool collaborators' outcomes supplied as a script, one per tool
/// invocation in order. The script must cover the most invocations a run can
/// make — one per cycle up to the ceiling.
///
/// The run always terminates: with `Finished` when a `Finish` action was
/// dispatched, else with `SafetyLimit` after the ceiling — never `Fatal`,
/// since the stand-in never fails. The history holds one entry per completed
/// cycle: the whole ceiling's worth on a safety stop, fewer on `Finished`.
pub fn run_scripted(goal: String, script: &Vec<Result<ToolOutput, ToolError>>) -> (c:
    LoopController)
    requires
        script@.len() >= CYCLE_LIMIT,
    ensures
        c.wf(),
        c.context@.goal == goal@,
        ({
            let m = run_model(
                initial_observation_content(goal@),
                script@,
                0,
                CYCLE_LIMIT as nat,
            );
            &&& c.state == LoopState::Terminated(m.reason)
            &&& c.context@.history == m.history
            &&& c.current_observation@ == m.observation
        }),
        c.state != LoopState::Terminated(TerminationReason::Fatal),
        c.context@.history.len() <= CYCLE_LIMIT,
        c.state == LoopState::Terminated(TerminationReason::SafetyLimit)
            ==> c.context@.history.len() == CYCLE_LIMIT,
        c.state == LoopState::Terminated(TerminationReason::Finished) ==> c.context@.history.len()
            < CYCLE_LIMIT,
{
    let ghost goal_view = goal@;
    let ghost full = run_model(
        initial_observation_content(goal@),
        script@,
        0,
        CYCLE_LIMIT as nat,
    );
    let mut c = LoopController::new(goal);
    let mut idx: usize = 0;
    proof {
        assert(c.context@.history + full.history =~= full.history);
    }
    while c.is_running()
        invariant
            c.wf(),
            !c.in_cycle,
            script@.len() >= CYCLE_LIMIT,
            c.context@.goal == goal_view,
            full == run_model(
                initial_observation_content(goal_view),
                script@,
                0,
                CYCLE_LIMIT as nat,
            ),
            c.state is Running ==> idx == c.cycle_count,
            c.state is Running ==> ({
                let rem = run_model(
                    c.current_observation@,
                    script@,
                    idx as int,
                    (CYCLE_LIMIT - c.cycle_count) as nat,
                );
                &&& full.reason == rem.reason
                &&& full.history == c.context@.history + rem.history
                &&& full.observation == rem.observation
            }),
            !(c.state is Running) ==> ({
                &&& c.state == LoopState::Terminated(full.reason)
                &&& c.context@.history == full.history
                &&& c.current_observation@ == full.observation
            }),
        decreases CYCLE_LIMIT + 1 - c.cycle_count,
    {
        let ghost fuel = (CYCLE_LIMIT - c.cycle_count) as nat;
        let ghost pre_history = c.context@.history;
        let proceed = c.begin_cycle();
        if proceed {
            match call_llm_for_plan(&c.context, &c.current_observation) {
                Ok(plan) => {
                    match dispatch_action(&plan.action) {
                        DispatchDecision::Halt { final_answer: _ } => {
                            c.complete_cycle(&plan.action, None);
                            proof {
                                assert(pre_history + Seq::<HistoryEntryView>::empty()
                                    =~= pre_history);
                            }
                        },
                        DispatchDecision::Invoke { kind, argument: _ } => {
                            let outcome = clone_outcome(&script[idx]);
                            let obs = settle_tool_outcome(kind, outcome);
                            c.complete_cycle(&plan.action, Some(obs));
                            proof {
                                let entry = HistoryEntryView {
                                    action: render_action_view(plan.action@),
                                    observation: obs@,
                                };
                                let rest = run_model(
                                    obs@,
                                    script@,
                                    idx + 1,
                                    (fuel - 1) as nat,
                                );
                                assert(pre_history + (seq![entry] + rest.history)
                                    =~= pre_history.push(entry) + rest.history);
                            }
                            idx = idx + 1;
                        },
                    }
                },
                Err(_) => {
                    // The deterministic stand-in never fails: this arm is
                    // provably unreachable.
                    proof {
                        assert(false);
                    }
                    c.record_plan_failure();
                },
            }
        } else {
            proof {
                assert(pre_history + Seq::<HistoryEntryView>::empty() =~= pre_history);
            }
        }
    }
    proof {
        lemma_run_model_counts(
            initial_observation_content(goal_view),
            script@,
            0,
            CYCLE_LIMIT as nat,
        );
    }
    c
}

} // verus!
