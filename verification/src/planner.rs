//! The action model and the deterministic reasoning stand-in.
//!
//! An [`AgentAction`] is the closed set of permissible actions; an
//! [`ActionPlan`] pairs the one action chosen for a cycle with advisory
//! reasoning text that never affects control flow. [`call_llm_for_plan`] is
//! the deterministic collaborator standing in for a live model: its plan is a
//! function of the observation content alone.

use vstd::prelude::*;
use crate::context::AgentContext;
use crate::output::PlanError;
use crate::output::ToolOutput;
use crate::text::contains_seq;
use crate::text::contains_str;
use crate::text::find_from;
use crate::text::find_in;
use crate::text::find_str;
use crate::text::find_str_from;
use crate::text::lemma_find_from_is_first;
use crate::text::trim_seq;
use crate::text::trim_str;

verus! {

/// Spec-level image of an [`AgentAction`].
pub enum AgentActionView {
    Search { query: Seq<char> },
    Scrape { url: Seq<char> },
    Finish { final_answer: Seq<char> },
}

/// Spec-level image of an [`ActionPlan`].
pub struct ActionPlanView {
    pub reasoning: Seq<char>,
    pub action: AgentActionView,
}

/// The closed set of permissible actions. No other variants exist; adding
/// one forces an update of every exhaustive match over the set, the
/// dispatcher's included.
#[derive(Debug, Clone, PartialEq, Eq)]
pub enum AgentAction {
    Search { query: String },
    Scrape { url: String },
    Finish { final_answer: String },
}

impl View for AgentAction {
    type V = AgentActionView;

    open spec fn view(&self) -> AgentActionView {
        match self {
            AgentAction::Search { query } => AgentActionView::Search { query: query@ },
            AgentAction::Scrape { url } => AgentActionView::Scrape { url: url@ },
            AgentAction::Finish { final_answer } => AgentActionView::Finish {
                final_answer: final_answer@,
            },
        }
    }
}

/// What a planning step returns: the chosen action and the reasoning behind
/// it. The reasoning is explanatory only; only `action` drives the
/// dispatcher.
#[derive(Debug, Clone, PartialEq, Eq)]
pub struct ActionPlan {
    pub reasoning: String,
    pub action: AgentAction,
}

impl View for ActionPlan {
    type V = ActionPlanView;

    open spec fn view(&self) -> ActionPlanView {
        ActionPlanView { reasoning: self.reasoning@, action: self.action@ }
    }
}

/// The text rendering of an action, the projection recorded in history.
/// Values are inserted verbatim, without escaping.
pub open spec fn render_action_view(a: AgentActionView) -> Seq<char> {
    match a {
        AgentActionView::Search { query } => "Search { query: \""@ + query + "\" }"@,
        AgentActionView::Scrape { url } => "Scrape { url: \""@ + url + "\" }"@,
        AgentActionView::Finish { final_answer } => "Finish { final_answer: \""@ + final_answer
            + "\" }"@,
    }
}

/// Renders an action as text for the history record.
pub fn render_action(a: &AgentAction) -> (r: String)
    ensures
        r@ == render_action_view(a@),
{
    let mut s = String::new();
    match a {
        AgentAction::Search { query } => {
            s.append("Search { query: \"");
            s.append(query.as_str());
            s.append("\" }");
        },
        AgentAction::Scrape { url } => {
            s.append("Scrape { url: \"");
            s.append(url.as_str());
            s.append("\" }");
        },
        AgentAction::Finish { final_answer } => {
            s.append("Finish { final_answer: \"");
            s.append(final_answer.as_str());
            s.append("\" }");
        },
    }
    proof {
        assert(s@ =~= render_action_view(a@));
    }
    s
}

/// The marker whose presence in an observation tells the stand-in that the
/// research goal is complete.
pub open spec fn completion_marker() -> Seq<char> {
    "self-governing"@
}

/// The marker whose presence in an observation tells the stand-in that a
/// page worth scraping was found.
pub open spec fn found_url_marker() -> Seq<char> {
    "Found URL"@
}

/// The token after which the stand-in reads the page address.
pub open spec fn found_url_token() -> Seq<char> {
    "Found URL: "@
}

/// Where the page address starts: right after the first occurrence of the
/// token, or at the front when the token is absent.
pub open spec fn url_start(content: Seq<char>) -> int {
    match find_in(content, found_url_token()) {
        Some(i) => i + found_url_token().len(),
        None => 0,
    }
}

/// Where the page address ends: at the first line break at or after `start`,
/// or at the end of the content.
pub open spec fn url_end(content: Seq<char>, start: int) -> int {
    match find_from(content, "\n"@, start) {
        Some(j) => j,
        None => content.len() as int,
    }
}

/// The page address the stand-in extracts from an observation: the text
/// between the token and the next line break, trimmed.
pub open spec fn extracted_url(content: Seq<char>) -> Seq<char> {
    trim_seq(content.subrange(url_start(content), url_end(content, url_start(content))))
}

/// The answer the stand-in gives when the completion marker is present.
pub open spec fn final_answer_text() -> Seq<char> {
    "Autonomy is defined as the capacity for informed, uncoerced decision-making, and often refers to institutions that are self-governing."@
}

/// The reasoning the stand-in attaches to a finishing plan.
pub open spec fn finish_reasoning_text() -> Seq<char> {
    "The scrape successfully retrieved the definition of autonomy, explicitly mentioning 'self-governing'. The research goal is now complete."@
}

/// The reasoning the stand-in attaches to a scraping plan.
pub open spec fn scrape_reasoning_text(url: Seq<char>) -> Seq<char> {
    "Initial search returned a relevant article URL ("@ + url
        + "). I must now scrape the page for detailed content."@
}

/// The query the stand-in opens the research with.
pub open spec fn initial_query_text() -> Seq<char> {
    "Define autonomy and self-governance in AI systems."@
}

/// The reasoning the stand-in attaches to the opening search.
pub open spec fn search_reasoning_text() -> Seq<char> {
    "Starting research for the goal. I need to perform an initial search to find relevant URLs and snippets."@
}

/// The plan the stand-in decides on, as a function of the observation content
/// alone: finish once the completion marker shows, scrape a found page
/// address, and search otherwise.
pub open spec fn plan_for(content: Seq<char>) -> ActionPlanView {
    if contains_seq(content, completion_marker()) {
        ActionPlanView {
            reasoning: finish_reasoning_text(),
            action: AgentActionView::Finish { final_answer: final_answer_text() },
        }
    } else if contains_seq(content, found_url_marker()) {
        ActionPlanView {
            reasoning: scrape_reasoning_text(extracted_url(content)),
            action: AgentActionView::Scrape { url: extracted_url(content) },
        }
    } else {
        ActionPlanView {
            reasoning: search_reasoning_text(),
            action: AgentActionView::Search { query: initial_query_text() },
        }
    }
}

/// Extracts the page address an observation points at: the text between the
/// `Found URL: ` token and the next line break, trimmed.
pub fn extract_found_url(content: &str) -> (r: String)
    ensures
        r@ == extracted_url(content@),
{
    let len = content.unicode_len();
    let token = "Found URL: ";
    let token_len = token.unicode_len();
    let start: usize = match find_str(content, token) {
        Some(i) => {
            proof {
                lemma_find_from_is_first(content@, token@, 0);
            }
            i + token_len
        },
        None => 0,
    };
    let end: usize = match find_str_from(content, "\n", start) {
        Some(j) => {
            proof {
                lemma_find_from_is_first(content@, "\n"@, start as int);
            }
            j
        },
        None => len,
    };
    let trimmed = trim_str(content.substring_char(start, end));
    String::from_str(trimmed)
}

/// The deterministic reasoning collaborator standing in for a live model.
///
/// It reads the goal and history only through the observation fed back each
/// cycle: the plan it returns is a function of the observation content alone,
/// and it never fails.
pub fn call_llm_for_plan(_context: &AgentContext, observation: &ToolOutput) -> (r: Result<
    ActionPlan,
    PlanError,
>)
    ensures
        r is Ok,
        r->Ok_0@ == plan_for(observation@),
        r->Ok_0@.reasoning.len() > 0,
{
    proof {
        reveal_strlit("The scrape successfully retrieved the definition of autonomy, explicitly mentioning 'self-governing'. The research goal is now complete.");
        reveal_strlit("Initial search returned a relevant article URL (");
        reveal_strlit("Starting research for the goal. I need to perform an initial search to find relevant URLs and snippets.");
    }
    if contains_str(observation.content.as_str(), "self-governing") {
        Ok(
            ActionPlan {
                reasoning: String::from_str(
                    "The scrape successfully retrieved the definition of autonomy, explicitly mentioning 'self-governing'. The research goal is now complete.",
                ),
                action: AgentAction::Finish {
                    final_answer: String::from_str(
                        "Autonomy is defined as the capacity for informed, uncoerced decision-making, and often refers to institutions that are self-governing.",
                    ),
                },
            },
        )
    } else if contains_str(observation.content.as_str(), "Found URL") {
        let url = extract_found_url(observation.content.as_str());
        let mut reasoning = String::from_str("Initial search returned a relevant article URL (");
        reasoning.append(url.as_str());
        reasoning.append("). I must now scrape the page for detailed content.");
        proof {
            assert(reasoning@ =~= scrape_reasoning_text(extracted_url(observation@)));
        }
        Ok(ActionPlan { reasoning, action: AgentAction::Scrape { url } })
    } else {
        Ok(
            ActionPlan {
                reasoning: String::from_str(
                    "Starting research for the goal. I need to perform an initial search to find relevant URLs and snippets.",
                ),
                action: AgentAction::Search {
                    query: String::from_str("Define autonomy and self-governance in AI systems."),
                },
            },
        )
    }
}

/// Determinism of the reasoning stand-in: any two plans produced for
/// identical context and observation inputs are identical, since each equals
/// `plan_for` of the observation content.
pub proof fn lemma_mock_reasoning_deterministic(
    obs1: Seq<char>,
    r1: ActionPlanView,
    obs2: Seq<char>,
    r2: ActionPlanView,
)
    requires
        obs1 == obs2,
        r1 == plan_for(obs1),
        r2 == plan_for(obs2),
    ensures
        r1 == r2,
{
}

} // verus!
