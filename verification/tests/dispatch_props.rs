use arec_agent::executor::DispatchDecision;
use arec_agent::executor::ToolKind;
use arec_agent::executor::dispatch_action;
use arec_agent::executor::recover_tool_failure;
use arec_agent::executor::settle_tool_outcome;
use arec_agent::executor::tool_executor;
use arec_agent::output::ToolError;
use arec_agent::output::ToolOutput;
use arec_agent::planner::ActionPlan;
use arec_agent::planner::AgentAction;

#[test]
fn finish_dispatch_always_returns_none() {
    let plan = ActionPlan {
        reasoning: String::from("done"),
        action: AgentAction::Finish { final_answer: String::from("the answer") },
    };
    assert_eq!(tool_executor(plan, None), None);
}

#[test]
fn dispatch_action_maps_each_variant() {
    let search = AgentAction::Search { query: String::from("q") };
    assert_eq!(
        dispatch_action(&search),
        DispatchDecision::Invoke { kind: ToolKind::Search, argument: String::from("q") }
    );
    let scrape = AgentAction::Scrape { url: String::from("https://x.test") };
    assert_eq!(
        dispatch_action(&scrape),
        DispatchDecision::Invoke { kind: ToolKind::Scrape, argument: String::from("https://x.test") }
    );
    let finish = AgentAction::Finish { final_answer: String::from("a") };
    assert_eq!(
        dispatch_action(&finish),
        DispatchDecision::Halt { final_answer: String::from("a") }
    );
}

#[test]
fn tool_failure_becomes_sentinel_observation() {
    let failed = settle_tool_outcome(
        ToolKind::Search,
        Err(ToolError { message: String::from("API Key invalid or quota exceeded on call 1") }),
    );
    assert!(failed.content.starts_with("TOOL_ERROR:"));
    assert_eq!(
        failed.content,
        "TOOL_ERROR: Search failed. Reason: API Key invalid or quota exceeded on call 1"
    );
    assert!(failed.is_tool_error());
}

#[test]
fn scrape_failure_message_exact() {
    let failed = recover_tool_failure(
        ToolKind::Scrape,
        ToolError { message: String::from("Connection refused") },
    );
    assert_eq!(
        failed.content,
        "TOOL_ERROR: Scrape failed. Reason: Connection refused"
    );
}

#[test]
fn tool_success_passes_through_unchanged() {
    let ok = settle_tool_outcome(
        ToolKind::Scrape,
        Ok(ToolOutput { content: String::from("page text") }),
    );
    assert_eq!(ok.content, "page text");
    assert!(!ok.is_tool_error());
}

#[test]
fn tool_executor_recovers_failures_as_observations() {
    let plan = ActionPlan {
        reasoning: String::from("looking"),
        action: AgentAction::Search { query: String::from("q") },
    };
    let out = tool_executor(
        plan,
        Some(Err(ToolError { message: String::from("boom") })),
    );
    let obs = out.expect("a tool action always yields an observation");
    assert_eq!(obs.content, "TOOL_ERROR: Search failed. Reason: boom");
}
