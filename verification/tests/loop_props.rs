use arec_agent::controller::CYCLE_LIMIT;
use arec_agent::controller::LoopController;
use arec_agent::controller::LoopState;
use arec_agent::controller::TerminationReason;
use arec_agent::controller::run_scripted;
use arec_agent::output::ToolError;
use arec_agent::output::ToolOutput;
use arec_agent::planner::AgentAction;
use arec_agent::search::format_search_results;
use arec_agent::search::sample_search_items;

fn err(message: &str) -> Result<ToolOutput, ToolError> {
    Err(ToolError { message: String::from(message) })
}

fn ok(content: &str) -> Result<ToolOutput, ToolError> {
    Ok(ToolOutput { content: String::from(content) })
}

#[test]
fn new_run_seeds_observation_from_goal() {
    let run = LoopController::new(String::from("find the first webpage"));
    assert_eq!(run.state, LoopState::Running);
    assert_eq!(run.cycle_count, 0);
    assert_eq!(run.context.goal, "find the first webpage");
    assert_eq!(run.context.history_len(), 0);
    assert_eq!(
        run.current_observation.content,
        "The user wants to find information on: find the first webpage"
    );
}

#[test]
fn finish_terminates_same_cycle_without_append() {
    let mut run = LoopController::new(String::from("goal"));
    assert!(run.begin_cycle());
    let action = AgentAction::Finish { final_answer: String::from("the answer") };
    run.complete_cycle(&action, None);
    assert_eq!(run.state, LoopState::Terminated(TerminationReason::Finished));
    assert_eq!(run.context.history_len(), 0);
}

#[test]
fn each_completed_cycle_appends_one_entry() {
    let mut run = LoopController::new(String::from("goal"));
    for n in 1..=3usize {
        assert!(run.begin_cycle());
        let action = AgentAction::Search { query: String::from("q") };
        let obs = ToolOutput { content: format!("observation {}", n) };
        run.complete_cycle(&action, Some(obs));
        assert_eq!(run.state, LoopState::Running);
        assert_eq!(run.context.history_len(), n);
    }
    assert_eq!(run.context.history[2].observation, "observation 3");
    assert_eq!(run.context.history[2].action, "Search { query: \"q\" }");
}

#[test]
fn plan_failure_is_fatal() {
    let mut run = LoopController::new(String::from("goal"));
    assert!(run.begin_cycle());
    run.record_plan_failure();
    assert_eq!(run.state, LoopState::Terminated(TerminationReason::Fatal));
    assert_eq!(run.context.history_len(), 0);
}

#[test]
fn sixth_cycle_hits_safety_limit() {
    let mut run = LoopController::new(String::from("goal"));
    for _ in 0..CYCLE_LIMIT {
        assert!(run.begin_cycle());
        let action = AgentAction::Search { query: String::from("q") };
        run.complete_cycle(&action, Some(ToolOutput { content: String::from("nothing yet") }));
        assert_eq!(run.state, LoopState::Running);
    }
    assert_eq!(run.cycle_count, CYCLE_LIMIT);
    assert!(!run.begin_cycle());
    assert_eq!(run.state, LoopState::Terminated(TerminationReason::SafetyLimit));
    assert_eq!(run.cycle_count, CYCLE_LIMIT + 1);
    assert_eq!(run.context.history_len(), CYCLE_LIMIT as usize);
}

#[test]
fn failing_tools_drive_run_into_safety_limit() {
    let script = vec![
        err("quota exceeded"),
        err("quota exceeded"),
        err("quota exceeded"),
        err("quota exceeded"),
        err("quota exceeded"),
    ];
    let run = run_scripted(String::from("some research goal"), &script);
    assert_eq!(run.state, LoopState::Terminated(TerminationReason::SafetyLimit));
    assert_eq!(run.context.history_len(), 5);
    for entry in &run.context.history {
        assert_eq!(
            entry.observation,
            "TOOL_ERROR: Search failed. Reason: quota exceeded"
        );
    }
}

#[test]
fn successful_pipeline_finishes_before_the_limit() {
    let search_response = format_search_results(
        "Define autonomy and self-governance in AI systems.",
        &Some(sample_search_items()),
    );
    let script = vec![
        Ok(ToolOutput { content: search_response }),
        ok("SCRAPED CONTENT (Snippet): Autonomy means being self-governing. ... (Total chars: 44)"),
        err("unused"),
        err("unused"),
        err("unused"),
    ];
    let run = run_scripted(String::from("explain autonomy"), &script);
    assert_eq!(run.state, LoopState::Terminated(TerminationReason::Finished));
    assert_eq!(run.context.history_len(), 2);
    assert_eq!(
        run.context.history[0].action,
        "Search { query: \"Define autonomy and self-governance in AI systems.\" }"
    );
    assert_eq!(
        run.context.history[1].action,
        "Scrape { url: \"https://en.wikipedia.org/wiki/Autonomy\" }"
    );
}

#[test]
fn scrape_network_error_is_recorded_verbatim() {
    let script = vec![
        ok("Search results for query: 'x'\nFound URL: https://broken.test\n"),
        err("Connection refused (https://broken.test)"),
        err("still down"),
        err("still down"),
        err("still down"),
    ];
    let run = run_scripted(String::from("dig into the broken site"), &script);
    assert_eq!(
        run.context.history[1].action,
        "Scrape { url: \"https://broken.test\" }"
    );
    assert_eq!(
        run.context.history[1].observation,
        "TOOL_ERROR: Scrape failed. Reason: Connection refused (https://broken.test)"
    );
    assert_eq!(run.state, LoopState::Terminated(TerminationReason::SafetyLimit));
}
