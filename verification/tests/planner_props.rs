use arec_agent::context::AgentContext;
use arec_agent::output::ToolOutput;
use arec_agent::planner::AgentAction;
use arec_agent::planner::call_llm_for_plan;
use arec_agent::planner::extract_found_url;
use arec_agent::planner::render_action;

fn plan_on(content: &str) -> arec_agent::planner::ActionPlan {
    let context = AgentContext::new(String::from("irrelevant goal"));
    let observation = ToolOutput { content: String::from(content) };
    call_llm_for_plan(&context, &observation).expect("the stand-in never fails")
}

#[test]
fn identical_inputs_yield_identical_plans() {
    let content = "Search results for query: 'x'\nFound URL: https://x.test/a\nResult 1: ...\n";
    let first = plan_on(content);
    let second = plan_on(content);
    assert_eq!(first, second);
}

#[test]
fn found_url_yields_scrape_of_that_url() {
    let plan = plan_on("before\nFound URL: https://x.test/a\nafter");
    assert_eq!(
        plan.action,
        AgentAction::Scrape { url: String::from("https://x.test/a") }
    );
    assert_eq!(
        plan.reasoning,
        "Initial search returned a relevant article URL (https://x.test/a). \
         I must now scrape the page for detailed content."
    );
}

#[test]
fn completion_marker_yields_finish_with_answer() {
    let plan = plan_on(
        "SCRAPED CONTENT (Snippet): ... institutions that are self-governing ... (Total chars: 99)",
    );
    match plan.action {
        AgentAction::Finish { final_answer } => {
            assert!(!final_answer.is_empty());
            assert!(final_answer.contains("self-governing"));
        }
        other => panic!("expected Finish, got {:?}", other),
    }
}

#[test]
fn completion_marker_wins_over_found_url() {
    let plan = plan_on("self-governing\nFound URL: https://x.test/a\n");
    assert!(matches!(plan.action, AgentAction::Finish { .. }));
}

#[test]
fn plain_observation_yields_initial_search() {
    let plan = plan_on("The user wants to find information on: something");
    assert_eq!(
        plan.action,
        AgentAction::Search {
            query: String::from("Define autonomy and self-governance in AI systems.")
        }
    );
    assert_eq!(
        plan.reasoning,
        "Starting research for the goal. I need to perform an initial search to find relevant \
         URLs and snippets."
    );
}

#[test]
fn extract_found_url_reads_to_line_break() {
    assert_eq!(
        extract_found_url("x\nFound URL: https://x.test/a\ny"),
        "https://x.test/a"
    );
    assert_eq!(
        extract_found_url("Found URL:  https://x.test/a  "),
        "https://x.test/a"
    );
    assert_eq!(
        extract_found_url("Found URL: https://a.test\nFound URL: https://b.test\n"),
        "https://a.test"
    );
    assert_eq!(extract_found_url("hello\nworld"), "hello");
}

#[test]
fn render_action_exact_projection() {
    assert_eq!(
        render_action(&AgentAction::Search { query: String::from("abc") }),
        "Search { query: \"abc\" }"
    );
    assert_eq!(
        render_action(&AgentAction::Scrape { url: String::from("https://x.test") }),
        "Scrape { url: \"https://x.test\" }"
    );
    assert_eq!(
        render_action(&AgentAction::Finish { final_answer: String::from("done") }),
        "Finish { final_answer: \"done\" }"
    );
}
