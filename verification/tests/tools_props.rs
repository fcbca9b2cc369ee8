use arec_agent::output::ToolOutput;
use arec_agent::scrape::summarize_html;
use arec_agent::search::MockSearch;
use arec_agent::search::SearchItem;
use arec_agent::search::format_search_results;
use arec_agent::search::sample_search_items;

#[test]
fn search_results_embed_found_url_line() {
    let formatted = format_search_results("autonomy", &Some(sample_search_items()));
    assert_eq!(
        formatted,
        "Search results for query: 'autonomy'\n\
         Found URL: https://en.wikipedia.org/wiki/Autonomy\n\
         Result 1: Title: Wikipedia: Autonomy (self-governance), Snippet: The concept of \
         self-governance or self-rule, a key component of agentic systems.\n\
         Result 2: Title: History of AI Agents, Snippet: A general overview of the history \
         and architecture of reactive vs. deliberative agents.\n"
    );
}

#[test]
fn search_results_without_items() {
    let formatted = format_search_results("anything", &None);
    assert_eq!(
        formatted,
        "Search results for query: 'anything'\nNo relevant search results found."
    );
}

#[test]
fn search_results_skip_marker_on_other_links() {
    let items = vec![SearchItem {
        title: String::from("T"),
        snippet: String::from("S"),
        link: String::from("https://example.com/x"),
    }];
    let formatted = format_search_results("q", &Some(items));
    assert_eq!(
        formatted,
        "Search results for query: 'q'\nResult 1: Title: T, Snippet: S\n"
    );
}

#[test]
fn mock_search_fails_from_first_call_by_default() {
    let mut mock = MockSearch::new();
    let first = mock.search("q");
    assert_eq!(
        first.expect_err("the reference stand-in fails every call").message,
        "API Key invalid or quota exceeded on call 1"
    );
    let second = mock.search("q");
    assert_eq!(
        second.expect_err("the reference stand-in fails every call").message,
        "API Key invalid or quota exceeded on call 2"
    );
}

#[test]
fn mock_search_succeeds_until_its_failure_point() {
    let mut mock = MockSearch::failing_from(2);
    let first: ToolOutput = mock.search("autonomy").expect("first call succeeds");
    assert!(first.content.starts_with("Search results for query: 'autonomy'\n"));
    assert!(first.content.contains("Found URL: https://en.wikipedia.org/wiki/Autonomy"));
    let second = mock.search("autonomy");
    assert_eq!(
        second.expect_err("second call hits the failure point").message,
        "API Key invalid or quota exceeded on call 2"
    );
}

#[test]
fn summarize_html_trims_joins_and_counts() {
    let page = "<html><body><p> Hello </p><p>   </p><p>World</p></body></html>";
    let obs = summarize_html(page);
    assert_eq!(
        obs.content,
        "SCRAPED CONTENT (Snippet): Hello World ... (Total chars: 12)"
    );
}

#[test]
fn summarize_html_without_paragraphs() {
    let obs = summarize_html("<html><body><div>no paragraphs here</div></body></html>");
    assert_eq!(obs.content, "SCRAPED CONTENT (Snippet): ... (Total chars: 0)");
}

#[test]
fn summarize_html_caps_snippet_at_five_hundred() {
    let long = "x".repeat(600);
    let page = format!("<html><body><p>{}</p></body></html>", long);
    let obs = summarize_html(&page);
    let expected_snippet = "x".repeat(500);
    assert_eq!(
        obs.content,
        format!(
            "SCRAPED CONTENT (Snippet): {}... (Total chars: 601)",
            expected_snippet
        )
    );
}
