//! The search collaborator's data model and deterministic stand-in: the
//! result formatting that embeds the `Found URL:` marker, and a mock client
//! whose failure point is explicit, injected state.

use vstd::prelude::*;
use crate::output::ToolError;
use crate::output::ToolOutput;
use crate::text::contains_seq;
use crate::text::contains_str;
use crate::text::decimal_digits;
use crate::text::push_decimal;

verus! {

/// Spec-level image of a [`SearchItem`].
pub struct SearchItemView {
    pub title: Seq<char>,
    pub snippet: Seq<char>,
    pub link: Seq<char>,
}

/// A single search result: title, snippet and link.
#[derive(Debug, Clone, PartialEq, Eq)]
pub struct SearchItem {
    pub title: String,
    pub snippet: String,
    pub link: String,
}

impl View for SearchItem {
    type V = SearchItemView;

    open spec fn view(&self) -> SearchItemView {
        SearchItemView { title: self.title@, snippet: self.snippet@, link: self.link@ }
    }
}

/// The link fragment that marks the page worth scraping next.
pub open spec fn followup_link_marker() -> Seq<char> {
    "wikipedia.org/wiki/Autonomy"@
}

/// The lines one result contributes, `idx` counting from 1: a `Found URL:`
/// line when the link is the one worth following, then the numbered result
/// line.
pub open spec fn item_lines(item: SearchItemView, idx: nat) -> Seq<char> {
    let line = "Result "@ + decimal_digits(idx) + ": Title: "@ + item.title + ", Snippet: "@
        + item.snippet + "\n"@;
    if contains_seq(item.link, followup_link_marker()) {
        "Found URL: "@ + item.link + "\n"@ + line
    } else {
        line
    }
}

/// The lines all results contribute, in order.
pub open spec fn items_text(items: Seq<SearchItemView>) -> Seq<char>
    decreases items.len(),
{
    if items.len() == 0 {
        Seq::empty()
    } else {
        items_text(items.drop_last()) + item_lines(items.last(), items.len())
    }
}

/// The observation content for a search response: a header naming the
/// query, then the result lines, or a fixed note when there are none.
pub open spec fn search_results_content(query: Seq<char>, items: Option<
    Seq<SearchItemView>,
>) -> Seq<char> {
    let header = "Search results for query: '"@ + query + "'\n"@;
    match items {
        Some(s) => header + items_text(s),
        None => header + "No relevant search results found."@,
    }
}

/// Formats a search response into the observation handed to the next
/// reasoning step. A link containing the follow-up marker gets a
/// `Found URL: <link>` line of its own, so the address can be extracted
/// deterministically.
pub fn format_search_results(query: &str, items: &Option<Vec<SearchItem>>) -> (r: String)
    ensures
        (match items {
            Some(v) => r@ == search_results_content(
                query@,
                Some(v@.map_values(|e: SearchItem| e@)),
            ),
            None => r@ == search_results_content(query@, None::<Seq<SearchItemView>>),
        }),
{
    let ghost header = "Search results for query: '"@ + query@ + "'\n"@;
    let mut out = String::from_str("Search results for query: '");
    out.append(query);
    out.append("'\n");
    proof {
        assert(out@ =~= header);
    }
    match items {
        Some(v) => {
            let ghost views = v@.map_values(|e: SearchItem| e@);
            let mut i: usize = 0;
            while i < v.len()
                invariant
                    0 <= i <= v.len(),
                    views == v@.map_values(|e: SearchItem| e@),
                    out@ == header + items_text(views.subrange(0, i as int)),
                decreases v.len() - i,
            {
                let ghost pre = out@;
                let item = &v[i];
                if contains_str(item.link.as_str(), "wikipedia.org/wiki/Autonomy") {
                    out.append("Found URL: ");
                    out.append(item.link.as_str());
                    out.append("\n");
                }
                out.append("Result ");
                push_decimal((i + 1) as u64, &mut out);
                out.append(": Title: ");
                out.append(item.title.as_str());
                out.append(", Snippet: ");
                out.append(item.snippet.as_str());
                out.append("\n");
                proof {
                    assert(out@ =~= pre + item_lines(views[i as int], (i + 1) as nat));
                    let t = views.subrange(0, i + 1);
                    assert(t.drop_last() =~= views.subrange(0, i as int));
                    assert(t.last() == views[i as int]);
                    assert(out@ =~= header + items_text(views.subrange(0, i + 1)));
                }
                i = i + 1;
            }
            proof {
                assert(views.subrange(0, v.len() as int) =~= views);
            }
        },
        None => {
            out.append("No relevant search results found.");
        },
    }
    out
}

/// The two results the stand-in search response carries: the page worth
/// following and a filler entry.
pub open spec fn sample_items() -> Seq<SearchItemView> {
    seq![
        (SearchItemView {
            title: "Wikipedia: Autonomy (self-governance)"@,
            snippet: "The concept of self-governance or self-rule, a key component of agentic systems."@,
            link: "https://en.wikipedia.org/wiki/Autonomy"@,
        }),
        (SearchItemView {
            title: "History of AI Agents"@,
            snippet: "A general overview of the history and architecture of reactive vs. deliberative agents."@,
            link: "https://example.com/ai-history"@,
        }),
    ]
}

/// Builds the stand-in search response's two results.
pub fn sample_search_items() -> (v: Vec<SearchItem>)
    ensures
        v@.map_values(|e: SearchItem| e@) == sample_items(),
{
    let mut v: Vec<SearchItem> = Vec::new();
    v.push(
        SearchItem {
            title: String::from_str("Wikipedia: Autonomy (self-governance)"),
            snippet: String::from_str(
                "The concept of self-governance or self-rule, a key component of agentic systems.",
            ),
            link: String::from_str("https://en.wikipedia.org/wiki/Autonomy"),
        },
    );
    v.push(
        SearchItem {
            title: String::from_str("History of AI Agents"),
            snippet: String::from_str(
                "A general overview of the history and architecture of reactive vs. deliberative agents.",
            ),
            link: String::from_str("https://example.com/ai-history"),
        },
    );
    proof {
        assert(v@.map_values(|e: SearchItem| e@) =~= sample_items());
    }
    v
}

/// The failure message of the stand-in search client, naming which call
/// failed.
pub open spec fn quota_error_text(n: nat) -> Seq<char> {
    "API Key invalid or quota exceeded on call "@ + decimal_digits(n)
}

/// The stand-in search collaborator. Its failure point is explicit state
/// injected at construction — not a process-wide counter — so runs stay
/// reentrant and testable: the client counts its calls and fails from the
/// `fail_from`-th one on, as an expired key or exhausted quota would.
#[derive(Debug, Clone, PartialEq, Eq)]
pub struct MockSearch {
    /// Calls served so far.
    pub calls: u64,
    /// The first call, counting from 1, that fails.
    pub fail_from: u64,
}

impl MockSearch {
    /// The reference stand-in: every call fails, starting with the first.
    pub fn new() -> (m: MockSearch)
        ensures
            m.calls == 0,
            m.fail_from == 1,
    {
        MockSearch { calls: 0, fail_from: 1 }
    }

    /// A stand-in whose calls succeed until the `fail_from`-th, counting
    /// from 1.
    pub fn failing_from(fail_from: u64) -> (m: MockSearch)
        ensures
            m.calls == 0,
            m.fail_from == fail_from,
    {
        MockSearch { calls: 0, fail_from }
    }

    /// Serves one search call: the stand-in response for the query while
    /// calls succeed, the quota failure from `fail_from` on.
    pub fn search(&mut self, query: &str) -> (r: Result<ToolOutput, ToolError>)
        requires
            old(self).calls < u64::MAX,
        ensures
            final(self).calls == old(self).calls + 1,
            final(self).fail_from == old(self).fail_from,
            final(self).calls >= final(self).fail_from ==> r is Err && r->Err_0@
                == quota_error_text(final(self).calls as nat),
            final(self).calls < final(self).fail_from ==> r is Ok && r->Ok_0@
                == search_results_content(query@, Some(sample_items())),
    {
        self.calls = self.calls + 1;
        if self.calls >= self.fail_from {
            let mut message = String::from_str("API Key invalid or quota exceeded on call ");
            push_decimal(self.calls, &mut message);
            Err(ToolError { message })
        } else {
            let items = Some(sample_search_items());
            Ok(ToolOutput { content: format_search_results(query, &items) })
        }
    }
}

} // verus!
