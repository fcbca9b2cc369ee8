//! The scrape collaborator's computing half: turning fetched HTML into the
//! observation content — paragraph text extraction through an HTML parser,
//! then verified trimming, joining and snippet formatting.
//!
//! Fetching the page itself is I/O and stays outside the library; this
//! module takes the page text as given.

use vstd::prelude::*;
use crate::output::ToolOutput;
use crate::text::decimal_digits;
use crate::text::push_decimal;
use crate::text::trim_seq;
use crate::text::trim_str;

verus! {

/// The concatenated text of each `<p>` element of an HTML document, in
/// document order: the name for what the HTML parser extracts, a function of
/// the document text alone.
pub uninterp spec fn paragraph_texts(html: Seq<char>) -> Seq<Seq<char>>;

/// Relies on scraper's `Html::parse_document`, `Html::select` with the
/// literal `p` selector (which always parses), and `ElementRef::text`: the
/// result is the concatenated text of each `<p>` element, in document order,
/// a function of the document text alone.
#[verifier::external_body]
fn extract_paragraphs(html: &str) -> (r: Vec<String>)
    ensures
        r.deep_view() == paragraph_texts(html@),
{
    let document = scraper::Html::parse_document(html);
    match scraper::Selector::parse("p") {
        Ok(selector) => document
            .select(&selector)
            .map(|element| element.text().collect::<String>())
            .collect(),
        Err(_) => Vec::new(),
    }
}

/// What one paragraph contributes to the running text: its trimmed text and
/// a separating space, or nothing when blank.
pub open spec fn paragraph_unit(p: Seq<char>) -> Seq<char> {
    if trim_seq(p).len() > 0 {
        trim_seq(p) + " "@
    } else {
        Seq::empty()
    }
}

/// The running text of all paragraphs, in order.
pub open spec fn joined_paragraphs(ps: Seq<Seq<char>>) -> Seq<char>
    decreases ps.len(),
{
    if ps.len() == 0 {
        Seq::empty()
    } else {
        joined_paragraphs(ps.drop_last()) + paragraph_unit(ps.last())
    }
}

/// The cap on the snippet put into the observation.
pub const SNIPPET_LIMIT: usize = 500;

/// The observation content built from the running paragraph text: a snippet
/// capped at [`SNIPPET_LIMIT`] characters, annotated with the true total
/// length.
pub open spec fn summary_content(joined: Seq<char>) -> Seq<char> {
    let snippet = if joined.len() <= SNIPPET_LIMIT {
        joined
    } else {
        joined.subrange(0, SNIPPET_LIMIT as int)
    };
    "SCRAPED CONTENT (Snippet): "@ + snippet + "... (Total chars: "@ + decimal_digits(
        joined.len(),
    ) + ")"@
}

/// The observation content for a scraped page.
pub open spec fn page_summary(html: Seq<char>) -> Seq<char> {
    summary_content(joined_paragraphs(paragraph_texts(html)))
}

/// Turns a fetched page's HTML into the observation handed to the next
/// reasoning step: the paragraphs' trimmed text joined with spaces, capped
/// to a snippet and annotated with the total extracted length.
pub fn summarize_html(html: &str) -> (r: ToolOutput)
    ensures
        r@ == page_summary(html@),
{
    let paragraphs = extract_paragraphs(html);
    let ghost views = paragraphs.deep_view();
    let mut joined = String::new();
    let mut i: usize = 0;
    while i < paragraphs.len()
        invariant
            0 <= i <= paragraphs.len(),
            views == paragraphs.deep_view(),
            joined@ == joined_paragraphs(views.subrange(0, i as int)),
        decreases paragraphs.len() - i,
    {
        let ghost pre = joined@;
        let t = trim_str(paragraphs[i].as_str());
        if !t.is_empty() {
            joined.append(t);
            joined.append(" ");
        }
        proof {
            assert(joined@ =~= pre + paragraph_unit(views[i as int]));
            let pfx = views.subrange(0, i + 1);
            assert(pfx.drop_last() =~= views.subrange(0, i as int));
            assert(pfx.last() == views[i as int]);
            assert(joined@ =~= joined_paragraphs(views.subrange(0, i + 1)));
        }
        i = i + 1;
    }
    proof {
        assert(views.subrange(0, paragraphs.len() as int) =~= views);
    }
    let total = joined.as_str().unicode_len();
    let mut content = String::from_str("SCRAPED CONTENT (Snippet): ");
    if total <= SNIPPET_LIMIT {
        content.append(joined.as_str());
    } else {
        content.append(joined.as_str().substring_char(0, SNIPPET_LIMIT));
    }
    content.append("... (Total chars: ");
    push_decimal(total as u64, &mut content);
    content.append(")");
    proof {
        assert(content@ =~= page_summary(html@));
    }
    ToolOutput { content }
}

} // verus!
