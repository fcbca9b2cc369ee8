//! Observations and the error taxonomy of the core: tool failures are
//! recovered into observations carrying the `TOOL_ERROR:` sentinel, while a
//! planning failure is fatal to the run.

use vstd::prelude::*;
use crate::text::has_prefix;
use crate::text::starts_with_str;

verus! {

/// What a tool invocation feeds back into the next reasoning step.
///
/// By convention, a content that begins with the `TOOL_ERROR:` sentinel
/// denotes a recovered tool-level failure that is still handed to the next
/// reasoning step as a normal observation.
#[derive(Debug, Clone, PartialEq, Eq)]
pub struct ToolOutput {
    pub content: String,
}

impl View for ToolOutput {
    type V = Seq<char>;

    open spec fn view(&self) -> Seq<char> {
        self.content@
    }
}

/// A failure inside a Search or Scrape collaborator. It is recovered at the
/// dispatcher boundary, never propagated.
#[derive(Debug, Clone, PartialEq, Eq)]
pub struct ToolError {
    pub message: String,
}

impl View for ToolError {
    type V = Seq<char>;

    open spec fn view(&self) -> Seq<char> {
        self.message@
    }
}

/// A reasoning collaborator's output failed to parse into a plan. Fatal to
/// the current run.
#[derive(Debug, Clone, PartialEq, Eq)]
pub struct PlanError {
    pub message: String,
}

impl View for PlanError {
    type V = Seq<char>;

    open spec fn view(&self) -> Seq<char> {
        self.message@
    }
}

/// The sentinel prefix that marks a recovered tool failure.
pub open spec fn tool_error_sentinel() -> Seq<char> {
    "TOOL_ERROR:"@
}

/// Whether an observation content denotes a recovered tool failure.
pub open spec fn is_error_observation(content: Seq<char>) -> bool {
    has_prefix(content, tool_error_sentinel())
}

impl ToolOutput {
    /// Whether this observation denotes a recovered tool failure.
    pub fn is_tool_error(&self) -> (r: bool)
        ensures
            r == is_error_observation(self@),
    {
        starts_with_str(self.content.as_str(), "TOOL_ERROR:")
    }
}

} // verus!
