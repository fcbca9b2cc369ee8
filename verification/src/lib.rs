//! Core of an autonomous research agent that runs Observe-Reason-Act cycles
//! toward a fixed goal.
//!
//! The library holds the verified control logic: the running memory of goal
//! and history, the closed set of agent actions, the dispatcher that turns a
//! decided action into a tool request and normalizes tool failures into
//! observations, and the loop controller that sequences cycles and enforces
//! the safety ceiling. The concrete search, scrape and reasoning collaborators
//! are external; the deterministic reasoning stand-in and the tool mocks used
//! for exercising the loop live here as well.

pub mod context;
pub mod controller;
pub mod executor;
pub mod output;
pub mod planner;
pub mod scrape;
pub mod search;
pub mod text;
