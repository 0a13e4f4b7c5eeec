use vstd::prelude::*;

pub mod text;
pub mod paths;
pub mod taxonomy;
pub mod metadata;
pub mod naming;
pub mod ignore;
pub mod project;
pub mod decision;
pub mod scanner;
pub mod ollama;
pub mod planner;
pub mod autopilot;
pub mod manifest;
pub mod apply;
pub mod rollback;
pub mod review;
pub mod report;
pub mod export;
pub mod content;

verus! {
}
