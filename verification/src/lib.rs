use vstd::prelude::*;

pub mod args;
pub mod classpath;
pub mod config;
pub mod download;
pub mod game;
pub mod inventory;
pub mod json;
pub mod paths;
pub mod progress;
pub mod rules;
pub mod text;

verus! {

/// The owner of the GitHub repository that publishes Java and the game files.
pub const GITHUB_REPO_OWNER: &'static str = "supminer";
/// The GitHub repository that publishes Java and the game files.
pub const GITHUB_REPO_NAME: &'static str = "ed-launcher";
/// The branch of the repository whose files the launcher fetches.
pub const GITHUB_BRANCH: &'static str = "main";

} // verus!
