//! The usage-metrics document of the GitHub Copilot metrics API.
//!
//! One [`CopilotMetrics`] value is one dated snapshot for a scope. Every part
//! below the date is optional: an absent block or counter means that the API
//! reported nothing for it, which is not the same as zero.

use vstd::prelude::*;

verus! {

/// Usage of one programming language.
#[derive(Clone, Debug)]
pub struct Language {
    pub name: String,
    pub total_engaged_users: i64,
    pub total_code_suggestions: Option<i64>,
    pub total_code_acceptances: Option<i64>,
    pub total_code_lines_suggested: Option<i64>,
    pub total_code_lines_accepted: Option<i64>,
}

/// Usage of one model, inside an editor, a repository or a chat block.
#[derive(Clone, Debug)]
pub struct Model {
    pub name: String,
    pub is_custom_model: bool,
    pub custom_model_training_date: Option<String>,
    pub total_engaged_users: i64,
    pub languages: Option<Vec<Language>>,
    pub total_chats: Option<i64>,
    pub total_chat_insertion_events: Option<i64>,
    pub total_chat_copy_events: Option<i64>,
    pub total_pr_summaries_created: Option<i64>,
}

/// Usage of one editor, with the models used in it.
#[derive(Clone, Debug)]
pub struct Editor {
    pub name: String,
    pub total_engaged_users: i64,
    pub models: Option<Vec<Model>>,
}

/// Usage in one repository, with the models used in it.
#[derive(Clone, Debug)]
pub struct Repository {
    pub name: String,
    pub total_engaged_users: i64,
    pub models: Vec<Model>,
}

/// Code completions in the editor.
#[derive(Clone, Debug)]
pub struct CopilotIdeCodeCompletions {
    pub total_engaged_users: i64,
    pub languages: Option<Vec<Language>>,
    pub editors: Option<Vec<Editor>>,
}

/// Chat in the editor.
#[derive(Clone, Debug)]
pub struct CopilotIdeChat {
    pub total_engaged_users: i64,
    pub editors: Option<Vec<Editor>>,
}

/// Chat on github.com.
#[derive(Clone, Debug)]
pub struct CopilotDotcomChat {
    pub total_engaged_users: i64,
    pub models: Option<Vec<Model>>,
}

/// Pull request summaries on github.com.
#[derive(Clone, Debug)]
pub struct CopilotDotcomPullRequests {
    pub total_engaged_users: i64,
    pub repositories: Option<Vec<Repository>>,
}

/// One dated snapshot of Copilot usage for a scope.
#[derive(Clone, Debug)]
pub struct CopilotMetrics {
    pub date: String,
    pub total_active_users: Option<i64>,
    pub total_engaged_users: Option<i64>,
    pub copilot_ide_code_completions: Option<CopilotIdeCodeCompletions>,
    pub copilot_ide_chat: Option<CopilotIdeChat>,
    pub copilot_dotcom_chat: Option<CopilotDotcomChat>,
    pub copilot_dotcom_pull_requests: Option<CopilotDotcomPullRequests>,
}

impl CopilotMetrics {
    /// Whether the snapshot carries nothing but its date.
    pub open spec fn is_bare(&self) -> bool {
        &&& self.total_active_users is None
        &&& self.total_engaged_users is None
        &&& self.copilot_ide_code_completions is None
        &&& self.copilot_ide_chat is None
        &&& self.copilot_dotcom_chat is None
        &&& self.copilot_dotcom_pull_requests is None
    }
}

} // verus!
