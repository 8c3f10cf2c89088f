use vstd::prelude::*;
use crate::args::{
    auth_status_args, auth_status_argv, clone_repo_args, clone_repo_argv, create_issue_args,
    create_issue_argv, create_pr_args, create_pr_argv, list_issues_args, list_issues_argv,
    list_prs_args, list_prs_argv, list_repos_args, list_repos_argv, repo_view_args, repo_view_argv,
    run_command_args, CloneRepoParam, CreateIssueParam, CreatePRParam, RepoParam,
};
use crate::outcome::{CommandResult, OutcomeView};
use crate::words::words;

verus! {

/// The operations on offer, without their inputs.
#[derive(Clone, Copy, Debug, PartialEq, Eq, Structural)]
pub enum Tool {
    ListRepos,
    RepoView,
    ListIssues,
    CreateIssue,
    ListPrs,
    CreatePr,
    CloneRepo,
    RunCommand,
    AuthStatus,
}

/// One call: an operation together with its input.
pub enum Operation {
    ListRepos,
    RepoView(RepoParam),
    ListIssues(RepoParam),
    CreateIssue(CreateIssueParam),
    ListPrs(RepoParam),
    CreatePr(CreatePRParam),
    CloneRepo(CloneRepoParam),
    /// A command line for the program, without the program's own name.
    RunCommand(String),
    AuthStatus,
}

impl Operation {
    pub open spec fn spec_tool(self) -> Tool {
        match self {
            Operation::ListRepos => Tool::ListRepos,
            Operation::RepoView(_) => Tool::RepoView,
            Operation::ListIssues(_) => Tool::ListIssues,
            Operation::CreateIssue(_) => Tool::CreateIssue,
            Operation::ListPrs(_) => Tool::ListPrs,
            Operation::CreatePr(_) => Tool::CreatePr,
            Operation::CloneRepo(_) => Tool::CloneRepo,
            Operation::RunCommand(_) => Tool::RunCommand,
            Operation::AuthStatus => Tool::AuthStatus,
        }
    }

    /// The argument vector that the call hands to the program.
    pub open spec fn argv(self) -> Seq<Seq<char>> {
        match self {
            Operation::ListRepos => list_repos_argv(),
            Operation::RepoView(p) => repo_view_argv(p),
            Operation::ListIssues(p) => list_issues_argv(p),
            Operation::CreateIssue(p) => create_issue_argv(p),
            Operation::ListPrs(p) => list_prs_argv(p),
            Operation::CreatePr(p) => create_pr_argv(p),
            Operation::CloneRepo(p) => clone_repo_argv(p),
            Operation::RunCommand(c) => words(c@),
            Operation::AuthStatus => auth_status_argv(),
        }
    }

    /// Which operation this call is.
    pub fn tool(&self) -> (r: Tool)
        ensures
            r == self.spec_tool(),
    {
        match self {
            Operation::ListRepos => Tool::ListRepos,
            Operation::RepoView(_) => Tool::RepoView,
            Operation::ListIssues(_) => Tool::ListIssues,
            Operation::CreateIssue(_) => Tool::CreateIssue,
            Operation::ListPrs(_) => Tool::ListPrs,
            Operation::CreatePr(_) => Tool::CreatePr,
            Operation::CloneRepo(_) => Tool::CloneRepo,
            Operation::RunCommand(_) => Tool::RunCommand,
            Operation::AuthStatus => Tool::AuthStatus,
        }
    }

    /// Builds the argument vector of the call.
    pub fn arguments(&self) -> (r: Vec<String>)
        ensures
            r.deep_view() == self.argv(),
    {
        match self {
            Operation::ListRepos => list_repos_args(),
            Operation::RepoView(p) => repo_view_args(p),
            Operation::ListIssues(p) => list_issues_args(p),
            Operation::CreateIssue(p) => create_issue_args(p),
            Operation::ListPrs(p) => list_prs_args(p),
            Operation::CreatePr(p) => create_pr_args(p),
            Operation::CloneRepo(p) => clone_repo_args(p),
            Operation::RunCommand(c) => run_command_args(c.as_str()),
            Operation::AuthStatus => auth_status_args(),
        }
    }
}

/// The short message that reports a failed call of `t`. A failed
/// authentication check is reported as a success, so it has none.
pub open spec fn summary(t: Tool) -> Seq<char> {
    match t {
        Tool::ListRepos => "failed to list repositories"@,
        Tool::RepoView => "failed to get repository information"@,
        Tool::ListIssues => "failed to list issues"@,
        Tool::CreateIssue => "failed to create issue"@,
        Tool::ListPrs => "failed to list pull requests"@,
        Tool::CreatePr => "failed to create pull request"@,
        Tool::CloneRepo => "failed to clone repository"@,
        Tool::RunCommand => "failed to execute command"@,
        Tool::AuthStatus => ""@,
    }
}

fn summary_text(t: Tool) -> (r: &'static str)
    ensures
        r@ == summary(t),
{
    match t {
        Tool::ListRepos => "failed to list repositories",
        Tool::RepoView => "failed to get repository information",
        Tool::ListIssues => "failed to list issues",
        Tool::CreateIssue => "failed to create issue",
        Tool::ListPrs => "failed to list pull requests",
        Tool::CreatePr => "failed to create pull request",
        Tool::CloneRepo => "failed to clone repository",
        Tool::RunCommand => "failed to execute command",
        Tool::AuthStatus => "",
    }
}

/// What the service tells a client about itself when the session opens.
pub open spec fn instructions_text() -> Seq<char> {
    "This is a GitHub CLI wrapper server that provides GitHub operation tools. Please ensure GitHub CLI is installed and logged in before use. Use auth_status to check login status, list_repos to list repositories, repo_view to view repository information, list_issues and list_prs to view issues and PRs, create_issue and create_pr to create issues and PRs, clone_repo to clone repositories, and run_command to run any GitHub CLI command."@
}

/// The instructions that the service advertises: the operations on offer,
/// and that the command-line program must be installed and logged in.
pub fn instructions() -> (r: &'static str)
    ensures
        r@ == instructions_text(),
{
    "This is a GitHub CLI wrapper server that provides GitHub operation tools. Please ensure GitHub CLI is installed and logged in before use. Use auth_status to check login status, list_repos to list repositories, repo_view to view repository information, list_issues and list_prs to view issues and PRs, create_issue and create_pr to create issues and PRs, clone_repo to clone repositories, and run_command to run any GitHub CLI command."
}

/// The error answer of a failed call: a short message, and the program's
/// own error text as context.
#[derive(Clone, Debug)]
pub struct ToolFailure {
    pub message: String,
    pub error: String,
}

pub struct FailureView {
    pub message: Seq<char>,
    pub error: Seq<char>,
}

impl View for ToolFailure {
    type V = FailureView;

    open spec fn view(&self) -> FailureView {
        FailureView { message: self.message@, error: self.error@ }
    }
}

/// The answer to a call, as text.
pub open spec fn reply_view(r: Result<String, ToolFailure>) -> Result<Seq<char>, FailureView> {
    match r {
        Ok(s) => Ok(s@),
        Err(f) => Err(f@),
    }
}

/// The answer that a call of `t` with outcome `o` gets: the program's output
/// on success, and always for the authentication check; otherwise the
/// operation's message with the error text (empty where there is none).
pub open spec fn reply_of(t: Tool, o: OutcomeView) -> Result<Seq<char>, FailureView> {
    if o.success || t == Tool::AuthStatus {
        Ok(o.output)
    } else {
        Err(
            FailureView {
                message: summary(t),
                error: match o.error {
                    Some(e) => e,
                    None => Seq::empty(),
                },
            },
        )
    }
}

/// Shapes the outcome of a call of `t` into its answer.
pub fn respond(t: Tool, outcome: &CommandResult) -> (r: Result<String, ToolFailure>)
    ensures
        reply_view(r) == reply_of(t, outcome@),
{
    if outcome.success || t == Tool::AuthStatus {
        Ok(outcome.output.clone())
    } else {
        let error = match &outcome.error {
            Some(e) => e.clone(),
            None => String::new(),
        };
        Err(ToolFailure { message: String::from_str(summary_text(t)), error })
    }
}

/// The state that calls share: the outcome of the most recent call.
pub struct GitHubService {
    last_result: Option<CommandResult>,
}

impl GitHubService {
    /// The most recent outcome, as text.
    pub closed spec fn last(&self) -> Option<OutcomeView> {
        match self.last_result {
            Some(o) => Some(o@),
            None => None,
        }
    }

    /// Every retained outcome has its error text exactly when it failed.
    pub closed spec fn wf(&self) -> bool {
        match self.last_result {
            Some(o) => o.wf(),
            None => true,
        }
    }

    /// A service on which no call has been made yet.
    pub fn new() -> (r: Self)
        ensures
            r.wf(),
            r.last() is None,
    {
        GitHubService { last_result: None }
    }

    /// A copy of the most recent outcome. Reading it leaves the state as it
    /// is, so two reads with no call between them give the same value.
    pub fn last_result(&self) -> (r: Option<CommandResult>)
        ensures
            match r {
                Some(o) => self.last() == Some(o@),
                None => self.last() is None,
            },
    {
        match &self.last_result {
            Some(o) => Some(o.duplicate()),
            None => None,
        }
    }

    /// Ends a call of `t`: the outcome becomes the most recent one, whatever
    /// it is, and the answer is shaped from it.
    pub fn complete(&mut self, t: Tool, outcome: CommandResult) -> (r: Result<
        String,
        ToolFailure,
    >)
        requires
            old(self).wf(),
            outcome.wf(),
        ensures
            final(self).wf(),
            final(self).last() == Some(outcome@),
            reply_view(r) == reply_of(t, outcome@),
    {
        let r = respond(t, &outcome);
        self.last_result = Some(outcome);
        r
    }
}

} // verus!
