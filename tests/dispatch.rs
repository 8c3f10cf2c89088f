use gh_mcp::words::split_words;
use gh_mcp::{
    command_result, instructions, respond, CloneRepoParam, CommandResult, CreateIssueParam,
    CreatePRParam, GitHubService, LaunchReport, Operation, RepoParam, Tool,
};

fn strs(v: &[&str]) -> Vec<String> {
    v.iter().map(|s| s.to_string()).collect()
}

fn exited(success: bool, stdout: &str, stderr: &str) -> CommandResult {
    command_result(LaunchReport::Exited {
        success,
        stdout: stdout.as_bytes().to_vec(),
        stderr: stderr.as_bytes().to_vec(),
    })
}

fn repo(owner: &str, name: &str) -> RepoParam {
    RepoParam { owner: owner.to_string(), repo: name.to_string() }
}

#[test]
fn repo_view_success_passes_output_through() {
    let op = Operation::RepoView(repo("octocat", "hello-world"));
    assert_eq!(
        op.arguments(),
        strs(&["repo", "view", "octocat/hello-world", "--json", "name,description,url,stars,forks,watchers"])
    );
    let stdout = "{\"name\":\"hello-world\",\"description\":null}";
    let mut svc = GitHubService::new();
    let reply = svc.complete(op.tool(), exited(true, stdout, ""));
    assert_eq!(reply.unwrap(), stdout);
}

#[test]
fn create_issue_failure_reports_summary_and_stderr() {
    let op = Operation::CreateIssue(CreateIssueParam {
        title: "bug".to_string(),
        body: None,
        repo: None,
    });
    assert_eq!(op.arguments(), strs(&["issue", "create", "--title", "bug"]));
    let mut svc = GitHubService::new();
    let failure = svc.complete(op.tool(), exited(false, "", "validation failed")).unwrap_err();
    assert_eq!(failure.message, "failed to create issue");
    assert_eq!(failure.error, "validation failed");
}

#[test]
fn create_pr_without_body_has_no_body_flag() {
    let op = Operation::CreatePr(CreatePRParam {
        title: "t".to_string(),
        body: None,
        base: "main".to_string(),
        head: "feat".to_string(),
        repo: Some("o/r".to_string()),
    });
    assert_eq!(
        op.arguments(),
        strs(&["pr", "create", "--repo", "o/r", "--title", "t", "--base", "main", "--head", "feat"])
    );
}

#[test]
fn create_pr_with_every_field() {
    let op = Operation::CreatePr(CreatePRParam {
        title: "t".to_string(),
        body: Some("b c".to_string()),
        base: "main".to_string(),
        head: "feat".to_string(),
        repo: None,
    });
    assert_eq!(
        op.arguments(),
        strs(&["pr", "create", "--title", "t", "--body", "b c", "--base", "main", "--head", "feat"])
    );
}

#[test]
fn create_issue_optional_fields_each_add_a_pair() {
    let both = Operation::CreateIssue(CreateIssueParam {
        title: "a title".to_string(),
        body: Some("".to_string()),
        repo: Some("o/r".to_string()),
    });
    assert_eq!(
        both.arguments(),
        strs(&["issue", "create", "--repo", "o/r", "--title", "a title", "--body", ""])
    );
    let body_only = Operation::CreateIssue(CreateIssueParam {
        title: "x".to_string(),
        body: Some("details".to_string()),
        repo: None,
    });
    assert_eq!(body_only.arguments(), strs(&["issue", "create", "--title", "x", "--body", "details"]));
}

#[test]
fn clone_repo_directory_is_optional() {
    let with_dir = Operation::CloneRepo(CloneRepoParam {
        repo: "o/r".to_string(),
        directory: Some("dest".to_string()),
    });
    assert_eq!(with_dir.arguments(), strs(&["repo", "clone", "o/r", "dest"]));
    let without = Operation::CloneRepo(CloneRepoParam { repo: "o/r".to_string(), directory: None });
    assert_eq!(without.arguments(), strs(&["repo", "clone", "o/r"]));
}

#[test]
fn fixed_argument_vectors() {
    assert_eq!(
        Operation::ListRepos.arguments(),
        strs(&["repo", "list", "--json", "name,description,url"])
    );
    assert_eq!(
        Operation::ListIssues(repo("o", "r")).arguments(),
        strs(&["issue", "list", "--repo", "o/r", "--json", "number,title,state,url"])
    );
    assert_eq!(
        Operation::ListPrs(repo("o", "r")).arguments(),
        strs(&["pr", "list", "--repo", "o/r", "--json", "number,title,state,url"])
    );
    assert_eq!(Operation::AuthStatus.arguments(), strs(&["auth", "status"]));
}

#[test]
fn run_command_splits_into_discrete_tokens() {
    let op = Operation::RunCommand("pr list --repo o/r".to_string());
    assert_eq!(op.arguments(), strs(&["pr", "list", "--repo", "o/r"]));
}

#[test]
fn split_words_handles_runs_of_white_space() {
    assert_eq!(split_words("  issue\tview \n 12  "), strs(&["issue", "view", "12"]));
    assert_eq!(split_words(""), Vec::<String>::new());
    assert_eq!(split_words(" \t\r\n"), Vec::<String>::new());
    assert_eq!(split_words("a\u{00A0}b\u{3000}c"), strs(&["a", "b", "c"]));
    assert_eq!(split_words("héllo wörld"), strs(&["héllo", "wörld"]));
}

#[test]
fn launch_failure_is_a_local_description() {
    let r = command_result(LaunchReport::NotLaunched { reason: "No such file or directory".to_string() });
    assert!(!r.success);
    assert_eq!(r.output, "");
    assert_eq!(r.error.as_deref(), Some("Failed to execute command: No such file or directory"));
    let mut svc = GitHubService::new();
    let failure = svc.complete(Tool::ListRepos, r).unwrap_err();
    assert_eq!(failure.message, "failed to list repositories");
    assert_eq!(failure.error, "Failed to execute command: No such file or directory");
}

#[test]
fn error_text_present_only_on_failure() {
    let ok = exited(true, "out", "warning");
    assert!(ok.success);
    assert_eq!(ok.error, None);
    assert_eq!(ok.output, "out");
    let bad = exited(false, "partial", "boom");
    assert!(!bad.success);
    assert_eq!(bad.error.as_deref(), Some("boom"));
    assert_eq!(bad.output, "partial");
}

#[test]
fn output_is_decoded_permissively() {
    let r = command_result(LaunchReport::Exited {
        success: false,
        stdout: vec![b'o', b'k', 0xff],
        stderr: vec![0xc3, 0x28],
    });
    assert_eq!(r.output, "ok\u{FFFD}");
    assert_eq!(r.error.as_deref(), Some("\u{FFFD}("));
}

#[test]
fn same_behaviour_gives_same_reply() {
    for success in [true, false] {
        let a = respond(Tool::ListIssues, &exited(success, "[1,2]", "nope"));
        let b = respond(Tool::ListIssues, &exited(success, "[1,2]", "nope"));
        match (a, b) {
            (Ok(x), Ok(y)) => assert_eq!(x, y),
            (Err(x), Err(y)) => {
                assert_eq!(x.message, y.message);
                assert_eq!(x.error, y.error);
            }
            _ => panic!("replies differ"),
        }
    }
}

#[test]
fn last_result_reads_are_stable_and_overwritten_by_each_call() {
    let mut svc = GitHubService::new();
    assert!(svc.last_result().is_none());
    let _ = svc.complete(Tool::ListRepos, exited(true, "first", ""));
    let a = svc.last_result().unwrap();
    let b = svc.last_result().unwrap();
    assert_eq!(a.output, "first");
    assert_eq!((a.success, a.output, a.error), (b.success, b.output, b.error));
    let _ = svc.complete(Tool::CloneRepo, exited(false, "", "denied"));
    let c = svc.last_result().unwrap();
    assert!(!c.success);
    assert_eq!(c.error.as_deref(), Some("denied"));
}

#[test]
fn auth_status_always_succeeds() {
    let mut svc = GitHubService::new();
    let reply = svc.complete(Tool::AuthStatus, exited(false, "not logged in", "error"));
    assert_eq!(reply.unwrap(), "not logged in");
    assert!(!svc.last_result().unwrap().success);
}

#[test]
fn each_failure_has_its_summary() {
    let cases = [
        (Tool::ListRepos, "failed to list repositories"),
        (Tool::RepoView, "failed to get repository information"),
        (Tool::ListIssues, "failed to list issues"),
        (Tool::CreateIssue, "failed to create issue"),
        (Tool::ListPrs, "failed to list pull requests"),
        (Tool::CreatePr, "failed to create pull request"),
        (Tool::CloneRepo, "failed to clone repository"),
        (Tool::RunCommand, "failed to execute command"),
    ];
    for (tool, message) in cases {
        let f = respond(tool, &exited(false, "", "why")).unwrap_err();
        assert_eq!(f.message, message);
        assert_eq!(f.error, "why");
    }
}

#[test]
fn failure_without_error_text_has_empty_context() {
    let r = CommandResult { success: false, output: String::new(), error: None };
    let f = respond(Tool::RunCommand, &r).unwrap_err();
    assert_eq!(f.error, "");
}

#[test]
fn operation_reports_its_tool() {
    assert_eq!(Operation::ListRepos.tool(), Tool::ListRepos);
    assert_eq!(Operation::RunCommand("x".to_string()).tool(), Tool::RunCommand);
    assert_eq!(Operation::AuthStatus.tool(), Tool::AuthStatus);
}

#[test]
fn instructions_name_every_operation() {
    let text = instructions();
    for name in ["auth_status", "list_repos", "repo_view", "list_issues", "list_prs", "create_issue", "create_pr", "clone_repo", "run_command"] {
        assert!(text.contains(name));
    }
}
