use vstd::prelude::*;
use crate::outcome::opt_text;
use crate::words::{split_words, words};

verus! {

/// A repository named by its owner and its name.
#[derive(Clone, Debug)]
pub struct RepoParam {
    pub owner: String,
    pub repo: String,
}

/// Input of `create_issue`.
#[derive(Clone, Debug)]
pub struct CreateIssueParam {
    pub title: String,
    pub body: Option<String>,
    pub repo: Option<String>,
}

/// Input of `create_pr`.
#[derive(Clone, Debug)]
pub struct CreatePRParam {
    pub title: String,
    pub body: Option<String>,
    pub base: String,
    pub head: String,
    pub repo: Option<String>,
}

/// Input of `clone_repo`.
#[derive(Clone, Debug)]
pub struct CloneRepoParam {
    pub repo: String,
    pub directory: Option<String>,
}

/// `owner/repo`, as one token.
pub open spec fn slug(owner: Seq<char>, repo: Seq<char>) -> Seq<char> {
    owner + "/"@ + repo
}

/// A flag followed by its value when the value is present; nothing otherwise.
pub open spec fn flag_pair(flag: Seq<char>, v: Option<Seq<char>>) -> Seq<Seq<char>> {
    match v {
        Some(x) => seq![flag, x],
        None => seq![],
    }
}

/// The value alone when it is present; nothing otherwise.
pub open spec fn opt_item(v: Option<Seq<char>>) -> Seq<Seq<char>> {
    match v {
        Some(x) => seq![x],
        None => seq![],
    }
}

pub open spec fn list_repos_argv() -> Seq<Seq<char>> {
    seq!["repo"@, "list"@, "--json"@, "name,description,url"@]
}

pub open spec fn repo_view_argv(p: RepoParam) -> Seq<Seq<char>> {
    seq![
        "repo"@,
        "view"@,
        slug(p.owner@, p.repo@),
        "--json"@,
        "name,description,url,stars,forks,watchers"@,
    ]
}

pub open spec fn list_issues_argv(p: RepoParam) -> Seq<Seq<char>> {
    seq![
        "issue"@,
        "list"@,
        "--repo"@,
        slug(p.owner@, p.repo@),
        "--json"@,
        "number,title,state,url"@,
    ]
}

pub open spec fn list_prs_argv(p: RepoParam) -> Seq<Seq<char>> {
    seq![
        "pr"@,
        "list"@,
        "--repo"@,
        slug(p.owner@, p.repo@),
        "--json"@,
        "number,title,state,url"@,
    ]
}

pub open spec fn create_issue_argv(p: CreateIssueParam) -> Seq<Seq<char>> {
    seq!["issue"@, "create"@] + flag_pair("--repo"@, opt_text(p.repo)) + seq![
        "--title"@,
        p.title@,
    ] + flag_pair("--body"@, opt_text(p.body))
}

pub open spec fn create_pr_argv(p: CreatePRParam) -> Seq<Seq<char>> {
    seq!["pr"@, "create"@] + flag_pair("--repo"@, opt_text(p.repo)) + seq![
        "--title"@,
        p.title@,
    ] + flag_pair("--body"@, opt_text(p.body)) + seq!["--base"@, p.base@, "--head"@, p.head@]
}

pub open spec fn clone_repo_argv(p: CloneRepoParam) -> Seq<Seq<char>> {
    seq!["repo"@, "clone"@, p.repo@] + opt_item(opt_text(p.directory))
}

pub open spec fn auth_status_argv() -> Seq<Seq<char>> {
    seq!["auth"@, "status"@]
}

fn push_lit(v: &mut Vec<String>, s: &str)
    ensures
        final(v).deep_view() == old(v).deep_view().push(s@),
{
    let t = String::from_str(s);
    v.push(t);
    assert(final(v).deep_view() =~= old(v).deep_view().push(s@));
}

fn push_text(v: &mut Vec<String>, s: &String)
    ensures
        final(v).deep_view() == old(v).deep_view().push(s@),
{
    v.push(s.clone());
    assert(final(v).deep_view() =~= old(v).deep_view().push(s@));
}

/// `owner/repo` as one string.
fn slug_text(p: &RepoParam) -> (r: String)
    ensures
        r@ == slug(p.owner@, p.repo@),
{
    p.owner.clone().concat("/").concat(p.repo.as_str())
}

fn start_with(a: &str, b: &str) -> (r: Vec<String>)
    ensures
        r.deep_view() == seq![a@, b@],
{
    let mut v: Vec<String> = Vec::new();
    push_lit(&mut v, a);
    push_lit(&mut v, b);
    assert(v.deep_view() =~= seq![a@, b@]);
    v
}

fn push_flag_pair(v: &mut Vec<String>, flag: &str, value: &Option<String>)
    ensures
        final(v).deep_view() == old(v).deep_view() + flag_pair(flag@, opt_text(*value)),
{
    match value {
        Some(x) => {
            push_lit(v, flag);
            push_text(v, x);
        },
        None => {},
    }
    assert(final(v).deep_view() =~= old(v).deep_view() + flag_pair(flag@, opt_text(*value)));
}

/// Arguments that list the repositories of the current user.
pub fn list_repos_args() -> (r: Vec<String>)
    ensures
        r.deep_view() == list_repos_argv(),
{
    let mut v = start_with("repo", "list");
    push_lit(&mut v, "--json");
    push_lit(&mut v, "name,description,url");
    assert(v.deep_view() =~= list_repos_argv());
    v
}

/// Arguments that show one repository.
pub fn repo_view_args(p: &RepoParam) -> (r: Vec<String>)
    ensures
        r.deep_view() == repo_view_argv(*p),
{
    let mut v = start_with("repo", "view");
    let s = slug_text(p);
    push_text(&mut v, &s);
    push_lit(&mut v, "--json");
    push_lit(&mut v, "name,description,url,stars,forks,watchers");
    assert(v.deep_view() =~= repo_view_argv(*p));
    v
}

/// Arguments that list the issues of one repository.
pub fn list_issues_args(p: &RepoParam) -> (r: Vec<String>)
    ensures
        r.deep_view() == list_issues_argv(*p),
{
    let mut v = start_with("issue", "list");
    push_lit(&mut v, "--repo");
    let s = slug_text(p);
    push_text(&mut v, &s);
    push_lit(&mut v, "--json");
    push_lit(&mut v, "number,title,state,url");
    assert(v.deep_view() =~= list_issues_argv(*p));
    v
}

/// Arguments that list the pull requests of one repository.
pub fn list_prs_args(p: &RepoParam) -> (r: Vec<String>)
    ensures
        r.deep_view() == list_prs_argv(*p),
{
    let mut v = start_with("pr", "list");
    push_lit(&mut v, "--repo");
    let s = slug_text(p);
    push_text(&mut v, &s);
    push_lit(&mut v, "--json");
    push_lit(&mut v, "number,title,state,url");
    assert(v.deep_view() =~= list_prs_argv(*p));
    v
}

/// Arguments that open an issue; an absent repository or body adds no token.
pub fn create_issue_args(p: &CreateIssueParam) -> (r: Vec<String>)
    ensures
        r.deep_view() == create_issue_argv(*p),
{
    let mut v = start_with("issue", "create");
    push_flag_pair(&mut v, "--repo", &p.repo);
    push_lit(&mut v, "--title");
    push_text(&mut v, &p.title);
    push_flag_pair(&mut v, "--body", &p.body);
    assert(v.deep_view() =~= create_issue_argv(*p));
    v
}

/// Arguments that open a pull request; an absent repository or body adds no
/// token.
pub fn create_pr_args(p: &CreatePRParam) -> (r: Vec<String>)
    ensures
        r.deep_view() == create_pr_argv(*p),
{
    let mut v = start_with("pr", "create");
    push_flag_pair(&mut v, "--repo", &p.repo);
    push_lit(&mut v, "--title");
    push_text(&mut v, &p.title);
    push_flag_pair(&mut v, "--body", &p.body);
    push_lit(&mut v, "--base");
    push_text(&mut v, &p.base);
    push_lit(&mut v, "--head");
    push_text(&mut v, &p.head);
    assert(v.deep_view() =~= create_pr_argv(*p));
    v
}

/// Arguments that clone a repository, into `directory` when one is given.
pub fn clone_repo_args(p: &CloneRepoParam) -> (r: Vec<String>)
    ensures
        r.deep_view() == clone_repo_argv(*p),
{
    let mut v = start_with("repo", "clone");
    push_text(&mut v, &p.repo);
    match &p.directory {
        Some(d) => push_text(&mut v, d),
        None => {},
    }
    assert(v.deep_view() =~= clone_repo_argv(*p));
    v
}

/// Arguments of a free-form command: its words, each one token.
pub fn run_command_args(command: &str) -> (r: Vec<String>)
    ensures
        r.deep_view() == words(command@),
{
    split_words(command)
}

/// Arguments that ask for the authentication status.
pub fn auth_status_args() -> (r: Vec<String>)
    ensures
        r.deep_view() == auth_status_argv(),
{
    start_with("auth", "status")
}

} // verus!
