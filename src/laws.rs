use vstd::prelude::*;
use crate::args::{
    clone_repo_argv, create_issue_argv, create_pr_argv, CloneRepoParam, CreateIssueParam,
    CreatePRParam,
};
use crate::outcome::{outcome_of, LaunchReport};
use crate::service::{reply_of, Tool};

verus! {

/// Two tokens for a present optional flag, none for an absent one.
pub open spec fn pair_len<T>(o: Option<T>) -> int {
    if o is Some {
        2
    } else {
        0
    }
}

/// An issue's argument vector has two tokens for each optional field that is
/// present and none for one that is absent; `--repo` stands right after the
/// subcommand exactly when a repository is given, and `--body` stands second
/// to last exactly when a body is given.
pub proof fn lemma_create_issue_optional_fields(p: CreateIssueParam)
    ensures
        ({
            let a = create_issue_argv(p);
            &&& a.len() == 4 + pair_len(p.repo) + pair_len(p.body)
            &&& (a[2] == "--repo"@ <==> p.repo is Some)
            &&& (a[a.len() - 2] == "--body"@ <==> p.body is Some)
        }),
{
    reveal_strlit("--repo");
    reveal_strlit("--title");
    reveal_strlit("--body");
    let a = create_issue_argv(p);
    if p.repo is None {
        assert(a[2] == "--title"@);
        assert(a[2][2] != "--repo"@[2]);
    }
    if p.body is None {
        assert(a[a.len() - 2] == "--title"@);
        assert("--title"@.len() != "--body"@.len());
    }
}

/// A pull request's argument vector has two tokens for each optional field
/// that is present and none for one that is absent; `--repo` stands right
/// after the subcommand exactly when a repository is given, and `--body`
/// stands sixth from the end exactly when a body is given.
pub proof fn lemma_create_pr_optional_fields(p: CreatePRParam)
    ensures
        ({
            let a = create_pr_argv(p);
            &&& a.len() == 8 + pair_len(p.repo) + pair_len(p.body)
            &&& (a[2] == "--repo"@ <==> p.repo is Some)
            &&& (a[a.len() - 6] == "--body"@ <==> p.body is Some)
        }),
{
    reveal_strlit("--repo");
    reveal_strlit("--title");
    reveal_strlit("--body");
    let a = create_pr_argv(p);
    if p.repo is None {
        assert(a[2] == "--title"@);
        assert(a[2][2] != "--repo"@[2]);
    }
    if p.body is None {
        assert(a[a.len() - 6] == "--title"@);
        assert("--title"@.len() != "--body"@.len());
    }
}

/// A clone's argument vector has the directory as a fourth token when one is
/// given, and only three tokens otherwise.
pub proof fn lemma_clone_repo_optional_fields(p: CloneRepoParam)
    ensures
        clone_repo_argv(p).len() == if p.directory is Some {
            4int
        } else {
            3int
        },
{
}

/// Whatever the program did, the outcome carries an error text exactly when
/// it failed; every failed outcome is answered with an error, except a call
/// of the authentication check, which is always answered with the output.
pub proof fn lemma_error_text_iff_failed(t: Tool, report: LaunchReport)
    ensures
        outcome_of(report).wf(),
        reply_of(t, outcome_of(report)) is Ok <==> (outcome_of(report).success || t
            == Tool::AuthStatus),
{
}

/// What the program did, as plain values: the same exit and streams, or the
/// same reason for not starting.
pub open spec fn same_behaviour(a: LaunchReport, b: LaunchReport) -> bool {
    match (a, b) {
        (
            LaunchReport::Exited { success: s1, stdout: o1, stderr: e1 },
            LaunchReport::Exited { success: s2, stdout: o2, stderr: e2 },
        ) => s1 == s2 && o1@ == o2@ && e1@ == e2@,
        (LaunchReport::NotLaunched { reason: r1 }, LaunchReport::NotLaunched { reason: r2 }) => r1@
            == r2@,
        _ => false,
    }
}

/// Two calls of the same operation against the same behaviour of the program
/// get the same answer.
pub proof fn lemma_reply_deterministic(t: Tool, a: LaunchReport, b: LaunchReport)
    requires
        same_behaviour(a, b),
    ensures
        outcome_of(a) == outcome_of(b),
        reply_of(t, outcome_of(a)) == reply_of(t, outcome_of(b)),
{
}

} // verus!
