//! The queries that are put to `git`, and what is made of its replies. The
//! caller runs the command; the library says with which arguments, and reads
//! the outcome.

use crate::error::{Error, ErrorView};
use crate::text::{
    find_char, first_index_from, lemma_first_index_is, optional_text, starts_with, texts, trim,
    trimmed,
};
use vstd::prelude::*;
use vstd::string::*;

verus! {

/// A working copy and the command that answers questions about it.
#[derive(Debug)]
pub struct Git {
    /// The name or path of the `git` executable.
    pub command: String,
    /// A path inside the working copy: a directory, or a file in one.
    pub path: String,
}

/// What one run of the command came to.
#[derive(Debug)]
pub enum Outcome {
    /// The command could not be started. Holds the system's description of
    /// the failure.
    NotStarted(String),
    /// The command ran to its end. Where it succeeded only `stdout` is read,
    /// where it failed only `stderr`.
    Exited {
        /// Whether its exit status was zero.
        success: bool,
        /// What it wrote to its standard output.
        stdout: String,
        /// What it wrote to its standard error.
        stderr: String,
    },
}

/// An `Outcome` with its strings as sequences of characters.
pub ghost enum OutcomeView {
    NotStarted(Seq<char>),
    Exited { success: bool, stdout: Seq<char>, stderr: Seq<char> },
}

impl View for Outcome {
    type V = OutcomeView;

    open spec fn view(&self) -> OutcomeView {
        match *self {
            Outcome::NotStarted(cause) => OutcomeView::NotStarted(cause@),
            Outcome::Exited { success, stdout, stderr } => OutcomeView::Exited {
                success,
                stdout: stdout@,
                stderr: stderr@,
            },
        }
    }
}

/// The answer to a query, or the error, with the strings as sequences of
/// characters.
pub open spec fn reply_view(r: Result<String, Error>) -> Result<Seq<char>, ErrorView> {
    match r {
        Ok(s) => Ok(s@),
        Err(e) => Err(e@),
    }
}

/// The answer that a run with `args` gave: the trimmed output where the
/// command succeeded, else the error that tells how it failed.
pub open spec fn answer(args: Seq<Seq<char>>, outcome: OutcomeView) -> Result<
    Seq<char>,
    ErrorView,
> {
    match outcome {
        OutcomeView::NotStarted(cause) => Err(ErrorView::CommandCannotRun(cause)),
        OutcomeView::Exited { success, stdout, stderr } => if success {
            Ok(trimmed(stdout))
        } else {
            Err(ErrorView::GitCommandFailed { stderr: trimmed(stderr), args })
        },
    }
}

/// The arguments that ask for the branch that `HEAD` tracks, as
/// `remote/branch`.
pub open spec fn upstream_query() -> Seq<Seq<char>> {
    seq!["rev-parse"@, "--abbrev-ref"@, "--symbolic"@, "@{u}"@]
}

/// The arguments that ask for the branch that `HEAD` points to.
pub open spec fn head_query() -> Seq<Seq<char>> {
    seq!["rev-parse"@, "--abbrev-ref"@, "--symbolic"@, "HEAD"@]
}

/// The arguments that ask for the URL of the remote `name`.
pub open spec fn remote_url_query(name: Seq<char>) -> Seq<Seq<char>> {
    seq!["config"@, "--get"@, "remote."@ + name + ".url"@]
}

/// A remote URL in SCP style (`git@host:path`) as an explicit SSH URL
/// (`ssh://git@host:22/path`); any other URL as it is.
pub open spec fn explicit_ssh(url: Seq<char>) -> Seq<char> {
    if "git@"@.is_prefix_of(url) {
        let colon = first_index_from(url, ':', 0);
        if colon < url.len() {
            "ssh://"@ + url.take(colon + 1) + "22/"@ + url.skip(colon + 1)
        } else {
            "ssh://"@ + url
        }
    } else {
        url
    }
}

/// The URL of the remote `name`, from the outcome of the query for it.
pub open spec fn remote_url_of(name: Seq<char>, outcome: OutcomeView) -> Result<
    Seq<char>,
    ErrorView,
> {
    match answer(remote_url_query(name), outcome) {
        Ok(url) => Ok(explicit_ssh(url)),
        Err(e) => Err(e),
    }
}

/// Where the search for the remote of `HEAD` stands: the query that is out.
#[derive(Debug)]
pub enum Tracking {
    /// The branch that `HEAD` tracks has been asked for.
    Upstream,
    /// The URL of the remote `name` has been asked for.
    RemoteUrl {
        /// The remote's name.
        name: String,
        /// The branch at that remote, where the first query told it.
        branch: Option<String>,
    },
    /// The remote's URL is known, no branch at the remote is, and the branch
    /// that `HEAD` points to has been asked for.
    CurrentBranch {
        /// The remote's URL.
        url: String,
    },
}

/// What follows a reply: another query, or the end.
#[derive(Debug)]
pub enum Step {
    /// Run the query of this state and hand its outcome back.
    Ask(Tracking),
    /// The search is over: the remote's URL and the branch, or the error.
    Done(Result<(String, Option<String>), Error>),
}

/// A `Tracking` with its strings as sequences of characters.
pub ghost enum TrackingView {
    Upstream,
    RemoteUrl { name: Seq<char>, branch: Option<Seq<char>> },
    CurrentBranch { url: Seq<char> },
}

/// A `Step` with its strings as sequences of characters.
pub ghost enum StepView {
    Ask(TrackingView),
    Done(Result<(Seq<char>, Option<Seq<char>>), ErrorView>),
}

impl View for Tracking {
    type V = TrackingView;

    open spec fn view(&self) -> TrackingView {
        match *self {
            Tracking::Upstream => TrackingView::Upstream,
            Tracking::RemoteUrl { name, branch } => TrackingView::RemoteUrl {
                name: name@,
                branch: optional_text(branch),
            },
            Tracking::CurrentBranch { url } => TrackingView::CurrentBranch { url: url@ },
        }
    }
}

impl View for Step {
    type V = StepView;

    open spec fn view(&self) -> StepView {
        match *self {
            Step::Ask(state) => StepView::Ask(state@),
            Step::Done(Ok((url, branch))) => StepView::Done(Ok((url@, optional_text(branch)))),
            Step::Done(Err(e)) => StepView::Done(Err(e@)),
        }
    }
}

/// The remote and the branch that the upstream of `HEAD` names: the two
/// sides of its first `/`, or all of it and no branch where it holds none;
/// `origin` and no branch where `git` told of no upstream.
pub open spec fn remote_and_branch(upstream: Result<Seq<char>, ErrorView>) -> (
    Seq<char>,
    Option<Seq<char>>,
) {
    match upstream {
        Ok(text) => {
            let slash = first_index_from(text, '/', 0);
            if slash < text.len() {
                (text.take(slash), Some(text.skip(slash + 1)))
            } else {
                (text, None)
            }
        },
        Err(_) => ("origin"@, None),
    }
}

impl TrackingView {
    /// The arguments of the query that is out in this state.
    pub open spec fn query(self) -> Seq<Seq<char>> {
        match self {
            TrackingView::Upstream => upstream_query(),
            TrackingView::RemoteUrl { name, branch } => remote_url_query(name),
            TrackingView::CurrentBranch { url } => head_query(),
        }
    }

    /// What follows when the query of this state came to `outcome`.
    ///
    /// A command that could not be started ends the search with that error,
    /// whichever query it was. The upstream of `HEAD` reads `remote/branch`:
    /// what stands before its first `/` names the remote, the rest the
    /// branch. Where `git` tells of no upstream the remote is `origin`. A
    /// remote whose URL cannot be read ends the search with that error. Where
    /// the upstream gave no branch, the one that `HEAD` points to is taken, if
    /// `git` tells it.
    pub open spec fn next(self, outcome: OutcomeView) -> StepView {
        match outcome {
            OutcomeView::NotStarted(cause) => StepView::Done(
                Err(ErrorView::CommandCannotRun(cause)),
            ),
            OutcomeView::Exited { .. } => match self {
                TrackingView::Upstream => {
                    let (name, branch) = remote_and_branch(answer(upstream_query(), outcome));
                    StepView::Ask(TrackingView::RemoteUrl { name, branch })
                },
                TrackingView::RemoteUrl { name, branch } => match remote_url_of(name, outcome) {
                    Ok(url) => match branch {
                        Some(b) => StepView::Done(Ok((url, Some(b)))),
                        None => StepView::Ask(TrackingView::CurrentBranch { url }),
                    },
                    Err(e) => StepView::Done(Err(e)),
                },
                TrackingView::CurrentBranch { url } => match answer(head_query(), outcome) {
                    Ok(branch) => StepView::Done(Ok((url, Some(branch)))),
                    Err(_) => StepView::Done(Ok((url, None))),
                },
            },
        }
    }
}

/// Writes an SCP-style remote as an explicit SSH URL; returns any other URL
/// as it is.
pub fn to_explicit_ssh(url: String) -> (r: String)
    ensures
        r@ == explicit_ssh(url@),
{
    let s = url.as_str();
    if starts_with(s, "git@") {
        let n: usize = s.unicode_len();
        let colon = find_char(s, ':', 0);
        let mut r = String::from_str("ssh://");
        if colon < n {
            r.append(s.substring_char(0, colon + 1));
            r.append("22/");
            r.append(s.substring_char(colon + 1, n));
        } else {
            r.append(s);
        }
        r
    } else {
        url
    }
}

/// The arguments that ask for the branch that `HEAD` tracks.
pub fn upstream_args() -> (r: Vec<String>)
    ensures
        texts(r@) == upstream_query(),
{
    let mut v: Vec<String> = Vec::new();
    v.push(String::from_str("rev-parse"));
    v.push(String::from_str("--abbrev-ref"));
    v.push(String::from_str("--symbolic"));
    v.push(String::from_str("@{u}"));
    assert(texts(v@) =~= upstream_query());
    v
}

/// The arguments that ask for the branch that `HEAD` points to.
pub fn head_args() -> (r: Vec<String>)
    ensures
        texts(r@) == head_query(),
{
    let mut v: Vec<String> = Vec::new();
    v.push(String::from_str("rev-parse"));
    v.push(String::from_str("--abbrev-ref"));
    v.push(String::from_str("--symbolic"));
    v.push(String::from_str("HEAD"));
    assert(texts(v@) =~= head_query());
    v
}

/// The arguments that ask for the URL of the remote `name`.
pub fn remote_url_args(name: &str) -> (r: Vec<String>)
    ensures
        texts(r@) == remote_url_query(name@),
{
    let mut key = String::from_str("remote.");
    key.append(name);
    key.append(".url");
    let mut v: Vec<String> = Vec::new();
    v.push(String::from_str("config"));
    v.push(String::from_str("--get"));
    v.push(key);
    assert(texts(v@) =~= remote_url_query(name@));
    v
}

impl Tracking {
    /// The arguments of the query that is out in this state.
    pub fn args(&self) -> (r: Vec<String>)
        ensures
            texts(r@) == self@.query(),
    {
        match self {
            Tracking::Upstream => upstream_args(),
            Tracking::RemoteUrl { name, .. } => remote_url_args(name.as_str()),
            Tracking::CurrentBranch { .. } => head_args(),
        }
    }
}

impl Git {
    /// The working copy at `path`, asked through `git_cmd`, or through `git`
    /// where none is given.
    pub fn new(path: &str, git_cmd: Option<&str>) -> (r: Git)
        ensures
            r.path@ == path@,
            r.command@ == match git_cmd {
                Some(c) => c@,
                None => "git"@,
            },
    {
        let command = match git_cmd {
            Some(c) => String::from_str(c),
            None => String::from_str("git"),
        };
        Git { command, path: String::from_str(path) }
    }

    /// Reads the outcome of a run with `args`: the output without the white
    /// space at its ends where the command succeeded, else the error.
    pub fn command(&self, args: Vec<String>, outcome: Outcome) -> (r: Result<String, Error>)
        ensures
            reply_view(r) == answer(texts(args@), outcome@),
    {
        match outcome {
            Outcome::NotStarted(cause) => Err(Error::CommandCannotRun(cause)),
            Outcome::Exited { success, stdout, stderr } => {
                if success {
                    Ok(String::from_str(trim(stdout.as_str())))
                } else {
                    Err(
                        Error::GitCommandFailed {
                            stderr: String::from_str(trim(stderr.as_str())),
                            args,
                        },
                    )
                }
            },
        }
    }

    /// The URL of the remote `name`, from the outcome of the query for it
    /// (`remote_url_args`). An SCP-style URL comes back as an SSH URL.
    pub fn remote_url(&self, name: &str, outcome: Outcome) -> (r: Result<String, Error>)
        ensures
            reply_view(r) == remote_url_of(name@, outcome@),
    {
        match self.command(remote_url_args(name), outcome) {
            Ok(url) => Ok(to_explicit_ssh(url)),
            Err(e) => Err(e),
        }
    }

    /// The branch that `HEAD` points to, from the outcome of the query for it
    /// (`head_args`).
    pub fn current_branch(&self, outcome: Outcome) -> (r: Result<String, Error>)
        ensures
            reply_view(r) == answer(head_query(), outcome@),
    {
        self.command(head_args(), outcome)
    }

    /// One step of the search for the remote that `HEAD` tracks, its URL and
    /// the branch. The search begins in `Tracking::Upstream`. In each state
    /// the caller runs the command with the state's `args` and hands the
    /// outcome in here, until the step is `Done`.
    pub fn tracking_remote(&self, state: Tracking, outcome: Outcome) -> (r: Step)
        ensures
            r@ == state@.next(outcome@),
    {
        let outcome = match outcome {
            Outcome::NotStarted(cause) => {
                return Step::Done(Err(Error::CommandCannotRun(cause)));
            },
            Outcome::Exited { success, stdout, stderr } => Outcome::Exited {
                success,
                stdout,
                stderr,
            },
        };
        match state {
            Tracking::Upstream => {
                match self.command(upstream_args(), outcome) {
                    Ok(upstream) => {
                        let s = upstream.as_str();
                        let n: usize = s.unicode_len();
                        let slash = find_char(s, '/', 0);
                        if slash < n {
                            let name = String::from_str(s.substring_char(0, slash));
                            let branch = String::from_str(s.substring_char(slash + 1, n));
                            Step::Ask(Tracking::RemoteUrl { name, branch: Some(branch) })
                        } else {
                            Step::Ask(Tracking::RemoteUrl { name: upstream, branch: None })
                        }
                    },
                    Err(_) => Step::Ask(
                        Tracking::RemoteUrl { name: String::from_str("origin"), branch: None },
                    ),
                }
            },
            Tracking::RemoteUrl { name, branch } => {
                match self.remote_url(name.as_str(), outcome) {
                    Ok(url) => match branch {
                        Some(b) => Step::Done(Ok((url, Some(b)))),
                        None => Step::Ask(Tracking::CurrentBranch { url }),
                    },
                    Err(e) => Step::Done(Err(e)),
                }
            },
            Tracking::CurrentBranch { url } => {
                match self.current_branch(outcome) {
                    Ok(branch) => Step::Done(Ok((url, Some(branch)))),
                    Err(_) => Step::Done(Ok((url, None))),
                }
            },
        }
    }
}

/// An SCP-style remote, `git@host:path`, is rewritten to the SSH URL
/// `ssh://git@host:22/path`, whatever the host (which holds no colon) and
/// the path are.
pub proof fn lemma_scp_is_explicit_ssh(host: Seq<char>, path: Seq<char>)
    requires
        !host.contains(':'),
    ensures
        explicit_ssh("git@"@ + host + ":"@ + path) == "ssh://git@"@ + host + ":22/"@ + path,
{
    reveal_strlit("git@");
    reveal_strlit(":");
    reveal_strlit("ssh://");
    reveal_strlit("ssh://git@");
    reveal_strlit("22/");
    reveal_strlit(":22/");
    let url = "git@"@ + host + ":"@ + path;
    let colon: int = host.len() as int + 4;
    assert("git@"@ =~= url.subrange(0, 4));
    assert forall|j: int| 0 <= j < colon implies url[j] != ':' by {
        if j >= 4 {
            assert(url[j] == host[j - 4]);
        }
    }
    lemma_first_index_is(url, ':', 0, colon);
    assert("ssh://"@ + url.take(colon + 1) + "22/"@ + url.skip(colon + 1) =~= "ssh://git@"@ + host
        + ":22/"@ + path);
}

/// What a whole search comes to, from the outcomes of its queries: for the
/// upstream of `HEAD`, for the URL of the remote, and for the branch that
/// `HEAD` points to. The last is read only where the first gave no branch
/// and the second gave a URL. A command that could not be started is an
/// error wherever it is read; one that failed is an error only for the URL.
pub open spec fn resolved(upstream: OutcomeView, url: OutcomeView, head: OutcomeView) -> Result<
    (Seq<char>, Option<Seq<char>>),
    ErrorView,
> {
    if let OutcomeView::NotStarted(cause) = upstream {
        Err(ErrorView::CommandCannotRun(cause))
    } else {
        let (name, branch) = remote_and_branch(answer(upstream_query(), upstream));
        match (remote_url_of(name, url), branch, head) {
            (Err(e), _, _) => Err(e),
            (Ok(found), Some(b), _) => Ok((found, Some(b))),
            (Ok(found), None, OutcomeView::NotStarted(cause)) => Err(
                ErrorView::CommandCannotRun(cause),
            ),
            (Ok(found), None, _) => match answer(head_query(), head) {
                Ok(current) => Ok((found, Some(current))),
                Err(_) => Ok((found, None)),
            },
        }
    }
}

/// A search takes at most three queries, and ends with what `resolved` says.
/// The second query is about the remote that the first reply named; a third
/// is put only where the search has a URL and no branch, and asks for the
/// branch that `HEAD` points to.
pub proof fn lemma_search_resolves(upstream: OutcomeView, url: OutcomeView, head: OutcomeView)
    ensures
        match TrackingView::Upstream.next(upstream) {
            StepView::Done(r) => r == resolved(upstream, url, head),
            StepView::Ask(second) => {
                &&& second.query() == remote_url_query(
                    remote_and_branch(answer(upstream_query(), upstream)).0,
                )
                &&& match second.next(url) {
                    StepView::Done(r) => r == resolved(upstream, url, head),
                    StepView::Ask(last) => {
                        &&& last.query() == head_query()
                        &&& last.next(head) == StepView::Done(resolved(upstream, url, head))
                    },
                }
            },
        },
{
}

} // verus!
