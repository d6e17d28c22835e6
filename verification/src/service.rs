//! From a remote URL to the hosting service that it names.

use crate::error::{Error, ErrorView};
use crate::git::{
    explicit_ssh, lemma_scp_is_explicit_ssh, Git, Outcome, OutcomeView, Step, StepView, Tracking,
    TrackingView,
};
use crate::text::{
    ends_with, find_char, first_index_from, first_other_from, has_suffix,
    lemma_first_index_from, lemma_first_index_is, lemma_first_other_from, lemma_first_other_is,
    optional_text, same_text, skip_char, starts_with, texts,
};
use crate::weburl::{parse, parse_view, parsed, Host, HostView, WebUrl, WebUrlView};
use vstd::prelude::*;
use vstd::string::*;

verus! {

/// The hosting services that the library tells apart.
#[derive(Clone, Copy, Debug, PartialEq, Eq, Structural)]
pub enum Provider {
    /// GitHub, at github.com.
    GitHub,
    /// A GitHub Enterprise installation.
    GitHubEnterprise,
    /// GitLab, at gitlab.com or installed elsewhere.
    GitLab,
    /// Bitbucket, at bitbucket.org.
    Bitbucket,
}

/// A repository at a hosting service.
#[derive(Debug)]
pub enum GitService {
    /// GitHub, at github.com.
    GitHub {
        /// The user or organisation that owns the repository.
        user: String,
        /// The repository's name.
        repo: String,
        /// The branch, where one is known.
        branch: Option<String>,
    },
    /// A GitHub Enterprise installation.
    GitHubEnterprise {
        /// The user or organisation that owns the repository.
        user: String,
        /// The repository's name.
        repo: String,
        /// The branch, where one is known.
        branch: Option<String>,
    },
    /// GitLab, at gitlab.com or installed elsewhere.
    GitLab {
        /// The user or organisation that owns the repository.
        user: String,
        /// The repository's name.
        repo: String,
        /// The branch, where one is known.
        branch: Option<String>,
    },
    /// Bitbucket, at bitbucket.org.
    Bitbucket {
        /// The user or organisation that owns the repository.
        user: String,
        /// The repository's name.
        repo: String,
        /// The branch, where one is known.
        branch: Option<String>,
    },
}

/// A `GitService` as its provider and its three fields, the strings as
/// sequences of characters.
pub ghost struct ServiceView {
    pub provider: Provider,
    pub user: Seq<char>,
    pub repo: Seq<char>,
    pub branch: Option<Seq<char>>,
}

/// The outcome of a detection, with its strings as sequences of characters.
pub open spec fn detection_view(r: Result<GitService, Error>) -> Result<ServiceView, ErrorView> {
    match r {
        Ok(s) => Ok(s@),
        Err(e) => Err(e@),
    }
}

impl View for GitService {
    type V = ServiceView;

    open spec fn view(&self) -> ServiceView {
        ServiceView {
            provider: self.spec_provider(),
            user: self.spec_user()@,
            repo: self.spec_repo()@,
            branch: optional_text(self.spec_branch()),
        }
    }
}

impl GitService {
    /// The service that hosts the repository.
    pub open spec fn spec_provider(&self) -> Provider {
        match *self {
            GitService::GitHub { .. } => Provider::GitHub,
            GitService::GitHubEnterprise { .. } => Provider::GitHubEnterprise,
            GitService::GitLab { .. } => Provider::GitLab,
            GitService::Bitbucket { .. } => Provider::Bitbucket,
        }
    }

    /// The `user` field, whichever the variant.
    pub open spec fn spec_user(&self) -> String {
        match *self {
            GitService::GitHub { user, .. } => user,
            GitService::GitHubEnterprise { user, .. } => user,
            GitService::GitLab { user, .. } => user,
            GitService::Bitbucket { user, .. } => user,
        }
    }

    /// The `repo` field, whichever the variant.
    pub open spec fn spec_repo(&self) -> String {
        match *self {
            GitService::GitHub { repo, .. } => repo,
            GitService::GitHubEnterprise { repo, .. } => repo,
            GitService::GitLab { repo, .. } => repo,
            GitService::Bitbucket { repo, .. } => repo,
        }
    }

    /// The `branch` field, whichever the variant.
    pub open spec fn spec_branch(&self) -> Option<String> {
        match *self {
            GitService::GitHub { branch, .. } => branch,
            GitService::GitHubEnterprise { branch, .. } => branch,
            GitService::GitLab { branch, .. } => branch,
            GitService::Bitbucket { branch, .. } => branch,
        }
    }

    /// Whether the service names a repository: neither the user nor the
    /// repository is empty. Every service that a detection gives does.
    pub open spec fn well_formed(&self) -> bool {
        self.spec_user()@.len() > 0 && self.spec_repo()@.len() > 0
    }

    /// A repository of `user` named `repo` at `provider`.
    pub(crate) fn new(provider: Provider, user: String, repo: String, branch: Option<String>) -> (r:
        GitService)
        ensures
            r.spec_provider() == provider,
            r.spec_user() == user,
            r.spec_repo() == repo,
            r.spec_branch() == branch,
    {
        match provider {
            Provider::GitHub => GitService::GitHub { user, repo, branch },
            Provider::GitHubEnterprise => GitService::GitHubEnterprise { user, repo, branch },
            Provider::GitLab => GitService::GitLab { user, repo, branch },
            Provider::Bitbucket => GitService::Bitbucket { user, repo, branch },
        }
    }

    /// The service that hosts the repository.
    #[verifier::when_used_as_spec(spec_provider)]
    pub fn provider(&self) -> (r: Provider)
        ensures
            r == self.spec_provider(),
    {
        match self {
            GitService::GitHub { .. } => Provider::GitHub,
            GitService::GitHubEnterprise { .. } => Provider::GitHubEnterprise,
            GitService::GitLab { .. } => Provider::GitLab,
            GitService::Bitbucket { .. } => Provider::Bitbucket,
        }
    }

    /// The user or organisation that owns the repository.
    pub fn user(&self) -> (r: &String)
        ensures
            *r == self.spec_user(),
    {
        match self {
            GitService::GitHub { user, .. } => user,
            GitService::GitHubEnterprise { user, .. } => user,
            GitService::GitLab { user, .. } => user,
            GitService::Bitbucket { user, .. } => user,
        }
    }

    /// The repository's name.
    pub fn repo(&self) -> (r: &String)
        ensures
            *r == self.spec_repo(),
    {
        match self {
            GitService::GitHub { repo, .. } => repo,
            GitService::GitHubEnterprise { repo, .. } => repo,
            GitService::GitLab { repo, .. } => repo,
            GitService::Bitbucket { repo, .. } => repo,
        }
    }

    /// The branch, where one is known.
    pub fn branch(&self) -> (r: &Option<String>)
        ensures
            *r == self.spec_branch(),
    {
        match self {
            GitService::GitHub { branch, .. } => branch,
            GitService::GitHubEnterprise { branch, .. } => branch,
            GitService::GitLab { branch, .. } => branch,
            GitService::Bitbucket { branch, .. } => branch,
        }
    }
}

/// The suffix that a remote URL may end with.
pub open spec fn git_suffix() -> Seq<char> {
    seq!['.', 'g', 'i', 't']
}

/// `url` without the `.git` at its end, where it ends so. The suffix is
/// removed once: what is left may end with `.git` again.
pub open spec fn without_git_suffix(url: Seq<char>) -> Seq<char> {
    if has_suffix(url, git_suffix()) {
        url.take(url.len() - 4)
    } else {
        url
    }
}

/// Removes one `.git` from the end of `url`, where it ends so.
pub fn strip_git_suffix(url: &str) -> (r: &str)
    ensures
        r@ == without_git_suffix(url@),
{
    proof {
        lemma_git_suffix_text();
    }
    if ends_with(url, ".git") {
        let n: usize = url.unicode_len();
        url.substring_char(0, n - 4)
    } else {
        url
    }
}

/// The segment of `path` that begins at or after `from`: the bounds of the
/// first stretch without `/` that is not empty.
pub open spec fn segment_from(path: Seq<char>, from: int) -> Option<(int, int)> {
    let start = first_other_from(path, '/', from);
    if start < path.len() {
        Some((start, first_index_from(path, '/', start)))
    } else {
        None
    }
}

/// The first two segments of `path` that are not empty, where it has two.
pub open spec fn user_and_repo(path: Seq<char>) -> Option<(Seq<char>, Seq<char>)> {
    match segment_from(path, 0) {
        Some((a, b)) => match segment_from(path, b) {
            Some((c, d)) => Some((path.subrange(a, b), path.subrange(c, d))),
            None => None,
        },
        None => None,
    }
}

/// The service that a host name stands for: the three public sites by their
/// names, then an installation of GitHub or GitLab by how its name begins.
pub open spec fn provider_of(host: Seq<char>) -> Option<Provider> {
    if host == "github.com"@ {
        Some(Provider::GitHub)
    } else if host == "gitlab.com"@ {
        Some(Provider::GitLab)
    } else if host == "bitbucket.org"@ {
        Some(Provider::Bitbucket)
    } else if "github."@.is_prefix_of(host) {
        Some(Provider::GitHubEnterprise)
    } else if "gitlab."@.is_prefix_of(host) {
        Some(Provider::GitLab)
    } else {
        None
    }
}

/// What a remote URL is classified as, given what parsing made of it.
/// `url` is the remote URL as it was given, which an error for a URL that
/// could not be parsed carries.
pub open spec fn classified(
    url: Seq<char>,
    parts: Result<WebUrlView, Seq<char>>,
    branch: Option<Seq<char>>,
) -> Result<ServiceView, ErrorView> {
    match parts {
        Err(msg) => Err(ErrorView::BrokenUrl { url, msg }),
        Ok(u) => match u.host {
            None => Err(ErrorView::BrokenUrl { url: u.text, msg: "No host in URL"@ }),
            Some(HostView::Domain(host)) => match user_and_repo(u.path) {
                None => Err(
                    ErrorView::CannotDetect {
                        reason: "Path of Git URL does not represent user/repo"@,
                    },
                ),
                Some((user, repo)) => match provider_of(host) {
                    Some(provider) => Ok(ServiceView { provider, user, repo, branch }),
                    None => Err(
                        ErrorView::CannotDetect {
                            reason: "No service detected from URL "@ + u.text,
                        },
                    ),
                },
            },
            Some(_) => Err(
                ErrorView::CannotDetect {
                    reason: "Domain name must be contained in URL "@ + u.text,
                },
            ),
        },
    }
}

/// What a remote URL with its branch is detected as: the URL without one
/// `.git` at its end is parsed, and what that gives is classified. Where it
/// cannot be parsed, the error carries the URL as it was given.
pub open spec fn detected(remote_url: Seq<char>, branch: Option<Seq<char>>) -> Result<
    ServiceView,
    ErrorView,
> {
    classified(remote_url, parsed(without_git_suffix(remote_url)), branch)
}

/// Finds the segment of `path` that begins at or after `from`.
pub fn next_segment(path: &str, from: usize) -> (r: Option<(usize, usize)>)
    requires
        from <= path@.len(),
    ensures
        match r {
            Some((a, b)) => segment_from(path@, from as int) == Some((a as int, b as int)) && from
                <= a < b <= path@.len(),
            None => segment_from(path@, from as int) is None,
        },
{
    let n: usize = path.unicode_len();
    let start = skip_char(path, '/', from);
    if start < n {
        let end = find_char(path, '/', start);
        proof {
            lemma_first_other_from(path@, '/', from as int);
            lemma_first_index_from(path@, '/', start as int);
        }
        Some((start, end))
    } else {
        None
    }
}

/// Tells which service a host name stands for.
pub fn provider_of_host(host: &str) -> (r: Option<Provider>)
    ensures
        r == provider_of(host@),
{
    if same_text(host, "github.com") {
        Some(Provider::GitHub)
    } else if same_text(host, "gitlab.com") {
        Some(Provider::GitLab)
    } else if same_text(host, "bitbucket.org") {
        Some(Provider::Bitbucket)
    } else if starts_with(host, "github.") {
        Some(Provider::GitHubEnterprise)
    } else if starts_with(host, "gitlab.") {
        Some(Provider::GitLab)
    } else {
        None
    }
}

/// Classifies a remote URL from what parsing made of it. `url` is the remote
/// URL as it was given, `parts` the parser's answer.
pub fn classify(url: &str, parts: Result<WebUrl, String>, branch: Option<String>) -> (r: Result<
    GitService,
    Error,
>)
    ensures
        detection_view(r) == classified(url@, parse_view(parts), optional_text(branch)),
        r is Ok ==> r->Ok_0.well_formed(),
{
    proof {
        if classified(url@, parse_view(parts), optional_text(branch)) is Ok {
            lemma_detected_service(url@, parse_view(parts), optional_text(branch));
        }
    }
    let u = match parts {
        Ok(u) => u,
        Err(msg) => {
            return Err(Error::BrokenUrl { url: String::from_str(url), msg });
        },
    };
    let host = match u.host {
        Some(Host::Domain(name)) => name,
        Some(_) => {
            let mut reason = String::from_str("Domain name must be contained in URL ");
            reason.append(u.text.as_str());
            return Err(Error::CannotDetect { reason });
        },
        None => {
            return Err(Error::BrokenUrl { url: u.text, msg: String::from_str("No host in URL") });
        },
    };
    let path = u.path.as_str();
    let (user, repo) = match next_segment(path, 0) {
        Some((a, b)) => match next_segment(path, b) {
            Some((c, d)) => (
                String::from_str(path.substring_char(a, b)),
                String::from_str(path.substring_char(c, d)),
            ),
            None => {
                return Err(
                    Error::CannotDetect {
                        reason: String::from_str("Path of Git URL does not represent user/repo"),
                    },
                );
            },
        },
        None => {
            return Err(
                Error::CannotDetect {
                    reason: String::from_str("Path of Git URL does not represent user/repo"),
                },
            );
        },
    };
    match provider_of_host(host.as_str()) {
        Some(provider) => Ok(GitService::new(provider, user, repo, branch)),
        None => {
            let mut reason = String::from_str("No service detected from URL ");
            reason.append(u.text.as_str());
            Err(Error::CannotDetect { reason })
        },
    }
}

/// Detects the hosting service that `remote_url` names. One `.git` at the
/// end of the URL is left out of what is parsed; an error for a URL that
/// cannot be parsed carries the URL as it was given. `branch` is handed on as
/// it is.
pub fn detect_with_remote_and_branch(remote_url: String, branch: Option<String>) -> (r: Result<
    GitService,
    Error,
>)
    ensures
        detection_view(r) == detected(remote_url@, optional_text(branch)),
        r is Ok ==> r->Ok_0.well_formed(),
{
    let parts = parse(strip_git_suffix(remote_url.as_str()));
    classify(remote_url.as_str(), parts, branch)
}

/// A detection under way: the working copy, and the query to `git` that is
/// out.
#[derive(Debug)]
pub struct Detection {
    /// The working copy and the command that is asked about it.
    pub git: Git,
    /// The query that is out.
    pub state: Tracking,
}

/// What follows a reply of `git` in a detection.
#[derive(Debug)]
pub enum Progress {
    /// Run the command with the detection's `args`, and hand the outcome to
    /// its `advance`.
    Ask(Detection),
    /// The detection is over.
    Done(Result<GitService, Error>),
}

/// A `Detection` with its strings as sequences of characters.
pub ghost struct DetectionView {
    pub command: Seq<char>,
    pub path: Seq<char>,
    pub state: TrackingView,
}

/// A `Progress` with its strings as sequences of characters.
pub ghost enum ProgressView {
    Ask(DetectionView),
    Done(Result<ServiceView, ErrorView>),
}

impl View for Detection {
    type V = DetectionView;

    open spec fn view(&self) -> DetectionView {
        DetectionView { command: self.git.command@, path: self.git.path@, state: self.state@ }
    }
}

impl View for Progress {
    type V = ProgressView;

    open spec fn view(&self) -> ProgressView {
        match *self {
            Progress::Ask(d) => ProgressView::Ask(d@),
            Progress::Done(r) => ProgressView::Done(detection_view(r)),
        }
    }
}

impl DetectionView {
    /// What follows when the query that is out came to `outcome`: the next
    /// query about the same working copy, or, once the remote's URL and the
    /// branch are found, what they are detected as.
    pub open spec fn next(self, outcome: OutcomeView) -> ProgressView {
        match self.state.next(outcome) {
            StepView::Ask(state) => ProgressView::Ask(
                DetectionView { command: self.command, path: self.path, state },
            ),
            StepView::Done(Ok((url, branch))) => ProgressView::Done(detected(url, branch)),
            StepView::Done(Err(e)) => ProgressView::Done(Err(e)),
        }
    }
}

impl Detection {
    /// The arguments to run the command with now.
    pub fn args(&self) -> (r: Vec<String>)
        ensures
            texts(r@) == self@.state.query(),
    {
        self.state.args()
    }

    /// Takes the outcome of the run with `args` and says what follows.
    pub fn advance(self, outcome: Outcome) -> (r: Progress)
        ensures
            r@ == self@.next(outcome@),
            r matches Progress::Done(Ok(service)) ==> service.well_formed(),
    {
        let Detection { git, state } = self;
        match git.tracking_remote(state, outcome) {
            Step::Ask(state) => Progress::Ask(Detection { git, state }),
            Step::Done(Ok((url, branch))) => Progress::Done(
                detect_with_remote_and_branch(url, branch),
            ),
            Step::Done(Err(e)) => Progress::Done(Err(e)),
        }
    }
}

/// Begins the detection of the hosting service of the working copy at
/// `path`, a directory or a file in one, with the command `git`.
pub fn detect(path: &str) -> (r: Detection)
    ensures
        r@ == (DetectionView { command: "git"@, path: path@, state: TrackingView::Upstream }),
{
    Detection { git: Git::new(path, None), state: Tracking::Upstream }
}

/// As `detect`, with the command to run for `git` given.
pub fn detect_with_git(path: &str, git_cmd: &str) -> (r: Detection)
    ensures
        r@ == (DetectionView { command: git_cmd@, path: path@, state: TrackingView::Upstream }),
{
    Detection { git: Git::new(path, Some(git_cmd)), state: Tracking::Upstream }
}

/// `.git` at the end of a URL is the suffix that is removed.
pub proof fn lemma_git_suffix_text()
    ensures
        ".git"@ == git_suffix(),
{
    reveal_strlit(".git");
    assert(".git"@ =~= git_suffix());
}

/// A URL that does not end with `.git` is parsed alike with that suffix and
/// without it. So the two are detected as the same service, with the same
/// user, repository and branch, or fail with the same error; only where the
/// URL cannot be parsed does each error carry its own URL.
pub proof fn lemma_git_suffix_ignored(url: Seq<char>, branch: Option<Seq<char>>)
    requires
        !has_suffix(url, ".git"@),
    ensures
        without_git_suffix(url + ".git"@) == url,
        without_git_suffix(url) == url,
        detected(url + ".git"@, branch) == classified(url + ".git"@, parsed(url), branch),
        detected(url, branch) == classified(url, parsed(url), branch),
        parsed(url) is Ok ==> detected(url + ".git"@, branch) == detected(url, branch),
        detected(url + ".git"@, branch) is Ok <==> detected(url, branch) is Ok,
{
    lemma_git_suffix_text();
    let longer = url + ".git"@;
    assert(longer.subrange(longer.len() - 4, longer.len() as int) =~= git_suffix());
    assert(longer.take(longer.len() - 4) =~= url);
}

/// Only one `.git` is removed: of a URL that ends with it twice, the first
/// stays in what is parsed.
pub proof fn lemma_git_suffix_once(url: Seq<char>)
    ensures
        without_git_suffix(url + ".git"@ + ".git"@) == url + ".git"@,
{
    lemma_git_suffix_text();
    let longer = url + ".git"@ + ".git"@;
    assert(longer.subrange(longer.len() - 4, longer.len() as int) =~= git_suffix());
    assert(longer.take(longer.len() - 4) =~= url + ".git"@);
}

/// The hosts of each service. The names of the public sites and the
/// beginnings of the installations' names do not cross: only `github.com`
/// itself begins with `github.` and still is GitHub.
pub proof fn lemma_provider_of(host: Seq<char>)
    ensures
        provider_of(host) == Some(Provider::GitHub) <==> host == "github.com"@,
        provider_of(host) == Some(Provider::GitHubEnterprise) <==> "github."@.is_prefix_of(host)
            && host != "github.com"@,
        provider_of(host) == Some(Provider::GitLab) <==> "gitlab."@.is_prefix_of(host),
        provider_of(host) == Some(Provider::Bitbucket) <==> host == "bitbucket.org"@,
        provider_of(host) is None <==> !"github."@.is_prefix_of(host) && !"gitlab."@.is_prefix_of(
            host,
        ) && host != "bitbucket.org"@,
{
    reveal_strlit("github.com");
    reveal_strlit("gitlab.com");
    reveal_strlit("bitbucket.org");
    reveal_strlit("github.");
    reveal_strlit("gitlab.");
    assert("github."@ =~= "github.com"@.subrange(0, 7));
    assert("gitlab."@ =~= "gitlab.com"@.subrange(0, 7));
    if "github."@.is_prefix_of(host) {
        assert(host.subrange(0, 7)[3] == 'h');
    }
    if "gitlab."@.is_prefix_of(host) {
        assert(host.subrange(0, 7)[3] == 'l');
    }
}

/// The remote `git@host:path` is detected as the URL
/// `ssh://git@host:22/path` is, once it has been rewritten as a remote's URL
/// is when it is read.
pub proof fn lemma_scp_detected_as_ssh(
    host: Seq<char>,
    path: Seq<char>,
    branch: Option<Seq<char>>,
)
    requires
        !host.contains(':'),
    ensures
        detected(explicit_ssh("git@"@ + host + ":"@ + path), branch) == detected(
            "ssh://git@"@ + host + ":22/"@ + path,
            branch,
        ),
{
    lemma_scp_is_explicit_ssh(host, path);
}

/// A service that is detected has the branch that was handed in, unchanged,
/// and neither its user nor its repository is empty or holds a `/`.
pub proof fn lemma_detected_service(
    url: Seq<char>,
    parts: Result<WebUrlView, Seq<char>>,
    branch: Option<Seq<char>>,
)
    requires
        classified(url, parts, branch) is Ok,
    ensures
        classified(url, parts, branch)->Ok_0.branch == branch,
        classified(url, parts, branch)->Ok_0.user.len() > 0,
        classified(url, parts, branch)->Ok_0.repo.len() > 0,
        !classified(url, parts, branch)->Ok_0.user.contains('/'),
        !classified(url, parts, branch)->Ok_0.repo.contains('/'),
{
    let path = parts->Ok_0.path;
    lemma_segment(path, 0);
    lemma_segment(path, segment_from(path, 0)->Some_0.1);
}

/// A segment lies within the path at or after where the search began, is not
/// empty, holds no `/`, and ends at a `/` or at the end of the path.
pub proof fn lemma_segment(path: Seq<char>, from: int)
    requires
        0 <= from <= path.len(),
        segment_from(path, from) is Some,
    ensures
        ({
            let (a, b) = segment_from(path, from)->Some_0;
            &&& from <= a < b <= path.len()
            &&& !path.subrange(a, b).contains('/')
            &&& forall|j: int| from <= j < a ==> path[j] == '/'
            &&& b < path.len() ==> path[b] == '/'
        }),
{
    lemma_first_other_from(path, '/', from);
    let a = first_other_from(path, '/', from);
    lemma_first_index_from(path, '/', a);
}


/// Detection hands the branch on: where a service is detected, its branch is
/// the one that was given, whatever the URL.
pub proof fn lemma_branch_kept(remote_url: Seq<char>, branch: Option<Seq<char>>)
    requires
        detected(remote_url, branch) is Ok,
    ensures
        detected(remote_url, branch)->Ok_0.branch == branch,
{
}

/// The path `/user/repo` has `user` and `repo` as its first two segments,
/// whatever the two are, as long as neither is empty or holds a `/`.
pub proof fn lemma_user_and_repo_of_path(user: Seq<char>, repo: Seq<char>)
    requires
        user.len() > 0,
        repo.len() > 0,
        !user.contains('/'),
        !repo.contains('/'),
    ensures
        user_and_repo("/"@ + user + "/"@ + repo) == Some((user, repo)),
{
    reveal_strlit("/");
    let path = "/"@ + user + "/"@ + repo;
    let a: int = 1;
    let b: int = user.len() as int + 1;
    let c: int = b + 1;
    let d: int = path.len() as int;
    assert(path[0] == '/');
    assert(path[b] == '/');
    assert forall|j: int| a <= j < b implies path[j] != '/' by {
        assert(path[j] == user[j - a]);
    }
    assert forall|j: int| c <= j < d implies path[j] != '/' by {
        assert(path[j] == repo[j - c]);
    }
    lemma_first_other_is(path, '/', 0, a);
    lemma_first_index_is(path, '/', a, b);
    lemma_first_other_is(path, '/', b, c);
    lemma_first_index_is(path, '/', c, d);
    assert(path.subrange(a, b) =~= user);
    assert(path.subrange(c, d) =~= repo);
}

/// A URL with a domain name as its host and the path `/user/repo` is
/// classified by its host alone: as `user` and `repo` at the host's service,
/// or as a URL of no known service.
pub proof fn lemma_classified_by_host(
    url: Seq<char>,
    host: Seq<char>,
    user: Seq<char>,
    repo: Seq<char>,
    text: Seq<char>,
    branch: Option<Seq<char>>,
)
    requires
        user.len() > 0,
        repo.len() > 0,
        !user.contains('/'),
        !repo.contains('/'),
    ensures
        classified(
            url,
            Ok(
                WebUrlView {
                    host: Some(HostView::Domain(host)),
                    path: "/"@ + user + "/"@ + repo,
                    text,
                },
            ),
            branch,
        ) == match provider_of(host) {
            Some(provider) => Ok(ServiceView { provider, user, repo, branch }),
            None => Err(
                ErrorView::CannotDetect { reason: "No service detected from URL "@ + text },
            ),
        },
{
    lemma_user_and_repo_of_path(user, repo);
}

} // verus!
