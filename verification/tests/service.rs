use detect_git_service::git::{Outcome, Tracking};
use detect_git_service::service::{
    classify, detect_with_remote_and_branch, next_segment, provider_of_host, strip_git_suffix,
    Detection, Progress, Provider,
};
use detect_git_service::weburl::{Host, WebUrl};
use detect_git_service::{detect, detect_with_git, Error, GitService};

fn said(stdout: &str) -> Outcome {
    Outcome::Exited { success: true, stdout: stdout.to_string(), stderr: String::new() }
}

fn failed(stderr: &str) -> Outcome {
    Outcome::Exited { success: false, stdout: String::new(), stderr: stderr.to_string() }
}

/// Hands the outcomes to the detection one by one, and checks before each
/// that the query that is out is the expected one.
fn finish(start: Detection, run: Vec<(Vec<&str>, Outcome)>) -> Result<GitService, Error> {
    let mut detection = start;
    for (args, outcome) in run {
        assert_eq!(detection.args(), args);
        match detection.advance(outcome) {
            Progress::Ask(next) => detection = next,
            Progress::Done(r) => return r,
        }
    }
    panic!("the detection asks for more: {:?}", detection.args());
}

fn replies_of_this_repo() -> Vec<(Vec<&'static str>, Outcome)> {
    vec![
        (vec!["rev-parse", "--abbrev-ref", "--symbolic", "@{u}"], said("origin/master\n")),
        (
            vec!["config", "--get", "remote.origin.url"],
            said("https://github.com/rhysd/detect_git_service.git\n"),
        ),
    ]
}

#[test]
fn detect_this_repo() {
    let detection = detect(".");
    assert_eq!(detection.git.command, "git");
    assert_eq!(detection.git.path, ".");
    let service = finish(detection, replies_of_this_repo()).unwrap();
    match service {
        GitService::GitHub { ref user, ref repo, .. } => {
            assert_eq!(user, "rhysd");
            assert_eq!(repo, "detect_git_service");
        }
        _ => assert!(false, "unexpected service: {:?}", service),
    }
    assert_eq!(service.user(), "rhysd");
    assert_eq!(service.repo(), "detect_git_service");
}

#[test]
fn detect_this_repo_from_file_path() {
    let detection = detect("./LICENSE");
    assert_eq!(detection.git.path, "./LICENSE");
    let service = finish(detection, replies_of_this_repo()).unwrap();
    match service {
        GitService::GitHub { ref user, ref repo, .. } => {
            assert_eq!(user, "rhysd");
            assert_eq!(repo, "detect_git_service");
        }
        _ => assert!(false, "unexpected service: {:?}", service),
    }
    assert_eq!(service.user(), "rhysd");
    assert_eq!(service.repo(), "detect_git_service");
}

#[test]
fn detect_this_repo_with_git() {
    let detection = detect_with_git(".", "git");
    assert_eq!(detection.git.command, "git");
    let service = finish(detection, replies_of_this_repo()).unwrap();
    match service {
        GitService::GitHub { ref user, ref repo, .. } => {
            assert_eq!(user, "rhysd");
            assert_eq!(repo, "detect_git_service");
        }
        _ => assert!(false, "unexpected service: {:?}", service),
    }
    assert_eq!(service.user(), "rhysd");
    assert_eq!(service.repo(), "detect_git_service");
}

#[test]
fn detect_with_git_keeps_the_command() {
    let detection = detect_with_git("/work/copy", "/opt/bin/git");
    assert_eq!(detection.git.command, "/opt/bin/git");
    assert_eq!(detection.git.path, "/work/copy");
    assert!(matches!(detection.state, Tracking::Upstream));
    assert_eq!(detection.args(), vec!["rev-parse", "--abbrev-ref", "--symbolic", "@{u}"]);
}

#[test]
fn detect_keeps_the_branch_of_the_upstream() {
    let service = finish(
        detect("."),
        vec![
            (vec!["rev-parse", "--abbrev-ref", "--symbolic", "@{u}"], said("fork/feature/x\n")),
            (
                vec!["config", "--get", "remote.fork.url"],
                said("git@gitlab.com:Linda_pp/detect_git_service.git\n"),
            ),
        ],
    )
    .unwrap();
    match service {
        GitService::GitLab { user, repo, branch } => {
            assert_eq!(user, "Linda_pp");
            assert_eq!(repo, "detect_git_service");
            assert_eq!(branch, Some("feature/x".to_string()));
        }
        other => panic!("unexpected service: {:?}", other),
    }
}

#[test]
fn detect_without_upstream_asks_origin_and_head() {
    let service = finish(
        detect("."),
        vec![
            (
                vec!["rev-parse", "--abbrev-ref", "--symbolic", "@{u}"],
                failed("fatal: no upstream configured for branch 'topic'\n"),
            ),
            (
                vec!["config", "--get", "remote.origin.url"],
                said("https://bitbucket.org/rhysd/detect_git_service\n"),
            ),
            (vec!["rev-parse", "--abbrev-ref", "--symbolic", "HEAD"], said("topic\n")),
        ],
    )
    .unwrap();
    assert_eq!(service.provider(), Provider::Bitbucket);
    assert_eq!(service.branch(), &Some("topic".to_string()));
}

#[test]
fn detect_without_any_branch() {
    let service = finish(
        detect("."),
        vec![
            (vec!["rev-parse", "--abbrev-ref", "--symbolic", "@{u}"], failed("fatal")),
            (
                vec!["config", "--get", "remote.origin.url"],
                said("https://github.com/rhysd/detect_git_service"),
            ),
            (vec!["rev-parse", "--abbrev-ref", "--symbolic", "HEAD"], failed("fatal")),
        ],
    )
    .unwrap();
    assert_eq!(service.provider(), Provider::GitHub);
    assert_eq!(service.branch(), &None);
}

#[test]
fn detect_fails_when_the_url_cannot_be_read() {
    let err = finish(
        detect("."),
        vec![
            (vec!["rev-parse", "--abbrev-ref", "--symbolic", "@{u}"], said("origin/master")),
            (vec!["config", "--get", "remote.origin.url"], failed("  no such key \n")),
        ],
    )
    .unwrap_err();
    match err {
        Error::GitCommandFailed { stderr, args } => {
            assert_eq!(stderr, "no such key");
            assert_eq!(args, vec!["config", "--get", "remote.origin.url"]);
        }
        other => panic!("unexpected error: {:?}", other),
    }
}

#[test]
fn detect_fails_when_the_command_cannot_run() {
    let err = finish(
        detect_with_git(".", "no-such-git"),
        vec![(
            vec!["rev-parse", "--abbrev-ref", "--symbolic", "@{u}"],
            Outcome::NotStarted("No such file or directory (os error 2)".to_string()),
        )],
    )
    .unwrap_err();
    assert_eq!(err.to_string(), "No such file or directory (os error 2): cannot run command");
}

#[test]
fn detect_fails_on_a_remote_that_is_no_service() {
    let err = finish(
        detect("."),
        vec![
            (vec!["rev-parse", "--abbrev-ref", "--symbolic", "@{u}"], said("origin/master")),
            (vec!["config", "--get", "remote.origin.url"], said("/srv/git/project.git")),
        ],
    )
    .unwrap_err();
    match err {
        Error::BrokenUrl { url, msg } => {
            assert_eq!(url, "/srv/git/project.git");
            assert_eq!(msg, "relative URL without a base");
        }
        other => panic!("unexpected error: {:?}", other),
    }
}

fn expect_service(url: &str, provider: Provider, user: &str, repo: &str) {
    let service = detect_with_remote_and_branch(url.to_string(), None).unwrap();
    assert_eq!(service.provider(), provider, "unexpected service: {:?}", service);
    assert_eq!(service.branch(), &None);
    assert_eq!(service.user(), user);
    assert_eq!(service.repo(), repo);
}

fn expect_error(url: &str, expected: &str) -> Error {
    let err = detect_with_remote_and_branch(url.to_string(), None).unwrap_err();
    assert!(err.to_string().contains(expected), "unexpected error message: {}", err.to_string());
    err
}

#[test]
fn github_https() {
    let service =
        detect_with_remote_and_branch("https://github.com/rhysd/detect_git_service".to_string(), None)
            .unwrap();
    if let GitService::GitHub { user, repo, branch } = service {
        assert_eq!(branch, None);
        assert_eq!(user, "rhysd".to_string());
        assert_eq!(repo, "detect_git_service".to_string());
    } else {
        assert!(false, "unexpected service: {:?}", service);
    }
}

#[test]
fn github_https_with_git_ext() {
    expect_service(
        "https://github.com/rhysd/detect_git_service.git",
        Provider::GitHub,
        "rhysd",
        "detect_git_service",
    );
}

#[test]
fn github_ssh() {
    expect_service(
        "ssh://git@github.com:22/rhysd/detect_git_service.git",
        Provider::GitHub,
        "rhysd",
        "detect_git_service",
    );
}

#[test]
fn github_enterprise() {
    let service = detect_with_remote_and_branch(
        "https://github.mycompany.com/rhysd/detect_git_service.git".to_string(),
        None,
    )
    .unwrap();
    if let GitService::GitHubEnterprise { user, repo, branch } = service {
        assert_eq!(branch, None);
        assert_eq!(user, "rhysd".to_string());
        assert_eq!(repo, "detect_git_service".to_string());
    } else {
        assert!(false, "unexpected service: {:?}", service);
    }
}

#[test]
fn gitlab_https() {
    let service = detect_with_remote_and_branch(
        "https://gitlab.com/Linda_pp/detect_git_service".to_string(),
        None,
    )
    .unwrap();
    if let GitService::GitLab { user, repo, branch } = service {
        assert_eq!(branch, None);
        assert_eq!(user, "Linda_pp".to_string());
        assert_eq!(repo, "detect_git_service".to_string());
    } else {
        assert!(false, "unexpected service: {:?}", service);
    }
}

#[test]
fn gitlab_https_with_git_ext() {
    expect_service(
        "https://gitlab.com/Linda_pp/detect_git_service.git",
        Provider::GitLab,
        "Linda_pp",
        "detect_git_service",
    );
}

#[test]
fn gitlab_ssh() {
    expect_service(
        "ssh://git@gitlab.com:22/Linda_pp/detect_git_service.git",
        Provider::GitLab,
        "Linda_pp",
        "detect_git_service",
    );
}

#[test]
fn gitlab_local() {
    expect_service(
        "https://gitlab.myinstance.net/Linda_pp/detect_git_service",
        Provider::GitLab,
        "Linda_pp",
        "detect_git_service",
    );
}

#[test]
fn bitbucket_https() {
    let service = detect_with_remote_and_branch(
        "https://bitbucket.org/rhysd/detect_git_service".to_string(),
        None,
    )
    .unwrap();
    if let GitService::Bitbucket { user, repo, branch } = service {
        assert_eq!(branch, None);
        assert_eq!(user, "rhysd".to_string());
        assert_eq!(repo, "detect_git_service".to_string());
    } else {
        assert!(false, "unexpected service: {:?}", service);
    }
}

#[test]
fn bitbucket_https_with_git_ext() {
    expect_service(
        "https://rhysd@bitbucket.org/rhysd/detect_git_service.git",
        Provider::Bitbucket,
        "rhysd",
        "detect_git_service",
    );
}

#[test]
fn bitbucket_ssh() {
    expect_service(
        "ssh://git@bitbucket.org:22/rhysd/detect_git_service.git",
        Provider::Bitbucket,
        "rhysd",
        "detect_git_service",
    );
}

#[test]
fn broken_url() {
    let err = expect_error("https://", "Git URL https:// is broken");
    match err {
        Error::BrokenUrl { url, msg } => {
            assert_eq!(url, "https://");
            assert_eq!(msg, "empty host");
        }
        other => panic!("unexpected error: {:?}", other),
    }
}

#[test]
fn no_host() {
    let err = expect_error("foo:/foo", "No host in URL");
    match err {
        Error::BrokenUrl { url, msg } => {
            assert_eq!(url, "foo:/foo");
            assert_eq!(msg, "No host in URL");
        }
        other => panic!("unexpected error: {:?}", other),
    }
}

#[test]
fn no_path() {
    let err = expect_error("https://github.com", "Path of Git URL does not represent user/repo");
    assert!(matches!(err, Error::CannotDetect { .. }));
}

#[test]
fn no_repo() {
    let err =
        expect_error("https://github.com/foo", "Path of Git URL does not represent user/repo");
    assert!(matches!(err, Error::CannotDetect { .. }));
}

#[test]
fn no_domain_name() {
    let err = expect_error(
        "https://1.2.3.4/foo/bar",
        "Domain name must be contained in URL https://1.2.3.4/foo/bar",
    );
    assert!(matches!(err, Error::CannotDetect { .. }));
}

#[test]
fn no_domain_name_ipv6() {
    let err = expect_error(
        "https://[::1]/foo/bar",
        "Domain name must be contained in URL https://[::1]/foo/bar",
    );
    assert!(matches!(err, Error::CannotDetect { .. }));
}

#[test]
fn unknown_service() {
    let err = expect_error(
        "https://my.awesome.service.example.com/foo/bar",
        "No service detected from URL https://my.awesome.service.example.com/foo/bar",
    );
    match err {
        Error::CannotDetect { reason } => assert_eq!(
            reason,
            "No service detected from URL https://my.awesome.service.example.com/foo/bar"
        ),
        other => panic!("unexpected error: {:?}", other),
    }
}

#[test]
fn only_the_suffix_is_left_of_the_url() {
    let err = expect_error(".git", "Git URL .git is broken: relative URL without a base");
    match err {
        Error::BrokenUrl { url, msg } => {
            assert_eq!(url, ".git");
            assert_eq!(msg, "relative URL without a base");
        }
        other => panic!("unexpected error: {:?}", other),
    }
}

#[test]
fn broken_url_is_reported_as_it_was_given() {
    let err = expect_error("foo.git", "Git URL foo.git is broken");
    match err {
        Error::BrokenUrl { url, msg } => {
            assert_eq!(url, "foo.git");
            assert_eq!(msg, "relative URL without a base");
        }
        other => panic!("unexpected error: {:?}", other),
    }
    let err = expect_error("https://.git", "Git URL https://.git is broken");
    match err {
        Error::BrokenUrl { url, msg } => {
            assert_eq!(url, "https://.git");
            assert_eq!(msg, "empty host");
        }
        other => panic!("unexpected error: {:?}", other),
    }
}

#[test]
fn git_suffix_makes_no_difference() {
    for (user, repo) in [("rhysd", "detect_git_service"), ("a", "b"), ("u", "r.GIT"), ("u", "x.y")]
    {
        let plain = format!("https://github.com/{}/{}", user, repo);
        let with_suffix = format!("{}.git", plain);
        let a = detect_with_remote_and_branch(plain, None).unwrap();
        let b = detect_with_remote_and_branch(with_suffix, None).unwrap();
        assert_eq!(a.provider(), Provider::GitHub);
        assert_eq!(b.provider(), Provider::GitHub);
        assert_eq!(a.user(), b.user());
        assert_eq!(a.repo(), b.repo());
        assert_eq!(a.user(), user);
        assert_eq!(a.repo(), repo);
    }
}

#[test]
fn git_suffix_is_removed_once() {
    assert_eq!(strip_git_suffix("https://github.com/u/r.git"), "https://github.com/u/r");
    assert_eq!(strip_git_suffix("https://github.com/u/r.git.git"), "https://github.com/u/r.git");
    assert_eq!(strip_git_suffix("https://github.com/u/r.GIT"), "https://github.com/u/r.GIT");
    assert_eq!(strip_git_suffix("https://github.com/u/r.git/"), "https://github.com/u/r.git/");
    assert_eq!(strip_git_suffix(".git.git"), ".git");
    assert_eq!(strip_git_suffix(".git"), "");
    assert_eq!(strip_git_suffix("git"), "git");
    assert_eq!(strip_git_suffix(""), "");
    expect_service("https://github.com/u/r.git.git", Provider::GitHub, "u", "r.git");
    expect_service("https://github.com/u/r.git", Provider::GitHub, "u", "r");
}

#[test]
fn suffix_inside_the_path_stays() {
    expect_service("https://github.com/u/r.git/tree/master", Provider::GitHub, "u", "r.git");
}

#[test]
fn host_priority() {
    expect_service("https://github.com/u/r", Provider::GitHub, "u", "r");
    expect_service("https://github.mycompany.com/u/r", Provider::GitHubEnterprise, "u", "r");
    expect_service("https://gitlab.com/u/r", Provider::GitLab, "u", "r");
    expect_service("https://gitlab.example.net/u/r", Provider::GitLab, "u", "r");
    expect_service("https://bitbucket.org/u/r", Provider::Bitbucket, "u", "r");
}

#[test]
fn provider_by_host_name() {
    assert_eq!(provider_of_host("github.com"), Some(Provider::GitHub));
    assert_eq!(provider_of_host("gitlab.com"), Some(Provider::GitLab));
    assert_eq!(provider_of_host("bitbucket.org"), Some(Provider::Bitbucket));
    assert_eq!(provider_of_host("github.mycompany.com"), Some(Provider::GitHubEnterprise));
    assert_eq!(provider_of_host("github."), Some(Provider::GitHubEnterprise));
    assert_eq!(provider_of_host("gitlab.example.net"), Some(Provider::GitLab));
    assert_eq!(provider_of_host("bitbucket.example.org"), None);
    assert_eq!(provider_of_host("www.github.com"), None);
    assert_eq!(provider_of_host("githubx.com"), None);
    assert_eq!(provider_of_host("github"), None);
    assert_eq!(provider_of_host("GitHub.com"), None);
    assert_eq!(provider_of_host(""), None);
}

#[test]
fn branch_is_handed_on() {
    for branch in [None, Some("master"), Some("feature/x"), Some("")] {
        let branch = branch.map(str::to_string);
        let service = detect_with_remote_and_branch(
            "https://gitlab.com/Linda_pp/detect_git_service.git".to_string(),
            branch.clone(),
        )
        .unwrap();
        assert_eq!(service.branch(), &branch);
        match service {
            GitService::GitLab { branch: b, .. } => assert_eq!(b, branch),
            other => panic!("unexpected service: {:?}", other),
        }
    }
}

#[test]
fn empty_segments_of_the_path_are_passed_over() {
    expect_service("https://github.com//foo///bar/", Provider::GitHub, "foo", "bar");
    expect_service("https://github.com/foo/bar/baz/qux", Provider::GitHub, "foo", "bar");
    expect_error("https://github.com//foo//", "Path of Git URL does not represent user/repo");
    expect_error("https://github.com///", "Path of Git URL does not represent user/repo");
}

#[test]
fn segments_of_a_path() {
    assert_eq!(next_segment("/foo/bar", 0), Some((1, 4)));
    assert_eq!(next_segment("/foo/bar", 4), Some((5, 8)));
    assert_eq!(next_segment("/foo/bar", 8), None);
    assert_eq!(next_segment("foo/", 0), Some((0, 3)));
    assert_eq!(next_segment("foo/", 3), None);
    assert_eq!(next_segment("//", 0), None);
    assert_eq!(next_segment("", 0), None);
    assert_eq!(next_segment("/é/x", 0), Some((1, 2)));
}

#[test]
fn classify_reads_the_parts_it_is_given() {
    let parts = WebUrl {
        host: Some(Host::Domain("github.example.com".to_string())),
        path: "/team/tool".to_string(),
        text: "https://github.example.com/team/tool".to_string(),
    };
    let service = classify("ignored", Ok(parts), Some("main".to_string())).unwrap();
    match service {
        GitService::GitHubEnterprise { user, repo, branch } => {
            assert_eq!(user, "team");
            assert_eq!(repo, "tool");
            assert_eq!(branch, Some("main".to_string()));
        }
        other => panic!("unexpected service: {:?}", other),
    }
}

#[test]
fn classify_tells_the_errors_apart() {
    let broken = classify("nonsense", Err("not a URL".to_string()), None).unwrap_err();
    assert_eq!(broken.to_string(), "Git URL nonsense is broken: not a URL");

    let no_host = WebUrl { host: None, path: "/a/b".to_string(), text: "unix:/a/b".to_string() };
    let err = classify("unix:/a/b", Ok(no_host), None).unwrap_err();
    assert_eq!(err.to_string(), "Git URL unix:/a/b is broken: No host in URL");

    let address =
        WebUrl { host: Some(Host::Ipv6), path: "/a/b".to_string(), text: "t".to_string() };
    let err = classify("t", Ok(address), None).unwrap_err();
    assert_eq!(err.to_string(), "Cannot detect service: Domain name must be contained in URL t");

    let address =
        WebUrl { host: Some(Host::Ipv4), path: "/".to_string(), text: "t".to_string() };
    let err = classify("t", Ok(address), None).unwrap_err();
    assert_eq!(err.to_string(), "Cannot detect service: Domain name must be contained in URL t");

    let short = WebUrl {
        host: Some(Host::Domain("example.com".to_string())),
        path: "/a".to_string(),
        text: "t".to_string(),
    };
    let err = classify("t", Ok(short), None).unwrap_err();
    assert_eq!(
        err.to_string(),
        "Cannot detect service: Path of Git URL does not represent user/repo"
    );

    let unknown = WebUrl {
        host: Some(Host::Domain("example.com".to_string())),
        path: "/a/b".to_string(),
        text: "t".to_string(),
    };
    let err = classify("t", Ok(unknown), None).unwrap_err();
    assert_eq!(err.to_string(), "Cannot detect service: No service detected from URL t");
}
