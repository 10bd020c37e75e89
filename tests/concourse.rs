use concourse_github_issue::concourse::{
    CheckStep, GithubIssue, OutMetadata, OutParams, Source, Version,
};
use concourse_github_issue::error::ResourceError;
use concourse_github_issue::github_issue::{Action, IssueState, Request, Ticket};

fn states(v: &[Version]) -> Vec<&str> {
    v.iter().map(|x| x.state.as_str()).collect()
}

fn ticket(number: u64, state: &str, labels: Vec<&str>, assignees: Vec<&str>) -> Ticket {
    Ticket {
        number,
        state: String::from(state),
        labels: labels.into_iter().map(String::from).collect(),
        assignees: assignees.into_iter().map(String::from).collect(),
    }
}

fn acme(number: Option<u64>) -> Source {
    Source {
        pat: None,
        owner: String::from("acme"),
        repo: String::from("widgets"),
        number,
    }
}

#[test]
fn test_version_new() {
    assert_eq!(
        Version::new(String::from("Open")),
        Version {
            state: String::from("Open")
        },
        "version could not be constructed with the correct issue state",
    );
}

#[test]
fn test_source_owner() {
    assert_eq!(
        Source {
            pat: None,
            owner: String::from("myorg"),
            repo: String::from("myrepo"),
            number: None,
        }
        .owner,
        String::from("myorg"),
        "reader for source owner did not return expected member value"
    )
}

#[test]
fn test_outparams_title() {
    assert_eq!(
        OutParams {
            title: String::from("mytitle"),
            body: None,
            labels: None,
            assignees: None,
        }
        .title,
        String::from("mytitle"),
        "reader for outparams title did not return expected member value"
    )
}

#[test]
fn source_readers_copy_members() {
    let s = Source {
        pat: Some(String::from("token")),
        owner: String::from("myorg"),
        repo: String::from("myrepo"),
        number: Some(7),
    };
    assert_eq!(s.pat(), Some(String::from("token")));
    assert_eq!(s.owner(), "myorg");
    assert_eq!(s.repo(), "myrepo");
    assert_eq!(s.number(), Some(7));
}

#[test]
fn outparams_readers_copy_members() {
    let p = OutParams {
        title: String::from("t"),
        body: Some(String::from("b")),
        labels: Some(vec![String::from("ci")]),
        assignees: Some(vec![]),
    };
    assert_eq!(p.title(), "t");
    assert_eq!(p.body(), Some(String::from("b")));
    assert_eq!(p.labels(), Some(vec![String::from("ci")]));
    assert_eq!(p.assignees(), Some(vec![]));
}

#[test]
fn outmetadata_new_keeps_members() {
    let m = OutMetadata::new(5, vec![String::from("triage")], vec![String::from("myuser")]);
    assert_eq!(m.number, 5);
    assert_eq!(m.labels, vec![String::from("triage")]);
    assert_eq!(m.assignees, vec![String::from("myuser")]);
}

#[test]
fn check_without_source_fails() {
    assert_eq!(
        GithubIssue::resource_check(None, None),
        Err(ResourceError::ConfigMissing)
    );
}

#[test]
fn check_without_number_reports_open_whatever_came_before() {
    for previous in [
        None,
        Some(Version::new(String::from("Open"))),
        Some(Version::new(String::from("Closed"))),
    ] {
        match GithubIssue::resource_check(Some(acme(None)), previous) {
            Ok(CheckStep::Report(v)) => assert_eq!(states(&v), vec!["Open"]),
            other => panic!("unexpected check step {:?}", other),
        }
    }
}

#[test]
fn check_of_open_issue_reports_open() {
    let v = GithubIssue::check_complete(Ok(ticket(3, "open", vec![], vec![]))).unwrap();
    assert_eq!(states(&v), vec!["Open"]);
}

#[test]
fn check_of_closed_issue_reports_open_then_closed() {
    let v = GithubIssue::check_complete(Ok(ticket(3, "closed", vec![], vec![]))).unwrap();
    assert_eq!(states(&v), vec!["Open", "Closed"]);
}

#[test]
fn check_of_unknown_state_fails() {
    for state in ["merged", "Open", ""] {
        assert_eq!(
            GithubIssue::check_complete(Ok(ticket(3, state, vec![], vec![]))),
            Err(ResourceError::UnrecognizedState)
        );
    }
}

#[test]
fn check_of_failed_read_fails() {
    assert_eq!(
        GithubIssue::check_complete(Err(String::from("404 Not Found"))),
        Err(ResourceError::RemoteCallFailed(String::from("404 Not Found")))
    );
}

#[test]
fn check_versions_by_state() {
    assert_eq!(states(&GithubIssue::check_versions(IssueState::Open)), vec!["Open"]);
    assert_eq!(
        states(&GithubIssue::check_versions(IssueState::Closed)),
        vec!["Open", "Closed"]
    );
}

#[test]
fn check_of_closed_issue_end_to_end() {
    let issue = match GithubIssue::resource_check(Some(acme(Some(42))), None) {
        Ok(CheckStep::Read(issue)) => issue,
        other => panic!("unexpected check step {:?}", other),
    };
    assert_eq!(issue.owner, "acme");
    assert_eq!(issue.repo, "widgets");
    assert_eq!(issue.request(Action::Read), Ok(Request::Read(42)));
    let v = GithubIssue::check_complete(Ok(ticket(42, "closed", vec![], vec![]))).unwrap();
    assert_eq!(states(&v), vec!["Open", "Closed"]);
}

#[test]
fn in_reports_open() {
    let v = GithubIssue::resource_in(None, Version::new(String::from("Closed")));
    assert_eq!(v.state, "Open");
}

#[test]
fn out_needs_source_and_params() {
    assert_eq!(
        GithubIssue::resource_out(None, Some(OutParams::default())),
        Err(ResourceError::ConfigMissing)
    );
    assert_eq!(
        GithubIssue::resource_out(Some(acme(None)), None),
        Err(ResourceError::ConfigMissing)
    );
}

#[test]
fn out_without_title_fails_before_any_call() {
    let issue = GithubIssue::resource_out(Some(acme(None)), Some(OutParams::default())).unwrap();
    assert_eq!(issue.request(Action::Create), Err(ResourceError::TitleUnspecified));
}

#[test]
fn out_with_title_only() {
    let params = OutParams {
        title: String::from("Build failed"),
        body: None,
        labels: None,
        assignees: None,
    };
    let issue = GithubIssue::resource_out(Some(acme(Some(9))), Some(params)).unwrap();
    assert_eq!(issue.number, None);
    let new_issue = match issue.request(Action::Create) {
        Ok(Request::Create(n)) => n,
        other => panic!("unexpected request {:?}", other),
    };
    assert_eq!(new_issue.title, "Build failed");
    assert_eq!(new_issue.labels, None);
    assert_eq!(new_issue.assignees, None);
    let (version, metadata) =
        GithubIssue::put_complete(Ok(ticket(17, "open", vec![], vec![]))).unwrap();
    assert_eq!(version.state, "Open");
    assert_eq!(metadata, OutMetadata::new(17, vec![], vec![]));
}

#[test]
fn out_with_title_and_label_end_to_end() {
    let params = OutParams {
        title: String::from("Build failed"),
        body: None,
        labels: Some(vec![String::from("ci")]),
        assignees: None,
    };
    let issue = GithubIssue::resource_out(Some(acme(None)), Some(params)).unwrap();
    assert_eq!(issue.owner, "acme");
    assert_eq!(issue.repo, "widgets");
    let new_issue = match issue.request(Action::Create) {
        Ok(Request::Create(n)) => n,
        other => panic!("unexpected request {:?}", other),
    };
    assert_eq!(new_issue.title, "Build failed");
    assert_eq!(new_issue.labels, Some(vec![String::from("ci")]));
    assert_eq!(new_issue.assignees, None);
    let (version, metadata) =
        GithubIssue::put_complete(Ok(ticket(101, "open", vec!["ci"], vec![]))).unwrap();
    assert_eq!(version.state, "Open");
    assert_eq!(metadata.number, 101);
    assert_eq!(metadata.labels, vec![String::from("ci")]);
    assert!(metadata.assignees.is_empty());
}

#[test]
fn out_of_failed_create_fails() {
    assert_eq!(
        GithubIssue::put_complete(Err(String::from("401 Bad credentials"))),
        Err(ResourceError::RemoteCallFailed(String::from("401 Bad credentials")))
    );
}
