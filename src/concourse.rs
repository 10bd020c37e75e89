//! The inputs and outputs of the resource's steps, and what each step decides.
use vstd::prelude::*;

use crate::error::ResourceError;
use crate::github_issue::{
    copy_list, copy_text, creates, has_title, mutation_result, read_outcome, read_result, Issue,
    IssueState, NewIssue, Ticket,
};

verus! {

/// A version of the resource: the state of the watched issue, "Open" or "Closed".
#[derive(PartialEq, Eq, Debug)]
pub struct Version {
    pub state: String,
}

impl View for Version {
    type V = Seq<char>;

    open spec fn view(&self) -> Seq<char> {
        self.state@
    }
}

impl Version {
    pub fn new(state: String) -> (r: Self)
        ensures
            r.state == state,
    {
        Version { state }
    }
}

/// The resource's configuration, given to the check and out steps.
#[derive(PartialEq, Eq, Debug)]
pub struct Source {
    /// Personal access token; without one the tracker is called anonymously.
    pub pat: Option<String>,
    pub owner: String,
    pub repo: String,
    /// The watched issue; the check step needs it.
    pub number: Option<u64>,
}

impl Source {
    pub fn pat(&self) -> (r: Option<String>)
        ensures
            r.deep_view() == self.pat.deep_view(),
    {
        copy_text(&self.pat)
    }

    pub fn owner(&self) -> (r: String)
        ensures
            r@ == self.owner@,
    {
        self.owner.clone()
    }

    pub fn repo(&self) -> (r: String)
        ensures
            r@ == self.repo@,
    {
        self.repo.clone()
    }

    pub fn number(&self) -> (r: Option<u64>)
        ensures
            r == self.number,
    {
        self.number
    }
}

/// The params of the out step: the issue to open.
#[derive(PartialEq, Eq, Debug, Default)]
pub struct OutParams {
    pub title: String,
    pub body: Option<String>,
    pub labels: Option<Vec<String>>,
    pub assignees: Option<Vec<String>>,
}

impl OutParams {
    pub fn title(&self) -> (r: String)
        ensures
            r@ == self.title@,
    {
        self.title.clone()
    }

    pub fn body(&self) -> (r: Option<String>)
        ensures
            r.deep_view() == self.body.deep_view(),
    {
        copy_text(&self.body)
    }

    pub fn labels(&self) -> (r: Option<Vec<String>>)
        ensures
            r.deep_view() == self.labels.deep_view(),
    {
        copy_list(&self.labels)
    }

    pub fn assignees(&self) -> (r: Option<Vec<String>>)
        ensures
            r.deep_view() == self.assignees.deep_view(),
    {
        copy_list(&self.assignees)
    }
}

/// The metadata of the out step: the issue that was opened.
#[derive(PartialEq, Eq, Debug)]
pub struct OutMetadata {
    pub number: u64,
    /// The names of the issue's labels.
    pub labels: Vec<String>,
    /// The logins of the issue's assignees.
    pub assignees: Vec<String>,
}

impl OutMetadata {
    pub fn new(number: u64, labels: Vec<String>, assignees: Vec<String>) -> (r: Self)
        ensures
            r.number == number,
            r.labels == labels,
            r.assignees == assignees,
    {
        OutMetadata { number, labels, assignees }
    }
}

/// The resource type: GitHub issues, watched by state and opened by the out step.
pub struct GithubIssue;

/// What the check step does next.
#[derive(PartialEq, Eq, Debug)]
pub enum CheckStep {
    /// Report these versions; the tracker is not called.
    Report(Vec<Version>),
    /// Read this issue; its answer goes to `GithubIssue::check_complete`.
    Read(Issue),
}

/// The states that a sequence of versions holds, in order.
pub open spec fn states_of(v: Seq<Version>) -> Seq<Seq<char>> {
    v.map_values(|x: Version| x@)
}

/// The versions the check step reports for an issue in state `s`: "Open"
/// alone while it is open, and "Open" then "Closed" once it is closed, so that
/// the closed version is new to the orchestrator and triggers.
pub open spec fn check_states(s: IssueState) -> Seq<Seq<char>> {
    match s {
        IssueState::Open => seq!["Open"@],
        IssueState::Closed => seq!["Open"@, "Closed"@],
    }
}

/// `i` reads the issue that `s` configures, and sets nothing else.
pub open spec fn watches(s: Source, i: Issue) -> bool {
    &&& i.pat.deep_view() == s.pat.deep_view()
    &&& i.owner@ == s.owner@
    &&& i.repo@ == s.repo@
    &&& i.number == s.number
    &&& i.title is None
    &&& i.body is None
    &&& i.labels is None
    &&& i.assignees is None
    &&& i.state is None
}

/// `i` opens, in the repository that `s` configures, the issue that `p`
/// describes.
pub open spec fn opens(s: Source, p: OutParams, i: Issue) -> bool {
    &&& i.pat.deep_view() == s.pat.deep_view()
    &&& i.owner@ == s.owner@
    &&& i.repo@ == s.repo@
    &&& (i.title matches Some(t) && t@ == p.title@)
    &&& i.body.deep_view() == p.body.deep_view()
    &&& i.labels.deep_view() == p.labels.deep_view()
    &&& i.assignees.deep_view() == p.assignees.deep_view()
    &&& i.number is None
    &&& i.state is None
}

/// `m` reports the number, labels and assignees of `t`.
pub open spec fn reports(t: Ticket, m: OutMetadata) -> bool {
    &&& m.number == t.number
    &&& m.labels@ == t.labels@
    &&& m.assignees@ == t.assignees@
}

/// A check of an issue that the tracker reports open gives "Open" alone; of
/// one it reports closed, "Open" then "Closed"; of one in any other state, the
/// error `UnrecognizedState` and no versions.
pub proof fn lemma_check_follows_state(t: Ticket)
    ensures
        t.state@ == "open"@ ==> (read_outcome(Ok(t)) matches Ok(st) && check_states(st) == seq![
            "Open"@,
        ]),
        t.state@ == "closed"@ ==> (read_outcome(Ok(t)) matches Ok(st) && check_states(st)
            == seq!["Open"@, "Closed"@]),
        t.state@ != "open"@ && t.state@ != "closed"@ ==> read_outcome(Ok(t)) == Err::<
            IssueState,
            ResourceError,
        >(ResourceError::UnrecognizedState),
{
    reveal_strlit("open");
    reveal_strlit("closed");
    assert("closed"@.len() != "open"@.len());
}

/// An out step whose params give a title alone asks the tracker to open an
/// issue with that title and no body, labels or assignees, and reports the
/// number, labels and assignees that the tracker gave the new issue.
pub proof fn lemma_put_title_only(
    s: Source,
    p: OutParams,
    i: Issue,
    n: NewIssue,
    t: Ticket,
    m: OutMetadata,
)
    requires
        p.title@.len() > 0,
        p.body is None,
        p.labels is None,
        p.assignees is None,
        opens(s, p, i),
        creates(i, n),
        reports(t, m),
    ensures
        has_title(i.title),
        n.title@ == p.title@,
        n.body is None,
        n.labels is None,
        n.assignees is None,
        m.number == t.number,
        m.labels@ == t.labels@,
        m.assignees@ == t.assignees@,
{
}

/// The single version "Open".
fn open_version() -> (r: Version)
    ensures
        r@ == "Open"@,
{
    Version::new(String::from_str("Open"))
}

impl GithubIssue {
    /// The first half of the check step. Without a source it fails; without
    /// an issue number it reports "Open" alone, so that it never triggers;
    /// otherwise the configured issue has to be read. The previous version
    /// plays no part.
    pub fn resource_check(source: Option<Source>, version: Option<Version>) -> (r: Result<
        CheckStep,
        ResourceError,
    >)
        ensures
            source is None ==> r == Err::<CheckStep, ResourceError>(ResourceError::ConfigMissing),
            source matches Some(s) ==> (s.number is None ==> (r matches Ok(CheckStep::Report(v))
                && states_of(v@) == seq!["Open"@])),
            source matches Some(s) ==> (s.number is Some ==> (r matches Ok(CheckStep::Read(i))
                && watches(s, i))),
    {
        let source = match source {
            Some(source) => source,
            None => {
                return Err(ResourceError::ConfigMissing);
            },
        };
        if source.number().is_none() {
            let v = vec![open_version()];
            assert(states_of(v@) =~= seq!["Open"@]);
            return Ok(CheckStep::Report(v));
        }
        let issue = Issue::new(
            source.pat(),
            source.owner.as_str(),
            source.repo.as_str(),
            None,
            None,
            None,
            None,
            source.number(),
            None,
        );
        Ok(CheckStep::Read(issue))
    }

    /// The versions reported for an issue in state `state`.
    pub fn check_versions(state: IssueState) -> (r: Vec<Version>)
        ensures
            states_of(r@) == check_states(state),
    {
        let v = match state {
            IssueState::Open => vec![open_version()],
            IssueState::Closed => vec![open_version(), Version::new(String::from_str("Closed"))],
        };
        assert(states_of(v@) =~= check_states(state));
        v
    }

    /// The second half of the check step, from the tracker's answer to the
    /// read or the reason the read failed. A state other than open or closed
    /// fails the step.
    pub fn check_complete(response: Result<Ticket, String>) -> (r: Result<
        Vec<Version>,
        ResourceError,
    >)
        ensures
            read_outcome(response) matches Ok(s) ==> (r matches Ok(v) && states_of(v@)
                == check_states(s)),
            read_outcome(response) matches Err(e) ==> r == Err::<Vec<Version>, ResourceError>(e),
    {
        match read_result(response) {
            Ok(state) => Ok(GithubIssue::check_versions(state)),
            Err(e) => Err(e),
        }
    }

    /// The in step fetches nothing: it reports the version "Open" and no
    /// metadata, whatever it is given.
    pub fn resource_in(source: Option<Source>, version: Version) -> (r: Version)
        ensures
            r@ == "Open"@,
    {
        open_version()
    }

    /// The first half of the out step: the issue to open, from the source's
    /// repository and credential and the params' title, body, labels and
    /// assignees. Both source and params are required.
    pub fn resource_out(source: Option<Source>, params: Option<OutParams>) -> (r: Result<
        Issue,
        ResourceError,
    >)
        ensures
            source is None || params is None ==> r == Err::<Issue, ResourceError>(
                ResourceError::ConfigMissing,
            ),
            source matches Some(s) ==> (params matches Some(p) ==> (r matches Ok(i) && opens(
                s,
                p,
                i,
            ))),
    {
        let source = match source {
            Some(source) => source,
            None => {
                return Err(ResourceError::ConfigMissing);
            },
        };
        let params = match params {
            Some(params) => params,
            None => {
                return Err(ResourceError::ConfigMissing);
            },
        };
        Ok(
            Issue::new(
                source.pat(),
                source.owner.as_str(),
                source.repo.as_str(),
                Some(params.title()),
                params.body(),
                params.labels(),
                params.assignees(),
                None,
                None,
            ),
        )
    }

    /// The second half of the out step, from the issue that the tracker
    /// created or the reason the call failed: the version "Open" and the new
    /// issue's number, labels and assignees.
    pub fn put_complete(response: Result<Ticket, String>) -> (r: Result<
        (Version, OutMetadata),
        ResourceError,
    >)
        ensures
            response matches Ok(t) ==> (r matches Ok((v, m)) && v@ == "Open"@ && reports(t, m)),
            response matches Err(e) ==> r == Err::<(Version, OutMetadata), ResourceError>(
                ResourceError::RemoteCallFailed(e),
            ),
    {
        match mutation_result(response) {
            Ok(m) => Ok((open_version(), OutMetadata::new(m.number, m.labels, m.assignees))),
            Err(e) => Err(e),
        }
    }
}

} // verus!
