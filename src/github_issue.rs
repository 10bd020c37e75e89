//! The issue client's decisions: which request an operation sends to GitHub,
//! and what the answer to it means.
use vstd::prelude::*;

use crate::error::ResourceError;

verus! {

/// The two states a GitHub issue can be in.
#[derive(PartialEq, Eq, Structural, Debug, Clone, Copy)]
pub enum IssueState {
    Open,
    Closed,
}

/// The name under which a state is written in a step's configuration.
pub open spec fn state_name(s: IssueState) -> Seq<char> {
    match s {
        IssueState::Open => "Open"@,
        IssueState::Closed => "Closed"@,
    }
}

/// Whether two strings hold the same characters.
fn same_text(a: &str, b: &str) -> (r: bool)
    ensures
        r == (a@ == b@),
{
    let n = a.unicode_len();
    if n != b.unicode_len() {
        return false;
    }
    let mut i: usize = 0;
    while i < n
        invariant
            n == a@.len(),
            n == b@.len(),
            i <= n,
            a@.subrange(0, i as int) == b@.subrange(0, i as int),
        decreases n - i,
    {
        if a.get_char(i) != b.get_char(i) {
            assert(a@[i as int] != b@[i as int]);
            return false;
        }
        assert(a@.subrange(0, i + 1) =~= a@.subrange(0, i as int).push(a@[i as int]));
        assert(b@.subrange(0, i + 1) =~= b@.subrange(0, i as int).push(b@[i as int]));
        i = i + 1;
    }
    assert(a@ =~= a@.subrange(0, n as int));
    assert(b@ =~= b@.subrange(0, n as int));
    true
}

/// The state named `param`, which must be "Open" or "Closed".
pub fn str_to_issue_state(param: &str) -> (r: IssueState)
    requires
        param@ == "Open"@ || param@ == "Closed"@,
    ensures
        state_name(r) == param@,
{
    if same_text(param, "Open") {
        IssueState::Open
    } else {
        IssueState::Closed
    }
}

/// Which operation a client performs on an issue.
#[non_exhaustive]
pub enum Action {
    Create,
    Read,
    Update,
}

/// Everything needed to build a client and perform one operation on an issue.
/// Fields that an operation does not use are ignored by it.
#[derive(PartialEq, Eq, Debug)]
pub struct Issue {
    /// Personal access token; without one the tracker is called anonymously.
    pub pat: Option<String>,
    pub owner: String,
    pub repo: String,
    pub title: Option<String>,
    pub body: Option<String>,
    pub labels: Option<Vec<String>>,
    pub assignees: Option<Vec<String>>,
    /// The issue read or updated.
    pub number: Option<u64>,
    /// The state an update moves the issue to.
    pub state: Option<IssueState>,
}

/// A request to open a new issue. A field that is `None` is left out of the
/// request; an empty list is sent as such.
#[derive(PartialEq, Eq, Debug)]
pub struct NewIssue {
    pub title: String,
    pub body: Option<String>,
    pub labels: Option<Vec<String>>,
    pub assignees: Option<Vec<String>>,
}

/// A partial update of an existing issue: each field that is `Some` overwrites
/// the issue's value, each field that is `None` leaves it as it is.
#[derive(PartialEq, Eq, Debug)]
pub struct IssueUpdate {
    pub number: u64,
    pub title: Option<String>,
    pub body: Option<String>,
    pub labels: Option<Vec<String>>,
    pub assignees: Option<Vec<String>>,
    pub state: Option<IssueState>,
}

/// The one call to the tracker that an operation makes.
#[derive(PartialEq, Eq, Debug)]
pub enum Request {
    Create(NewIssue),
    Read(u64),
    Update(IssueUpdate),
}

/// A copy of an optional text.
pub(crate) fn copy_text(o: &Option<String>) -> (r: Option<String>)
    ensures
        r.deep_view() == o.deep_view(),
{
    match o {
        Some(s) => Some(s.clone()),
        None => None,
    }
}

/// A copy of an optional list of texts.
pub(crate) fn copy_list(o: &Option<Vec<String>>) -> (r: Option<Vec<String>>)
    ensures
        r.deep_view() == o.deep_view(),
{
    match o {
        Some(v) => {
            let c = v.clone();
            assert(c.deep_view() =~= v.deep_view());
            Some(c)
        },
        None => None,
    }
}

impl Issue {
    /// Gathers the members that a client and an operation need. `state_str`,
    /// where given, names the state an update moves the issue to.
    pub fn new(
        pat: Option<String>,
        owner: &str,
        repo: &str,
        title: Option<String>,
        body: Option<String>,
        labels: Option<Vec<String>>,
        assignees: Option<Vec<String>>,
        number: Option<u64>,
        state_str: Option<&str>,
    ) -> (r: Self)
        requires
            state_str matches Some(s) ==> s@ == "Open"@ || s@ == "Closed"@,
        ensures
            r.pat == pat,
            r.owner@ == owner@,
            r.repo@ == repo@,
            r.title == title,
            r.body == body,
            r.labels == labels,
            r.assignees == assignees,
            r.number == number,
            state_str is None ==> r.state is None,
            state_str matches Some(s) ==> (r.state matches Some(st) && state_name(st) == s@),
    {
        let state = match state_str {
            Some(s) => Some(str_to_issue_state(s)),
            None => None,
        };
        Issue {
            pat,
            owner: String::from_str(owner),
            repo: String::from_str(repo),
            title,
            body,
            labels,
            assignees,
            number,
            state,
        }
    }

    /// The request that opens an issue with these members. The title must be
    /// present and non-empty; body, labels and assignees go along only where
    /// they are present.
    pub fn create(&self) -> (r: Result<NewIssue, ResourceError>)
        ensures
            has_title(self.title) <==> r is Ok,
            !has_title(self.title) ==> r == Err::<NewIssue, ResourceError>(
                ResourceError::TitleUnspecified,
            ),
            r matches Ok(n) ==> creates(*self, n),
    {
        match &self.title {
            Some(title) if title.unicode_len() > 0 => Ok(
                NewIssue {
                    title: title.clone(),
                    body: copy_text(&self.body),
                    labels: copy_list(&self.labels),
                    assignees: copy_list(&self.assignees),
                },
            ),
            _ => Err(ResourceError::TitleUnspecified),
        }
    }

    /// The number of the issue that a read fetches.
    pub fn read(&self) -> (r: Result<u64, ResourceError>)
        ensures
            r == match self.number {
                Some(n) => Ok::<u64, ResourceError>(n),
                None => Err(ResourceError::NumberUnspecified),
            },
    {
        match self.number {
            Some(n) => Ok(n),
            None => Err(ResourceError::NumberUnspecified),
        }
    }

    /// The partial update of the configured issue: title, body, labels,
    /// assignees and state are each sent only where present.
    pub fn update(&self) -> (r: Result<IssueUpdate, ResourceError>)
        ensures
            self.number is Some <==> r is Ok,
            self.number is None ==> r == Err::<IssueUpdate, ResourceError>(
                ResourceError::NumberUnspecified,
            ),
            r matches Ok(u) ==> updates(*self, u),
    {
        match self.number {
            Some(number) => Ok(
                IssueUpdate {
                    number,
                    title: copy_text(&self.title),
                    body: copy_text(&self.body),
                    labels: copy_list(&self.labels),
                    assignees: copy_list(&self.assignees),
                    state: self.state,
                },
            ),
            None => Err(ResourceError::NumberUnspecified),
        }
    }

    /// The one call to the tracker that `action` makes, or why it cannot be
    /// made; no call is made in that case.
    pub fn request(&self, action: Action) -> (r: Result<Request, ResourceError>)
        ensures
            action is Create ==> {
                &&& has_title(self.title) <==> r is Ok
                &&& !has_title(self.title) ==> r == Err::<Request, ResourceError>(
                    ResourceError::TitleUnspecified,
                )
                &&& r is Ok ==> (r matches Ok(Request::Create(n)) && creates(*self, n))
            },
            action is Read ==> r == match self.number {
                Some(n) => Ok::<Request, ResourceError>(Request::Read(n)),
                None => Err(ResourceError::NumberUnspecified),
            },
            action is Update ==> {
                &&& self.number is Some <==> r is Ok
                &&& self.number is None ==> r == Err::<Request, ResourceError>(
                    ResourceError::NumberUnspecified,
                )
                &&& r is Ok ==> (r matches Ok(Request::Update(u)) && updates(*self, u))
            },
    {
        match action {
            Action::Create => match self.create() {
                Ok(n) => Ok(Request::Create(n)),
                Err(e) => Err(e),
            },
            Action::Read => match self.read() {
                Ok(n) => Ok(Request::Read(n)),
                Err(e) => Err(e),
            },
            Action::Update => match self.update() {
                Ok(u) => Ok(Request::Update(u)),
                Err(e) => Err(e),
            },
        }
    }
}

/// What the tracker returns of an issue, as far as this resource reads it.
#[derive(PartialEq, Eq, Debug)]
pub struct Ticket {
    pub number: u64,
    /// The state as the tracker writes it: "open" or "closed".
    pub state: String,
    /// The names of the issue's labels.
    pub labels: Vec<String>,
    /// The logins of the issue's assignees.
    pub assignees: Vec<String>,
}

/// What a successful create or update reports.
#[derive(PartialEq, Eq, Debug)]
pub struct MutationResult {
    pub number: u64,
    pub labels: Vec<String>,
    pub assignees: Vec<String>,
}

/// The state that the tracker writes as `s`, if it is one of the two.
pub open spec fn remote_state(s: Seq<char>) -> Option<IssueState> {
    if s == "open"@ {
        Some(IssueState::Open)
    } else if s == "closed"@ {
        Some(IssueState::Closed)
    } else {
        None
    }
}

/// What a read reports, given the tracker's answer or the reason its call failed.
pub open spec fn read_outcome(response: Result<Ticket, String>) -> Result<IssueState, ResourceError> {
    match response {
        Ok(t) => match remote_state(t.state@) {
            Some(s) => Ok(s),
            None => Err(ResourceError::UnrecognizedState),
        },
        Err(e) => Err(ResourceError::RemoteCallFailed(e)),
    }
}

/// The state that the tracker writes as `s`. Any text but "open" and
/// "closed" is refused: no state is guessed.
pub fn issue_state_from_remote(s: &str) -> (r: Result<IssueState, ResourceError>)
    ensures
        r == match remote_state(s@) {
            Some(st) => Ok::<IssueState, ResourceError>(st),
            None => Err(ResourceError::UnrecognizedState),
        },
{
    if same_text(s, "open") {
        Ok(IssueState::Open)
    } else if same_text(s, "closed") {
        Ok(IssueState::Closed)
    } else {
        Err(ResourceError::UnrecognizedState)
    }
}

/// The state of the issue that a read returned, or why there is none.
pub fn read_result(response: Result<Ticket, String>) -> (r: Result<IssueState, ResourceError>)
    ensures
        r == read_outcome(response),
{
    match response {
        Ok(t) => issue_state_from_remote(t.state.as_str()),
        Err(e) => Err(ResourceError::RemoteCallFailed(e)),
    }
}

/// The report of a create or update, from the issue that the tracker returned
/// or the reason its call failed.
pub fn mutation_result(response: Result<Ticket, String>) -> (r: Result<MutationResult, ResourceError>)
    ensures
        response matches Ok(t) ==> r == Ok::<MutationResult, ResourceError>(
            MutationResult { number: t.number, labels: t.labels, assignees: t.assignees },
        ),
        response matches Err(e) ==> r == Err::<MutationResult, ResourceError>(
            ResourceError::RemoteCallFailed(e),
        ),
{
    match response {
        Ok(t) => Ok(MutationResult { number: t.number, labels: t.labels, assignees: t.assignees }),
        Err(e) => Err(ResourceError::RemoteCallFailed(e)),
    }
}

/// Reading an issue twice while its state stays as it is gives the same state
/// both times: the outcome of a read depends on the tracker's answer alone,
/// through the state it reports.
pub proof fn lemma_read_repeatable(first: Ticket, second: Ticket)
    requires
        first.state@ == second.state@,
    ensures
        read_outcome(Ok(first)) == read_outcome(Ok(second)),
{
}

/// `n` opens an issue with the title, body, labels and assignees of `i`.
pub open spec fn creates(i: Issue, n: NewIssue) -> bool {
    &&& (i.title matches Some(t) && n.title@ == t@)
    &&& n.body.deep_view() == i.body.deep_view()
    &&& n.labels.deep_view() == i.labels.deep_view()
    &&& n.assignees.deep_view() == i.assignees.deep_view()
}

/// `u` updates issue `i.number` with the optional members of `i`.
pub open spec fn updates(i: Issue, u: IssueUpdate) -> bool {
    &&& i.number == Some(u.number)
    &&& u.title.deep_view() == i.title.deep_view()
    &&& u.body.deep_view() == i.body.deep_view()
    &&& u.labels.deep_view() == i.labels.deep_view()
    &&& u.assignees.deep_view() == i.assignees.deep_view()
    &&& u.state == i.state
}

/// A title that a new issue can carry: present and not empty.
pub open spec fn has_title(title: Option<String>) -> bool {
    title matches Some(t) && t@.len() > 0
}

} // verus!
