use vstd::prelude::*;
use vstd::string::StringExecFns;

verus! {

/// The state of one status line on a commit.
#[derive(Clone, Copy, Debug, PartialEq, Eq, Structural)]
pub enum StatusState {
    Pending,
    Success,
    Error,
    Failure,
}

impl StatusState {
    pub open spec fn spec_label(self) -> Seq<char> {
        match self {
            StatusState::Pending => "Pending"@,
            StatusState::Success => "Success"@,
            StatusState::Error => "Error"@,
            StatusState::Failure => "Failure"@,
        }
    }

    /// The state's name, as the GitHub client spells it.
    pub fn label(&self) -> (r: String)
        ensures
            r@ == self.spec_label(),
    {
        match self {
            StatusState::Pending => String::from_str("Pending"),
            StatusState::Success => String::from_str("Success"),
            StatusState::Error => String::from_str("Error"),
            StatusState::Failure => String::from_str("Failure"),
        }
    }
}

/// One write to GitHub's commit statuses: the state of `context` on commit `sha`.
pub struct StatusUpdate {
    pub sha: String,
    pub context: String,
    pub description: String,
    pub target_url: String,
    pub state: StatusState,
}

pub struct StatusUpdateView {
    pub sha: Seq<char>,
    pub context: Seq<char>,
    pub description: Seq<char>,
    pub target_url: Seq<char>,
    pub state: StatusState,
}

impl View for StatusUpdate {
    type V = StatusUpdateView;

    open spec fn view(&self) -> StatusUpdateView {
        StatusUpdateView {
            sha: self.sha@,
            context: self.context@,
            description: self.description@,
            target_url: self.target_url@,
            state: self.state,
        }
    }
}

/// A status line on one commit, under one context. Setting it builds the
/// write that the caller sends; building one sends nothing.
pub struct CommitStatus {
    sha: String,
    context: String,
    description: String,
    url: String,
}

pub struct CommitStatusView {
    pub sha: Seq<char>,
    pub context: Seq<char>,
    pub description: Seq<char>,
    pub url: Seq<char>,
}

impl CommitStatusView {
    /// The write that reports this status line in `state`.
    pub open spec fn update(self, state: StatusState) -> StatusUpdateView {
        StatusUpdateView {
            sha: self.sha,
            context: self.context,
            description: self.description,
            target_url: self.url,
            state,
        }
    }
}

impl View for CommitStatus {
    type V = CommitStatusView;

    closed spec fn view(&self) -> CommitStatusView {
        CommitStatusView {
            sha: self.sha@,
            context: self.context@,
            description: self.description@,
            url: self.url@,
        }
    }
}

/// The link a status carries: none is written as the empty string.
pub open spec fn url_or_empty(url: Option<String>) -> Seq<char> {
    match url {
        Some(u) => u@,
        None => Seq::empty(),
    }
}

impl CommitStatus {
    pub fn new(sha: String, context: String, description: String, url: Option<String>) -> (r:
        CommitStatus)
        ensures
            r@ == (CommitStatusView {
                sha: sha@,
                context: context@,
                description: description@,
                url: url_or_empty(url),
            }),
    {
        let mut stat = CommitStatus { sha, context, description, url: String::new() };
        stat.set_url(url);
        stat
    }

    pub fn set_url(&mut self, url: Option<String>)
        ensures
            final(self)@ == (CommitStatusView { url: url_or_empty(url), ..old(self)@ }),
    {
        self.url = match url {
            Some(u) => u,
            None => String::new(),
        };
    }

    pub fn set_description(&mut self, description: String)
        ensures
            final(self)@ == (CommitStatusView { description: description@, ..old(self)@ }),
    {
        self.description = description;
    }

    /// Takes `description`, then builds the write for `state`.
    pub fn set_with_description(&mut self, description: &str, state: StatusState) -> (u:
        StatusUpdate)
        ensures
            final(self)@ == (CommitStatusView { description: description@, ..old(self)@ }),
            u@ == final(self)@.update(state),
    {
        self.set_description(description.to_owned());
        self.set(state)
    }

    /// The write for `state`, with the description and link held now.
    pub fn set(&self, state: StatusState) -> (u: StatusUpdate)
        ensures
            u@ == self@.update(state),
    {
        StatusUpdate {
            sha: self.sha.clone(),
            context: self.context.clone(),
            description: self.description.clone(),
            target_url: self.url.clone(),
            state,
        }
    }

    pub fn context(&self) -> (r: &String)
        ensures
            r@ == self@.context,
    {
        &self.context
    }

    pub fn description(&self) -> (r: &String)
        ensures
            r@ == self@.description,
    {
        &self.description
    }
}

} // verus!
