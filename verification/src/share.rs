//! The sharing side: the address a file is served under, the name it is
//! served with, and the life of one share.
//!
//! As with a transfer, the machine does no input or output: its driver
//! carries out the action a step returns, races it against the user's
//! cancellation, and hands back what happened. `Share::deliver` takes an
//! event and shows the user the state it led to.

use crate::random::all_alphanumeric;
use crate::text::{after_last, chars_of, last_index_of, push_range, string_of};
use crate::tor_share_url::{TorShareUrl, RANDOM_PATH_LENGTH};
use crate::tor_utils::TorDirOptions;
use vstd::prelude::*;

verus! {

/// The path to serve under, where the user chooses one.
#[derive(Debug, Clone, PartialEq, Eq)]
pub struct TorShareUrlOptions {
    pub path: Option<String>,
}

/// What a share is started with.
#[derive(Debug, Clone, PartialEq, Eq)]
pub struct ShareOptions {
    pub tor_dir_options: TorDirOptions,
    pub file_or_folder: String,
    pub id: Option<String>,
    pub tor_share_url_options: TorShareUrlOptions,
}

/// What the user is shown of a share.
#[derive(Debug, PartialEq, Eq)]
pub enum ShareState<'a> {
    ConnectingStartingTor,
    OnlineSharingNow(&'a TorShareUrl),
    OfflineStopped,
    OfflineError(String),
}

/// Where a share stands.
#[derive(Debug, Clone, PartialEq, Eq)]
pub enum ShareStatus {
    /// Not started.
    Init,
    /// The hidden service is being published.
    StartingTor,
    /// The file is served under this address.
    Online(TorShareUrl),
    /// The share has ended.
    Stopped,
    /// The hidden service could not be published, with the cause.
    Failed(String),
}

/// What happened since the last step.
#[derive(Debug, Clone, PartialEq, Eq)]
pub enum ShareEvent {
    /// The user started the share.
    Start,
    /// The hidden service is published; the file goes under this address.
    Ready(TorShareUrl),
    /// The hostname of the hidden service could not be read, with the cause.
    StartupFailed(String),
    /// The server returned by itself.
    ServerEnded,
    /// The user cancelled.
    Cancelled,
}

/// What the driver does next.
#[derive(Debug, Clone, Copy, PartialEq, Eq)]
pub enum ShareAction {
    /// Start the overlay process with a hidden service and wait for its
    /// hostname record.
    Launch,
    /// Serve the file under the path of the address, until the server
    /// returns.
    Serve,
    /// Give the directory up and return.
    Stop,
}

/// One share.
#[derive(Debug, Clone, PartialEq, Eq)]
pub struct Share {
    pub status: ShareStatus,
}

/// `path` ends with a component `.`: a `.` that stands alone or follows a
/// `/`.
pub open spec fn ends_with_dot_component(path: Seq<char>) -> bool {
    &&& path.len() > 0
    &&& path.last() == '.'
    &&& (path.len() == 1 || path[path.len() - 2] == '/')
}

/// `path` without the `/` and the components `.` it ends with.
pub open spec fn without_trailing(path: Seq<char>) -> Seq<char>
    decreases path.len(),
{
    if path.len() > 0 && (path.last() == '/' || ends_with_dot_component(path)) {
        without_trailing(path.drop_last())
    } else {
        path
    }
}

/// The name of what a path leads to: its last component, where trailing `/`
/// and components `.` do not count. There is none, and the name is empty,
/// where nothing else is left of the path or where that component is `..`.
pub open spec fn base_name(path: Seq<char>) -> Seq<char> {
    let stem = without_trailing(path);
    let last = stem.skip(last_index_of(stem, '/') + 1);
    if last == seq!['.', '.'] {
        Seq::empty()
    } else {
        last
    }
}

impl ShareStatus {
    /// No event leads out of this status.
    pub open spec fn is_terminal(self) -> bool {
        self is Stopped || self is Failed
    }
}

/// The share after `event`, and what the driver does next. An event that the
/// current status does not wait for changes nothing and asks for nothing.
pub open spec fn spec_share_step(s: Share, event: ShareEvent) -> (Share, Option<ShareAction>) {
    if s.status.is_terminal() {
        (s, None)
    } else {
        match event {
            ShareEvent::Cancelled => (Share { status: ShareStatus::Stopped }, Some(ShareAction::Stop)),
            ShareEvent::Start => if s.status is Init {
                (Share { status: ShareStatus::StartingTor }, Some(ShareAction::Launch))
            } else {
                (s, None)
            },
            ShareEvent::Ready(url) => if s.status is StartingTor {
                (Share { status: ShareStatus::Online(url) }, Some(ShareAction::Serve))
            } else {
                (s, None)
            },
            ShareEvent::StartupFailed(cause) => if s.status is StartingTor {
                (Share { status: ShareStatus::Failed(cause) }, Some(ShareAction::Stop))
            } else {
                (s, None)
            },
            ShareEvent::ServerEnded => if s.status is Online {
                (Share { status: ShareStatus::Stopped }, Some(ShareAction::Stop))
            } else {
                (s, None)
            },
        }
    }
}

/// The share after a run of events.
pub open spec fn share_run(s: Share, events: Seq<ShareEvent>) -> Share
    decreases events.len(),
{
    if events.len() == 0 {
        s
    } else {
        spec_share_step(share_run(s, events.drop_last()), events.last()).0
    }
}

/// Nothing leads out of a terminal status.
pub proof fn lemma_share_end_is_final(s: Share, events: Seq<ShareEvent>)
    requires
        s.status.is_terminal(),
    ensures
        share_run(s, events) == s,
    decreases events.len(),
{
    if events.len() > 0 {
        lemma_share_end_is_final(s, events.drop_last());
    }
}

/// A cancellation that reaches a share before it has ended stops it,
/// whatever follows.
pub proof fn lemma_share_cancellation_is_final(s: Share, later: Seq<ShareEvent>)
    requires
        !s.status.is_terminal(),
    ensures
        spec_share_step(s, ShareEvent::Cancelled).1 == Some(ShareAction::Stop),
        share_run(spec_share_step(s, ShareEvent::Cancelled).0, later).status
            == ShareStatus::Stopped,
{
    lemma_share_end_is_final(spec_share_step(s, ShareEvent::Cancelled).0, later);
}

/// `std::num::ParseIntError`, the error of reading an integer. It is
/// carried as it is: nothing is said of what it holds.
#[verifier::external_type_specification]
#[verifier::external_body]
pub struct ExParseIntError(std::num::ParseIntError);

impl std::str::FromStr for TorShareUrlOptions {
    type Err = std::num::ParseIntError;

    /// The options of a user who chose the path `s`. Every text is taken.
    fn from_str(s: &str) -> (r: Result<Self, Self::Err>)
        ensures
            r matches Ok(options) && options.path matches Some(path) && path@ == s@,
    {
        Ok(TorShareUrlOptions { path: Some(s.to_owned()) })
    }
}

impl TorShareUrlOptions {
    /// The address under `hostname`: with the path the user chose, or with a
    /// random one.
    pub fn into_tor_share_url(&self, hostname: &str) -> (r: TorShareUrl)
        ensures
            r.hostname@ == hostname@,
            match self.path {
                Some(path) => r.path == path,
                None => r.path@.len() == RANDOM_PATH_LENGTH && all_alphanumeric(r.path@),
            },
    {
        match &self.path {
            Some(path) => TorShareUrl { hostname: hostname.to_owned(), path: path.clone() },
            None => TorShareUrl::random_path(hostname.to_owned()),
        }
    }
}

/// The name a served file is offered under: the last component of its
/// path, or the empty name where the path has none.
pub fn lossy_file_name(path: &str) -> (r: Option<String>)
    ensures
        r matches Some(name) && name@ == base_name(path@),
{
    let text = chars_of(path);
    let mut end: usize = text.len();
    assert(text@.take(end as int) =~= text@);
    while end > 0 && (text[end - 1] == '/' || (text[end - 1] == '.' && (end == 1 || text[end - 2]
        == '/')))
        invariant
            end <= text.len(),
            without_trailing(text@) == without_trailing(text@.take(end as int)),
        decreases end,
    {
        assert(text@.take(end as int).drop_last() =~= text@.take(end - 1));
        end = end - 1;
    }
    let mut stem: Vec<char> = Vec::new();
    push_range(&mut stem, text.as_slice(), 0, end);
    assert(stem@ =~= text@.take(end as int));
    assert(stem@ == without_trailing(text@));
    let from = after_last(stem.as_slice(), '/');
    let mut name: Vec<char> = Vec::new();
    push_range(&mut name, stem.as_slice(), from, end);
    assert(name@ =~= stem@.skip(from as int));
    if name.len() == 2 && name[0] == '.' && name[1] == '.' {
        assert(name@ =~= seq!['.', '.']);
        return Some(String::new());
    }
    Some(string_of(name.as_slice()))
}

impl Share {
    /// A share that has not started.
    pub fn new() -> (s: Share)
        ensures
            s.status == ShareStatus::Init,
    {
        Share { status: ShareStatus::Init }
    }

    /// `shown` is what the user is shown of this share: nothing before the
    /// start, and after it one state for each status.
    pub open spec fn shows(self, shown: Option<ShareState>) -> bool {
        match self.status {
            ShareStatus::Init => shown is None,
            ShareStatus::StartingTor => shown == Some(ShareState::ConnectingStartingTor),
            ShareStatus::Online(url) => shown == Some(ShareState::OnlineSharingNow(&url)),
            ShareStatus::Stopped => shown == Some(ShareState::OfflineStopped),
            ShareStatus::Failed(cause) => shown == Some(ShareState::OfflineError(cause)),
        }
    }

    /// What the user is shown.
    pub fn state(&self) -> (r: Option<ShareState<'_>>)
        ensures
            self.shows(r),
    {
        match &self.status {
            ShareStatus::Init => None,
            ShareStatus::StartingTor => Some(ShareState::ConnectingStartingTor),
            ShareStatus::Online(url) => Some(ShareState::OnlineSharingNow(url)),
            ShareStatus::Stopped => Some(ShareState::OfflineStopped),
            ShareStatus::Failed(cause) => Some(ShareState::OfflineError(cause.clone())),
        }
    }

    /// Takes one event. The answer is the action to carry out, or `None`
    /// where the event was not waited for and nothing changed.
    pub fn step(&mut self, event: ShareEvent) -> (action: Option<ShareAction>)
        ensures
            (*final(self), action) == spec_share_step(*old(self), event),
    {
        match &self.status {
            ShareStatus::Stopped | ShareStatus::Failed(_) => {
                return None;
            },
            _ => {},
        }
        match event {
            ShareEvent::Cancelled => {
                self.status = ShareStatus::Stopped;
                Some(ShareAction::Stop)
            },
            ShareEvent::Start => match &self.status {
                ShareStatus::Init => {
                    self.status = ShareStatus::StartingTor;
                    Some(ShareAction::Launch)
                },
                _ => None,
            },
            ShareEvent::Ready(url) => match &self.status {
                ShareStatus::StartingTor => {
                    self.status = ShareStatus::Online(url);
                    Some(ShareAction::Serve)
                },
                _ => None,
            },
            ShareEvent::StartupFailed(cause) => match &self.status {
                ShareStatus::StartingTor => {
                    self.status = ShareStatus::Failed(cause);
                    Some(ShareAction::Stop)
                },
                _ => None,
            },
            ShareEvent::ServerEnded => match &self.status {
                ShareStatus::Online(_) => {
                    self.status = ShareStatus::Stopped;
                    Some(ShareAction::Stop)
                },
                _ => None,
            },
        }
    }

    /// Takes one event and, where it changed the share, shows the new state
    /// to `sink`, once. The answer is the action to carry out.
    pub fn deliver<F: Fn(ShareState)>(&mut self, event: ShareEvent, sink: &F) -> (action: Option<
        ShareAction,
    >)
        requires
            forall|state: ShareState| call_requires(sink, (state,)),
        ensures
            (*final(self), action) == spec_share_step(*old(self), event),
            action is Some ==> exists|state: ShareState|
                final(self).shows(Some(state)) && call_ensures(sink, (state,), ()),
    {
        let action = self.step(event);
        if action.is_some() {
            match self.state() {
                Some(state) => sink(state),
                None => {},
            }
        }
        action
    }
}

} // verus!
