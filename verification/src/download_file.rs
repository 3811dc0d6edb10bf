//! The downloading side: what a probe tells of the file, and the state
//! machine of one transfer.
//!
//! The machine does no input or output. Its driver carries out the action
//! that a step returns, races it against the user's cancellation, and hands
//! back what happened as the next event. `Transfer::deliver` takes an event
//! and shows the user the state it led to; what the user answers to
//! `DownloadState::ConnectedAskForContinue` comes back as `Event::Consent`.

use crate::connector::Refusal;
use crate::decimal::{decimal, parse, parse_decimal, push_decimal};
use crate::disposition::{read_filename, suggested_name};
use crate::progress::{
    millipercent, rate, saturated, saturating_sum, share_of, transfer_rate, SAMPLE_WINDOW_US,
};
use crate::text::{chars_of, opt_text, push_str, string_of};
use crate::tor_share_url::TorShareUrl;
use crate::tor_utils::{TorDirOptions, TorSocks5};
use vstd::prelude::*;

verus! {

/// The name of the header that carries the range of a resumed transfer.
pub const RANGE_HEADER_NAME: &'static str = "Content-Range";

/// The name of the header that declares the size of the file.
pub const LENGTH_HEADER_NAME: &'static str = "Content-Length";

/// What a download is started with.
#[derive(Debug, Clone, PartialEq, Eq)]
pub struct DownloadOptions {
    pub tor_dir_options: TorDirOptions,
    pub url: TorShareUrl,
}

/// What a probe tells of the file: the name to save it under, and its size
/// in bytes, `0` where none was declared.
#[derive(Debug, Clone, PartialEq, Eq)]
pub struct FileInformation {
    pub name: String,
    pub size: u64,
}

/// How far a transfer has come.
#[derive(Debug, Clone, Copy, PartialEq, Eq)]
pub struct DownloadProgress {
    /// Bytes in the destination, those of an earlier run included.
    pub downloaded_bytes: u64,
    /// Thousandths of a percent of the declared size; `None` where the size
    /// is unknown.
    pub millipercent: Option<u64>,
    /// Bytes per second over the last sampling window.
    pub speed_bytes_per_sec: u64,
}

/// What the user is shown of a transfer.
#[derive(Debug, PartialEq, Eq)]
pub enum DownloadState<'a> {
    ConnectingWaitingForTor,
    ConnectingWaitingForProxy(&'a TorSocks5),
    ConnectedWaitingForPeer,
    ConnectedAskForContinue,
    ConnectedRetrievingFileInformation,
    ConnectedRetrievedFileInformation(&'a FileInformation),
    ConnectedDownloading(&'a FileInformation, DownloadProgress),
    Completed,
    Aborted,
    DisconnectedError(String),
}

/// What the user answers.
#[derive(Debug, Clone, Copy, PartialEq, Eq)]
pub enum DownloadStateReturn {
    /// Whether to go on with a file that is already there.
    Continue(bool),
}

/// The range of a file that a resumed transfer asks for.
#[derive(Debug, Clone, Copy, PartialEq, Eq)]
pub struct ByteRange {
    /// The first byte asked for.
    pub start: u64,
    /// The last byte asked for.
    pub end: u64,
    /// The declared size of the file.
    pub total: u64,
}

/// The name a file is saved under when the probe suggests none.
pub open spec fn fallback_name(path: Seq<char>) -> Seq<char> {
    path + ".file"@
}

/// The name a file is saved under: the one the probe's header suggests, or
/// the fallback.
pub open spec fn destination_name(path: Seq<char>, disposition: Option<Seq<char>>) -> Seq<char> {
    match disposition {
        Some(header) => match suggested_name(header) {
            Some(name) => name,
            None => fallback_name(path),
        },
        None => fallback_name(path),
    }
}

/// The size a probe declares: the number its length header writes, or `0`,
/// which stands for unknown, where the header is missing, is no number or
/// does not fit in 64 bits.
pub open spec fn declared_size(length: Option<Seq<char>>) -> u64 {
    match length {
        Some(text) => match parse(text) {
            Some(n) if n <= u64::MAX => n as u64,
            _ => 0,
        },
        None => 0,
    }
}

/// From `offset` to the last byte of a file of `size` bytes. Where the size
/// is unknown the last byte is given as `0`, like the size.
pub open spec fn resume_range(offset: u64, size: u64) -> ByteRange {
    ByteRange { start: offset, end: if size == 0 { 0 } else { (size - 1) as u64 }, total: size }
}

/// The text of a range.
pub open spec fn range_text(range: ByteRange) -> Seq<char> {
    "bytes "@ + decimal(range.start as nat) + seq!['-'] + decimal(range.end as nat) + seq!['/']
        + decimal(range.total as nat)
}

impl FileInformation {
    /// Reads the answer to a probe of the resource at `path`, given the two
    /// headers of interest where they were sent.
    pub fn from_headers(
        path: &str,
        content_disposition: Option<&str>,
        content_length: Option<&str>,
    ) -> (r: FileInformation)
        ensures
            r.name@ == destination_name(path@, opt_text(content_disposition)),
            r.size == declared_size(opt_text(content_length)),
            content_disposition is None ==> r.name@ == path@ + ".file"@,
            content_length is None ==> r.size == 0,
    {
        let suggested = match content_disposition {
            Some(header) => read_filename(header),
            None => None,
        };
        let name = match suggested {
            Some(name) => name,
            None => {
                let mut text = chars_of(path);
                push_str(&mut text, ".file");
                string_of(text.as_slice())
            },
        };
        let size = match content_length {
            Some(text) => {
                let digits = chars_of(text);
                match parse_decimal(digits.as_slice()) {
                    Some(n) => n,
                    None => 0,
                }
            },
            None => 0,
        };
        FileInformation { name, size }
    }
}

impl ByteRange {
    /// Computes `resume_range`.
    pub fn resume(offset: u64, size: u64) -> (r: ByteRange)
        ensures
            r == resume_range(offset, size),
    {
        ByteRange { start: offset, end: if size == 0 { 0 } else { size - 1 }, total: size }
    }

    /// The value of the header that carries the range.
    pub fn header_value(&self) -> (r: String)
        ensures
            r@ == range_text(*self),
    {
        let mut text: Vec<char> = Vec::new();
        push_str(&mut text, "bytes ");
        push_decimal(&mut text, self.start);
        text.push('-');
        push_decimal(&mut text, self.end);
        text.push('/');
        push_decimal(&mut text, self.total);
        string_of(text.as_slice())
    }
}

/// The stage a transfer is in.
#[derive(Debug, Clone, Copy, PartialEq, Eq)]
pub enum Phase {
    Init,
    Connecting,
    ProbingMetadata,
    AwaitingResumeConsent,
    Transferring,
    Completed,
    Aborted,
    DisconnectedError,
}

/// What a connecting transfer waits for.
#[derive(Debug, Clone, Copy, PartialEq, Eq)]
pub enum Waiting {
    /// The overlay process was just started.
    Tor,
    /// The local proxy did not accept the last request.
    Proxy,
    /// The remote peer did not answer the last request.
    Peer,
}

/// Why a transfer failed.
#[derive(Debug, Clone, PartialEq, Eq)]
pub enum Failure {
    /// The destination is there and is no regular file.
    NotRegularFile,
    /// A request failed for good, with the cause.
    Connect(String),
    /// The stream broke off, with the cause.
    Stream(String),
}

/// Where a transfer stands.
#[derive(Debug, Clone, PartialEq, Eq)]
pub enum Status {
    /// Not started.
    Init,
    /// A probe is under way.
    Connecting(Waiting),
    /// The probe was answered; the destination is being looked at.
    ProbingMetadata,
    /// The destination is there; the user is asked whether to go on.
    AwaitingResumeConsent,
    /// The file was asked for.
    Requesting,
    /// The file is coming; no chunk has arrived yet.
    Streaming,
    /// At least one chunk has arrived.
    Downloading,
    /// The stream ended.
    Completed,
    /// The user declined or cancelled.
    Aborted,
    /// The transfer failed.
    Failed(Failure),
}

/// What the driver found at the destination.
#[derive(Debug, Clone, Copy, PartialEq, Eq)]
pub enum Destination {
    /// Nothing.
    Absent,
    /// A regular file of `len` bytes.
    RegularFile { len: u64 },
    /// Something that is no regular file.
    Occupied,
}

/// What happened since the last step.
#[derive(Debug, Clone, PartialEq, Eq)]
pub enum Event {
    /// The user started the transfer.
    Start,
    /// The probe was answered.
    Probed(FileInformation),
    /// The probe, or the request for the file, got no response.
    Refused(Refusal),
    /// The destination was looked at.
    Destination(Destination),
    /// The user answered `DownloadState::ConnectedAskForContinue`, or gave
    /// no answer.
    Consent(Option<DownloadStateReturn>),
    /// The request for the file was answered. Time counts from here.
    Opened,
    /// A chunk of `len` bytes arrived, `at_us` microseconds after the
    /// request was answered, and was appended to the destination.
    Chunk { len: u64, at_us: u64 },
    /// The stream ended.
    EndOfStream,
    /// Reading the stream failed, with the cause.
    ReadFailed(String),
    /// The user cancelled.
    Cancelled,
}

/// What the driver does next.
#[derive(Debug, Clone, Copy, PartialEq, Eq)]
pub enum Action {
    /// Start the overlay process as a relay, then send the probe.
    Launch,
    /// Wait `RETRY_DELAY_MS`, then send the probe.
    Retry,
    /// Look at the destination, which is named by `Transfer::file`.
    InspectDestination,
    /// Hand the user's answer back.
    AwaitConsent,
    /// Open the destination and ask for the file: all of it into a new
    /// file, or the given range to append to the one that is there.
    Fetch(Option<ByteRange>),
    /// Wait for the next chunk.
    ReadChunk,
    /// Tear down and return.
    Stop,
}

/// One transfer.
#[derive(Debug, Clone, PartialEq, Eq)]
pub struct Transfer {
    pub status: Status,
    /// The relay the requests go through.
    pub socks5: TorSocks5,
    /// What the last probe told.
    pub file: FileInformation,
    /// Bytes in the destination.
    pub downloaded: u64,
    /// When the current sampling window began, in microseconds since the
    /// request for the file was answered.
    pub window_start_us: u64,
    /// Bytes that arrived within the current sampling window.
    pub window_bytes: u64,
    /// The last rate that was computed, in bytes per second.
    pub speed: Option<u64>,
}

impl Failure {
    /// What to tell the user.
    pub open spec fn text(self) -> Seq<char> {
        match self {
            Failure::NotRegularFile => "path exists and is not a regular file"@,
            Failure::Connect(cause) => cause@,
            Failure::Stream(cause) => cause@,
        }
    }

    /// Computes `text`.
    pub fn message(&self) -> (m: String)
        ensures
            m@ == self.text(),
    {
        match self {
            Failure::NotRegularFile => "path exists and is not a regular file".to_owned(),
            Failure::Connect(cause) => cause.clone(),
            Failure::Stream(cause) => cause.clone(),
        }
    }
}

impl Status {
    /// The stage this status belongs to.
    pub open spec fn phase(self) -> Phase {
        match self {
            Status::Init => Phase::Init,
            Status::Connecting(_) => Phase::Connecting,
            Status::ProbingMetadata => Phase::ProbingMetadata,
            Status::AwaitingResumeConsent => Phase::AwaitingResumeConsent,
            Status::Requesting => Phase::Transferring,
            Status::Streaming => Phase::Transferring,
            Status::Downloading => Phase::Transferring,
            Status::Completed => Phase::Completed,
            Status::Aborted => Phase::Aborted,
            Status::Failed(_) => Phase::DisconnectedError,
        }
    }

    /// No event leads out of this status.
    pub open spec fn is_terminal(self) -> bool {
        self is Completed || self is Aborted || self is Failed
    }

    /// The body of the response is being read.
    pub open spec fn is_receiving(self) -> bool {
        self is Streaming || self is Downloading
    }
}

/// The rate after a chunk of `len` bytes at `at_us`, and the sampling window
/// it leaves: its start and the bytes counted in it. Once the window is
/// longer than `SAMPLE_WINDOW_US` the rate is that of the window, and a new
/// window begins. Before that a rate is computed only if there is none yet.
pub open spec fn sampled(t: Transfer, len: u64, at_us: u64) -> (Option<u64>, u64, u64) {
    let elapsed = if at_us >= t.window_start_us {
        (at_us - t.window_start_us) as u64
    } else {
        0
    };
    let bytes = saturated(t.window_bytes + len);
    if elapsed > SAMPLE_WINDOW_US {
        (Some(rate(bytes, elapsed)), at_us, 0)
    } else if t.speed is None {
        (Some(rate(bytes, elapsed)), t.window_start_us, bytes)
    } else {
        (t.speed, t.window_start_us, bytes)
    }
}

/// The transfer after `event`, and what the driver does next. An event that
/// the current status does not wait for changes nothing and asks for
/// nothing.
pub open spec fn spec_step(t: Transfer, event: Event) -> (Transfer, Option<Action>) {
    if t.status.is_terminal() {
        (t, None)
    } else {
        match event {
            Event::Cancelled => (Transfer { status: Status::Aborted, ..t }, Some(Action::Stop)),
            Event::Start => if t.status is Init {
                (Transfer { status: Status::Connecting(Waiting::Tor), ..t }, Some(Action::Launch))
            } else {
                (t, None)
            },
            Event::Probed(file) => if t.status is Connecting {
                (
                    Transfer { status: Status::ProbingMetadata, file, ..t },
                    Some(Action::InspectDestination),
                )
            } else {
                (t, None)
            },
            Event::Refused(refusal) => if t.status is Connecting || t.status is Requesting {
                match refusal {
                    Refusal::ProxyNotReady => (
                        Transfer { status: Status::Connecting(Waiting::Proxy), ..t },
                        Some(Action::Retry),
                    ),
                    Refusal::PeerUnreachable => (
                        Transfer { status: Status::Connecting(Waiting::Peer), ..t },
                        Some(Action::Retry),
                    ),
                    Refusal::TerminalError(cause) => (
                        Transfer { status: Status::Failed(Failure::Connect(cause)), ..t },
                        Some(Action::Stop),
                    ),
                }
            } else {
                (t, None)
            },
            Event::Destination(found) => if t.status is ProbingMetadata {
                match found {
                    Destination::Absent => (
                        Transfer { status: Status::Requesting, downloaded: 0, ..t },
                        Some(Action::Fetch(None)),
                    ),
                    Destination::RegularFile { len } => (
                        Transfer { status: Status::AwaitingResumeConsent, downloaded: len, ..t },
                        Some(Action::AwaitConsent),
                    ),
                    Destination::Occupied => (
                        Transfer { status: Status::Failed(Failure::NotRegularFile), ..t },
                        Some(Action::Stop),
                    ),
                }
            } else {
                (t, None)
            },
            Event::Consent(answer) => if t.status is AwaitingResumeConsent {
                if answer == Some(DownloadStateReturn::Continue(true)) {
                    (
                        Transfer { status: Status::Requesting, ..t },
                        Some(Action::Fetch(Some(resume_range(t.downloaded, t.file.size)))),
                    )
                } else {
                    (Transfer { status: Status::Aborted, ..t }, Some(Action::Stop))
                }
            } else {
                (t, None)
            },
            Event::Opened => if t.status is Requesting {
                (
                    Transfer {
                        status: Status::Streaming,
                        window_start_us: 0,
                        window_bytes: 0,
                        speed: None,
                        ..t
                    },
                    Some(Action::ReadChunk),
                )
            } else {
                (t, None)
            },
            Event::Chunk { len, at_us } => if t.status.is_receiving() {
                (
                    Transfer {
                        status: Status::Downloading,
                        downloaded: saturated(t.downloaded + len),
                        speed: sampled(t, len, at_us).0,
                        window_start_us: sampled(t, len, at_us).1,
                        window_bytes: sampled(t, len, at_us).2,
                        ..t
                    },
                    Some(Action::ReadChunk),
                )
            } else {
                (t, None)
            },
            Event::EndOfStream => if t.status.is_receiving() {
                (Transfer { status: Status::Completed, ..t }, Some(Action::Stop))
            } else {
                (t, None)
            },
            Event::ReadFailed(cause) => if t.status.is_receiving() {
                (
                    Transfer { status: Status::Failed(Failure::Stream(cause)), ..t },
                    Some(Action::Stop),
                )
            } else {
                (t, None)
            },
        }
    }
}

impl Transfer {
    /// The progress the user is shown: none before the first chunk.
    pub open spec fn spec_progress(self) -> Option<DownloadProgress> {
        if self.status is Downloading {
            Some(
                DownloadProgress {
                    downloaded_bytes: self.downloaded,
                    millipercent: millipercent(self.downloaded, self.file.size),
                    speed_bytes_per_sec: match self.speed {
                        Some(speed) => speed,
                        None => 0,
                    },
                },
            )
        } else {
            None
        }
    }

    /// A transfer through the relay `socks5` that has not started.
    pub fn new(socks5: TorSocks5) -> (t: Transfer)
        ensures
            t.status == Status::Init,
            t.socks5 == socks5,
            t.file.name@ == Seq::<char>::empty(),
            t.file.size == 0,
            t.downloaded == 0,
            t.window_start_us == 0,
            t.window_bytes == 0,
            t.speed is None,
    {
        Transfer {
            status: Status::Init,
            socks5,
            file: FileInformation { name: String::new(), size: 0 },
            downloaded: 0,
            window_start_us: 0,
            window_bytes: 0,
            speed: None,
        }
    }

    /// The stage the transfer is in.
    pub fn phase(&self) -> (p: Phase)
        ensures
            p == self.status.phase(),
    {
        match &self.status {
            Status::Init => Phase::Init,
            Status::Connecting(_) => Phase::Connecting,
            Status::ProbingMetadata => Phase::ProbingMetadata,
            Status::AwaitingResumeConsent => Phase::AwaitingResumeConsent,
            Status::Requesting => Phase::Transferring,
            Status::Streaming => Phase::Transferring,
            Status::Downloading => Phase::Transferring,
            Status::Completed => Phase::Completed,
            Status::Aborted => Phase::Aborted,
            Status::Failed(_) => Phase::DisconnectedError,
        }
    }

    /// Computes `spec_progress`.
    pub fn progress(&self) -> (p: Option<DownloadProgress>)
        ensures
            p == self.spec_progress(),
    {
        match &self.status {
            Status::Downloading => Some(
                DownloadProgress {
                    downloaded_bytes: self.downloaded,
                    millipercent: share_of(self.downloaded, self.file.size),
                    speed_bytes_per_sec: match self.speed {
                        Some(speed) => speed,
                        None => 0,
                    },
                },
            ),
            _ => None,
        }
    }

    /// `shown` is what the user is shown of this transfer: nothing before
    /// the start, and after it one state for each status.
    pub open spec fn shows(self, shown: Option<DownloadState>) -> bool {
        match self.status {
            Status::Init => shown is None,
            Status::Connecting(Waiting::Tor) => shown == Some(
                DownloadState::ConnectingWaitingForTor,
            ),
            Status::Connecting(Waiting::Proxy) => shown == Some(
                DownloadState::ConnectingWaitingForProxy(&self.socks5),
            ),
            Status::Connecting(Waiting::Peer) => shown == Some(
                DownloadState::ConnectedWaitingForPeer,
            ),
            Status::ProbingMetadata => shown == Some(
                DownloadState::ConnectedRetrievingFileInformation,
            ),
            Status::AwaitingResumeConsent => shown == Some(DownloadState::ConnectedAskForContinue),
            Status::Requesting => shown == Some(
                DownloadState::ConnectedRetrievedFileInformation(&self.file),
            ),
            Status::Streaming => shown == Some(DownloadState::ConnectedRetrievingFileInformation),
            Status::Downloading => shown == Some(
                DownloadState::ConnectedDownloading(&self.file, self.spec_progress()->Some_0),
            ),
            Status::Completed => shown == Some(DownloadState::Completed),
            Status::Aborted => shown == Some(DownloadState::Aborted),
            Status::Failed(failure) => shown matches Some(DownloadState::DisconnectedError(m))
                && m@ == failure.text(),
        }
    }

    /// What the user is shown.
    pub fn state(&self) -> (r: Option<DownloadState<'_>>)
        ensures
            self.shows(r),
    {
        match &self.status {
            Status::Init => None,
            Status::Connecting(Waiting::Tor) => Some(DownloadState::ConnectingWaitingForTor),
            Status::Connecting(Waiting::Proxy) => Some(
                DownloadState::ConnectingWaitingForProxy(&self.socks5),
            ),
            Status::Connecting(Waiting::Peer) => Some(DownloadState::ConnectedWaitingForPeer),
            Status::ProbingMetadata => Some(DownloadState::ConnectedRetrievingFileInformation),
            Status::AwaitingResumeConsent => Some(DownloadState::ConnectedAskForContinue),
            Status::Requesting => Some(DownloadState::ConnectedRetrievedFileInformation(&self.file)),
            Status::Streaming => Some(DownloadState::ConnectedRetrievingFileInformation),
            Status::Downloading => {
                let progress = DownloadProgress {
                    downloaded_bytes: self.downloaded,
                    millipercent: share_of(self.downloaded, self.file.size),
                    speed_bytes_per_sec: match self.speed {
                        Some(speed) => speed,
                        None => 0,
                    },
                };
                Some(DownloadState::ConnectedDownloading(&self.file, progress))
            },
            Status::Completed => Some(DownloadState::Completed),
            Status::Aborted => Some(DownloadState::Aborted),
            Status::Failed(failure) => Some(DownloadState::DisconnectedError(failure.message())),
        }
    }

    /// Takes one event. The answer is the action to carry out, or `None`
    /// where the event was not waited for and nothing changed.
    pub fn step(&mut self, event: Event) -> (action: Option<Action>)
        ensures
            (*final(self), action) == spec_step(*old(self), event),
    {
        match &self.status {
            Status::Completed | Status::Aborted | Status::Failed(_) => {
                return None;
            },
            _ => {},
        }
        match event {
            Event::Cancelled => {
                self.status = Status::Aborted;
                Some(Action::Stop)
            },
            Event::Start => match &self.status {
                Status::Init => {
                    self.status = Status::Connecting(Waiting::Tor);
                    Some(Action::Launch)
                },
                _ => None,
            },
            Event::Probed(file) => match &self.status {
                Status::Connecting(_) => {
                    self.status = Status::ProbingMetadata;
                    self.file = file;
                    Some(Action::InspectDestination)
                },
                _ => None,
            },
            Event::Refused(refusal) => match &self.status {
                Status::Connecting(_) | Status::Requesting => match refusal {
                    Refusal::ProxyNotReady => {
                        self.status = Status::Connecting(Waiting::Proxy);
                        Some(Action::Retry)
                    },
                    Refusal::PeerUnreachable => {
                        self.status = Status::Connecting(Waiting::Peer);
                        Some(Action::Retry)
                    },
                    Refusal::TerminalError(cause) => {
                        self.status = Status::Failed(Failure::Connect(cause));
                        Some(Action::Stop)
                    },
                },
                _ => None,
            },
            Event::Destination(found) => match &self.status {
                Status::ProbingMetadata => match found {
                    Destination::Absent => {
                        self.status = Status::Requesting;
                        self.downloaded = 0;
                        Some(Action::Fetch(None))
                    },
                    Destination::RegularFile { len } => {
                        self.status = Status::AwaitingResumeConsent;
                        self.downloaded = len;
                        Some(Action::AwaitConsent)
                    },
                    Destination::Occupied => {
                        self.status = Status::Failed(Failure::NotRegularFile);
                        Some(Action::Stop)
                    },
                },
                _ => None,
            },
            Event::Consent(answer) => match &self.status {
                Status::AwaitingResumeConsent => match answer {
                    Some(DownloadStateReturn::Continue(true)) => {
                        self.status = Status::Requesting;
                        Some(Action::Fetch(Some(ByteRange::resume(self.downloaded, self.file.size))))
                    },
                    _ => {
                        self.status = Status::Aborted;
                        Some(Action::Stop)
                    },
                },
                _ => None,
            },
            Event::Opened => match &self.status {
                Status::Requesting => {
                    self.status = Status::Streaming;
                    self.window_start_us = 0;
                    self.window_bytes = 0;
                    self.speed = None;
                    Some(Action::ReadChunk)
                },
                _ => None,
            },
            Event::Chunk { len, at_us } => match &self.status {
                Status::Streaming | Status::Downloading => {
                    let elapsed: u64 = if at_us >= self.window_start_us {
                        at_us - self.window_start_us
                    } else {
                        0
                    };
                    let bytes = saturating_sum(self.window_bytes, len);
                    if elapsed > SAMPLE_WINDOW_US {
                        self.speed = Some(transfer_rate(bytes, elapsed));
                        self.window_start_us = at_us;
                        self.window_bytes = 0;
                    } else {
                        if self.speed.is_none() {
                            self.speed = Some(transfer_rate(bytes, elapsed));
                        }
                        self.window_bytes = bytes;
                    }
                    self.downloaded = saturating_sum(self.downloaded, len);
                    self.status = Status::Downloading;
                    Some(Action::ReadChunk)
                },
                _ => None,
            },
            Event::EndOfStream => match &self.status {
                Status::Streaming | Status::Downloading => {
                    self.status = Status::Completed;
                    Some(Action::Stop)
                },
                _ => None,
            },
            Event::ReadFailed(cause) => match &self.status {
                Status::Streaming | Status::Downloading => {
                    self.status = Status::Failed(Failure::Stream(cause));
                    Some(Action::Stop)
                },
                _ => None,
            },
        }
    }

    /// Takes one event and, where it changed the transfer, shows the new
    /// state to `sink`, once. The answer is the action to carry out and
    /// what the sink returned; the driver hands the latter back as
    /// `Event::Consent` where the action is `Action::AwaitConsent`.
    pub fn deliver<F: Fn(DownloadState) -> Option<DownloadStateReturn>>(
        &mut self,
        event: Event,
        sink: &F,
    ) -> (r: (Option<Action>, Option<DownloadStateReturn>))
        requires
            forall|state: DownloadState| call_requires(sink, (state,)),
        ensures
            (*final(self), r.0) == spec_step(*old(self), event),
            match r.0 {
                Some(_) => exists|state: DownloadState|
                    final(self).shows(Some(state)) && call_ensures(sink, (state,), r.1),
                None => r.1 is None,
            },
    {
        let action = self.step(event);
        let answer = match action {
            Some(_) => match self.state() {
                Some(state) => sink(state),
                None => None,
            },
            None => None,
        };
        (action, answer)
    }
}

} // verus!
