//! The line of status the user reads: a colour and a text for each state of
//! a transfer and of a share, and what the user's answer to the one
//! question means.
//!
//! Sizes and rates are written in megabytes of a million bytes with three
//! decimals, percentages with one; both are rounded down.

use crate::decimal::{decimal, digit_char, push_decimal};
use crate::download_file::{DownloadState, DownloadStateReturn};
use crate::share::ShareState;
use crate::text::{chars_of, push_str, string_of, trim, trimmed};
use crate::tor_share_url::serialize;
use vstd::prelude::*;

verus! {

/// The colour of a line.
#[derive(Debug, Clone, Copy, PartialEq, Eq)]
pub enum StatusColor {
    /// Something is waited for.
    Yellow,
    /// All is well.
    Green,
    /// The run has ended.
    Red,
}

/// One line of status.
#[derive(Debug, Clone, PartialEq, Eq)]
pub struct StatusLine {
    pub color: StatusColor,
    pub text: String,
}

/// What the user typed agrees to go on: without the whitespace around it,
/// it is `y` or `yes`, in capitals or not.
pub open spec fn agrees(answer: Seq<char>) -> bool {
    let word = trimmed(answer);
    ||| word.len() == 1 && (word[0] == 'y' || word[0] == 'Y')
    ||| {
        &&& word.len() == 3
        &&& (word[0] == 'y' || word[0] == 'Y')
        &&& (word[1] == 'e' || word[1] == 'E')
        &&& (word[2] == 's' || word[2] == 'S')
    }
}

/// `n` thousandths, written with three decimals.
pub open spec fn thousandths(n: nat) -> Seq<char> {
    decimal(n / 1000) + seq![
        '.',
        digit_char((n / 100 % 10) as int),
        digit_char((n / 10 % 10) as int),
        digit_char((n % 10) as int),
    ]
}

/// `n` tenths, written with one decimal.
pub open spec fn tenths(n: nat) -> Seq<char> {
    decimal(n / 10) + seq!['.', digit_char((n % 10) as int)]
}

/// A number of bytes in megabytes.
pub open spec fn megabytes(bytes: u64) -> Seq<char> {
    thousandths((bytes / 1000) as nat)
}

/// Thousandths of a percent in percent.
pub open spec fn percent(millipercent: u64) -> Seq<char> {
    tenths((millipercent / 100) as nat)
}

/// The colour a state of a transfer is shown in.
pub open spec fn download_color(state: DownloadState) -> StatusColor {
    match state {
        DownloadState::ConnectingWaitingForTor => StatusColor::Yellow,
        DownloadState::ConnectingWaitingForProxy(_) => StatusColor::Yellow,
        DownloadState::ConnectedWaitingForPeer => StatusColor::Yellow,
        DownloadState::ConnectedAskForContinue => StatusColor::Yellow,
        DownloadState::ConnectedRetrievingFileInformation => StatusColor::Green,
        DownloadState::ConnectedRetrievedFileInformation(_) => StatusColor::Green,
        DownloadState::ConnectedDownloading(_, _) => StatusColor::Green,
        DownloadState::Completed => StatusColor::Green,
        DownloadState::Aborted => StatusColor::Red,
        DownloadState::DisconnectedError(_) => StatusColor::Red,
    }
}

/// The text a state of a transfer is shown with.
pub open spec fn download_text(state: DownloadState) -> Seq<char> {
    match state {
        DownloadState::ConnectingWaitingForTor => "Connecting to tor network..."@,
        DownloadState::ConnectingWaitingForProxy(socks5) =>
            "Connecting to tor network... Waiting for proxy... "@ + decimal(socks5.port as nat),
        DownloadState::ConnectedWaitingForPeer => "Waiting for sharing side to come online..."@,
        DownloadState::ConnectedAskForContinue =>
            "The file is already there. Continue the download? [y/N]"@,
        DownloadState::ConnectedRetrievingFileInformation => "Retrieving file information..."@,
        DownloadState::ConnectedRetrievedFileInformation(file) => " "@ + file.name@ + ": 0% of "@
            + megabytes(file.size) + "mb"@,
        DownloadState::ConnectedDownloading(file, progress) => match progress.millipercent {
            None => file.name@ + ": "@ + megabytes(progress.downloaded_bytes) + "mb of unknown "@
                + megabytes(progress.speed_bytes_per_sec) + "mb/s"@,
            Some(share) => file.name@ + ": "@ + megabytes(progress.downloaded_bytes) + "mb of "@
                + megabytes(file.size) + "mb "@ + percent(share) + "% "@ + megabytes(
                progress.speed_bytes_per_sec,
            ) + "mb/s"@,
        },
        DownloadState::Completed => "Download complete\n"@,
        DownloadState::Aborted => "Stopped downloading\n"@,
        DownloadState::DisconnectedError(error) => "Error: "@ + error@,
    }
}

/// The colour a state of a share is shown in.
pub open spec fn share_color(state: ShareState) -> StatusColor {
    match state {
        ShareState::ConnectingStartingTor => StatusColor::Yellow,
        ShareState::OnlineSharingNow(_) => StatusColor::Green,
        ShareState::OfflineStopped => StatusColor::Red,
        ShareState::OfflineError(_) => StatusColor::Red,
    }
}

/// The text a state of a share is shown with.
pub open spec fn share_text(state: ShareState) -> Seq<char> {
    match state {
        ShareState::ConnectingStartingTor => "Starting Tor"@,
        ShareState::OnlineSharingNow(url) =>
            "Sharing now! Run following command to download: \"torshare download "@ + serialize(
                url@,
            ) + "\""@,
        ShareState::OfflineStopped => "Stopped sharing\n"@,
        ShareState::OfflineError(error) => "Error: "@ + error@ + "\n"@,
    }
}

/// Marks the place of the status line. Lines are written one below the
/// other, so there is no place to mark.
pub fn save_cursor_position() {
}

/// What the user answered to `DownloadState::ConnectedAskForContinue`,
/// given the line that was typed.
pub fn consent_of(answer: &str) -> (r: DownloadStateReturn)
    ensures
        r == DownloadStateReturn::Continue(agrees(answer@)),
{
    let text = chars_of(answer);
    let word = trim(text.as_slice());
    let agreed = if word.len() == 1 {
        word[0] == 'y' || word[0] == 'Y'
    } else if word.len() == 3 {
        (word[0] == 'y' || word[0] == 'Y') && (word[1] == 'e' || word[1] == 'E') && (word[2] == 's'
            || word[2] == 'S')
    } else {
        false
    };
    DownloadStateReturn::Continue(agreed)
}

/// Appends `thousandths(n)`.
pub fn push_thousandths(dst: &mut Vec<char>, n: u64)
    ensures
        final(dst)@ == old(dst)@ + thousandths(n as nat),
{
    push_decimal(dst, n / 1000);
    dst.push('.');
    dst.push((48u8 + (n / 100 % 10) as u8) as char);
    dst.push((48u8 + (n / 10 % 10) as u8) as char);
    dst.push((48u8 + (n % 10) as u8) as char);
    assert(dst@ =~= old(dst)@ + thousandths(n as nat));
}

/// Appends `tenths(n)`.
pub fn push_tenths(dst: &mut Vec<char>, n: u64)
    ensures
        final(dst)@ == old(dst)@ + tenths(n as nat),
{
    push_decimal(dst, n / 10);
    dst.push('.');
    dst.push((48u8 + (n % 10) as u8) as char);
    assert(dst@ =~= old(dst)@ + tenths(n as nat));
}

/// The line for a state of a transfer.
pub fn download_status(state: &DownloadState) -> (line: StatusLine)
    ensures
        line.color == download_color(*state),
        line.text@ == download_text(*state),
{
    let mut text: Vec<char> = Vec::new();
    let color = match state {
        DownloadState::ConnectingWaitingForTor => {
            push_str(&mut text, "Connecting to tor network...");
            StatusColor::Yellow
        },
        DownloadState::ConnectingWaitingForProxy(socks5) => {
            push_str(&mut text, "Connecting to tor network... Waiting for proxy... ");
            push_decimal(&mut text, socks5.port as u64);
            StatusColor::Yellow
        },
        DownloadState::ConnectedWaitingForPeer => {
            push_str(&mut text, "Waiting for sharing side to come online...");
            StatusColor::Yellow
        },
        DownloadState::ConnectedAskForContinue => {
            push_str(&mut text, "The file is already there. Continue the download? [y/N]");
            StatusColor::Yellow
        },
        DownloadState::ConnectedRetrievingFileInformation => {
            push_str(&mut text, "Retrieving file information...");
            StatusColor::Green
        },
        DownloadState::ConnectedRetrievedFileInformation(file) => {
            push_str(&mut text, " ");
            push_str(&mut text, file.name.as_str());
            push_str(&mut text, ": 0% of ");
            push_thousandths(&mut text, file.size / 1000);
            push_str(&mut text, "mb");
            StatusColor::Green
        },
        DownloadState::ConnectedDownloading(file, progress) => {
            push_str(&mut text, file.name.as_str());
            push_str(&mut text, ": ");
            push_thousandths(&mut text, progress.downloaded_bytes / 1000);
            match progress.millipercent {
                None => {
                    push_str(&mut text, "mb of unknown ");
                },
                Some(share) => {
                    push_str(&mut text, "mb of ");
                    push_thousandths(&mut text, file.size / 1000);
                    push_str(&mut text, "mb ");
                    push_tenths(&mut text, share / 100);
                    push_str(&mut text, "% ");
                },
            }
            push_thousandths(&mut text, progress.speed_bytes_per_sec / 1000);
            push_str(&mut text, "mb/s");
            StatusColor::Green
        },
        DownloadState::Completed => {
            push_str(&mut text, "Download complete\n");
            StatusColor::Green
        },
        DownloadState::Aborted => {
            push_str(&mut text, "Stopped downloading\n");
            StatusColor::Red
        },
        DownloadState::DisconnectedError(error) => {
            push_str(&mut text, "Error: ");
            push_str(&mut text, error.as_str());
            StatusColor::Red
        },
    };
    assert(text@ =~= download_text(*state));
    StatusLine { color, text: string_of(text.as_slice()) }
}

/// The line for a state of a share.
pub fn share_status(state: &ShareState) -> (line: StatusLine)
    ensures
        line.color == share_color(*state),
        line.text@ == share_text(*state),
{
    let mut text: Vec<char> = Vec::new();
    let color = match state {
        ShareState::ConnectingStartingTor => {
            push_str(&mut text, "Starting Tor");
            StatusColor::Yellow
        },
        ShareState::OnlineSharingNow(url) => {
            push_str(&mut text, "Sharing now! Run following command to download: \"torshare download ");
            push_str(&mut text, url.hostname.as_str());
            text.push('/');
            push_str(&mut text, url.path.as_str());
            push_str(&mut text, "\"");
            StatusColor::Green
        },
        ShareState::OfflineStopped => {
            push_str(&mut text, "Stopped sharing\n");
            StatusColor::Red
        },
        ShareState::OfflineError(error) => {
            push_str(&mut text, "Error: ");
            push_str(&mut text, error.as_str());
            push_str(&mut text, "\n");
            StatusColor::Red
        },
    };
    assert(text@ =~= share_text(*state));
    StatusLine { color, text: string_of(text.as_slice()) }
}

} // verus!
