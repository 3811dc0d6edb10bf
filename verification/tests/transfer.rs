use torshare::connector::Refusal;
use torshare::download_file::{
    Action, ByteRange, Destination, DownloadProgress, DownloadState, DownloadStateReturn, Event,
    Failure, FileInformation, Phase, Status, Transfer, Waiting,
};
use torshare::tor_utils::TorSocks5;

fn relay() -> TorSocks5 {
    TorSocks5 { host: "127.0.0.1".to_string(), port: 9050 }
}

fn file(name: &str, size: u64) -> FileInformation {
    FileInformation { name: name.to_string(), size }
}

fn connecting() -> Transfer {
    let mut transfer = Transfer::new(relay());
    assert_eq!(transfer.step(Event::Start), Some(Action::Launch));
    transfer
}

fn probing(size: u64) -> Transfer {
    let mut transfer = connecting();
    assert_eq!(transfer.step(Event::Probed(file("a.bin", size))), Some(Action::InspectDestination));
    transfer
}

fn receiving(size: u64) -> Transfer {
    let mut transfer = probing(size);
    assert_eq!(transfer.step(Event::Destination(Destination::Absent)), Some(Action::Fetch(None)));
    assert_eq!(transfer.step(Event::Opened), Some(Action::ReadChunk));
    transfer
}

fn resumed(size: u64, len: u64) -> Transfer {
    let mut transfer = probing(size);
    transfer.step(Event::Destination(Destination::RegularFile { len }));
    transfer.step(Event::Consent(Some(DownloadStateReturn::Continue(true))));
    assert_eq!(transfer.step(Event::Opened), Some(Action::ReadChunk));
    transfer
}

#[test]
fn a_new_transfer_has_not_started() {
    let transfer = Transfer::new(relay());
    assert_eq!(transfer.status, Status::Init);
    assert_eq!(transfer.phase(), Phase::Init);
    assert_eq!(transfer.socks5, relay());
    assert_eq!(transfer.file, file("", 0));
    assert_eq!(transfer.downloaded, 0);
    assert_eq!(transfer.speed, None);
    assert_eq!(transfer.state(), None);
    assert_eq!(transfer.progress(), None);
}

#[test]
fn starting_launches_the_transport() {
    let transfer = connecting();
    assert_eq!(transfer.status, Status::Connecting(Waiting::Tor));
    assert_eq!(transfer.phase(), Phase::Connecting);
    assert_eq!(transfer.state(), Some(DownloadState::ConnectingWaitingForTor));
}

#[test]
fn a_proxy_that_is_not_ready_is_tried_again() {
    let mut transfer = connecting();
    assert_eq!(transfer.step(Event::Refused(Refusal::ProxyNotReady)), Some(Action::Retry));
    assert_eq!(transfer.status, Status::Connecting(Waiting::Proxy));
    assert_eq!(transfer.state(), Some(DownloadState::ConnectingWaitingForProxy(&relay())));
}

#[test]
fn a_peer_that_is_not_reachable_is_tried_again() {
    let mut transfer = connecting();
    assert_eq!(transfer.step(Event::Refused(Refusal::PeerUnreachable)), Some(Action::Retry));
    assert_eq!(transfer.status, Status::Connecting(Waiting::Peer));
    assert_eq!(transfer.state(), Some(DownloadState::ConnectedWaitingForPeer));
}

#[test]
fn any_number_of_refusals_then_an_answer_reaches_the_probe() {
    for n in [0usize, 1, 2, 7, 100] {
        let mut transfer = connecting();
        for _ in 0..n {
            assert_eq!(transfer.step(Event::Refused(Refusal::ProxyNotReady)), Some(Action::Retry));
            assert_eq!(transfer.phase(), Phase::Connecting);
        }
        assert_eq!(
            transfer.step(Event::Probed(file("a.bin", 10))),
            Some(Action::InspectDestination)
        );
        assert_eq!(transfer.phase(), Phase::ProbingMetadata);
        assert_eq!(transfer.file, file("a.bin", 10));
        assert_eq!(transfer.state(), Some(DownloadState::ConnectedRetrievingFileInformation));
    }
}

#[test]
fn mixed_refusals_keep_connecting() {
    let mut transfer = connecting();
    transfer.step(Event::Refused(Refusal::ProxyNotReady));
    transfer.step(Event::Refused(Refusal::PeerUnreachable));
    transfer.step(Event::Refused(Refusal::ProxyNotReady));
    assert_eq!(transfer.status, Status::Connecting(Waiting::Proxy));
    assert_eq!(transfer.step(Event::Probed(file("a", 1))), Some(Action::InspectDestination));
}

#[test]
fn a_terminal_failure_while_connecting_ends_the_run() {
    let mut transfer = connecting();
    let refusal = Refusal::TerminalError("builder error".to_string());
    assert_eq!(transfer.step(Event::Refused(refusal)), Some(Action::Stop));
    assert_eq!(transfer.status, Status::Failed(Failure::Connect("builder error".to_string())));
    assert_eq!(transfer.phase(), Phase::DisconnectedError);
    assert_eq!(
        transfer.state(),
        Some(DownloadState::DisconnectedError("builder error".to_string()))
    );
}

#[test]
fn an_absent_destination_is_fetched_whole() {
    let mut transfer = probing(1000);
    assert_eq!(transfer.step(Event::Destination(Destination::Absent)), Some(Action::Fetch(None)));
    assert_eq!(transfer.status, Status::Requesting);
    assert_eq!(transfer.phase(), Phase::Transferring);
    assert_eq!(transfer.downloaded, 0);
    assert_eq!(
        transfer.state(),
        Some(DownloadState::ConnectedRetrievedFileInformation(&file("a.bin", 1000)))
    );
}

#[test]
fn an_existing_file_asks_for_consent() {
    let mut transfer = probing(1000);
    assert_eq!(
        transfer.step(Event::Destination(Destination::RegularFile { len: 400 })),
        Some(Action::AwaitConsent)
    );
    assert_eq!(transfer.phase(), Phase::AwaitingResumeConsent);
    assert_eq!(transfer.state(), Some(DownloadState::ConnectedAskForContinue));
}

#[test]
fn consent_resumes_at_the_length_of_the_file() {
    for len in [0u64, 1, 400, 999, 1000, 5000] {
        let mut transfer = probing(1000);
        transfer.step(Event::Destination(Destination::RegularFile { len }));
        let action = transfer.step(Event::Consent(Some(DownloadStateReturn::Continue(true))));
        assert_eq!(
            action,
            Some(Action::Fetch(Some(ByteRange { start: len, end: 999, total: 1000 })))
        );
        assert_eq!(transfer.status, Status::Requesting);
        assert_eq!(transfer.downloaded, len);
    }
}

#[test]
fn a_resumed_transfer_counts_from_the_length_of_the_file() {
    let mut transfer = resumed(1000, 400);
    transfer.step(Event::Chunk { len: 100, at_us: 10 });
    assert_eq!(transfer.progress().unwrap().downloaded_bytes, 500);
    assert_eq!(transfer.progress().unwrap().millipercent, Some(50_000));
}

#[test]
fn resuming_a_file_of_unknown_size_asks_from_its_length() {
    let mut transfer = probing(0);
    transfer.step(Event::Destination(Destination::RegularFile { len: 77 }));
    let action = transfer.step(Event::Consent(Some(DownloadStateReturn::Continue(true))));
    assert_eq!(action, Some(Action::Fetch(Some(ByteRange { start: 77, end: 0, total: 0 }))));
}

#[test]
fn declined_consent_aborts() {
    let mut transfer = probing(1000);
    transfer.step(Event::Destination(Destination::RegularFile { len: 400 }));
    let action = transfer.step(Event::Consent(Some(DownloadStateReturn::Continue(false))));
    assert_eq!(action, Some(Action::Stop));
    assert_eq!(transfer.status, Status::Aborted);
    assert_eq!(transfer.phase(), Phase::Aborted);
    assert_eq!(transfer.state(), Some(DownloadState::Aborted));
}

#[test]
fn no_answer_counts_as_declined() {
    let mut transfer = probing(1000);
    transfer.step(Event::Destination(Destination::RegularFile { len: 400 }));
    assert_eq!(transfer.step(Event::Consent(None)), Some(Action::Stop));
    assert_eq!(transfer.status, Status::Aborted);
}

#[test]
fn a_destination_that_is_no_regular_file_fails_without_a_request() {
    let mut transfer = probing(1000);
    assert_eq!(transfer.step(Event::Destination(Destination::Occupied)), Some(Action::Stop));
    assert_eq!(transfer.status, Status::Failed(Failure::NotRegularFile));
    assert_eq!(transfer.phase(), Phase::DisconnectedError);
    assert_eq!(
        transfer.state(),
        Some(DownloadState::DisconnectedError("path exists and is not a regular file".to_string()))
    );
}

#[test]
fn a_refused_request_for_the_file_starts_over_with_a_probe() {
    let mut transfer = probing(1000);
    transfer.step(Event::Destination(Destination::Absent));
    assert_eq!(transfer.step(Event::Refused(Refusal::PeerUnreachable)), Some(Action::Retry));
    assert_eq!(transfer.status, Status::Connecting(Waiting::Peer));
    assert_eq!(transfer.step(Event::Probed(file("a.bin", 1000))), Some(Action::InspectDestination));
}

#[test]
fn a_request_for_the_file_that_fails_for_good_ends_the_run() {
    let mut transfer = probing(1000);
    transfer.step(Event::Destination(Destination::Absent));
    let refusal = Refusal::TerminalError("bad".to_string());
    assert_eq!(transfer.step(Event::Refused(refusal)), Some(Action::Stop));
    assert_eq!(transfer.status, Status::Failed(Failure::Connect("bad".to_string())));
}

#[test]
fn an_answered_request_opens_the_stream() {
    let transfer = receiving(1000);
    assert_eq!(transfer.status, Status::Streaming);
    assert_eq!(transfer.phase(), Phase::Transferring);
    assert_eq!(transfer.progress(), None);
    assert_eq!(transfer.state(), Some(DownloadState::ConnectedRetrievingFileInformation));
}

#[test]
fn five_chunks_half_a_second_apart() {
    let mut transfer = receiving(1_000_000);
    let mut seen = Vec::new();
    for i in 1..=5u64 {
        let action = transfer.step(Event::Chunk { len: 200_000, at_us: i * 600_000 });
        assert_eq!(action, Some(Action::ReadChunk));
        assert_eq!(transfer.phase(), Phase::Transferring);
        seen.push(transfer.progress().unwrap());
    }
    let expected: Vec<DownloadProgress> = (1..=5u64)
        .map(|i| DownloadProgress {
            downloaded_bytes: i * 200_000,
            millipercent: Some(i * 20_000),
            speed_bytes_per_sec: 333_333,
        })
        .collect();
    assert_eq!(seen, expected);
    let percents: Vec<u64> = seen.iter().map(|p| p.millipercent.unwrap() / 1000).collect();
    assert_eq!(percents, vec![20, 40, 60, 80, 100]);
    assert_eq!(transfer.step(Event::EndOfStream), Some(Action::Stop));
    assert_eq!(transfer.phase(), Phase::Completed);
    assert_eq!(transfer.state(), Some(DownloadState::Completed));
}

#[test]
fn each_window_gets_its_own_rate() {
    let mut transfer = receiving(0);
    transfer.step(Event::Chunk { len: 100, at_us: 1_000_000 });
    assert_eq!(transfer.speed, Some(100));
    transfer.step(Event::Chunk { len: 100, at_us: 1_500_001 });
    assert_eq!(transfer.speed, Some(199));
    transfer.step(Event::Chunk { len: 3000, at_us: 3_500_001 });
    assert_eq!(transfer.speed, Some(1500));
}

#[test]
fn the_first_chunk_carries_a_provisional_rate() {
    let mut transfer = receiving(1000);
    transfer.step(Event::Chunk { len: 100, at_us: 100_000 });
    assert_eq!(transfer.progress().unwrap().speed_bytes_per_sec, 1000);
    assert_eq!(transfer.window_bytes, 100);
    assert_eq!(transfer.window_start_us, 0);
}

#[test]
fn the_rate_stands_until_the_window_is_over() {
    let mut transfer = receiving(1000);
    transfer.step(Event::Chunk { len: 100, at_us: 100_000 });
    transfer.step(Event::Chunk { len: 100, at_us: 200_000 });
    assert_eq!(transfer.progress().unwrap().speed_bytes_per_sec, 1000);
    transfer.step(Event::Chunk { len: 100, at_us: 500_000 });
    assert_eq!(transfer.progress().unwrap().speed_bytes_per_sec, 1000);
    assert_eq!(transfer.window_bytes, 300);
    transfer.step(Event::Chunk { len: 100, at_us: 500_001 });
    assert_eq!(transfer.progress().unwrap().speed_bytes_per_sec, 799);
    assert_eq!(transfer.window_bytes, 0);
    assert_eq!(transfer.window_start_us, 500_001);
}

#[test]
fn a_chunk_at_time_zero_still_has_a_rate() {
    let mut transfer = receiving(1000);
    transfer.step(Event::Chunk { len: 5, at_us: 0 });
    assert_eq!(transfer.progress().unwrap().speed_bytes_per_sec, 5_000_000);
}

#[test]
fn a_clock_that_runs_backwards_counts_as_no_time() {
    let mut transfer = receiving(1000);
    transfer.step(Event::Chunk { len: 10, at_us: 700_000 });
    transfer.step(Event::Chunk { len: 10, at_us: 600_000 });
    assert_eq!(transfer.window_start_us, 700_000);
    assert_eq!(transfer.window_bytes, 10);
    assert_eq!(transfer.progress().unwrap().downloaded_bytes, 20);
}

#[test]
fn bytes_reported_never_go_down() {
    let mut transfer = receiving(0);
    let mut last = 0;
    for (i, len) in [0u64, 5, 0, 1000, 3, u64::MAX, 9].iter().enumerate() {
        transfer.step(Event::Chunk { len: *len, at_us: i as u64 * 300_000 });
        let now = transfer.progress().unwrap().downloaded_bytes;
        assert!(now >= last);
        last = now;
    }
    assert_eq!(last, u64::MAX);
}

#[test]
fn an_unknown_size_never_shows_a_percentage() {
    let mut transfer = receiving(0);
    for i in 0..10u64 {
        transfer.step(Event::Chunk { len: 1000, at_us: i * 400_000 });
        assert_eq!(transfer.progress().unwrap().millipercent, None);
        match transfer.state() {
            Some(DownloadState::ConnectedDownloading(info, progress)) => {
                assert_eq!(info.size, 0);
                assert_eq!(progress.millipercent, None);
            }
            other => panic!("unexpected state {:?}", other),
        }
    }
}

#[test]
fn more_than_declared_is_more_than_a_hundred_percent() {
    let mut transfer = receiving(100);
    transfer.step(Event::Chunk { len: 250, at_us: 1 });
    assert_eq!(transfer.progress().unwrap().millipercent, Some(250_000));
}

#[test]
fn progress_is_shown_with_the_file() {
    let mut transfer = receiving(1000);
    transfer.step(Event::Chunk { len: 10, at_us: 1_000_000 });
    let progress =
        DownloadProgress { downloaded_bytes: 10, millipercent: Some(1000), speed_bytes_per_sec: 10 };
    assert_eq!(
        transfer.state(),
        Some(DownloadState::ConnectedDownloading(&file("a.bin", 1000), progress))
    );
}

#[test]
fn a_broken_stream_fails_and_is_not_retried() {
    let mut transfer = receiving(1000);
    transfer.step(Event::Chunk { len: 10, at_us: 1 });
    assert_eq!(transfer.step(Event::ReadFailed("reset".to_string())), Some(Action::Stop));
    assert_eq!(transfer.status, Status::Failed(Failure::Stream("reset".to_string())));
    assert_eq!(transfer.state(), Some(DownloadState::DisconnectedError("reset".to_string())));
    assert_eq!(transfer.downloaded, 10);
    assert_eq!(transfer.step(Event::Refused(Refusal::ProxyNotReady)), None);
}

#[test]
fn an_empty_stream_completes() {
    let mut transfer = receiving(0);
    assert_eq!(transfer.step(Event::EndOfStream), Some(Action::Stop));
    assert_eq!(transfer.status, Status::Completed);
}

#[test]
fn cancelling_aborts_from_every_status_that_is_not_final() {
    let mut downloading = receiving(10);
    downloading.step(Event::Chunk { len: 1, at_us: 1 });
    let mut asking = probing(10);
    asking.step(Event::Destination(Destination::RegularFile { len: 1 }));
    let mut requesting = probing(10);
    requesting.step(Event::Destination(Destination::Absent));
    let all =
        vec![Transfer::new(relay()), connecting(), probing(10), asking, requesting, receiving(10), downloading];
    for mut transfer in all {
        assert_eq!(transfer.step(Event::Cancelled), Some(Action::Stop));
        assert_eq!(transfer.status, Status::Aborted);
        assert_eq!(transfer.state(), Some(DownloadState::Aborted));
    }
}

#[test]
fn a_cancelled_transfer_never_completes() {
    let mut transfer = receiving(10);
    transfer.step(Event::Chunk { len: 9, at_us: 1 });
    transfer.step(Event::Cancelled);
    let before = transfer.clone();
    for event in [
        Event::Chunk { len: 1, at_us: 2 },
        Event::EndOfStream,
        Event::Start,
        Event::Opened,
        Event::Cancelled,
        Event::Probed(file("b", 2)),
    ] {
        assert_eq!(transfer.step(event), None);
        assert_eq!(transfer, before);
    }
    assert_eq!(transfer.phase(), Phase::Aborted);
}

#[test]
fn a_completed_transfer_ignores_cancellation() {
    let mut transfer = receiving(10);
    transfer.step(Event::EndOfStream);
    assert_eq!(transfer.step(Event::Cancelled), None);
    assert_eq!(transfer.status, Status::Completed);
}

#[test]
fn events_that_are_not_waited_for_change_nothing() {
    let mut transfer = connecting();
    let before = transfer.clone();
    for event in [
        Event::Start,
        Event::Destination(Destination::Absent),
        Event::Consent(Some(DownloadStateReturn::Continue(true))),
        Event::Opened,
        Event::Chunk { len: 1, at_us: 1 },
        Event::EndOfStream,
        Event::ReadFailed("x".to_string()),
    ] {
        assert_eq!(transfer.step(event), None);
        assert_eq!(transfer, before);
    }
    let mut transfer = receiving(10);
    let before = transfer.clone();
    for event in [
        Event::Start,
        Event::Probed(file("b", 2)),
        Event::Refused(Refusal::ProxyNotReady),
        Event::Destination(Destination::Occupied),
        Event::Consent(None),
        Event::Opened,
    ] {
        assert_eq!(transfer.step(event), None);
        assert_eq!(transfer, before);
    }
}

#[test]
fn a_failure_tells_its_cause() {
    assert_eq!(Failure::NotRegularFile.message(), "path exists and is not a regular file");
    assert_eq!(Failure::Connect("a".to_string()).message(), "a");
    assert_eq!(Failure::Stream("b".to_string()).message(), "b");
}

#[test]
fn the_sink_is_shown_each_new_state_once() {
    let shown = std::cell::RefCell::new(Vec::new());
    let sink = |state: DownloadState| {
        shown.borrow_mut().push(format!("{:?}", state));
        None
    };
    let mut transfer = Transfer::new(relay());
    assert_eq!(transfer.deliver(Event::Start, &sink), (Some(Action::Launch), None));
    assert_eq!(
        transfer.deliver(Event::Refused(Refusal::PeerUnreachable), &sink),
        (Some(Action::Retry), None)
    );
    assert_eq!(transfer.deliver(Event::Opened, &sink), (None, None));
    assert_eq!(
        transfer.deliver(Event::Probed(file("a", 4)), &sink),
        (Some(Action::InspectDestination), None)
    );
    assert_eq!(
        transfer.deliver(Event::Destination(Destination::Absent), &sink),
        (Some(Action::Fetch(None)), None)
    );
    assert_eq!(transfer.deliver(Event::Opened, &sink), (Some(Action::ReadChunk), None));
    assert_eq!(
        transfer.deliver(Event::Chunk { len: 4, at_us: 1_000_000 }, &sink),
        (Some(Action::ReadChunk), None)
    );
    assert_eq!(transfer.deliver(Event::EndOfStream, &sink), (Some(Action::Stop), None));
    assert_eq!(transfer.deliver(Event::Cancelled, &sink), (None, None));
    let expected = vec![
        "ConnectingWaitingForTor".to_string(),
        "ConnectedWaitingForPeer".to_string(),
        "ConnectedRetrievingFileInformation".to_string(),
        format!("ConnectedRetrievedFileInformation({:?})", file("a", 4)),
        "ConnectedRetrievingFileInformation".to_string(),
        format!(
            "ConnectedDownloading({:?}, {:?})",
            file("a", 4),
            DownloadProgress {
                downloaded_bytes: 4,
                millipercent: Some(100_000),
                speed_bytes_per_sec: 4
            }
        ),
        "Completed".to_string(),
    ];
    assert_eq!(*shown.borrow(), expected);
}

#[test]
fn the_answer_of_the_sink_comes_back_with_the_action() {
    let grant = |state: DownloadState| match state {
        DownloadState::ConnectedAskForContinue => Some(DownloadStateReturn::Continue(true)),
        _ => None,
    };
    let mut transfer = probing(100);
    let (action, answer) =
        transfer.deliver(Event::Destination(Destination::RegularFile { len: 30 }), &grant);
    assert_eq!(action, Some(Action::AwaitConsent));
    assert_eq!(answer, Some(DownloadStateReturn::Continue(true)));
    let (action, _) = transfer.deliver(Event::Consent(answer), &grant);
    assert_eq!(action, Some(Action::Fetch(Some(ByteRange { start: 30, end: 99, total: 100 }))));
}
