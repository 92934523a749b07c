use update_flow::dialog::DialogKind;
use update_flow::flow::add_chunk;
use update_flow::flow::user_accepted;
use update_flow::flow::Command;
use update_flow::flow::Event;
use update_flow::flow::Phase;
use update_flow::flow::UpdateFlow;

#[test]
fn starts_at_the_check() {
    let flow = UpdateFlow::new();
    assert_eq!(flow.current_phase(), Phase::Checking);
}

#[test]
fn full_run_to_restart() {
    let mut flow = UpdateFlow::new();

    let commands = flow.on_event(Event::UpdateFound);
    assert_eq!(flow.current_phase(), Phase::AwaitingChoice);
    assert_eq!(commands, vec![Command::ShowDialog(DialogKind::AskUpdate)]);

    let commands = flow.on_event(Event::ChoiceMade {
        response: "Yes".to_string(),
    });
    assert_eq!(flow.current_phase(), Phase::Downloading { downloaded: 0 });
    assert_eq!(commands, vec![Command::StartDownload]);

    let commands = flow.on_event(Event::ChunkReceived {
        chunk_length: 5,
        content_length: Some(12),
    });
    assert_eq!(flow.current_phase(), Phase::Downloading { downloaded: 5 });
    assert_eq!(
        commands,
        vec![Command::ShowDialog(DialogKind::Progress {
            downloaded: 5,
            content_length: Some(12),
        })]
    );

    let commands = flow.on_event(Event::ChunkReceived {
        chunk_length: 7,
        content_length: Some(12),
    });
    assert_eq!(flow.current_phase(), Phase::Downloading { downloaded: 12 });
    assert_eq!(
        commands,
        vec![Command::ShowDialog(DialogKind::Progress {
            downloaded: 12,
            content_length: Some(12),
        })]
    );

    let commands = flow.on_event(Event::DownloadFinished);
    assert_eq!(flow.current_phase(), Phase::Installing);
    assert_eq!(
        commands,
        vec![Command::ShowDialog(DialogKind::DownloadFinished)]
    );

    let commands = flow.on_event(Event::Installed);
    assert_eq!(flow.current_phase(), Phase::Restarting);
    assert_eq!(
        commands,
        vec![
            Command::ShowDialog(DialogKind::Installed),
            Command::Restart,
        ]
    );
}

#[test]
fn no_update_ends_the_flow() {
    let mut flow = UpdateFlow::new();
    let commands = flow.on_event(Event::NoUpdate);
    assert_eq!(flow.current_phase(), Phase::Finished);
    assert!(commands.is_empty());
}

#[test]
fn declined_update_ends_the_flow() {
    let mut flow = UpdateFlow::new();
    flow.on_event(Event::UpdateFound);
    let commands = flow.on_event(Event::ChoiceMade {
        response: "No".to_string(),
    });
    assert_eq!(flow.current_phase(), Phase::Finished);
    assert!(commands.is_empty());
}

#[test]
fn failed_check_aborts_with_the_error() {
    let mut flow = UpdateFlow::new();
    let commands = flow.on_event(Event::CheckFailed {
        error: "no release endpoint".to_string(),
    });
    assert_eq!(flow.current_phase(), Phase::Failed);
    assert_eq!(
        commands,
        vec![Command::Abort {
            error: "no release endpoint".to_string(),
        }]
    );
}

#[test]
fn failed_download_ends_in_failure() {
    let mut flow = UpdateFlow::new();
    flow.on_event(Event::UpdateFound);
    flow.on_event(Event::ChoiceMade {
        response: "Yes".to_string(),
    });
    let commands = flow.on_event(Event::InstallFailed {
        error: "connection reset".to_string(),
    });
    assert_eq!(flow.current_phase(), Phase::Failed);
    assert!(commands.is_empty());
}

#[test]
fn failed_install_ends_in_failure() {
    let mut flow = UpdateFlow::new();
    flow.on_event(Event::UpdateFound);
    flow.on_event(Event::ChoiceMade {
        response: "Yes".to_string(),
    });
    flow.on_event(Event::DownloadFinished);
    let commands = flow.on_event(Event::InstallFailed {
        error: "bad signature".to_string(),
    });
    assert_eq!(flow.current_phase(), Phase::Failed);
    assert!(commands.is_empty());
}

#[test]
fn byte_counter_sticks_at_the_top() {
    let mut flow = UpdateFlow::new();
    flow.on_event(Event::UpdateFound);
    flow.on_event(Event::ChoiceMade {
        response: "Yes".to_string(),
    });
    flow.on_event(Event::ChunkReceived {
        chunk_length: u64::MAX,
        content_length: None,
    });
    assert_eq!(
        flow.current_phase(),
        Phase::Downloading {
            downloaded: u64::MAX,
        }
    );
    let commands = flow.on_event(Event::ChunkReceived {
        chunk_length: 10,
        content_length: None,
    });
    assert_eq!(
        flow.current_phase(),
        Phase::Downloading {
            downloaded: u64::MAX,
        }
    );
    assert_eq!(
        commands,
        vec![Command::ShowDialog(DialogKind::Progress {
            downloaded: u64::MAX,
            content_length: None,
        })]
    );
}

#[test]
fn unexpected_event_is_ignored() {
    let mut flow = UpdateFlow::new();
    let commands = flow.on_event(Event::Installed);
    assert_eq!(flow.current_phase(), Phase::Checking);
    assert!(commands.is_empty());
}

#[test]
fn only_the_accepting_label_accepts() {
    assert!(user_accepted(&"Yes".to_string()));
    assert!(!user_accepted(&"No".to_string()));
    assert!(!user_accepted(&"yes".to_string()));
    assert!(!user_accepted(&"".to_string()));
}

#[test]
fn add_chunk_adds_and_saturates() {
    assert_eq!(add_chunk(0, 5), 5);
    assert_eq!(add_chunk(5, 7), 12);
    assert_eq!(add_chunk(u64::MAX - 1, 1), u64::MAX);
    assert_eq!(add_chunk(u64::MAX - 1, 2), u64::MAX);
    assert_eq!(add_chunk(u64::MAX, u64::MAX), u64::MAX);
}
