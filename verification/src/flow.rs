//! The update flow: from the update check through the user's choice, the
//! download and the install, to the restart.
//!
//! The shell performs the outside work (the check, the dialogs, the download)
//! and reports each outcome as an [`Event`]; the flow answers with the
//! [`Command`]s to carry out next. Every decision is made here.

use crate::dialog::DialogKind;
use vstd::prelude::*;

verus! {

/// Where the update flow stands.
#[derive(Clone, Copy, Debug, PartialEq, Eq, Structural)]
pub enum Phase {
    /// Asking the update service whether an update exists.
    Checking,
    /// An update was found; the question dialog is up, awaiting the user.
    AwaitingChoice,
    /// The user accepted; the update is downloading. `downloaded` counts the
    /// bytes received so far.
    Downloading { downloaded: u64 },
    /// The download finished; the update is being installed.
    Installing,
    /// The update is installed and a restart was requested.
    Restarting,
    /// The flow ended without installing: no update, or the user declined.
    Finished,
    /// The flow ended in failure: the check, the download or the install failed.
    Failed,
}

/// What the shell reports to the flow.
#[derive(Debug)]
pub enum Event {
    /// The update check found an update.
    UpdateFound,
    /// The update check found none.
    NoUpdate,
    /// The update check itself failed, with its error text.
    CheckFailed { error: String },
    /// The user answered the question dialog; `response` is the label of the
    /// chosen button.
    ChoiceMade { response: String },
    /// One chunk of the download arrived, together with the total size the
    /// server announced, when it announced one.
    ChunkReceived { chunk_length: u64, content_length: Option<u64> },
    /// The download completed.
    DownloadFinished,
    /// The update was installed.
    Installed,
    /// The download or the install failed, with its error text.
    InstallFailed { error: String },
}

/// What the shell must do next.
#[derive(Debug, PartialEq, Eq)]
pub enum Command {
    /// Show the given dialog.
    ShowDialog(DialogKind),
    /// Start downloading and installing the update.
    StartDownload,
    /// Restart the application.
    Restart,
    /// Give up with the given error text: a failed update check is fatal.
    Abort { error: String },
}

/// The byte counter after one more chunk. It sticks at the largest count
/// rather than wrap around.
pub open spec fn spec_add_chunk(downloaded: u64, chunk: u64) -> u64 {
    if downloaded + chunk <= u64::MAX {
        (downloaded + chunk) as u64
    } else {
        u64::MAX
    }
}

/// The phase after `event` arrives in `phase`. An event that cannot arise in
/// the given phase leaves it unchanged.
pub open spec fn spec_next(phase: Phase, event: Event) -> Phase {
    match (phase, event) {
        (Phase::Checking, Event::UpdateFound) => Phase::AwaitingChoice,
        (Phase::Checking, Event::NoUpdate) => Phase::Finished,
        (Phase::Checking, Event::CheckFailed { .. }) => Phase::Failed,
        (Phase::AwaitingChoice, Event::ChoiceMade { response }) => if response@ == "Yes"@ {
            Phase::Downloading { downloaded: 0 }
        } else {
            Phase::Finished
        },
        (
            Phase::Downloading { downloaded },
            Event::ChunkReceived { chunk_length, .. },
        ) => Phase::Downloading { downloaded: spec_add_chunk(downloaded, chunk_length) },
        (Phase::Downloading { .. }, Event::DownloadFinished) => Phase::Installing,
        (Phase::Downloading { .. }, Event::InstallFailed { .. }) => Phase::Failed,
        (Phase::Installing, Event::Installed) => Phase::Restarting,
        (Phase::Installing, Event::InstallFailed { .. }) => Phase::Failed,
        _ => phase,
    }
}

/// The commands issued when `event` arrives in `phase`, in order. An event
/// that cannot arise in the given phase issues none.
pub open spec fn spec_commands(phase: Phase, event: Event) -> Seq<Command> {
    match (phase, event) {
        (Phase::Checking, Event::UpdateFound) => seq![
            Command::ShowDialog(DialogKind::AskUpdate),
        ],
        (Phase::Checking, Event::CheckFailed { error }) => seq![Command::Abort { error }],
        (Phase::AwaitingChoice, Event::ChoiceMade { response }) => if response@ == "Yes"@ {
            seq![Command::StartDownload]
        } else {
            Seq::empty()
        },
        (
            Phase::Downloading { downloaded },
            Event::ChunkReceived { chunk_length, content_length },
        ) => seq![
            Command::ShowDialog(
                DialogKind::Progress {
                    downloaded: spec_add_chunk(downloaded, chunk_length),
                    content_length,
                },
            ),
        ],
        (Phase::Downloading { .. }, Event::DownloadFinished) => seq![
            Command::ShowDialog(DialogKind::DownloadFinished),
        ],
        (Phase::Installing, Event::Installed) => seq![
            Command::ShowDialog(DialogKind::Installed),
            Command::Restart,
        ],
        _ => Seq::empty(),
    }
}

/// True when the user's answer is the accepting label.
pub fn user_accepted(response: &String) -> (accepted: bool)
    ensures
        accepted == (response@ == "Yes"@),
{
    let yes: String = "Yes".to_owned();
    response.eq(&yes)
}

/// Adds one chunk to the byte counter; the counter sticks at the largest
/// count rather than wrap around.
pub fn add_chunk(downloaded: u64, chunk: u64) -> (total: u64)
    ensures
        total == spec_add_chunk(downloaded, chunk),
{
    if chunk <= u64::MAX - downloaded {
        downloaded + chunk
    } else {
        u64::MAX
    }
}

/// One run of the update flow: check, ask, download, install, restart.
#[derive(Debug)]
pub struct UpdateFlow {
    phase: Phase,
}

impl UpdateFlow {
    /// Where the flow stands.
    pub closed spec fn phase(&self) -> Phase {
        self.phase
    }

    /// Starts a flow, at the update check.
    pub fn new() -> (flow: UpdateFlow)
        ensures
            flow.phase() == Phase::Checking,
    {
        UpdateFlow { phase: Phase::Checking }
    }

    /// Reads the current phase.
    pub fn current_phase(&self) -> (phase: Phase)
        ensures
            phase == self.phase(),
    {
        self.phase
    }

    /// Feeds one event into the flow and returns the commands the shell must
    /// carry out, in order.
    pub fn on_event(&mut self, event: Event) -> (commands: Vec<Command>)
        ensures
            final(self).phase() == spec_next(old(self).phase(), event),
            commands@ == spec_commands(old(self).phase(), event),
    {
        let ghost e = event;
        let mut commands: Vec<Command> = Vec::new();
        match (self.phase, event) {
            (Phase::Checking, Event::UpdateFound) => {
                self.phase = Phase::AwaitingChoice;
                commands.push(Command::ShowDialog(DialogKind::AskUpdate));
            },
            (Phase::Checking, Event::NoUpdate) => {
                self.phase = Phase::Finished;
            },
            (Phase::Checking, Event::CheckFailed { error }) => {
                self.phase = Phase::Failed;
                commands.push(Command::Abort { error });
            },
            (Phase::AwaitingChoice, Event::ChoiceMade { response }) => {
                if user_accepted(&response) {
                    self.phase = Phase::Downloading { downloaded: 0 };
                    commands.push(Command::StartDownload);
                } else {
                    self.phase = Phase::Finished;
                }
            },
            (
                Phase::Downloading { downloaded },
                Event::ChunkReceived { chunk_length, content_length },
            ) => {
                let total: u64 = add_chunk(downloaded, chunk_length);
                self.phase = Phase::Downloading { downloaded: total };
                commands.push(
                    Command::ShowDialog(DialogKind::Progress { downloaded: total, content_length }),
                );
            },
            (Phase::Downloading { .. }, Event::DownloadFinished) => {
                self.phase = Phase::Installing;
                commands.push(Command::ShowDialog(DialogKind::DownloadFinished));
            },
            (Phase::Downloading { .. }, Event::InstallFailed { .. }) => {
                self.phase = Phase::Failed;
            },
            (Phase::Installing, Event::Installed) => {
                self.phase = Phase::Restarting;
                commands.push(Command::ShowDialog(DialogKind::Installed));
                commands.push(Command::Restart);
            },
            (Phase::Installing, Event::InstallFailed { .. }) => {
                self.phase = Phase::Failed;
            },
            _ => {},
        }
        proof {
            assert(commands@ =~= spec_commands(old(self).phase(), e));
        }
        commands
    }
}

} // verus!
