//! The dialogs the update flow asks the shell to show, with their exact texts.

use crate::decimal::decimal_digits;
use crate::decimal::option_decimal;
use crate::decimal::option_u64_to_text;
use crate::decimal::u64_to_decimal;
use vstd::prelude::*;

verus! {

/// Which dialog the update flow asks the shell to show next.
#[derive(Clone, Copy, Debug, PartialEq, Eq)]
pub enum DialogKind {
    /// An update was found: ask whether to install it now.
    AskUpdate,
    /// Progress so far: bytes downloaded, and the total size when the server
    /// announced one.
    Progress { downloaded: u64, content_length: Option<u64> },
    /// The download has completed.
    DownloadFinished,
    /// The update is installed and the application is about to restart.
    Installed,
}

/// The button set a dialog offers.
#[derive(Debug)]
pub enum Buttons {
    /// A single acknowledgement button.
    OkOnly,
    /// A confirming and a declining button with the given labels.
    ConfirmDeny { confirm: String, deny: String },
}

/// The mathematical value of a [`Buttons`]: its labels as character sequences.
pub enum ButtonsView {
    OkOnly,
    ConfirmDeny { confirm: Seq<char>, deny: Seq<char> },
}

impl View for Buttons {
    type V = ButtonsView;

    open spec fn view(&self) -> ButtonsView {
        match self {
            Buttons::OkOnly => ButtonsView::OkOnly,
            Buttons::ConfirmDeny { confirm, deny } => ButtonsView::ConfirmDeny {
                confirm: confirm@,
                deny: deny@,
            },
        }
    }
}

/// A message dialog: a short message line, a longer title line, and buttons.
#[derive(Debug)]
pub struct Dialog {
    pub message: String,
    pub title: String,
    pub buttons: Buttons,
}

/// The mathematical value of a [`Dialog`]: its texts as character sequences.
pub struct DialogView {
    pub message: Seq<char>,
    pub title: Seq<char>,
    pub buttons: ButtonsView,
}

impl View for Dialog {
    type V = DialogView;

    open spec fn view(&self) -> DialogView {
        DialogView { message: self.message@, title: self.title@, buttons: self.buttons@ }
    }
}

/// The exact message line of each dialog.
pub open spec fn spec_message(kind: DialogKind) -> Seq<char> {
    match kind {
        DialogKind::AskUpdate => "Update Available"@,
        DialogKind::Progress { .. } => "Downloading"@,
        DialogKind::DownloadFinished => "Download Finished"@,
        DialogKind::Installed => "Update Installed"@,
    }
}

/// The exact title line of each dialog. The progress title carries the byte
/// count downloaded so far and the optional announced total.
pub open spec fn spec_title(kind: DialogKind) -> Seq<char> {
    match kind {
        DialogKind::AskUpdate => "An update is available. Do you want to update now?"@,
        DialogKind::Progress { downloaded, content_length } => "Downloaded "@ + decimal_digits(
            downloaded as int,
        ) + " from "@ + option_decimal(content_length),
        DialogKind::DownloadFinished => "The download has finished."@,
        DialogKind::Installed => "The update has been installed. The application will now restart."@,
    }
}

/// The exact buttons of each dialog: the question offers Yes and No, every
/// notice a single acknowledgement.
pub open spec fn spec_buttons(kind: DialogKind) -> ButtonsView {
    match kind {
        DialogKind::AskUpdate => ButtonsView::ConfirmDeny { confirm: "Yes"@, deny: "No"@ },
        _ => ButtonsView::OkOnly,
    }
}

/// The dialog shown for `kind`, in full.
pub open spec fn spec_dialog(kind: DialogKind) -> DialogView {
    DialogView {
        message: spec_message(kind),
        title: spec_title(kind),
        buttons: spec_buttons(kind),
    }
}

/// Builds the dialog for `kind`, with its exact texts.
pub fn render_dialog(kind: &DialogKind) -> (d: Dialog)
    ensures
        d@ == spec_dialog(*kind),
{
    match kind {
        DialogKind::AskUpdate => Dialog {
            message: "Update Available".to_owned(),
            title: "An update is available. Do you want to update now?".to_owned(),
            buttons: Buttons::ConfirmDeny { confirm: "Yes".to_owned(), deny: "No".to_owned() },
        },
        DialogKind::Progress { downloaded, content_length } => {
            let mut title = "Downloaded ".to_owned();
            let digits = u64_to_decimal(*downloaded);
            title.append(digits.as_str());
            title.append(" from ");
            let total = option_u64_to_text(content_length);
            title.append(total.as_str());
            Dialog { message: "Downloading".to_owned(), title, buttons: Buttons::OkOnly }
        },
        DialogKind::DownloadFinished => Dialog {
            message: "Download Finished".to_owned(),
            title: "The download has finished.".to_owned(),
            buttons: Buttons::OkOnly,
        },
        DialogKind::Installed => Dialog {
            message: "Update Installed".to_owned(),
            title: "The update has been installed. The application will now restart.".to_owned(),
            buttons: Buttons::OkOnly,
        },
    }
}

} // verus!
