//! The dialog that asks for confirmation.

use vstd::prelude::*;

verus! {

/// A question with two answers: confirm or cancel.
#[derive(Debug, Clone)]
pub struct ConfirmDialog {
    pub title: String,
    pub message: String,
    pub confirm_label: String,
    pub cancel_label: String,
    pub dangerous: bool,
}

/// What a [`ConfirmDialog`] holds.
pub struct ConfirmDialogView {
    pub title: Seq<char>,
    pub message: Seq<char>,
    pub confirm_label: Seq<char>,
    pub cancel_label: Seq<char>,
    pub dangerous: bool,
}

impl DeepView for ConfirmDialog {
    type V = ConfirmDialogView;

    open spec fn deep_view(&self) -> ConfirmDialogView {
        ConfirmDialogView {
            title: self.title@,
            message: self.message@,
            confirm_label: self.confirm_label@,
            cancel_label: self.cancel_label@,
            dangerous: self.dangerous,
        }
    }
}

impl View for ConfirmDialog {
    type V = ConfirmDialogView;

    open spec fn view(&self) -> ConfirmDialogView {
        self.deep_view()
    }
}

impl ConfirmDialog {
    /// A dialog that asks `message` under `title`, with the answers `Yes`
    /// and `No`, and is not marked as dangerous.
    pub fn new(title: &str, message: &str) -> (dialog: Self)
        ensures
            dialog@ == (ConfirmDialogView {
                title: title@,
                message: message@,
                confirm_label: "Yes"@,
                cancel_label: "No"@,
                dangerous: false,
            }),
    {
        ConfirmDialog {
            title: title.to_owned(),
            message: message.to_owned(),
            confirm_label: "Yes".to_owned(),
            cancel_label: "No".to_owned(),
            dangerous: false,
        }
    }

    /// The same dialog, marked as dangerous.
    pub fn dangerous(self) -> (dialog: Self)
        ensures
            dialog@ == (ConfirmDialogView { dangerous: true, ..self@ }),
    {
        let mut dialog = self;
        dialog.dangerous = true;
        dialog
    }

    /// The same dialog with other words for its two answers.
    pub fn with_labels(self, confirm: &str, cancel: &str) -> (dialog: Self)
        ensures
            dialog@ == (ConfirmDialogView {
                confirm_label: confirm@,
                cancel_label: cancel@,
                ..self@
            }),
    {
        let mut dialog = self;
        dialog.confirm_label = confirm.to_owned();
        dialog.cancel_label = cancel.to_owned();
        dialog
    }

    /// The text of a button: its label between brackets.
    pub open spec fn button(label: Seq<char>) -> Seq<char> {
        "[ "@ + label + " ]"@
    }

    /// The text of the button that confirms.
    pub fn confirm_button(&self) -> (text: String)
        ensures
            text@ == ConfirmDialog::button(self@.confirm_label),
    {
        let mut text = "[ ".to_owned();
        text.append(self.confirm_label.as_str());
        text.append(" ]");
        text
    }

    /// The text of the button that cancels.
    pub fn cancel_button(&self) -> (text: String)
        ensures
            text@ == ConfirmDialog::button(self@.cancel_label),
    {
        let mut text = "[ ".to_owned();
        text.append(self.cancel_label.as_str());
        text.append(" ]");
        text
    }
}

} // verus!
