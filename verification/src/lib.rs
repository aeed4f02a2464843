//! Stock-watch bot library: classification of poll outcomes against a fixed
//! "out of stock" baseline, SMS notification request building, and the
//! polling loop's state machine.

use vstd::prelude::*;

pub mod check;
pub mod cycle;
pub mod notify;
pub mod payload;
pub mod text;

verus! {

/// A notification that the polling loop must deliver. `fatal` means the
/// condition should stop the loop once the message is successfully sent.
pub struct NotificationNeeded {
    pub content: String,
    pub fatal: bool,
}

/// Mathematical model of `NotificationNeeded`.
#[verifier::ext_equal]
pub struct NoteView {
    pub content: Seq<char>,
    pub fatal: bool,
}

impl View for NotificationNeeded {
    type V = NoteView;

    open spec fn view(&self) -> NoteView {
        NoteView { content: self.content@, fatal: self.fatal }
    }
}

} // verus!
