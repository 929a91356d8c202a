//! What the shell tells the frontend.

use vstd::prelude::*;

verus! {

/// The name of the one channel on which the shell notifies the frontend.
pub const TRAY_EVENT: &'static str = "tray-event";

/// A notification for the frontend: the action that the user chose in the tray menu and,
/// for a feature that was switched, whether it is on from now on.
#[derive(Clone, Debug, PartialEq, Eq)]
pub struct TrayEventPayload {
    pub action: String,
    pub value: Option<bool>,
}

/// A `TrayEventPayload` as a mathematical value.
pub struct PayloadView {
    pub action: Seq<char>,
    pub value: Option<bool>,
}

impl View for TrayEventPayload {
    type V = PayloadView;

    open spec fn view(&self) -> PayloadView {
        PayloadView { action: self.action@, value: self.value }
    }
}

} // verus!
