//! The transport controls: play/pause, stop and volume.
//!
//! Drawing the controls and formatting the time display are done by the
//! application.

use vstd::prelude::*;
use crate::editor_state::TransportState;
use crate::seconds::Scalar;

verus! {

/// An action triggered from the transport controls.
#[derive(Debug, Clone, Copy, PartialEq, Eq, Structural)]
pub enum TransportAction {
    /// Toggle between play and pause.
    TogglePlayback,
    /// Stop playback and reset to the beginning.
    Stop,
    /// Set the audio volume.
    SetVolume(Scalar),
}

/// The label of the play/pause button for a transport state.
pub open spec fn toggle_label_text(state: TransportState) -> Seq<char> {
    match state {
        TransportState::Playing => "⏸ Pause"@,
        TransportState::Paused => "▶ Play"@,
    }
}

/// The label of the play/pause button: pause while playing, play otherwise.
pub fn toggle_label(state: TransportState) -> (r: &'static str)
    ensures
        r@ == toggle_label_text(state),
{
    match state {
        TransportState::Playing => "⏸ Pause",
        TransportState::Paused => "▶ Play",
    }
}

} // verus!
