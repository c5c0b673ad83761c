//! Tracks: sending back what arrives, and adding tracks late.

use vstd::prelude::*;

use crate::settings::{audio_track, video_track, TrackSettings, TrackSettingsView};

verus! {

// ---------------------------------------------------------------------------
// Sending back what arrives
// ---------------------------------------------------------------------------

/// What the relay of a track is waiting for.
#[derive(Clone, Copy, Debug, PartialEq, Eq, Structural)]
pub enum Relay {
    /// A packet to arrive.
    Reading,
    /// A packet to be sent on.
    Writing,
    Stopped,
}

/// What happened to the packet that was waited for.
#[derive(Clone, Copy, Debug, PartialEq, Eq, Structural)]
pub enum PacketEvent {
    Done,
    Failed,
}

/// What the relay does next.
#[derive(Clone, Copy, Debug, PartialEq, Eq, Structural)]
pub enum RelayAction {
    /// Read the next packet from the remote track.
    Read,
    /// Write the packet just read to the local track.
    Write,
    /// Report that the packet could not be written, and stop.
    Report,
    /// Stop.
    Stop,
}

impl Relay {
    /// The state and the action that follow.
    pub open spec fn next(self, event: PacketEvent) -> (Relay, RelayAction) {
        match (self, event) {
            (Relay::Reading, PacketEvent::Done) => (Relay::Writing, RelayAction::Write),
            (Relay::Reading, PacketEvent::Failed) => (Relay::Stopped, RelayAction::Stop),
            (Relay::Writing, PacketEvent::Done) => (Relay::Reading, RelayAction::Read),
            (Relay::Writing, PacketEvent::Failed) => (Relay::Stopped, RelayAction::Report),
            (Relay::Stopped, _) => (Relay::Stopped, RelayAction::Stop),
        }
    }

    /// Takes what happened to the packet that was waited for.
    pub fn advance(self, event: PacketEvent) -> (step: (Relay, RelayAction))
        ensures
            step == self.next(event),
    {
        match self {
            Relay::Reading => match event {
                PacketEvent::Done => (Relay::Writing, RelayAction::Write),
                PacketEvent::Failed => (Relay::Stopped, RelayAction::Stop),
            },
            Relay::Writing => match event {
                PacketEvent::Done => (Relay::Reading, RelayAction::Read),
                PacketEvent::Failed => (Relay::Stopped, RelayAction::Report),
            },
            Relay::Stopped => (Relay::Stopped, RelayAction::Stop),
        }
    }
}

/// Begins to relay a remote track to a local one.
pub fn on_track() -> (step: (Relay, RelayAction))
    ensures
        step == (Relay::Reading, RelayAction::Read),
{
    (Relay::Reading, RelayAction::Read)
}

// ---------------------------------------------------------------------------
// Adding tracks late
// ---------------------------------------------------------------------------

/// How far the late tracks have been added: the step that is under way.
#[derive(Clone, Copy, Debug, PartialEq, Eq, Structural)]
pub enum LateTracks {
    Waiting,
    AddingAudio,
    AddingVideo,
    Finished,
    /// A step has failed.
    Aborted,
}

/// The next step of adding tracks late.
#[derive(Debug)]
pub enum LateAction {
    /// Wait for so many seconds.
    Sleep(u64),
    /// Add a track to the peer connection.
    AddTrack(TrackSettings),
    /// Report that the tracks were added; this was the last step.
    Report,
    /// Give up on the connection.
    Abort,
    /// There is nothing left to do.
    Nothing,
}

/// The next step of adding tracks late, seen as a mathematical value.
pub enum LateActionView {
    Sleep(u64),
    AddTrack(TrackSettingsView),
    Report,
    Abort,
    Nothing,
}

impl View for LateAction {
    type V = LateActionView;

    open spec fn view(&self) -> LateActionView {
        match self {
            LateAction::Sleep(seconds) => LateActionView::Sleep(*seconds),
            LateAction::AddTrack(track) => LateActionView::AddTrack(track@),
            LateAction::Report => LateActionView::Report,
            LateAction::Abort => LateActionView::Abort,
            LateAction::Nothing => LateActionView::Nothing,
        }
    }
}

impl LateTracks {
    /// The state and the step that follow on a step that succeeded or failed.
    pub open spec fn next(self, succeeded: bool) -> (LateTracks, LateActionView) {
        match self {
            LateTracks::Finished => (self, LateActionView::Nothing),
            LateTracks::Aborted => (self, LateActionView::Nothing),
            _ => if !succeeded {
                (LateTracks::Aborted, LateActionView::Abort)
            } else if self == LateTracks::Waiting {
                (
                    LateTracks::AddingAudio,
                    LateActionView::AddTrack(crate::settings::audio_settings()),
                )
            } else if self == LateTracks::AddingAudio {
                (
                    LateTracks::AddingVideo,
                    LateActionView::AddTrack(crate::settings::video_settings()),
                )
            } else {
                (LateTracks::Finished, LateActionView::Report)
            },
        }
    }

    /// Takes whether the step under way succeeded, and goes on to the next.
    pub fn advance(self, succeeded: bool) -> (step: (LateTracks, LateAction))
        ensures
            (step.0, step.1@) == self.next(succeeded),
    {
        match self {
            LateTracks::Finished => (self, LateAction::Nothing),
            LateTracks::Aborted => (self, LateAction::Nothing),
            _ => {
                if !succeeded {
                    (LateTracks::Aborted, LateAction::Abort)
                } else if self == LateTracks::Waiting {
                    (LateTracks::AddingAudio, LateAction::AddTrack(audio_track()))
                } else if self == LateTracks::AddingAudio {
                    (LateTracks::AddingVideo, LateAction::AddTrack(video_track()))
                } else {
                    (LateTracks::Finished, LateAction::Report)
                }
            },
        }
    }
}

/// Begins to add an audio and a video track to a peer connection, three seconds
/// from now.
pub fn deneme() -> (step: (LateTracks, LateAction))
    ensures
        (step.0, step.1@) == (LateTracks::Waiting, LateActionView::Sleep(3)),
{
    (LateTracks::Waiting, LateAction::Sleep(3))
}

} // verus!
