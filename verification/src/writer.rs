//! The decisions of the loop that moves queued audio frames into the pipe.
use vstd::prelude::*;

verus! {

/// Whether the pipe is open for writing.
#[derive(Clone, Copy, Debug, PartialEq, Eq, Structural)]
pub enum WriterState {
    /// No pipe is open; the next frame of the active session opens it.
    Waiting,
    /// The pipe is open; frames of the active session are written to it.
    Streaming,
}

/// What the writer loop observed.
#[derive(Clone, Copy, Debug, PartialEq, Eq, Structural)]
pub enum WriterEvent {
    /// A frame arrived; `active` when its session is the active one.
    Frame { active: bool },
    /// No more frames will arrive.
    ChannelClosed,
    /// Opening the pipe succeeded.
    PipeOpened,
    /// Opening the pipe failed.
    PipeOpenFailed,
    /// Writing the frame succeeded.
    WriteSucceeded,
    /// Writing the frame failed (the reader went away).
    WriteFailed,
}

/// What the writer loop does next.
#[derive(Clone, Copy, Debug, PartialEq, Eq, Structural)]
pub enum WriterAction {
    /// Wait for the next frame.
    Receive,
    /// Open the pipe for the frame just received.
    OpenPipe,
    /// Write the frame just received.
    WriteFrame,
    /// Discard every queued frame, then wait for the next one.
    DrainQueue,
    /// Stop.
    Exit,
}

/// The writer's next state and action after `event` in `state`.
pub open spec fn writer_transition(state: WriterState, event: WriterEvent) -> (WriterState, WriterAction) {
    match event {
        WriterEvent::ChannelClosed => (state, WriterAction::Exit),
        WriterEvent::Frame { active } => if !active {
            (state, WriterAction::Receive)
        } else {
            match state {
                WriterState::Waiting => (WriterState::Waiting, WriterAction::OpenPipe),
                WriterState::Streaming => (WriterState::Streaming, WriterAction::WriteFrame),
            }
        },
        WriterEvent::PipeOpened => (WriterState::Streaming, WriterAction::WriteFrame),
        WriterEvent::PipeOpenFailed => (WriterState::Waiting, WriterAction::DrainQueue),
        WriterEvent::WriteSucceeded => (state, WriterAction::Receive),
        WriterEvent::WriteFailed => (WriterState::Waiting, WriterAction::Receive),
    }
}

/// Decides the writer's next state and action.
pub fn writer_step(state: WriterState, event: WriterEvent) -> (r: (WriterState, WriterAction))
    ensures
        r == writer_transition(state, event),
{
    match event {
        WriterEvent::ChannelClosed => (state, WriterAction::Exit),
        WriterEvent::Frame { active } => {
            if !active {
                (state, WriterAction::Receive)
            } else {
                match state {
                    WriterState::Waiting => (WriterState::Waiting, WriterAction::OpenPipe),
                    WriterState::Streaming => (WriterState::Streaming, WriterAction::WriteFrame),
                }
            }
        },
        WriterEvent::PipeOpened => (WriterState::Streaming, WriterAction::WriteFrame),
        WriterEvent::PipeOpenFailed => (WriterState::Waiting, WriterAction::DrainQueue),
        WriterEvent::WriteSucceeded => (state, WriterAction::Receive),
        WriterEvent::WriteFailed => (WriterState::Waiting, WriterAction::Receive),
    }
}

/// A frame of a session that is not active is never written and never opens the pipe.
pub proof fn lemma_inactive_frames_are_dropped(state: WriterState)
    ensures
        writer_transition(state, WriterEvent::Frame { active: false }) == (state, WriterAction::Receive),
{
}

/// After a failed write the pipe is opened again before anything more is written.
pub proof fn lemma_failed_write_reopens(state: WriterState)
    ensures
        writer_transition(state, WriterEvent::WriteFailed).0 == WriterState::Waiting,
        writer_transition(WriterState::Waiting, WriterEvent::Frame { active: true }).1 == WriterAction::OpenPipe,
{
}

} // verus!
