use vstd::prelude::*;

verus! {

/// One input signal crossing from the host into the engine. The host
/// forwards at most the signals its widgets produced this frame, together
/// with its monotonic clock reading.
#[derive(Debug)]
pub enum SessionEvent {
    /// The user picked choice `choice`, whose displayed text is `text`.
    AnswerSubmitted { choice: usize, text: String },
    /// The user asked for a new working pool.
    RerollRequested,
    /// The user asked to swap the prompt and answer sides.
    DirectionSwitchRequested,
    /// The periodic heartbeat; carries no payload of its own.
    Tick,
}

} // verus!
