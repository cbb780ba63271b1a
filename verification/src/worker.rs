use vstd::prelude::*;

verus! {

/// What polling a stop channel gave.
#[derive(Clone, Copy, PartialEq, Eq, Debug, Structural)]
pub enum StopPoll {
    /// A stop signal arrived.
    Stop,
    /// Nothing arrived.
    Empty,
    /// The sending side is gone.
    Disconnected,
}

/// What a frame-reading helper does after reading a whole frame.
#[derive(Clone, Copy, PartialEq, Eq, Debug, Structural)]
pub enum FrameStep {
    /// Tell ffmpeg to quit, drain its output, wait for it, and end.
    StopCapture,
    /// End at once.
    Exit,
    /// Send the frame on.
    ForwardFrame,
}

/// The decision of the capture and playback helpers after each frame: a stop
/// signal stops ffmpeg, a vanished controller ends the helper, otherwise the
/// frame goes on.
pub fn frame_step(poll: StopPoll) -> (step: FrameStep)
    ensures
        poll == StopPoll::Stop ==> step == FrameStep::StopCapture,
        poll == StopPoll::Disconnected ==> step == FrameStep::Exit,
        poll == StopPoll::Empty ==> step == FrameStep::ForwardFrame,
{
    match poll {
        StopPoll::Stop => FrameStep::StopCapture,
        StopPoll::Empty => FrameStep::ForwardFrame,
        StopPoll::Disconnected => FrameStep::Exit,
    }
}

/// A request to the discovery helper.
#[derive(Clone, Copy, PartialEq, Eq, Debug, Structural)]
pub enum DiscoveryCommand {
    Stop,
    SendIPs,
}

/// What the discovery helper does in a round.
#[derive(Clone, Copy, PartialEq, Eq, Debug, Structural)]
pub enum DiscoveryStep {
    /// Send the listed casters, then listen for announcements.
    ReplyThenListen,
    /// Listen for announcements.
    Listen,
    /// End.
    Exit,
}

/// The decision of the discovery helper on what its request channel gave:
/// `Some(command)`, or `None` with whether the requesting side is gone.
pub fn discovery_step(command: Option<DiscoveryCommand>, disconnected: bool) -> (step: DiscoveryStep)
    ensures
        command == Some(DiscoveryCommand::SendIPs) ==> step == DiscoveryStep::ReplyThenListen,
        command == Some(DiscoveryCommand::Stop) ==> step == DiscoveryStep::Exit,
        command is None ==> step == (if disconnected { DiscoveryStep::Exit } else { DiscoveryStep::Listen }),
{
    match command {
        Some(DiscoveryCommand::SendIPs) => DiscoveryStep::ReplyThenListen,
        Some(DiscoveryCommand::Stop) => DiscoveryStep::Exit,
        None => if disconnected { DiscoveryStep::Exit } else { DiscoveryStep::Listen },
    }
}

} // verus!
