use vstd::prelude::*;
use crate::settings::CAPTURE_PERIOD_NS;

verus! {

/// Width of the frames the player shows.
pub const WIDTH: usize = 1280;
/// Height of the frames the player shows.
pub const HEIGHT: usize = 720;
/// Frame rate of the player.
pub const FPS: usize = 30;

/// Whether a stream is being played.
#[derive(Clone, Copy, PartialEq, Eq, Debug, Structural)]
pub enum PlaybackStatus {
    Stopped,
    Playing,
    Paused,
}

/// What the application does with its decoder after `play`.
#[derive(Clone, Copy, PartialEq, Eq, Debug, Structural)]
pub enum PlayEffect {
    /// Start a decoder on the video link.
    StartDecoder,
    /// Keep the paused decoder and go on reading it.
    ResumeDecoder,
    /// Nothing changes.
    Nothing,
}

/// What the application shows in a frame of the user interface.
#[derive(Clone, Copy, PartialEq, Eq, Debug, Structural)]
pub enum RenderAction {
    /// The "Video is not playing" label.
    ShowStopped,
    /// The last frame again; `repaint` asks for another frame of the interface.
    ShowLast { repaint: bool },
    /// Read the next frame from the decoder and show it; where none comes,
    /// the playback stops, or, where `must_arrive`, that is a fault.
    FetchNext { must_arrive: bool },
}

/// What follows an attempt to read the next frame from the decoder.
#[derive(Clone, Copy, PartialEq, Eq, Debug, Structural)]
pub enum FetchOutcome {
    /// The frame came and is shown.
    Shown,
    /// No frame came: the stream has ended, and the playback stops.
    StopPlayback,
    /// No frame came where one must arrive: the decoder broke its promise.
    Fault,
}

/// The decision after a fetch: a frame that came is shown; a missing frame
/// stops the playback, unless it must arrive (the first frame of a stream),
/// which is a fault.
pub fn fetch_outcome(fetched: bool, must_arrive: bool) -> (o: FetchOutcome)
    ensures
        fetched ==> o == FetchOutcome::Shown,
        !fetched && must_arrive ==> o == FetchOutcome::Fault,
        !fetched && !must_arrive ==> o == FetchOutcome::StopPlayback,
{
    if fetched {
        FetchOutcome::Shown
    } else if must_arrive {
        FetchOutcome::Fault
    } else {
        FetchOutcome::StopPlayback
    }
}

/// The status after `play`.
pub open spec fn play_status(s: PlaybackStatus) -> PlaybackStatus {
    match s {
        PlaybackStatus::Stopped => PlaybackStatus::Playing,
        PlaybackStatus::Paused => PlaybackStatus::Playing,
        PlaybackStatus::Playing => PlaybackStatus::Playing,
    }
}

/// What `play` asks of the decoder.
pub open spec fn play_effect(s: PlaybackStatus) -> PlayEffect {
    match s {
        PlaybackStatus::Stopped => PlayEffect::StartDecoder,
        PlaybackStatus::Paused => PlayEffect::ResumeDecoder,
        PlaybackStatus::Playing => PlayEffect::Nothing,
    }
}

/// The status after `pause`.
pub open spec fn pause_status(s: PlaybackStatus) -> PlaybackStatus {
    match s {
        PlaybackStatus::Playing => PlaybackStatus::Paused,
        _ => s,
    }
}

/// The playback's state machine: its status, the link to play, and the time
/// (in nanoseconds on the application's clock) of the last shown frame.
pub struct Playback {
    status: PlaybackStatus,
    video_link: Option<String>,
    refresh_timestamp: Option<u64>,
}

impl Playback {
    pub closed spec fn status_spec(&self) -> PlaybackStatus {
        self.status
    }

    pub closed spec fn link(&self) -> Option<Seq<char>> {
        match self.video_link {
            Some(l) => Some(l@),
            None => None,
        }
    }

    pub closed spec fn timestamp(&self) -> Option<u64> {
        self.refresh_timestamp
    }

    /// Only a playing stream has a refresh time.
    pub closed spec fn wf(&self) -> bool {
        self.status != PlaybackStatus::Playing ==> self.refresh_timestamp is None
    }

    pub fn new() -> (p: Self)
        ensures
            p.wf(),
            p.status_spec() == PlaybackStatus::Stopped,
            p.link() is None,
            p.timestamp() is None,
    {
        Playback { status: PlaybackStatus::Stopped, video_link: None, refresh_timestamp: None }
    }

    pub fn set_video_link(&mut self, link: String)
        requires
            old(self).wf(),
        ensures
            final(self).wf(),
            final(self).link() == Some(link@),
            final(self).status_spec() == old(self).status_spec(),
            final(self).timestamp() == old(self).timestamp(),
    {
        self.video_link = Some(link);
    }

    /// The link that a started decoder reads.
    pub fn video_link(&self) -> (l: Option<String>)
        ensures
            match l {
                Some(s) => self.link() == Some(s@),
                None => self.link() is None,
            },
    {
        match &self.video_link {
            Some(s) => Some(s.clone()),
            None => None,
        }
    }

    pub fn status(&self) -> (s: PlaybackStatus)
        ensures
            s == self.status_spec(),
    {
        self.status
    }

    /// Plays: a stopped playback starts a decoder on the link (which must be
    /// set), a paused one resumes its decoder, a playing one goes on.
    pub fn play(&mut self) -> (effect: PlayEffect)
        requires
            old(self).wf(),
            old(self).status_spec() == PlaybackStatus::Stopped ==> old(self).link() is Some,
        ensures
            final(self).wf(),
            final(self).status_spec() == play_status(old(self).status_spec()),
            effect == play_effect(old(self).status_spec()),
            final(self).link() == old(self).link(),
            final(self).timestamp() == old(self).timestamp(),
    {
        match self.status {
            PlaybackStatus::Stopped => {
                self.status = PlaybackStatus::Playing;
                PlayEffect::StartDecoder
            },
            PlaybackStatus::Paused => {
                self.status = PlaybackStatus::Playing;
                PlayEffect::ResumeDecoder
            },
            PlaybackStatus::Playing => PlayEffect::Nothing,
        }
    }

    /// Stops; returns whether there was a decoder to drop.
    pub fn stop(&mut self) -> (dropped: bool)
        requires
            old(self).wf(),
        ensures
            final(self).wf(),
            final(self).status_spec() == PlaybackStatus::Stopped,
            dropped == (old(self).status_spec() != PlaybackStatus::Stopped),
            final(self).link() == old(self).link(),
            final(self).timestamp() is None,
            old(self).status_spec() == PlaybackStatus::Stopped ==> *final(self) == *old(self),
    {
        match self.status {
            PlaybackStatus::Stopped => false,
            _ => {
                self.status = PlaybackStatus::Stopped;
                self.refresh_timestamp = None;
                true
            },
        }
    }

    /// Pauses a playing stream; otherwise nothing changes.
    pub fn pause(&mut self)
        requires
            old(self).wf(),
        ensures
            final(self).wf(),
            final(self).status_spec() == pause_status(old(self).status_spec()),
            final(self).link() == old(self).link(),
            old(self).status_spec() == PlaybackStatus::Playing ==> final(self).timestamp() is None,
            old(self).status_spec() != PlaybackStatus::Playing ==> final(self).timestamp() == old(self).timestamp(),
    {
        match self.status {
            PlaybackStatus::Playing => {
                self.refresh_timestamp = None;
                self.status = PlaybackStatus::Paused;
            },
            _ => {},
        }
    }

    /// Decides what a frame of the interface shows at time `now`. A playing
    /// stream takes a new frame once more than a capture period has passed
    /// since the last one, and then moves its refresh time on by exactly one
    /// period; the first frame of a stream must arrive.
    pub fn render(&mut self, now: u64) -> (action: RenderAction)
        requires
            old(self).wf(),
        ensures
            final(self).wf(),
            final(self).status_spec() == old(self).status_spec(),
            final(self).link() == old(self).link(),
            old(self).status_spec() == PlaybackStatus::Stopped ==> action == RenderAction::ShowStopped
                && final(self).timestamp() == old(self).timestamp(),
            old(self).status_spec() == PlaybackStatus::Paused ==> action == (RenderAction::ShowLast { repaint: false })
                && final(self).timestamp() == old(self).timestamp(),
            old(self).status_spec() == PlaybackStatus::Playing ==> match old(self).timestamp() {
                None => action == (RenderAction::FetchNext { must_arrive: true }) && final(self).timestamp() == Some(now),
                Some(t) => if now > t && now - t > CAPTURE_PERIOD_NS {
                    action == (RenderAction::FetchNext { must_arrive: false })
                        && final(self).timestamp() == Some((t + CAPTURE_PERIOD_NS) as u64)
                } else {
                    action == (RenderAction::ShowLast { repaint: true }) && final(self).timestamp() == Some(t)
                },
            },
    {
        match self.status {
            PlaybackStatus::Stopped => RenderAction::ShowStopped,
            PlaybackStatus::Paused => RenderAction::ShowLast { repaint: false },
            PlaybackStatus::Playing => {
                match self.refresh_timestamp {
                    Some(t) => {
                        if now.saturating_sub(t) > CAPTURE_PERIOD_NS {
                            self.refresh_timestamp = Some(t + CAPTURE_PERIOD_NS);
                            RenderAction::FetchNext { must_arrive: false }
                        } else {
                            RenderAction::ShowLast { repaint: true }
                        }
                    },
                    None => {
                        self.refresh_timestamp = Some(now);
                        RenderAction::FetchNext { must_arrive: true }
                    },
                }
            },
        }
    }
}

/// Pausing and then playing resumes the same decoder: no new one starts.
pub proof fn law_pause_then_play_resumes()
    ensures
        play_status(pause_status(PlaybackStatus::Playing)) == PlaybackStatus::Playing,
        play_effect(pause_status(PlaybackStatus::Playing)) == PlayEffect::ResumeDecoder,
{
}

/// A decoder starts only from a stopped playback, and every status is
/// playing after `play`.
pub proof fn law_play_starts_only_when_stopped(s: PlaybackStatus)
    ensures
        play_status(s) == PlaybackStatus::Playing,
        (play_effect(s) == PlayEffect::StartDecoder) <==> (s == PlaybackStatus::Stopped),
{
}

/// A new frame is taken only once more than a period has passed, and the
/// refresh time then stays behind the present: the player never runs ahead
/// of the clock.
pub proof fn law_refresh_time_stays_behind(t: u64, now: u64)
    requires
        now > t,
        now - t > CAPTURE_PERIOD_NS,
    ensures
        t + CAPTURE_PERIOD_NS < now,
{
}

} // verus!
