//! Playing a track on one speaker.

use vstd::prelude::*;
use crate::step::{no_lines, one_line, Step};

verus! {

/// For how many milliseconds to pause between setting a track and playing it.
pub const TRACK_PAUSE_MILLIS: u64 = 500;

/// How far playing the track has come.
pub enum TrackStage<S> {
    /// The track is set.
    Setting { ip: S },
    /// The pause before the play.
    Pausing { ip: S },
    /// The speaker is started.
    Starting,
    /// The speaker plays.
    Finished,
    /// Playing broke off.
    Failed,
}

/// What happened outside.
#[derive(Clone, Copy, Debug, PartialEq, Eq, Structural)]
pub enum TrackEvent {
    /// The track was set, or was not.
    UriSet(bool),
    /// The pause is over.
    Paused,
    /// The speaker was started, or was not.
    Started(bool),
}

/// What to do outside.
pub enum TrackAction<S> {
    /// Set the track of the speaker.
    SetUri { ip: S, uri: S },
    /// Pause for so many milliseconds.
    Pause(u64),
    /// Start the speaker.
    Play(S),
    /// The speaker plays.
    Finish,
    /// Playing broke off on what the last call reported.
    Fail,
    /// The event came out of turn and changes nothing.
    Ignore,
}

impl View for TrackStage<String> {
    type V = TrackStage<Seq<char>>;

    open spec fn view(&self) -> TrackStage<Seq<char>> {
        match self {
            TrackStage::Setting { ip } => TrackStage::Setting { ip: ip@ },
            TrackStage::Pausing { ip } => TrackStage::Pausing { ip: ip@ },
            TrackStage::Starting => TrackStage::Starting,
            TrackStage::Finished => TrackStage::Finished,
            TrackStage::Failed => TrackStage::Failed,
        }
    }
}

impl View for TrackAction<String> {
    type V = TrackAction<Seq<char>>;

    open spec fn view(&self) -> TrackAction<Seq<char>> {
        match self {
            TrackAction::SetUri { ip, uri } => TrackAction::SetUri { ip: ip@, uri: uri@ },
            TrackAction::Pause(millis) => TrackAction::Pause(*millis),
            TrackAction::Play(ip) => TrackAction::Play(ip@),
            TrackAction::Finish => TrackAction::Finish,
            TrackAction::Fail => TrackAction::Fail,
            TrackAction::Ignore => TrackAction::Ignore,
        }
    }
}

/// A step on contents.
pub type TrackStepView = Step<TrackStage<Seq<char>>, TrackAction<Seq<char>>, Seq<Seq<char>>>;

/// The first step: the track is set.
pub open spec fn track_begin(ip: Seq<char>, uri: Seq<char>) -> TrackStepView {
    Step {
        stage: TrackStage::Setting { ip },
        lines: seq!["Setting track URI "@ + uri + " on "@ + ip],
        action: TrackAction::SetUri { ip, uri },
    }
}

/// What follows: the speaker is started some time after its track was set, and not
/// at all if it was not.
pub open spec fn track_next(stage: TrackStage<Seq<char>>, event: TrackEvent) -> TrackStepView {
    match (stage, event) {
        (TrackStage::Setting { ip }, TrackEvent::UriSet(true)) => Step {
            stage: TrackStage::Pausing { ip },
            lines: seq![],
            action: TrackAction::Pause(TRACK_PAUSE_MILLIS),
        },
        (TrackStage::Setting { .. }, TrackEvent::UriSet(false)) => Step {
            stage: TrackStage::Failed,
            lines: seq![],
            action: TrackAction::Fail,
        },
        (TrackStage::Pausing { ip }, TrackEvent::Paused) => Step {
            stage: TrackStage::Starting,
            lines: seq!["Sending Play command to "@ + ip],
            action: TrackAction::Play(ip),
        },
        (TrackStage::Starting, TrackEvent::Started(true)) => Step {
            stage: TrackStage::Finished,
            lines: seq![],
            action: TrackAction::Finish,
        },
        (TrackStage::Starting, TrackEvent::Started(false)) => Step {
            stage: TrackStage::Failed,
            lines: seq![],
            action: TrackAction::Fail,
        },
        (stage, _) => Step { stage, lines: seq![], action: TrackAction::Ignore },
    }
}

impl TrackStage<String> {
    /// The track is to be played on the speaker at `ip`.
    pub fn begin(ip: String, uri: String) -> (r: Step<Self, TrackAction<String>, Vec<String>>)
        ensures
            r@ == track_begin(ip@, uri@),
            r.action is SetUri,
            r.action->SetUri_ip@ == ip@,
            r.action->uri@ == uri@,
    {
        let line = String::from_str("Setting track URI ").concat(uri.as_str()).concat(
            " on ",
        ).concat(ip.as_str());
        Step {
            stage: TrackStage::Setting { ip: ip.clone() },
            lines: one_line(line),
            action: TrackAction::SetUri { ip, uri },
        }
    }

    /// What follows.
    pub fn next(self, event: TrackEvent) -> (r: Step<Self, TrackAction<String>, Vec<String>>)
        ensures
            r@ == track_next(self@, event),
            self is Pausing && event is Paused ==> r.action is Play && r.action->Play_0@
                == self->Pausing_ip@,
    {
        match (self, event) {
            (TrackStage::Setting { ip }, TrackEvent::UriSet(true)) => Step {
                stage: TrackStage::Pausing { ip },
                lines: no_lines(),
                action: TrackAction::Pause(TRACK_PAUSE_MILLIS),
            },
            (TrackStage::Setting { .. }, TrackEvent::UriSet(false)) => Step {
                stage: TrackStage::Failed,
                lines: no_lines(),
                action: TrackAction::Fail,
            },
            (TrackStage::Pausing { ip }, TrackEvent::Paused) => {
                let line = String::from_str("Sending Play command to ").concat(ip.as_str());
                Step {
                    stage: TrackStage::Starting,
                    lines: one_line(line),
                    action: TrackAction::Play(ip),
                }
            },
            (TrackStage::Starting, TrackEvent::Started(true)) => Step {
                stage: TrackStage::Finished,
                lines: no_lines(),
                action: TrackAction::Finish,
            },
            (TrackStage::Starting, TrackEvent::Started(false)) => Step {
                stage: TrackStage::Failed,
                lines: no_lines(),
                action: TrackAction::Fail,
            },
            (stage, _) => Step { stage, lines: no_lines(), action: TrackAction::Ignore },
        }
    }
}

/// What is done outside as the events come in.
pub open spec fn track_actions(stage: TrackStage<Seq<char>>, events: Seq<TrackEvent>) -> Seq<
    TrackAction<Seq<char>>,
>
    decreases events.len(),
{
    if events.len() == 0 {
        Seq::empty()
    } else {
        let step = track_next(stage, events[0]);
        seq![step.action] + track_actions(step.stage, events.skip(1))
    }
}

/// Whatever happens, the speaker is started only after its track was set, and it
/// is the speaker whose track it was.
pub proof fn only_set_tracks_play(
    ip: Seq<char>,
    uri: Seq<char>,
    events: Seq<TrackEvent>,
    at: int,
)
    requires
        0 <= at < track_actions(track_begin(ip, uri).stage, events).len(),
        track_actions(track_begin(ip, uri).stage, events)[at] is Play,
    ensures
        track_actions(track_begin(ip, uri).stage, events)[at] == TrackAction::Play(ip),
        exists|i: int|
            0 <= i < at && i < events.len() && #[trigger] events[i] == TrackEvent::UriSet(true),
    decreases events.len(),
{
    let stage = track_begin(ip, uri).stage;
    let step = track_next(stage, events[0]);
    let actions = track_actions(stage, events);
    let rest = track_actions(step.stage, events.skip(1));
    assert(actions == seq![step.action] + rest);
    assert(rest[at - 1] == actions[at]);
    if step.stage is Setting {
        only_set_tracks_play(ip, uri, events.skip(1), at - 1);
        let later = events.skip(1);
        let i = choose|i: int|
            0 <= i < at - 1 && i < later.len() && #[trigger] later[i] == TrackEvent::UriSet(true);
        assert(events[i + 1] == TrackEvent::UriSet(true));
    } else {
        lemma_one_play(step.stage, events.skip(1), at - 1);
        assert(events[0] == TrackEvent::UriSet(true));
    }
}

proof fn lemma_one_play(stage: TrackStage<Seq<char>>, events: Seq<TrackEvent>, at: int)
    requires
        !(stage is Setting),
        0 <= at < track_actions(stage, events).len(),
        track_actions(stage, events)[at] is Play,
    ensures
        stage is Pausing,
        track_actions(stage, events)[at] == TrackAction::Play(stage->Pausing_ip),
    decreases events.len(),
{
    let step = track_next(stage, events[0]);
    let actions = track_actions(stage, events);
    let rest = track_actions(step.stage, events.skip(1));
    assert(actions == seq![step.action] + rest);
    if at > 0 {
        assert(rest[at - 1] == actions[at]);
        lemma_one_play(step.stage, events.skip(1), at - 1);
    }
}

/// Playing a track sets that whole track on that speaker, and tells so.
pub proof fn chosen_tracks_are_set(ip: Seq<char>, uri: Seq<char>)
    ensures
        track_begin(ip, uri).action is SetUri,
        track_begin(ip, uri).action->SetUri_ip == ip,
        track_begin(ip, uri).action->uri == uri,
        track_begin(ip, uri).stage is Setting,
        track_begin(ip, uri).lines == seq!["Setting track URI "@ + uri + " on "@ + ip],
{
}

/// Where the track is set and the speaker starts, half a second passes, the same
/// speaker is started, and that is all.
pub proof fn set_tracks_play(ip: Seq<char>, uri: Seq<char>)
    ensures
        track_actions(
            track_begin(ip, uri).stage,
            seq![TrackEvent::UriSet(true), TrackEvent::Paused, TrackEvent::Started(true)],
        ) == seq![TrackAction::Pause(500), TrackAction::Play(ip), TrackAction::Finish],
{
    let events = seq![TrackEvent::UriSet(true), TrackEvent::Paused, TrackEvent::Started(true)];
    assert(events.skip(1) =~= seq![TrackEvent::Paused, TrackEvent::Started(true)]);
    assert(events.skip(1).skip(1) =~= seq![TrackEvent::Started(true)]);
    assert(events.skip(1).skip(1).skip(1) =~= seq![]);
    reveal_with_fuel(track_actions, 4);
    assert(track_actions(track_begin(ip, uri).stage, events) =~= seq![
        TrackAction::Pause(500),
        TrackAction::Play(ip),
        TrackAction::Finish,
    ]);
}

/// Playing breaks off if and only if the track is not set or the speaker does not
/// start, and goes on to the next stage otherwise; an event out of turn changes
/// nothing. A start is told with the speaker.
pub proof fn track_stages_follow(stage: TrackStage<Seq<char>>, event: TrackEvent)
    ensures
        ({
            let step = track_next(stage, event);
            &&& step.action is Fail <==> (stage is Setting && event == TrackEvent::UriSet(false))
                || (stage is Starting && event == TrackEvent::Started(false))
            &&& step.action is Pause <==> stage is Setting && event == TrackEvent::UriSet(true)
            &&& step.action is Pause ==> step.action->Pause_0 == 500 && step.stage is Pausing
                && step.stage->Pausing_ip == stage->Setting_ip
            &&& step.action is Play <==> stage is Pausing && event == TrackEvent::Paused
            &&& step.action is Play ==> step.action->Play_0 == stage->Pausing_ip
                && step.stage is Starting
            &&& step.action is Finish <==> stage is Starting && event == TrackEvent::Started(true)
            &&& !(step.action is SetUri)
            &&& step.action is Finish ==> step.stage is Finished
            &&& step.action is Fail ==> step.stage is Failed
            &&& step.action is Ignore ==> step.stage == stage
            &&& step.action is Play ==> step.lines == seq![
                "Sending Play command to "@ + stage->Pausing_ip,
            ]
            &&& !(step.action is Play) ==> step.lines.len() == 0
        }),
{
}

/// What is seen of the speaker and the track is all of them.
pub proof fn track_contents_are_shown(stage: TrackStage<String>, action: TrackAction<String>)
    ensures
        stage is Setting ==> stage@ is Setting && stage@->Setting_ip == stage->Setting_ip@,
        stage is Pausing ==> stage@ is Pausing && stage@->Pausing_ip == stage->Pausing_ip@,
        stage is Starting ==> stage@ is Starting,
        action is SetUri ==> action@ is SetUri && action@->SetUri_ip == action->SetUri_ip@
            && action@->uri == action->uri@,
        action is Play ==> action@ is Play && action@->Play_0 == action->Play_0@,
        action is Pause ==> action@ is Pause && action@->Pause_0 == action->Pause_0,
        action is Finish <==> action@ is Finish,
        action is Fail <==> action@ is Fail,
{
}

} // verus!
