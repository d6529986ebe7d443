//! Stopping the music on all speakers.

use vstd::prelude::*;
use crate::patterns::optional_text;
use crate::step::{no_lines, one_line, Step};
use crate::text::{decimal, decimal_text, texts};

verus! {

/// How far stopping the music has come.
#[derive(Clone, Copy, Debug, PartialEq, Eq, Structural)]
pub enum KillStage {
    /// The speakers are looked for.
    Discovering,
    /// The speakers are stopped.
    Stopping,
    /// Nothing is left to do.
    Finished,
    /// Stopping broke off.
    Failed,
}

/// What happened outside.
pub enum KillEvent<L> {
    /// These speakers were found.
    Discovered(L),
    /// The search for speakers broke off.
    DiscoveryFailed,
    /// Each speaker was told to stop.
    Stopped,
}

/// What to do outside.
pub enum KillAction<L> {
    /// Look for speakers.
    Discover,
    /// Tell each of the speakers to stop.
    StopAll(L),
    /// Nothing is left to do.
    Finish,
    /// Stopping broke off on what the last call reported.
    Fail,
    /// The event came out of turn and changes nothing.
    Ignore,
}

impl View for KillStage {
    type V = KillStage;

    open spec fn view(&self) -> KillStage {
        *self
    }
}

impl View for KillEvent<Vec<String>> {
    type V = KillEvent<Seq<Seq<char>>>;

    open spec fn view(&self) -> KillEvent<Seq<Seq<char>>> {
        match self {
            KillEvent::Discovered(ips) => KillEvent::Discovered(texts(ips@)),
            KillEvent::DiscoveryFailed => KillEvent::DiscoveryFailed,
            KillEvent::Stopped => KillEvent::Stopped,
        }
    }
}

impl View for KillAction<Vec<String>> {
    type V = KillAction<Seq<Seq<char>>>;

    open spec fn view(&self) -> KillAction<Seq<Seq<char>>> {
        match self {
            KillAction::Discover => KillAction::Discover,
            KillAction::StopAll(ips) => KillAction::StopAll(texts(ips@)),
            KillAction::Finish => KillAction::Finish,
            KillAction::Fail => KillAction::Fail,
            KillAction::Ignore => KillAction::Ignore,
        }
    }
}

/// A step on contents.
pub type KillStepView = Step<KillStage, KillAction<Seq<Seq<char>>>, Seq<Seq<char>>>;

/// The first step: the speakers are looked for.
pub open spec fn kill_begin() -> KillStepView {
    Step {
        stage: KillStage::Discovering,
        lines: seq!["Finding Sonos speakers to stop music..."@],
        action: KillAction::Discover,
    }
}

/// What follows: every speaker that was found is told to stop.
pub open spec fn kill_next(stage: KillStage, event: KillEvent<Seq<Seq<char>>>) -> KillStepView {
    match (stage, event) {
        (KillStage::Discovering, KillEvent::Discovered(ips)) => {
            if ips.len() == 0 {
                Step {
                    stage: KillStage::Finished,
                    lines: seq!["No Sonos devices found."@],
                    action: KillAction::Finish,
                }
            } else {
                Step {
                    stage: KillStage::Stopping,
                    lines: seq![
                        "Stopping music on "@ + decimal_text(ips.len()) + " Sonos devices..."@,
                    ],
                    action: KillAction::StopAll(ips),
                }
            }
        },
        (KillStage::Discovering, KillEvent::DiscoveryFailed) => Step {
            stage: KillStage::Failed,
            lines: seq![],
            action: KillAction::Fail,
        },
        (KillStage::Stopping, KillEvent::Stopped) => Step {
            stage: KillStage::Finished,
            lines: seq!["All speakers stopped!"@],
            action: KillAction::Finish,
        },
        (stage, _) => Step { stage, lines: seq![], action: KillAction::Ignore },
    }
}

impl KillStage {
    /// The music is to be stopped.
    pub fn begin() -> (r: Step<KillStage, KillAction<Vec<String>>, Vec<String>>)
        ensures
            r@ == kill_begin(),
    {
        Step {
            stage: KillStage::Discovering,
            lines: one_line(String::from_str("Finding Sonos speakers to stop music...")),
            action: KillAction::Discover,
        }
    }

    /// What follows.
    pub fn next(self, event: KillEvent<Vec<String>>) -> (r: Step<
        KillStage,
        KillAction<Vec<String>>,
        Vec<String>,
    >)
        ensures
            r@ == kill_next(self, event@),
            self is Discovering && event is Discovered && event->Discovered_0@.len() > 0
                ==> r.action is StopAll && r.action->StopAll_0@ == event->Discovered_0@,
    {
        match (self, event) {
            (KillStage::Discovering, KillEvent::Discovered(ips)) => {
                if ips.len() == 0 {
                    Step {
                        stage: KillStage::Finished,
                        lines: one_line(String::from_str("No Sonos devices found.")),
                        action: KillAction::Finish,
                    }
                } else {
                    let line = String::from_str("Stopping music on ").concat(
                        decimal(ips.len() as u64).as_str(),
                    ).concat(" Sonos devices...");
                    Step {
                        stage: KillStage::Stopping,
                        lines: one_line(line),
                        action: KillAction::StopAll(ips),
                    }
                }
            },
            (KillStage::Discovering, KillEvent::DiscoveryFailed) => Step {
                stage: KillStage::Failed,
                lines: no_lines(),
                action: KillAction::Fail,
            },
            (KillStage::Stopping, KillEvent::Stopped) => Step {
                stage: KillStage::Finished,
                lines: one_line(String::from_str("All speakers stopped!")),
                action: KillAction::Finish,
            },
            (stage, _) => Step { stage, lines: no_lines(), action: KillAction::Ignore },
        }
    }
}

/// The line on a speaker that was told to stop, and did or did not for the reason
/// given.
pub open spec fn stop_line_text(ip: Seq<char>, error: Option<Seq<char>>) -> Seq<char> {
    match error {
        None => "Successfully stopped playback on "@ + ip,
        Some(text) => "Failed to stop playback on "@ + ip + ": "@ + text,
    }
}

/// Writes the line on a speaker that was told to stop.
pub fn stop_line(ip: &str, error: Option<String>) -> (r: String)
    ensures
        r@ == stop_line_text(ip@, optional_text(error)),
        error is None ==> r@ == "Successfully stopped playback on "@ + ip@,
        error is Some ==> r@ == "Failed to stop playback on "@ + ip@ + ": "@ + error->0@,
{
    match error {
        None => String::from_str("Successfully stopped playback on ").concat(ip),
        Some(text) => String::from_str("Failed to stop playback on ").concat(ip).concat(
            ": ",
        ).concat(text.as_str()),
    }
}

/// Every speaker that is found is told to stop, and none is if none is found.
pub proof fn all_speakers_stop(ips: Seq<Seq<char>>)
    ensures
        ips.len() > 0 ==> kill_next(kill_begin().stage, KillEvent::Discovered(ips)).action
            == KillAction::StopAll(ips),
        ips.len() == 0 ==> kill_next(kill_begin().stage, KillEvent::Discovered(ips)).action
            is Finish,
{
}

/// Speakers are told to stop if and only if some were found, and then all of them.
/// Stopping is finished once all were told, or none was found, and breaks off only
/// where the search does.
pub proof fn found_speakers_are_stopped(stage: KillStage, event: KillEvent<Seq<Seq<char>>>)
    ensures
        ({
            let step = kill_next(stage, event);
            let found = stage is Discovering && event is Discovered;
            &&& step.action is StopAll <==> found && event->Discovered_0.len() > 0
            &&& step.action is StopAll ==> step.action->StopAll_0 == event->Discovered_0
            &&& step.action is Finish <==> (found && event->Discovered_0.len() == 0) || (
            stage is Stopping && event is Stopped)
            &&& step.action is Fail <==> stage is Discovering && event is DiscoveryFailed
            &&& !(step.action is Discover)
            &&& step.action is StopAll ==> step.stage is Stopping
            &&& step.action is Finish ==> step.stage is Finished
            &&& step.action is Fail ==> step.stage is Failed
            &&& step.action is Ignore ==> step.stage == stage
        }),
{
}

/// What is told while the music is stopped.
pub proof fn stopping_is_told(stage: KillStage, event: KillEvent<Seq<Seq<char>>>)
    ensures
        ({
            let step = kill_next(stage, event);
            &&& step.action is StopAll ==> step.lines == seq![
                "Stopping music on "@ + decimal_text(event->Discovered_0.len())
                    + " Sonos devices..."@,
            ]
            &&& step.action is Finish ==> step.lines == seq![
                if stage is Stopping {
                    "All speakers stopped!"@
                } else {
                    "No Sonos devices found."@
                },
            ]
            &&& step.action is Fail || step.action is Ignore ==> step.lines.len() == 0
            &&& kill_begin().lines == seq!["Finding Sonos speakers to stop music..."@]
            &&& kill_begin().action is Discover
            &&& kill_begin().stage is Discovering
        }),
{
}

/// The line on a speaker that was told to stop holds its whole address, and the whole
/// reason where it did not stop.
pub proof fn stop_lines_are_whole(ip: Seq<char>, error: Seq<char>)
    ensures
        stop_line_text(ip, None) == "Successfully stopped playback on "@ + ip,
        stop_line_text(ip, Some(error)) == "Failed to stop playback on "@ + ip + ": "@ + error,
{
}

/// What is seen of the lists of speakers is the lists.
pub proof fn kill_lists_are_shown(
    event: KillEvent<Vec<String>>,
    action: KillAction<Vec<String>>,
    stage: KillStage,
)
    ensures
        event is Discovered <==> event@ is Discovered,
        event is DiscoveryFailed <==> event@ is DiscoveryFailed,
        event is Stopped <==> event@ is Stopped,
        event is Discovered ==> event@->Discovered_0 == texts(event->Discovered_0@),
        action is StopAll <==> action@ is StopAll,
        action is Discover <==> action@ is Discover,
        action is Finish <==> action@ is Finish,
        action is Fail <==> action@ is Fail,
        action is StopAll ==> action@->StopAll_0 == texts(action->StopAll_0@),
        stage@ == stage,
{
}

} // verus!
