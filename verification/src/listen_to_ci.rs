//! Watching a CI pipeline and starting music when it is triggered.

use vstd::prelude::*;
use crate::check_github_ci::{is_triggered, MomentView, WorkflowRun};
use crate::step::{no_lines, one_line, two_lines, Step};
use crate::text::{decimal, decimal_text};

verus! {

/// The song that is played where none is chosen.
pub const DEFAULT_TRACK: &'static str = "x-sonos-spotify:spotify:track:4LiJE6pqgsTX3FtukW6bNh?sid=9&flags=8224&sn=7";

/// Takes the track that was chosen, or the song.
pub fn track_or_default(track: Option<String>) -> (r: String)
    ensures
        r@ == (match track {
            Some(chosen) => chosen@,
            None => DEFAULT_TRACK@,
        }),
        track is None ==> r@
            == "x-sonos-spotify:spotify:track:4LiJE6pqgsTX3FtukW6bNh?sid=9&flags=8224&sn=7"@,
        track is Some ==> r@ == track->0@,
{
    match track {
        Some(chosen) => chosen,
        None => String::from_str(DEFAULT_TRACK),
    }
}

/// How far a round of watching has come.
#[derive(Clone, Copy, Debug, PartialEq, Eq, Structural)]
pub enum ListenStage {
    /// The pipeline is checked.
    Checking,
    /// Music is started.
    Starting,
    /// The time until the next check passes.
    Sleeping,
    /// Watching broke off.
    Failed,
}

/// What happened outside.
pub enum ListenEvent<S> {
    /// The pipeline was checked, and was triggered or was not.
    Checked(bool),
    /// The pipeline could not be checked for the reason given.
    CheckFailed(S),
    /// Music was started, or that broke off.
    Started(bool),
    /// The time until the next check has passed.
    Slept,
}

/// What to do outside.
pub enum ListenAction<S> {
    /// Check the pipeline.
    Check,
    /// Start music with the track.
    Start(S),
    /// Sleep for so many seconds.
    Sleep(u64),
    /// Watching broke off on what the last call reported.
    Fail,
    /// The event came out of turn and changes nothing.
    Ignore,
}

impl View for ListenStage {
    type V = ListenStage;

    open spec fn view(&self) -> ListenStage {
        *self
    }
}

impl View for ListenEvent<String> {
    type V = ListenEvent<Seq<char>>;

    open spec fn view(&self) -> ListenEvent<Seq<char>> {
        match self {
            ListenEvent::Checked(triggered) => ListenEvent::Checked(*triggered),
            ListenEvent::CheckFailed(error) => ListenEvent::CheckFailed(error@),
            ListenEvent::Started(started) => ListenEvent::Started(*started),
            ListenEvent::Slept => ListenEvent::Slept,
        }
    }
}

impl View for ListenAction<String> {
    type V = ListenAction<Seq<char>>;

    open spec fn view(&self) -> ListenAction<Seq<char>> {
        match self {
            ListenAction::Check => ListenAction::Check,
            ListenAction::Start(track) => ListenAction::Start(track@),
            ListenAction::Sleep(seconds) => ListenAction::Sleep(*seconds),
            ListenAction::Fail => ListenAction::Fail,
            ListenAction::Ignore => ListenAction::Ignore,
        }
    }
}

/// A step on contents.
pub type ListenStepView = Step<ListenStage, ListenAction<Seq<char>>, Seq<Seq<char>>>;

/// The first step: the pipeline is checked.
pub open spec fn listen_begin(repo: Seq<char>, branch: Seq<char>, interval: u64) -> ListenStepView {
    Step {
        stage: ListenStage::Checking,
        lines: seq![
            "Monitoring GitHub CI pipeline for "@ + repo + " on branch "@ + branch,
            "Checking every "@ + decimal_text(interval as nat) + " seconds"@,
        ],
        action: ListenAction::Check,
    }
}

/// What follows: music is started where the pipeline is triggered, and after each
/// check the interval passes before the next.
pub open spec fn listen_next(
    stage: ListenStage,
    interval: u64,
    event: ListenEvent<Seq<char>>,
) -> ListenStepView {
    match (stage, event) {
        (ListenStage::Checking, ListenEvent::Checked(true)) => Step {
            stage: ListenStage::Starting,
            lines: seq!["CI trigger detected! Starting music..."@],
            action: ListenAction::Start(DEFAULT_TRACK@),
        },
        (ListenStage::Checking, ListenEvent::Checked(false)) => Step {
            stage: ListenStage::Sleeping,
            lines: seq![
                "No CI trigger detected. Waiting "@ + decimal_text(interval as nat)
                    + " seconds..."@,
            ],
            action: ListenAction::Sleep(interval),
        },
        (ListenStage::Checking, ListenEvent::CheckFailed(error)) => Step {
            stage: ListenStage::Sleeping,
            lines: seq!["Error checking CI status: "@ + error],
            action: ListenAction::Sleep(interval),
        },
        (ListenStage::Starting, ListenEvent::Started(true)) => Step {
            stage: ListenStage::Sleeping,
            lines: seq![],
            action: ListenAction::Sleep(interval),
        },
        (ListenStage::Starting, ListenEvent::Started(false)) => Step {
            stage: ListenStage::Failed,
            lines: seq![],
            action: ListenAction::Fail,
        },
        (ListenStage::Sleeping, ListenEvent::Slept) => Step {
            stage: ListenStage::Checking,
            lines: seq![],
            action: ListenAction::Check,
        },
        (stage, _) => Step { stage, lines: seq![], action: ListenAction::Ignore },
    }
}

impl ListenStage {
    /// The pipeline of the repository is to be watched.
    pub fn begin(repo: &str, branch: &str, interval: u64) -> (r: Step<
        ListenStage,
        ListenAction<String>,
        Vec<String>,
    >)
        ensures
            r@ == listen_begin(repo@, branch@, interval),
    {
        let watching = String::from_str("Monitoring GitHub CI pipeline for ").concat(repo).concat(
            " on branch ",
        ).concat(branch);
        let every = String::from_str("Checking every ").concat(decimal(interval).as_str()).concat(
            " seconds",
        );
        Step {
            stage: ListenStage::Checking,
            lines: two_lines(watching, every),
            action: ListenAction::Check,
        }
    }

    /// What follows.
    pub fn next(self, interval: u64, event: ListenEvent<String>) -> (r: Step<
        ListenStage,
        ListenAction<String>,
        Vec<String>,
    >)
        ensures
            r@ == listen_next(self, interval, event@),
            r.action is Sleep ==> r.action->Sleep_0 == interval,
            r.action is Start <==> self is Checking && event is Checked && event->Checked_0,
            r.action is Start ==> r.action->Start_0@ == DEFAULT_TRACK@,
    {
        match (self, event) {
            (ListenStage::Checking, ListenEvent::Checked(true)) => Step {
                stage: ListenStage::Starting,
                lines: one_line(String::from_str("CI trigger detected! Starting music...")),
                action: ListenAction::Start(String::from_str(DEFAULT_TRACK)),
            },
            (ListenStage::Checking, ListenEvent::Checked(false)) => {
                let line = String::from_str("No CI trigger detected. Waiting ").concat(
                    decimal(interval).as_str(),
                ).concat(" seconds...");
                Step {
                    stage: ListenStage::Sleeping,
                    lines: one_line(line),
                    action: ListenAction::Sleep(interval),
                }
            },
            (ListenStage::Checking, ListenEvent::CheckFailed(error)) => {
                let line = String::from_str("Error checking CI status: ").concat(error.as_str());
                Step {
                    stage: ListenStage::Sleeping,
                    lines: one_line(line),
                    action: ListenAction::Sleep(interval),
                }
            },
            (ListenStage::Starting, ListenEvent::Started(true)) => Step {
                stage: ListenStage::Sleeping,
                lines: no_lines(),
                action: ListenAction::Sleep(interval),
            },
            (ListenStage::Starting, ListenEvent::Started(false)) => Step {
                stage: ListenStage::Failed,
                lines: no_lines(),
                action: ListenAction::Fail,
            },
            (ListenStage::Sleeping, ListenEvent::Slept) => Step {
                stage: ListenStage::Checking,
                lines: no_lines(),
                action: ListenAction::Check,
            },
            (stage, _) => Step { stage, lines: no_lines(), action: ListenAction::Ignore },
        }
    }
}

/// What is done outside as the events come in.
pub open spec fn listen_actions(
    stage: ListenStage,
    interval: u64,
    events: Seq<ListenEvent<Seq<char>>>,
) -> Seq<ListenAction<Seq<char>>>
    decreases events.len(),
{
    if events.len() == 0 {
        Seq::empty()
    } else {
        let step = listen_next(stage, interval, events[0]);
        seq![step.action] + listen_actions(step.stage, interval, events.skip(1))
    }
}

/// Whatever happens, music is started only when a check finds the pipeline
/// triggered, and with the song.
pub proof fn only_triggers_start_music(
    stage: ListenStage,
    interval: u64,
    events: Seq<ListenEvent<Seq<char>>>,
    at: int,
)
    requires
        0 <= at < listen_actions(stage, interval, events).len(),
        listen_actions(stage, interval, events)[at] is Start,
    ensures
        at < events.len(),
        events[at] == ListenEvent::<Seq<char>>::Checked(true),
        listen_actions(stage, interval, events)[at] == ListenAction::Start(DEFAULT_TRACK@),
    decreases events.len(),
{
    let step = listen_next(stage, interval, events[0]);
    let actions = listen_actions(stage, interval, events);
    let rest = listen_actions(step.stage, interval, events.skip(1));
    assert(actions == seq![step.action] + rest);
    if at > 0 {
        assert(rest[at - 1] == actions[at]);
        only_triggers_start_music(step.stage, interval, events.skip(1), at - 1);
    }
}

/// When a pipeline is checked, the song is started if and only if the newest run was
/// started a short while ago and is not over.
pub proof fn triggered_runs_start_the_song(
    runs: Seq<WorkflowRun>,
    now: MomentView,
    interval: u64,
)
    ensures
        ({
            let event = ListenEvent::<Seq<char>>::Checked(is_triggered(runs, now));
            let action = listen_next(ListenStage::Checking, interval, event).action;
            &&& action is Start <==> is_triggered(runs, now)
            &&& action is Start ==> action == ListenAction::Start(DEFAULT_TRACK@)
        }),
{
}

/// A check that fails or finds nothing does not end the watching: the next check
/// follows when the interval has passed.
pub proof fn watching_goes_on(interval: u64, event: ListenEvent<Seq<char>>)
    requires
        event is CheckFailed || event == ListenEvent::<Seq<char>>::Checked(false),
    ensures
        listen_actions(
            ListenStage::Checking,
            interval,
            seq![event, ListenEvent::Slept],
        ) == seq![ListenAction::<Seq<char>>::Sleep(interval), ListenAction::Check],
{
    let events = seq![event, ListenEvent::Slept];
    assert(events.skip(1) =~= seq![ListenEvent::Slept]);
    assert(events.skip(1).skip(1) =~= seq![]);
    reveal_with_fuel(listen_actions, 3);
    assert(listen_actions(ListenStage::Checking, interval, events) =~= seq![
        ListenAction::Sleep(interval),
        ListenAction::Check,
    ]);
}

/// Whatever happens and from whatever stage, the watching sleeps for the interval
/// that was chosen.
pub proof fn watching_keeps_the_interval(
    stage: ListenStage,
    interval: u64,
    events: Seq<ListenEvent<Seq<char>>>,
    at: int,
)
    requires
        0 <= at < listen_actions(stage, interval, events).len(),
        listen_actions(stage, interval, events)[at] is Sleep,
    ensures
        listen_actions(stage, interval, events)[at]->Sleep_0 == interval,
    decreases events.len(),
{
    let step = listen_next(stage, interval, events[0]);
    let actions = listen_actions(stage, interval, events);
    let rest = listen_actions(step.stage, interval, events.skip(1));
    assert(actions == seq![step.action] + rest);
    if at > 0 {
        assert(rest[at - 1] == actions[at]);
        watching_keeps_the_interval(step.stage, interval, events.skip(1), at - 1);
    }
}

/// After a trigger the song is started; once it was, the interval passes and the
/// pipeline is checked again.
pub proof fn watching_goes_on_after_a_song(interval: u64)
    ensures
        listen_actions(
            ListenStage::Checking,
            interval,
            seq![ListenEvent::Checked(true), ListenEvent::Started(true), ListenEvent::Slept],
        ) == seq![
            ListenAction::Start(
                "x-sonos-spotify:spotify:track:4LiJE6pqgsTX3FtukW6bNh?sid=9&flags=8224&sn=7"@,
            ),
            ListenAction::Sleep(interval),
            ListenAction::Check,
        ],
{
    let events = seq![
        ListenEvent::<Seq<char>>::Checked(true),
        ListenEvent::Started(true),
        ListenEvent::Slept,
    ];
    assert(events.skip(1) =~= seq![ListenEvent::Started(true), ListenEvent::Slept]);
    assert(events.skip(1).skip(1) =~= seq![ListenEvent::Slept]);
    assert(events.skip(1).skip(1).skip(1) =~= seq![]);
    reveal_with_fuel(listen_actions, 4);
    assert(listen_actions(ListenStage::Checking, interval, events) =~= seq![
        ListenAction::Start(DEFAULT_TRACK@),
        ListenAction::Sleep(interval),
        ListenAction::Check,
    ]);
}

/// The song is started if and only if a check finds a trigger. Every check that finds
/// none or fails, and every start of the song, is followed by a sleep; every sleep is
/// followed by a check. The watching ends if and only if a start breaks off.
pub proof fn listen_stages_follow(
    stage: ListenStage,
    interval: u64,
    event: ListenEvent<Seq<char>>,
)
    ensures
        ({
            let step = listen_next(stage, interval, event);
            let checked = stage is Checking && event is Checked;
            let started = stage is Starting && event is Started;
            &&& step.action is Start <==> checked && event->Checked_0
            &&& step.action is Start ==> step.action->Start_0
                == "x-sonos-spotify:spotify:track:4LiJE6pqgsTX3FtukW6bNh?sid=9&flags=8224&sn=7"@
            &&& step.action is Sleep <==> (checked && !event->Checked_0) || (stage is Checking
                && event is CheckFailed) || (started && event->Started_0)
            &&& step.action is Sleep ==> step.action->Sleep_0 == interval
            &&& step.action is Check <==> stage is Sleeping && event is Slept
            &&& step.action is Fail <==> started && !event->Started_0
            &&& step.action is Start ==> step.stage is Starting
            &&& step.action is Sleep ==> step.stage is Sleeping
            &&& step.action is Check ==> step.stage is Checking
            &&& step.action is Fail ==> step.stage is Failed
            &&& step.action is Ignore ==> step.stage == stage
        }),
{
}

/// What is told while a pipeline is watched.
pub proof fn watching_is_told(
    stage: ListenStage,
    repo: Seq<char>,
    branch: Seq<char>,
    interval: u64,
    event: ListenEvent<Seq<char>>,
)
    ensures
        ({
            let first = listen_begin(repo, branch, interval);
            let step = listen_next(stage, interval, event);
            &&& first.action is Check && first.stage is Checking
            &&& first.lines == seq![
                "Monitoring GitHub CI pipeline for "@ + repo + " on branch "@ + branch,
                "Checking every "@ + decimal_text(interval as nat) + " seconds"@,
            ]
            &&& step.action is Start ==> step.lines == seq![
                "CI trigger detected! Starting music..."@,
            ]
            &&& step.action is Sleep && event is Checked ==> step.lines == seq![
                "No CI trigger detected. Waiting "@ + decimal_text(interval as nat)
                    + " seconds..."@,
            ]
            &&& step.action is Sleep && event is CheckFailed ==> step.lines == seq![
                "Error checking CI status: "@ + event->CheckFailed_0,
            ]
            &&& stage !is Checking || step.action is Ignore ==> step.lines.len() == 0
        }),
{
}

/// What is seen of an event or an action is all of it.
pub proof fn listen_contents_are_shown(
    event: ListenEvent<String>,
    action: ListenAction<String>,
    stage: ListenStage,
)
    ensures
        event is Checked ==> event@ is Checked && event@->Checked_0 == event->Checked_0,
        event is CheckFailed ==> event@ is CheckFailed && event@->CheckFailed_0
            == event->CheckFailed_0@,
        event is Started ==> event@ is Started && event@->Started_0 == event->Started_0,
        event is Slept <==> event@ is Slept,
        action is Start ==> action@ is Start && action@->Start_0 == action->Start_0@,
        action is Sleep ==> action@ is Sleep && action@->Sleep_0 == action->Sleep_0,
        action is Check <==> action@ is Check,
        action is Fail <==> action@ is Fail,
        stage@ == stage,
{
}

} // verus!
