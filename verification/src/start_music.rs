//! Playing the song on all speakers.

use vstd::prelude::*;
use crate::cooldown::{answers, pause_follows_play, Cooldown};
use crate::device::DESCRIPTION_MILLIS;
use crate::patterns::optional_text;
use crate::step::{no_lines, one_line, two_lines, Step};
use crate::text::{decimal, decimal_text, texts};

verus! {

/// For how many milliseconds a new group is left to settle.
pub const SETTLE_MILLIS: u64 = 1000;

/// How far playing the song has come.
pub enum StartStage<S, L> {
    /// The cooldown decides.
    Checking { track: S },
    /// The speakers are looked for.
    Discovering { track: S },
    /// The speaker at position `at` is asked for its description.
    Describing { track: S, ips: L, at: usize },
    /// The speakers are grouped.
    Grouping { track: S, coordinator: S },
    /// The new group settles.
    Settling { track: S, coordinator: S },
    /// The coordinator is told to play.
    Playing { coordinator: S },
    /// The play is remembered.
    Marking,
    /// Nothing is left to do.
    Finished,
    /// Playing broke off.
    Failed,
}

/// What happened outside.
pub enum StartEvent<S, L> {
    /// The cooldown allows to play, or a notice refuses it.
    Checked(Option<S>),
    /// These speakers were found.
    Discovered(L),
    /// The search for speakers broke off.
    DiscoveryFailed,
    /// The speaker described itself, or did not.
    Described(Option<S>),
    /// The speakers were grouped, or were not for the reason given.
    Grouped(Option<S>),
    /// The time to settle is over.
    Settled,
    /// The coordinator plays, or does not for the reason given.
    Played(Option<S>),
    /// The play is remembered.
    Marked,
}

/// What to do outside.
pub enum StartAction<S, L> {
    /// Ask the cooldown.
    CheckCooldown,
    /// Look for speakers.
    Discover,
    /// Ask the speaker for its description, with so many milliseconds at most to
    /// reply.
    Describe { ip: S, timeout_millis: u64 },
    /// Let the members join the coordinator.
    Group { coordinator: S, members: L },
    /// Pause for so many milliseconds.
    Settle(u64),
    /// Play the track on the coordinator.
    Play { coordinator: S, track: S },
    /// Remember the play.
    MarkPlayed,
    /// Nothing is left to do.
    Finish,
    /// Playing broke off on what the last call reported.
    Fail,
    /// The event came out of turn and changes nothing.
    Ignore,
}

impl View for StartStage<String, Vec<String>> {
    type V = StartStage<Seq<char>, Seq<Seq<char>>>;

    open spec fn view(&self) -> StartStage<Seq<char>, Seq<Seq<char>>> {
        match self {
            StartStage::Checking { track } => StartStage::Checking { track: track@ },
            StartStage::Discovering { track } => StartStage::Discovering { track: track@ },
            StartStage::Describing { track, ips, at } => StartStage::Describing {
                track: track@,
                ips: texts(ips@),
                at: *at,
            },
            StartStage::Grouping { track, coordinator } => StartStage::Grouping {
                track: track@,
                coordinator: coordinator@,
            },
            StartStage::Settling { track, coordinator } => StartStage::Settling {
                track: track@,
                coordinator: coordinator@,
            },
            StartStage::Playing { coordinator } => StartStage::Playing {
                coordinator: coordinator@,
            },
            StartStage::Marking => StartStage::Marking,
            StartStage::Finished => StartStage::Finished,
            StartStage::Failed => StartStage::Failed,
        }
    }
}

impl View for StartEvent<String, Vec<String>> {
    type V = StartEvent<Seq<char>, Seq<Seq<char>>>;

    open spec fn view(&self) -> StartEvent<Seq<char>, Seq<Seq<char>>> {
        match self {
            StartEvent::Checked(notice) => StartEvent::Checked(optional_text(*notice)),
            StartEvent::Discovered(ips) => StartEvent::Discovered(texts(ips@)),
            StartEvent::DiscoveryFailed => StartEvent::DiscoveryFailed,
            StartEvent::Described(info) => StartEvent::Described(optional_text(*info)),
            StartEvent::Grouped(error) => StartEvent::Grouped(optional_text(*error)),
            StartEvent::Settled => StartEvent::Settled,
            StartEvent::Played(error) => StartEvent::Played(optional_text(*error)),
            StartEvent::Marked => StartEvent::Marked,
        }
    }
}

impl View for StartAction<String, Vec<String>> {
    type V = StartAction<Seq<char>, Seq<Seq<char>>>;

    open spec fn view(&self) -> StartAction<Seq<char>, Seq<Seq<char>>> {
        match self {
            StartAction::CheckCooldown => StartAction::CheckCooldown,
            StartAction::Discover => StartAction::Discover,
            StartAction::Describe { ip, timeout_millis } => StartAction::Describe {
                ip: ip@,
                timeout_millis: *timeout_millis,
            },
            StartAction::Group { coordinator, members } => StartAction::Group {
                coordinator: coordinator@,
                members: texts(members@),
            },
            StartAction::Settle(millis) => StartAction::Settle(*millis),
            StartAction::Play { coordinator, track } => StartAction::Play {
                coordinator: coordinator@,
                track: track@,
            },
            StartAction::MarkPlayed => StartAction::MarkPlayed,
            StartAction::Finish => StartAction::Finish,
            StartAction::Fail => StartAction::Fail,
            StartAction::Ignore => StartAction::Ignore,
        }
    }
}

/// A stage on contents.
pub type StartStageView = StartStage<Seq<char>, Seq<Seq<char>>>;

/// An event on contents.
pub type StartEventView = StartEvent<Seq<char>, Seq<Seq<char>>>;

/// An action on contents.
pub type StartActionView = StartAction<Seq<char>, Seq<Seq<char>>>;

/// A step on contents.
pub type StartStepView = Step<StartStageView, StartActionView, Seq<Seq<char>>>;

/// The line on the speaker at position `at`, by what it told or else by its
/// address.
pub open spec fn device_line_text(at: nat, ip: Seq<char>, info: Option<Seq<char>>) -> Seq<char> {
    "["@ + decimal_text(at + 1) + "] "@ + (match info {
        Some(text) => text,
        None => "Unknown Device at "@ + ip,
    })
}

/// The speaker at `ip` is asked for its description.
pub open spec fn description_of(ip: Seq<char>) -> StartActionView {
    StartAction::Describe { ip, timeout_millis: DESCRIPTION_MILLIS }
}

/// The line before the coordinator is told to play.
pub open spec fn playing_text(coordinator: Seq<char>) -> Seq<char> {
    "Playing music on coordinator speaker "@ + coordinator + "..."@
}

/// What follows once all speakers are listed: the first is the coordinator, and
/// the others, if there are any, join it before it plays.
pub open spec fn listed_next(
    track: Seq<char>,
    ips: Seq<Seq<char>>,
    line: Seq<char>,
) -> StartStepView {
    let coordinator = ips[0];
    if ips.len() > 1 {
        Step {
            stage: StartStage::Grouping { track, coordinator },
            lines: seq![
                line,
                "Grouping "@ + decimal_text(ips.len()) + " speakers with coordinator "@
                    + coordinator + "..."@,
            ],
            action: StartAction::Group { coordinator, members: ips.skip(1) },
        }
    } else {
        Step {
            stage: StartStage::Playing { coordinator },
            lines: seq![line, playing_text(coordinator)],
            action: StartAction::Play { coordinator, track },
        }
    }
}

/// The first step when the track is to be played.
pub open spec fn start_begin(track: Seq<char>) -> StartStepView {
    Step {
        stage: StartStage::Checking { track },
        lines: seq![],
        action: StartAction::CheckCooldown,
    }
}

/// What follows when the song is to be played.
pub open spec fn start_next(stage: StartStageView, event: StartEventView) -> StartStepView {
    match (stage, event) {
        (StartStage::Checking { track }, StartEvent::Checked(None)) => Step {
            stage: StartStage::Discovering { track },
            lines: seq!["Finding Sonos speakers on your network..."@],
            action: StartAction::Discover,
        },
        (StartStage::Checking { .. }, StartEvent::Checked(Some(notice))) => Step {
            stage: StartStage::Finished,
            lines: seq![notice],
            action: StartAction::Finish,
        },
        (StartStage::Discovering { track }, StartEvent::Discovered(ips)) => {
            if ips.len() == 0 {
                Step {
                    stage: StartStage::Finished,
                    lines: seq!["No Sonos devices found."@],
                    action: StartAction::Finish,
                }
            } else {
                Step {
                    stage: StartStage::Describing { track, ips, at: 0 },
                    lines: seq!["Found "@ + decimal_text(ips.len()) + " Sonos devices:"@],
                    action: description_of(ips[0]),
                }
            }
        },
        (StartStage::Discovering { .. }, StartEvent::DiscoveryFailed) => Step {
            stage: StartStage::Failed,
            lines: seq![],
            action: StartAction::Fail,
        },
        (StartStage::Describing { track, ips, at }, StartEvent::Described(info)) => {
            if at >= ips.len() {
                Step { stage, lines: seq![], action: StartAction::Ignore }
            } else if at + 1 < ips.len() {
                Step {
                    stage: StartStage::Describing { track, ips, at: (at + 1) as usize },
                    lines: seq![device_line_text(at as nat, ips[at as int], info)],
                    action: description_of(ips[at + 1]),
                }
            } else {
                listed_next(track, ips, device_line_text(at as nat, ips[at as int], info))
            }
        },
        (StartStage::Grouping { track, coordinator }, StartEvent::Grouped(error)) => Step {
            stage: StartStage::Settling { track, coordinator },
            lines: seq![
                match error {
                    None => "Speakers grouped successfully."@,
                    Some(text) => "Failed to group speakers: "@ + text
                        + ". Proceeding without grouping."@,
                },
            ],
            action: StartAction::Settle(SETTLE_MILLIS),
        },
        (StartStage::Settling { track, coordinator }, StartEvent::Settled) => Step {
            stage: StartStage::Playing { coordinator },
            lines: seq![playing_text(coordinator)],
            action: StartAction::Play { coordinator, track },
        },
        (StartStage::Playing { coordinator }, StartEvent::Played(error)) => Step {
            stage: StartStage::Marking,
            lines: seq![
                match error {
                    None => "Successfully sent play command to coordinator "@ + coordinator,
                    Some(text) => "Failed to send play command to coordinator "@ + coordinator
                        + ": "@ + text,
                },
                "Play command sent."@,
            ],
            action: StartAction::MarkPlayed,
        },
        (StartStage::Marking, StartEvent::Marked) => Step {
            stage: StartStage::Finished,
            lines: seq![],
            action: StartAction::Finish,
        },
        (stage, _) => Step { stage, lines: seq![], action: StartAction::Ignore },
    }
}

fn device_line(at: usize, ip: &String, info: Option<String>) -> (r: String)
    requires
        at < usize::MAX,
    ensures
        r@ == device_line_text(at as nat, ip@, optional_text(info)),
{
    let text = match info {
        Some(text) => text,
        None => String::from_str("Unknown Device at ").concat(ip.as_str()),
    };
    String::from_str("[").concat(decimal((at + 1) as u64).as_str()).concat("] ").concat(
        text.as_str(),
    )
}

fn playing_line(coordinator: &String) -> (r: String)
    ensures
        r@ == playing_text(coordinator@),
{
    String::from_str("Playing music on coordinator speaker ").concat(coordinator.as_str()).concat(
        "...",
    )
}

/// All but the first.
fn without_first(ips: &Vec<String>) -> (r: Vec<String>)
    requires
        ips@.len() > 0,
    ensures
        texts(r@) == texts(ips@).skip(1),
{
    let mut members: Vec<String> = Vec::new();
    for i in 1..ips.len()
        invariant
            members@.len() == i - 1,
            forall|j: int| 0 <= j < i - 1 ==> #[trigger] members@[j]@ == ips@[j + 1]@,
    {
        members.push(ips[i].clone());
    }
    assert(texts(members@) =~= texts(ips@).skip(1));
    members
}

fn after_list(track: String, ips: Vec<String>, line: String) -> (r: Step<
    StartStage<String, Vec<String>>,
    StartAction<String, Vec<String>>,
    Vec<String>,
>)
    requires
        ips@.len() > 0,
    ensures
        r@ == listed_next(track@, texts(ips@), line@),
{
    let coordinator = ips[0].clone();
    if ips.len() > 1 {
        let members = without_first(&ips);
        let grouping = String::from_str("Grouping ").concat(
            decimal(ips.len() as u64).as_str(),
        ).concat(" speakers with coordinator ").concat(coordinator.as_str()).concat("...");
        Step {
            stage: StartStage::Grouping { track, coordinator: coordinator.clone() },
            lines: two_lines(line, grouping),
            action: StartAction::Group { coordinator, members },
        }
    } else {
        let playing = playing_line(&coordinator);
        Step {
            stage: StartStage::Playing { coordinator: coordinator.clone() },
            lines: two_lines(line, playing),
            action: StartAction::Play { coordinator, track },
        }
    }
}

impl StartStage<String, Vec<String>> {
    /// The track is to be played.
    pub fn begin(track: String) -> (r: Step<Self, StartAction<String, Vec<String>>, Vec<String>>)
        ensures
            r@ == start_begin(track@),
    {
        Step {
            stage: StartStage::Checking { track },
            lines: no_lines(),
            action: StartAction::CheckCooldown,
        }
    }

    /// What follows when the song is to be played.
    pub fn next(self, event: StartEvent<String, Vec<String>>) -> (r: Step<
        Self,
        StartAction<String, Vec<String>>,
        Vec<String>,
    >)
        ensures
            r@ == start_next(self@, event@),
            self is Settling && event is Settled ==> r.action is Play && r.action->track@
                == self->Settling_track@ && r.action->Play_coordinator@
                == self->Settling_coordinator@,
            r.action is Settle ==> r.action->Settle_0 == 1000,
            r.action is Describe ==> r.action->timeout_millis == 2000,
    {
        match (self, event) {
            (StartStage::Checking { track }, StartEvent::Checked(None)) => Step {
                stage: StartStage::Discovering { track },
                lines: one_line(String::from_str("Finding Sonos speakers on your network...")),
                action: StartAction::Discover,
            },
            (StartStage::Checking { .. }, StartEvent::Checked(Some(notice))) => Step {
                stage: StartStage::Finished,
                lines: one_line(notice),
                action: StartAction::Finish,
            },
            (StartStage::Discovering { track }, StartEvent::Discovered(ips)) => {
                if ips.len() == 0 {
                    Step {
                        stage: StartStage::Finished,
                        lines: one_line(String::from_str("No Sonos devices found.")),
                        action: StartAction::Finish,
                    }
                } else {
                    let line = String::from_str("Found ").concat(
                        decimal(ips.len() as u64).as_str(),
                    ).concat(" Sonos devices:");
                    let first = ips[0].clone();
                    Step {
                        stage: StartStage::Describing { track, ips, at: 0 },
                        lines: one_line(line),
                        action: StartAction::Describe {
                            ip: first,
                            timeout_millis: DESCRIPTION_MILLIS,
                        },
                    }
                }
            },
            (StartStage::Discovering { .. }, StartEvent::DiscoveryFailed) => Step {
                stage: StartStage::Failed,
                lines: no_lines(),
                action: StartAction::Fail,
            },
            (StartStage::Describing { track, ips, at }, StartEvent::Described(info)) => {
                if at >= ips.len() {
                    return Step {
                        stage: StartStage::Describing { track, ips, at },
                        lines: no_lines(),
                        action: StartAction::Ignore,
                    };
                }
                let line = device_line(at, &ips[at], info);
                if at + 1 < ips.len() {
                    let ip = ips[at + 1].clone();
                    Step {
                        stage: StartStage::Describing { track, ips, at: at + 1 },
                        lines: one_line(line),
                        action: StartAction::Describe {
                            ip,
                            timeout_millis: DESCRIPTION_MILLIS,
                        },
                    }
                } else {
                    after_list(track, ips, line)
                }
            },
            (StartStage::Grouping { track, coordinator }, StartEvent::Grouped(error)) => {
                let line = match error {
                    None => String::from_str("Speakers grouped successfully."),
                    Some(text) => String::from_str("Failed to group speakers: ").concat(
                        text.as_str(),
                    ).concat(". Proceeding without grouping."),
                };
                Step {
                    stage: StartStage::Settling { track, coordinator },
                    lines: one_line(line),
                    action: StartAction::Settle(SETTLE_MILLIS),
                }
            },
            (StartStage::Settling { track, coordinator }, StartEvent::Settled) => {
                let line = playing_line(&coordinator);
                Step {
                    stage: StartStage::Playing { coordinator: coordinator.clone() },
                    lines: one_line(line),
                    action: StartAction::Play { coordinator, track },
                }
            },
            (StartStage::Playing { coordinator }, StartEvent::Played(error)) => {
                let line = match error {
                    None => String::from_str(
                        "Successfully sent play command to coordinator ",
                    ).concat(coordinator.as_str()),
                    Some(text) => String::from_str(
                        "Failed to send play command to coordinator ",
                    ).concat(coordinator.as_str()).concat(": ").concat(text.as_str()),
                };
                Step {
                    stage: StartStage::Marking,
                    lines: two_lines(line, String::from_str("Play command sent.")),
                    action: StartAction::MarkPlayed,
                }
            },
            (StartStage::Marking, StartEvent::Marked) => Step {
                stage: StartStage::Finished,
                lines: no_lines(),
                action: StartAction::Finish,
            },
            (stage, _) => Step { stage, lines: no_lines(), action: StartAction::Ignore },
        }
    }
}

/// What is done outside as the events come in.
pub open spec fn start_actions(stage: StartStageView, events: Seq<StartEventView>) -> Seq<
    StartActionView,
>
    decreases events.len(),
{
    if events.len() == 0 {
        Seq::empty()
    } else {
        let step = start_next(stage, events[0]);
        seq![step.action] + start_actions(step.stage, events.skip(1))
    }
}

proof fn lemma_first_action(
    stage: StartStageView,
    event: StartEventView,
    rest: Seq<StartEventView>,
)
    ensures
        start_actions(stage, seq![event] + rest) == seq![start_next(stage, event).action]
            + start_actions(start_next(stage, event).stage, rest),
{
    assert((seq![event] + rest).skip(1) =~= rest);
}

/// A play that the cooldown refuses ends with the notice: nothing else is done,
/// whatever happens.
pub proof fn refusal_does_nothing(
    track: Seq<char>,
    notice: Seq<char>,
    events: Seq<StartEventView>,
)
    ensures
        start_next(StartStage::Checking { track }, StartEvent::Checked(Some(notice))).lines
            == seq![notice],
        forall|i: int|
            0 <= i < events.len() + 1 ==> ({
                let action = #[trigger] start_actions(
                    StartStage::Checking { track },
                    seq![StartEvent::Checked(Some(notice))] + events,
                )[i];
                action is Finish || action is Ignore
            }),
{
    lemma_first_action(
        StartStage::Checking { track },
        StartEvent::Checked(Some(notice)),
        events,
    );
    lemma_finished_ignores(events);
}

/// While the pause after a play lasts, no speaker is told to play, whatever happens.
pub proof fn plays_keep_the_pause(
    tracker: Cooldown,
    played: nat,
    first: nat,
    second: nat,
    notice: Option<Seq<char>>,
    track: Seq<char>,
    events: Seq<StartEventView>,
    at: int,
)
    requires
        played <= first < played + tracker.length,
        answers(tracker.played_at(played), first, second, notice),
        0 <= at < events.len() + 1,
    ensures
        start_actions(
            start_begin(track).stage,
            seq![StartEvent::Checked(notice)] + events,
        )[at] !is Play,
{
    pause_follows_play(tracker, played, first);
    refusal_does_nothing(track, notice->0, events);
    let action = start_actions(
        StartStage::Checking { track },
        seq![StartEvent::Checked(Some(notice->0))] + events,
    )[at];
    assert(action is Finish || action is Ignore);
}

proof fn lemma_finished_ignores(events: Seq<StartEventView>)
    ensures
        start_actions(StartStage::Finished, events).len() == events.len(),
        forall|i: int|
            0 <= i < events.len() ==> (#[trigger] start_actions(
                StartStage::Finished,
                events,
            )[i]) is Ignore,
    decreases events.len(),
{
    if events.len() > 0 {
        lemma_finished_ignores(events.skip(1));
    }
}

/// The speakers answer in turn when they are asked for their descriptions.
pub open spec fn descriptions(infos: Seq<Option<Seq<char>>>) -> Seq<StartEventView> {
    infos.map_values(|info: Option<Seq<char>>| StartEvent::Described(info))
}

/// What happens once so many speakers are listed.
pub open spec fn closing_events(
    count: nat,
    grouped: Option<Seq<char>>,
    played: Option<Seq<char>>,
) -> Seq<StartEventView> {
    if count > 1 {
        seq![
            StartEvent::Grouped(grouped),
            StartEvent::Settled,
            StartEvent::Played(played),
            StartEvent::Marked,
        ]
    } else {
        seq![StartEvent::Played(played), StartEvent::Marked]
    }
}

/// What is done once the speakers are listed: the others join the first, which is
/// then told to play, and the play is remembered.
pub open spec fn closing_actions(track: Seq<char>, ips: Seq<Seq<char>>) -> Seq<StartActionView> {
    let played = seq![
        StartAction::Play { coordinator: ips[0], track },
        StartAction::MarkPlayed,
        StartAction::Finish,
    ];
    if ips.len() > 1 {
        seq![
            StartAction::Group { coordinator: ips[0], members: ips.skip(1) },
            StartAction::Settle(SETTLE_MILLIS),
        ] + played
    } else {
        played
    }
}

/// Each speaker is asked for its description.
pub open spec fn describe_actions(ips: Seq<Seq<char>>) -> Seq<StartActionView> {
    ips.map_values(|ip: Seq<char>| description_of(ip))
}

proof fn lemma_closing(
    track: Seq<char>,
    ips: Seq<Seq<char>>,
    info: Option<Seq<char>>,
    grouped: Option<Seq<char>>,
    played: Option<Seq<char>>,
)
    requires
        0 < ips.len() <= usize::MAX,
    ensures
        start_actions(
            StartStage::Describing { track, ips, at: (ips.len() - 1) as usize },
            seq![StartEvent::Described(info)] + closing_events(ips.len(), grouped, played),
        ) == closing_actions(track, ips),
{
    let last = StartStage::Describing { track, ips, at: (ips.len() - 1) as usize };
    let coordinator = ips[0];
    let end = Seq::<StartEventView>::empty();
    let marked = seq![StartEvent::Marked];
    let playing = seq![StartEvent::Played(played), StartEvent::Marked];
    lemma_first_action(StartStage::Marking, StartEvent::Marked, end);
    assert(seq![StartEvent::Marked] + end =~= marked);
    assert(start_actions(StartStage::Marking, marked) =~= seq![StartAction::Finish]);
    lemma_first_action(StartStage::Playing { coordinator }, StartEvent::Played(played), marked);
    assert(seq![StartEvent::Played(played)] + marked =~= playing);
    assert(start_actions(StartStage::Playing { coordinator }, playing) =~= seq![
        StartAction::MarkPlayed,
        StartAction::Finish,
    ]);
    if ips.len() > 1 {
        let settled = seq![StartEvent::Settled] + playing;
        let group = seq![StartEvent::Grouped(grouped)] + settled;
        lemma_first_action(
            StartStage::Settling { track, coordinator },
            StartEvent::Settled,
            playing,
        );
        lemma_first_action(
            StartStage::Grouping { track, coordinator },
            StartEvent::Grouped(grouped),
            settled,
        );
        lemma_first_action(last, StartEvent::Described(info), group);
        assert(group =~= closing_events(ips.len(), grouped, played));
    } else {
        lemma_first_action(last, StartEvent::Described(info), playing);
        assert(playing =~= closing_events(ips.len(), grouped, played));
    }
    assert(start_actions(
        last,
        seq![StartEvent::Described(info)] + closing_events(ips.len(), grouped, played),
    ) =~= closing_actions(track, ips));
}

proof fn lemma_describing(
    track: Seq<char>,
    ips: Seq<Seq<char>>,
    at: usize,
    infos: Seq<Option<Seq<char>>>,
    grouped: Option<Seq<char>>,
    played: Option<Seq<char>>,
)
    requires
        at < ips.len() <= usize::MAX,
        infos.len() == ips.len() - at,
    ensures
        start_actions(
            StartStage::Describing { track, ips, at },
            descriptions(infos) + closing_events(ips.len(), grouped, played),
        ) == describe_actions(ips.skip(at + 1)) + closing_actions(track, ips),
    decreases ips.len() - at,
{
    let closing = closing_events(ips.len(), grouped, played);
    let stage = StartStage::Describing { track, ips, at };
    let first = StartEvent::Described(infos[0]);
    let rest = descriptions(infos.skip(1)) + closing;
    assert(descriptions(infos) + closing =~= seq![first] + rest);
    if at + 1 == ips.len() {
        assert(rest =~= closing);
        lemma_closing(track, ips, infos[0], grouped, played);
        assert(describe_actions(ips.skip(at + 1)) + closing_actions(track, ips)
            =~= closing_actions(track, ips));
    } else {
        lemma_first_action(stage, first, rest);
        lemma_describing(track, ips, (at + 1) as usize, infos.skip(1), grouped, played);
        assert(seq![description_of(ips[at + 1])] + (describe_actions(ips.skip(at + 2))
            + closing_actions(track, ips)) =~= describe_actions(ips.skip(at + 1))
            + closing_actions(track, ips));
    }
}

/// Where the cooldown allows a play and speakers are found, each is asked for its
/// description, the others join the first, the first is told to play, and the play
/// is remembered: whether or not the speakers describe themselves, group and play.
pub proof fn all_speakers_play(
    track: Seq<char>,
    ips: Seq<Seq<char>>,
    infos: Seq<Option<Seq<char>>>,
    grouped: Option<Seq<char>>,
    played: Option<Seq<char>>,
)
    requires
        0 < ips.len() <= usize::MAX,
        infos.len() == ips.len(),
    ensures
        start_actions(
            start_begin(track).stage,
            seq![StartEvent::Checked(None), StartEvent::Discovered(ips)] + descriptions(infos)
                + closing_events(ips.len(), grouped, played),
        ) == seq![StartAction::Discover] + describe_actions(ips) + closing_actions(track, ips),
{
    let rest = descriptions(infos) + closing_events(ips.len(), grouped, played);
    let found = seq![StartEvent::Discovered(ips)] + rest;
    let all = seq![StartEvent::Checked(None), StartEvent::Discovered(ips)] + descriptions(infos)
        + closing_events(ips.len(), grouped, played);
    assert(all =~= seq![StartEvent::Checked(None)] + found);
    lemma_first_action(StartStage::Checking { track }, StartEvent::Checked(None), found);
    lemma_first_action(StartStage::Discovering { track }, StartEvent::Discovered(ips), rest);
    lemma_describing(track, ips, 0, infos, grouped, played);
    assert(start_actions(start_begin(track).stage, all) =~= seq![StartAction::Discover]
        + describe_actions(ips) + closing_actions(track, ips));
}

/// Whether a speaker was told to play before the action at position `at`.
pub open spec fn played_before(actions: Seq<StartActionView>, at: int) -> bool {
    exists|i: int| 0 <= i < at && (#[trigger] actions[i]) is Play
}

proof fn lemma_mark_follows_play(stage: StartStageView, events: Seq<StartEventView>, at: int)
    requires
        !(stage is Playing),
        0 <= at < start_actions(stage, events).len(),
        start_actions(stage, events)[at] is MarkPlayed,
    ensures
        played_before(start_actions(stage, events), at),
    decreases events.len(),
{
    let actions = start_actions(stage, events);
    let step = start_next(stage, events[0]);
    let rest = start_actions(step.stage, events.skip(1));
    assert(actions == seq![step.action] + rest);
    if step.stage is Playing {
        assert(actions[0] is Play);
    } else {
        assert(rest[at - 1] == actions[at]);
        lemma_mark_follows_play(step.stage, events.skip(1), at - 1);
        let i = choose|i: int| 0 <= i < at - 1 && (#[trigger] rest[i]) is Play;
        assert(actions[i + 1] is Play);
    }
}

/// Whatever happens, a play is remembered only after a speaker was told to play.
pub proof fn only_plays_are_remembered(track: Seq<char>, events: Seq<StartEventView>, at: int)
    requires
        0 <= at < start_actions(start_begin(track).stage, events).len(),
        start_actions(start_begin(track).stage, events)[at] is MarkPlayed,
    ensures
        played_before(start_actions(start_begin(track).stage, events), at),
{
    lemma_mark_follows_play(start_begin(track).stage, events, at);
}

/// Whether the cooldown allowed to play among the first `count` events.
pub open spec fn allowed_within(events: Seq<StartEventView>, count: int) -> bool {
    exists|i: int|
        0 <= i < count && i < events.len() && #[trigger] events[i] == StartEvent::<
            Seq<char>,
            Seq<Seq<char>>,
        >::Checked(None)
}

/// Whatever happens, a speaker is told to play only if the cooldown allowed it
/// before.
pub proof fn only_allowed_plays(track: Seq<char>, events: Seq<StartEventView>, at: int)
    requires
        0 <= at < start_actions(StartStage::Checking { track }, events).len(),
        start_actions(StartStage::Checking { track }, events)[at] is Play,
    ensures
        allowed_within(events, at + 1),
    decreases events.len(),
{
    let stage = StartStage::Checking { track };
    let actions = start_actions(stage, events);
    let step = start_next(stage, events[0]);
    let rest = start_actions(step.stage, events.skip(1));
    assert(actions == seq![step.action] + rest);
    if step.stage is Checking {
        assert(rest[at - 1] == actions[at]);
        only_allowed_plays(track, events.skip(1), at - 1);
        let later = events.skip(1);
        let i = choose|i: int|
            0 <= i < at && i < later.len() && #[trigger] later[i] == StartEvent::<
                Seq<char>,
                Seq<Seq<char>>,
            >::Checked(None);
        assert(events[i + 1] == StartEvent::<Seq<char>, Seq<Seq<char>>>::Checked(None));
    } else if step.stage is Finished {
        lemma_finished_ignores(events.skip(1));
    } else {
        assert(events[0] == StartEvent::<Seq<char>, Seq<Seq<char>>>::Checked(None));
    }
}

/// Whatever track is chosen, the cooldown is asked first, nothing is told, and the
/// whole track is kept.
pub proof fn cooldown_is_asked_first(track: Seq<char>)
    ensures
        start_begin(track).action is CheckCooldown,
        start_begin(track).lines.len() == 0,
        start_begin(track).stage is Checking,
        start_begin(track).stage->Checking_track == track,
{
}

/// Whether the stage concerns these speakers and this track.
pub open spec fn concerns(
    stage: StartStageView,
    track: Seq<char>,
    ips: Seq<Seq<char>>,
) -> bool {
    match stage {
        StartStage::Checking { .. } => false,
        StartStage::Discovering { .. } => false,
        StartStage::Describing { track: t, ips: list, .. } => t == track && list == ips
            && ips.len() > 0,
        StartStage::Grouping { track: t, coordinator } => t == track && coordinator == ips[0],
        StartStage::Settling { track: t, coordinator } => t == track && coordinator == ips[0],
        StartStage::Playing { coordinator } => coordinator == ips[0],
        StartStage::Marking => true,
        StartStage::Finished => true,
        StartStage::Failed => true,
    }
}

proof fn lemma_concerned_actions(
    stage: StartStageView,
    track: Seq<char>,
    ips: Seq<Seq<char>>,
    events: Seq<StartEventView>,
    at: int,
)
    requires
        concerns(stage, track, ips),
        0 <= at < start_actions(stage, events).len(),
    ensures
        ({
            let action = start_actions(stage, events)[at];
            &&& action matches StartAction::Play { coordinator, track: played } ==> coordinator
                == ips[0] && played == track
            &&& action matches StartAction::Group { coordinator, members } ==> coordinator
                == ips[0] && members == ips.skip(1) && ips.len() > 1
            &&& action matches StartAction::Describe { ip, timeout_millis } ==> ips.contains(ip)
                && timeout_millis == 2000
            &&& action matches StartAction::Settle(millis) ==> millis == 1000
            &&& !(action is Discover) && !(action is CheckCooldown)
        }),
    decreases events.len(),
{
    let step = start_next(stage, events[0]);
    let actions = start_actions(stage, events);
    let rest = start_actions(step.stage, events.skip(1));
    assert(actions == seq![step.action] + rest);
    if at > 0 {
        assert(rest[at - 1] == actions[at]);
        lemma_concerned_actions(step.stage, track, ips, events.skip(1), at - 1);
    }
}

/// Whatever happens once speakers were found, the one that is told to play is the
/// first of them, and what it plays is the whole track that was chosen; those that
/// join it are all the others, in their order; only speakers that were found are
/// asked for descriptions.
pub proof fn found_speakers_play_the_chosen_track(
    track: Seq<char>,
    ips: Seq<Seq<char>>,
    events: Seq<StartEventView>,
    at: int,
)
    requires
        0 <= at < events.len() + 2,
        0 <= at < start_actions(
            start_begin(track).stage,
            seq![StartEvent::Checked(None)] + (seq![StartEvent::Discovered(ips)] + events),
        ).len(),
    ensures
        ({
            let action = start_actions(
                start_begin(track).stage,
                seq![StartEvent::Checked(None)] + (seq![StartEvent::Discovered(ips)] + events),
            )[at];
            &&& action matches StartAction::Play { coordinator, track: played } ==> coordinator
                == ips[0] && played == track
            &&& action matches StartAction::Group { coordinator, members } ==> coordinator
                == ips[0] && members == ips.skip(1) && ips.len() > 1
            &&& action matches StartAction::Describe { ip, timeout_millis } ==> ips.contains(ip)
                && timeout_millis == 2000
            &&& action matches StartAction::Settle(millis) ==> millis == 1000
            &&& ips.len() == 0 ==> !(action is Play) && !(action is MarkPlayed)
        }),
{
    let found = seq![StartEvent::Discovered(ips)] + events;
    let all = seq![StartEvent::Checked(None)] + found;
    lemma_first_action(StartStage::Checking { track }, StartEvent::Checked(None), found);
    lemma_first_action(StartStage::Discovering { track }, StartEvent::Discovered(ips), events);
    let step = start_next(StartStage::Discovering { track }, StartEvent::Discovered(ips));
    let rest = start_actions(step.stage, events);
    let actions = start_actions(start_begin(track).stage, all);
    assert(actions == seq![StartAction::Discover] + (seq![step.action] + rest));
    if at == 1 {
        assert(actions[at] == step.action);
        if ips.len() > 0 {
            assert(ips.contains(ips[0]));
        }
    }
    if at > 1 {
        assert(actions[at] == rest[at - 2]);
        if ips.len() > 0 {
            lemma_concerned_actions(step.stage, track, ips, events, at - 2);
        } else {
            lemma_finished_ignores(events);
        }
    }
}

/// Where speakers are found, this is done, one after the other: each is asked for its
/// description; where there are others, they join the first, and a second passes; the
/// first plays the track; and the play is remembered.
pub proof fn all_speakers_play_in_order(
    track: Seq<char>,
    ips: Seq<Seq<char>>,
    infos: Seq<Option<Seq<char>>>,
    grouped: Option<Seq<char>>,
    played: Option<Seq<char>>,
)
    requires
        0 < ips.len() <= usize::MAX,
        infos.len() == ips.len(),
    ensures
        ({
            let n = ips.len() as int;
            let m = if n > 1 {
                n + 3
            } else {
                n + 1
            };
            let actions = start_actions(
                start_begin(track).stage,
                seq![StartEvent::Checked(None), StartEvent::Discovered(ips)] + descriptions(infos)
                    + closing_events(ips.len(), grouped, played),
            );
            &&& actions.len() == m + 3
            &&& actions[0] is Discover
            &&& forall|i: int|
                1 <= i <= n ==> #[trigger] actions[i] == (StartAction::<
                    Seq<char>,
                    Seq<Seq<char>>,
                >::Describe {
                    ip: ips[i - 1],
                    timeout_millis: 2000,
                })
            &&& n > 1 ==> actions[n + 1] == (StartAction::Group {
                coordinator: ips[0],
                members: ips.skip(1),
            })
            &&& n > 1 ==> actions[n + 2] == StartAction::<Seq<char>, Seq<Seq<char>>>::Settle(1000)
            &&& actions[m] == (StartAction::<Seq<char>, Seq<Seq<char>>>::Play { coordinator: ips[0], track })
            &&& actions[m + 1] is MarkPlayed
            &&& actions[m + 2] is Finish
        }),
{
    all_speakers_play(track, ips, infos, grouped, played);
    let actions = seq![StartAction::Discover] + describe_actions(ips) + closing_actions(track, ips);
    assert forall|i: int| 1 <= i <= ips.len() implies #[trigger] actions[i] == (
    StartAction::<Seq<char>, Seq<Seq<char>>>::Describe { ip: ips[i - 1], timeout_millis: 2000 }) by {
        assert(describe_actions(ips)[i - 1] == description_of(ips[i - 1]));
    }
}

/// The stage keeps what is played and on which speakers; an event out of turn changes
/// nothing. Playing ends where the cooldown refuses it, where no speaker is found and
/// once the play is remembered, and breaks off only where the search does.
pub proof fn start_stages_follow(stage: StartStageView, event: StartEventView)
    ensures
        ({
            let step = start_next(stage, event);
            let found = stage is Discovering && event is Discovered;
            &&& step.action is Discover <==> stage is Checking && event is Checked
                && event->Checked_0 is None
            &&& step.action is Discover ==> step.stage == (StartStage::<
                Seq<char>,
                Seq<Seq<char>>,
            >::Discovering { track: stage->Checking_track })
            &&& step.action is Finish <==> (stage is Checking && event is Checked
                && event->Checked_0 is Some) || (found && event->Discovered_0.len() == 0) || (
            stage is Marking && event is Marked)
            &&& step.action is Fail <==> stage is Discovering && event is DiscoveryFailed
            &&& step.action is MarkPlayed <==> stage is Playing && event is Played
            &&& step.action is Settle <==> stage is Grouping && event is Grouped
            &&& stage is Settling && event is Settled ==> step.action == (StartAction::<
                Seq<char>,
                Seq<Seq<char>>,
            >::Play { coordinator: stage->Settling_coordinator, track: stage->Settling_track })
            &&& step.action is Settle ==> step.action->Settle_0 == 1000
            &&& step.action is MarkPlayed ==> step.stage is Marking
            &&& step.action is Finish ==> step.stage is Finished
            &&& step.action is Fail ==> step.stage is Failed
            &&& step.action is Ignore ==> step.stage == stage
        }),
{
}

/// What is told while the song is brought to play, but for the list of speakers.
pub proof fn playing_is_told(stage: StartStageView, event: StartEventView)
    ensures
        ({
            let step = start_next(stage, event);
            let checked = stage is Checking && event is Checked;
            let found = stage is Discovering && event is Discovered;
            &&& checked && event->Checked_0 is None ==> step.lines == seq![
                "Finding Sonos speakers on your network..."@,
            ]
            &&& checked && event->Checked_0 is Some ==> step.lines == seq![event->Checked_0->0]
            &&& found && event->Discovered_0.len() == 0 ==> step.lines == seq![
                "No Sonos devices found."@,
            ]
            &&& found && event->Discovered_0.len() > 0 ==> step.lines == seq![
                "Found "@ + decimal_text(event->Discovered_0.len()) + " Sonos devices:"@,
            ]
            &&& stage is Grouping && event is Grouped && event->Grouped_0 is None ==> step.lines
                == seq!["Speakers grouped successfully."@]
            &&& stage is Grouping && event is Grouped && event->Grouped_0 is Some ==> step.lines
                == seq![
                "Failed to group speakers: "@ + event->Grouped_0->0
                    + ". Proceeding without grouping."@,
            ]
            &&& stage is Settling && event is Settled ==> step.lines == seq![
                "Playing music on coordinator speaker "@ + stage->Settling_coordinator + "..."@,
            ]
            &&& stage is Playing && event is Played && event->Played_0 is None ==> step.lines
                == seq![
                "Successfully sent play command to coordinator "@ + stage->Playing_coordinator,
                "Play command sent."@,
            ]
            &&& stage is Playing && event is Played && event->Played_0 is Some ==> step.lines
                == seq![
                "Failed to send play command to coordinator "@ + stage->Playing_coordinator + ": "@
                    + event->Played_0->0,
                "Play command sent."@,
            ]
            &&& step.action is Ignore || step.action is Fail || stage is Marking
                ==> step.lines.len() == 0
        }),
{
}

/// The speakers are listed with their numbers, from one, and with all that they tell
/// or else with their addresses. Behind the last it is told what comes next.
pub proof fn speakers_are_listed(
    track: Seq<char>,
    ips: Seq<Seq<char>>,
    at: usize,
    info: Option<Seq<char>>,
)
    requires
        at < ips.len() <= usize::MAX,
    ensures
        ({
            let stage = StartStage::Describing { track, ips, at };
            let step = start_next(stage, StartEvent::Described(info));
            let last = at + 1 == ips.len();
            &&& step.lines[0] == "["@ + decimal_text((at + 1) as nat) + "] "@ + (if info is Some {
                info->0
            } else {
                "Unknown Device at "@ + ips[at as int]
            })
            &&& !last ==> step.lines.len() == 1
            &&& !last ==> step.action == (StartAction::<
                    Seq<char>,
                    Seq<Seq<char>>,
                >::Describe {
                ip: ips[at + 1],
                timeout_millis: 2000,
            })
            &&& !last ==> step.stage == (StartStage::Describing {
                track,
                ips,
                at: (at + 1) as usize,
            })
            &&& last ==> step.lines.len() == 2
            &&& last && ips.len() > 1 ==> step.lines[1] == "Grouping "@ + decimal_text(ips.len())
                + " speakers with coordinator "@ + ips[0] + "..."@
            &&& last && ips.len() == 1 ==> step.lines[1]
                == "Playing music on coordinator speaker "@ + ips[0] + "..."@
        }),
{
}

/// What is seen of a stage is all of it.
pub proof fn start_stages_are_shown(stage: StartStage<String, Vec<String>>)
    ensures
        stage matches StartStage::Checking { track } ==> stage@ == (StartStage::<
            Seq<char>,
            Seq<Seq<char>>,
        >::Checking { track: track@ }),
        stage matches StartStage::Discovering { track } ==> stage@ == (StartStage::<
            Seq<char>,
            Seq<Seq<char>>,
        >::Discovering { track: track@ }),
        stage matches StartStage::Describing { track, ips, at } ==> stage@ == (
        StartStage::Describing { track: track@, ips: texts(ips@), at }),
        stage matches StartStage::Grouping { track, coordinator } ==> stage@ == (StartStage::<
            Seq<char>,
            Seq<Seq<char>>,
        >::Grouping { track: track@, coordinator: coordinator@ }),
        stage matches StartStage::Settling { track, coordinator } ==> stage@ == (StartStage::<
            Seq<char>,
            Seq<Seq<char>>,
        >::Settling { track: track@, coordinator: coordinator@ }),
        stage matches StartStage::Playing { coordinator } ==> stage@ == (StartStage::<
            Seq<char>,
            Seq<Seq<char>>,
        >::Playing { coordinator: coordinator@ }),
        stage is Marking <==> stage@ is Marking,
        stage is Finished <==> stage@ is Finished,
        stage is Failed <==> stage@ is Failed,
{
}

/// What is seen of an event is all of it.
pub proof fn start_events_are_shown(event: StartEvent<String, Vec<String>>)
    ensures
        event is Checked ==> event@ is Checked && event@->Checked_0 == optional_text(
            event->Checked_0,
        ),
        event is Discovered ==> event@ is Discovered && event@->Discovered_0 == texts(
            event->Discovered_0@,
        ),
        event is Described ==> event@ is Described && event@->Described_0 == optional_text(
            event->Described_0,
        ),
        event is Grouped ==> event@ is Grouped && event@->Grouped_0 == optional_text(
            event->Grouped_0,
        ),
        event is Played ==> event@ is Played && event@->Played_0 == optional_text(event->Played_0),
        event is DiscoveryFailed <==> event@ is DiscoveryFailed,
        event is Settled <==> event@ is Settled,
        event is Marked <==> event@ is Marked,
{
}

/// What is seen of an action is all of it.
pub proof fn start_actions_are_shown(action: StartAction<String, Vec<String>>)
    ensures
        action is Describe ==> action@ is Describe && action@->ip == action->ip@
            && action@->timeout_millis == action->timeout_millis,
        action is Group ==> action@ is Group && action@->Group_coordinator
            == action->Group_coordinator@ && action@->members == texts(action->members@),
        action is Settle ==> action@ is Settle && action@->Settle_0 == action->Settle_0,
        action is Play ==> action@ is Play && action@->Play_coordinator
            == action->Play_coordinator@ && action@->track == action->track@,
        action is CheckCooldown <==> action@ is CheckCooldown,
        action is Discover <==> action@ is Discover,
        action is MarkPlayed <==> action@ is MarkPlayed,
        action is Finish <==> action@ is Finish,
        action is Fail <==> action@ is Fail,
{
}

} // verus!
