//! Letting speakers join a coordinator.

use vstd::prelude::*;
use crate::device::{get_speaker_uuid, group_uri, uuid_in, uuids_are_whole};
use crate::patterns::{is_first_enclosed, optional_text};
use crate::step::{no_lines, Step};
use crate::text::texts;

verus! {

/// How far the grouping has come.
pub enum GroupStage<S, L> {
    /// The coordinator is asked for its identifier, for the member at position `at`.
    Asking { coordinator: S, members: L, at: usize },
    /// The member at position `at` is told to join.
    Joining { coordinator: S, members: L, at: usize },
    /// All members joined.
    Finished,
    /// The grouping broke off.
    Failed,
}

/// What happened outside.
pub enum GroupEvent<S> {
    /// The coordinator gave its description, or did not.
    Described(Option<S>),
    /// The member joined, or did not.
    Joined(bool),
}

/// What to do outside.
pub enum GroupAction<S> {
    /// Ask the speaker for its description.
    Describe(S),
    /// Set the track of the speaker.
    SetUri { ip: S, uri: S },
    /// All members joined.
    Finish,
    /// The grouping broke off: for the reason given, or on what the last call
    /// reported.
    Fail(Option<S>),
    /// The event came out of turn and changes nothing.
    Ignore,
}

impl View for GroupStage<String, Vec<String>> {
    type V = GroupStage<Seq<char>, Seq<Seq<char>>>;

    open spec fn view(&self) -> GroupStage<Seq<char>, Seq<Seq<char>>> {
        match self {
            GroupStage::Asking { coordinator, members, at } => GroupStage::Asking {
                coordinator: coordinator@,
                members: texts(members@),
                at: *at,
            },
            GroupStage::Joining { coordinator, members, at } => GroupStage::Joining {
                coordinator: coordinator@,
                members: texts(members@),
                at: *at,
            },
            GroupStage::Finished => GroupStage::Finished,
            GroupStage::Failed => GroupStage::Failed,
        }
    }
}

impl View for GroupEvent<String> {
    type V = GroupEvent<Seq<char>>;

    open spec fn view(&self) -> GroupEvent<Seq<char>> {
        match self {
            GroupEvent::Described(description) => GroupEvent::Described(
                optional_text(*description),
            ),
            GroupEvent::Joined(joined) => GroupEvent::Joined(*joined),
        }
    }
}

impl View for GroupAction<String> {
    type V = GroupAction<Seq<char>>;

    open spec fn view(&self) -> GroupAction<Seq<char>> {
        match self {
            GroupAction::Describe(ip) => GroupAction::Describe(ip@),
            GroupAction::SetUri { ip, uri } => GroupAction::SetUri { ip: ip@, uri: uri@ },
            GroupAction::Finish => GroupAction::Finish,
            GroupAction::Fail(reason) => GroupAction::Fail(optional_text(*reason)),
            GroupAction::Ignore => GroupAction::Ignore,
        }
    }
}

/// A stage on contents.
pub type GroupStageView = GroupStage<Seq<char>, Seq<Seq<char>>>;

/// A step on contents.
pub type GroupStepView = Step<GroupStageView, GroupAction<Seq<char>>, Seq<Seq<char>>>;

/// A step of the grouping, which prints nothing.
pub open spec fn group_step(stage: GroupStageView, action: GroupAction<Seq<char>>) -> GroupStepView {
    Step { stage, lines: Seq::empty(), action }
}

/// The turn of the member at position `at`: the coordinator is asked for its
/// identifier, unless all members had their turn.
pub open spec fn group_turn(
    coordinator: Seq<char>,
    members: Seq<Seq<char>>,
    at: nat,
) -> GroupStepView {
    if at < members.len() {
        group_step(
            GroupStage::Asking { coordinator, members, at: at as usize },
            GroupAction::Describe(coordinator),
        )
    } else {
        group_step(GroupStage::Finished, GroupAction::Finish)
    }
}

/// What follows in the grouping.
pub open spec fn group_next(stage: GroupStageView, event: GroupEvent<Seq<char>>) -> GroupStepView {
    match (stage, event) {
        (
            GroupStage::Asking { coordinator, members, at },
            GroupEvent::Described(Some(description)),
        ) => if at >= members.len() {
            group_step(stage, GroupAction::Ignore)
        } else {
            match uuid_in(description) {
                None => group_step(
                    GroupStage::Failed,
                    GroupAction::Fail(Some("Failed to get speaker UUID"@)),
                ),
                Some(uuid) => group_step(
                    GroupStage::Joining { coordinator, members, at },
                    GroupAction::SetUri { ip: members[at as int], uri: "x-rincon:"@ + uuid },
                ),
            }
        },
        (GroupStage::Asking { .. }, GroupEvent::Described(None)) => group_step(
            GroupStage::Failed,
            GroupAction::Fail(None),
        ),
        (
            GroupStage::Joining { coordinator, members, at },
            GroupEvent::Joined(true),
        ) => if at >= members.len() {
            group_step(stage, GroupAction::Ignore)
        } else {
            group_turn(coordinator, members, (at + 1) as nat)
        },
        (GroupStage::Joining { .. }, GroupEvent::Joined(false)) => group_step(
            GroupStage::Failed,
            GroupAction::Fail(None),
        ),
        (stage, _) => group_step(stage, GroupAction::Ignore),
    }
}

fn turn(coordinator: String, members: Vec<String>, at: usize) -> (r: Step<
    GroupStage<String, Vec<String>>,
    GroupAction<String>,
    Vec<String>,
>)
    ensures
        r@ == group_turn(coordinator@, texts(members@), at as nat),
{
    if at < members.len() {
        let ip = coordinator.clone();
        Step {
            stage: GroupStage::Asking { coordinator, members, at },
            lines: no_lines(),
            action: GroupAction::Describe(ip),
        }
    } else {
        Step { stage: GroupStage::Finished, lines: no_lines(), action: GroupAction::Finish }
    }
}

impl GroupStage<String, Vec<String>> {
    /// The members are to join the coordinator.
    pub fn begin(coordinator: String, members: Vec<String>) -> (r: Step<
        Self,
        GroupAction<String>,
        Vec<String>,
    >)
        ensures
            r@ == group_turn(coordinator@, texts(members@), 0),
    {
        turn(coordinator, members, 0)
    }

    /// What follows in the grouping.
    pub fn next(self, event: GroupEvent<String>) -> (r: Step<
        Self,
        GroupAction<String>,
        Vec<String>,
    >)
        ensures
            r@ == group_next(self@, event@),
            r.action is SetUri ==> self is Asking && self->Asking_at
                < self->Asking_members@.len() && r.action->ip@
                == self->Asking_members@[self->Asking_at as int]@ && exists|uuid: Seq<char>|
                r.action->uri@ == "x-rincon:"@ + uuid && #[trigger] is_first_enclosed(
                    event->Described_0->0@,
                    "<UDN>uuid:"@,
                    "</UDN>"@,
                    Some(uuid),
                ),
    {
        match (self, event) {
            (
                GroupStage::Asking { coordinator, members, at },
                GroupEvent::Described(Some(description)),
            ) => {
                if at >= members.len() {
                    return Step {
                        stage: GroupStage::Asking { coordinator, members, at },
                        lines: no_lines(),
                        action: GroupAction::Ignore,
                    };
                }
                match get_speaker_uuid(description.as_str()) {
                    Err(error) => Step {
                        stage: GroupStage::Failed,
                        lines: no_lines(),
                        action: GroupAction::Fail(Some(error.message())),
                    },
                    Ok(uuid) => {
                        let ip = members[at].clone();
                        let uri = group_uri(uuid.as_str());
                        assert(is_first_enclosed(
                            description@,
                            "<UDN>uuid:"@,
                            "</UDN>"@,
                            Some(uuid@),
                        ));
                        Step {
                            stage: GroupStage::Joining { coordinator, members, at },
                            lines: no_lines(),
                            action: GroupAction::SetUri { ip, uri },
                        }
                    },
                }
            },
            (GroupStage::Asking { .. }, GroupEvent::Described(None)) => Step {
                stage: GroupStage::Failed,
                lines: no_lines(),
                action: GroupAction::Fail(None),
            },
            (GroupStage::Joining { coordinator, members, at }, GroupEvent::Joined(true)) => {
                if at >= members.len() {
                    return Step {
                        stage: GroupStage::Joining { coordinator, members, at },
                        lines: no_lines(),
                        action: GroupAction::Ignore,
                    };
                }
                turn(coordinator, members, at + 1)
            },
            (GroupStage::Joining { .. }, GroupEvent::Joined(false)) => Step {
                stage: GroupStage::Failed,
                lines: no_lines(),
                action: GroupAction::Fail(None),
            },
            (stage, _) => Step { stage, lines: no_lines(), action: GroupAction::Ignore },
        }
    }
}

/// What is done outside as the events come in.
pub open spec fn group_actions(stage: GroupStageView, events: Seq<GroupEvent<Seq<char>>>) -> Seq<
    GroupAction<Seq<char>>,
>
    decreases events.len(),
{
    if events.len() == 0 {
        Seq::empty()
    } else {
        let step = group_next(stage, events[0]);
        seq![step.action] + group_actions(step.stage, events.skip(1))
    }
}

/// The coordinator describes itself and a member joins, for each description.
pub open spec fn joining_events(descriptions: Seq<Seq<char>>) -> Seq<GroupEvent<Seq<char>>>
    decreases descriptions.len(),
{
    if descriptions.len() == 0 {
        Seq::empty()
    } else {
        seq![GroupEvent::Described(Some(descriptions[0])), GroupEvent::Joined(true)]
            + joining_events(descriptions.skip(1))
    }
}

/// Each member is told to join under the identifier that the coordinator gave for
/// it, and the coordinator is asked anew before the next.
pub open spec fn joining_actions(
    coordinator: Seq<char>,
    members: Seq<Seq<char>>,
    descriptions: Seq<Seq<char>>,
) -> Seq<GroupAction<Seq<char>>>
    decreases members.len(),
{
    if members.len() == 0 {
        Seq::empty()
    } else {
        seq![
            GroupAction::SetUri {
                ip: members[0],
                uri: "x-rincon:"@ + uuid_in(descriptions[0])->0,
            },
            if members.len() == 1 {
                GroupAction::Finish
            } else {
                GroupAction::Describe(coordinator)
            },
        ] + joining_actions(coordinator, members.skip(1), descriptions.skip(1))
    }
}

proof fn lemma_all_join(
    coordinator: Seq<char>,
    members: Seq<Seq<char>>,
    at: nat,
    descriptions: Seq<Seq<char>>,
)
    requires
        at <= members.len() <= usize::MAX,
        descriptions.len() == members.len() - at,
        forall|i: int|
            0 <= i < descriptions.len() ==> uuid_in(#[trigger] descriptions[i]) is Some,
    ensures
        group_actions(group_turn(coordinator, members, at).stage, joining_events(descriptions))
            == joining_actions(coordinator, members.skip(at as int), descriptions),
    decreases descriptions.len(),
{
    if descriptions.len() > 0 {
        let asking = group_turn(coordinator, members, at).stage;
        let joining = GroupStage::Joining { coordinator, members, at: at as usize };
        let rest = joining_events(descriptions.skip(1));
        let events = joining_events(descriptions);
        let after = seq![GroupEvent::Joined(true)] + rest;
        assert(events =~= seq![GroupEvent::Described(Some(descriptions[0]))] + after);
        assert(events.skip(1) =~= after);
        assert(after.skip(1) =~= rest);
        lemma_all_join(coordinator, members, at + 1, descriptions.skip(1));
        assert(members.skip(at as int).skip(1) =~= members.skip((at + 1) as int));
        assert(uuid_in(descriptions[0]) is Some);
        assert(group_actions(joining, after) == seq![
            group_turn(coordinator, members, at + 1).action,
        ] + group_actions(group_turn(coordinator, members, at + 1).stage, rest));
        assert(group_actions(asking, events) =~= joining_actions(
            coordinator,
            members.skip(at as int),
            descriptions,
        ));
    }
}

/// Where the coordinator gives its identifier whenever it is asked and every
/// member joins, each member is told to join the coordinator, in order, and then
/// the grouping is finished.
pub proof fn all_members_join(
    coordinator: Seq<char>,
    members: Seq<Seq<char>>,
    descriptions: Seq<Seq<char>>,
)
    requires
        members.len() <= usize::MAX,
        descriptions.len() == members.len(),
        forall|i: int|
            0 <= i < descriptions.len() ==> uuid_in(#[trigger] descriptions[i]) is Some,
    ensures
        group_actions(group_turn(coordinator, members, 0).stage, joining_events(descriptions))
            == joining_actions(coordinator, members, descriptions),
{
    lemma_all_join(coordinator, members, 0, descriptions);
    assert(members.skip(0) =~= members);
}

/// Once the grouping broke off, no speaker is told to join.
pub proof fn failure_ends_grouping(events: Seq<GroupEvent<Seq<char>>>)
    ensures
        group_actions(GroupStage::Failed, events).len() == events.len(),
        forall|i: int|
            0 <= i < events.len() ==> (#[trigger] group_actions(
                GroupStage::Failed,
                events,
            )[i]) is Ignore,
    decreases events.len(),
{
    if events.len() > 0 {
        failure_ends_grouping(events.skip(1));
    }
}

/// A member whose turn it is joins under the whole identifier that stands first in
/// the description of the coordinator. Where none stands there, the grouping breaks
/// off.
pub proof fn members_join_under_the_identifier(
    coordinator: Seq<char>,
    members: Seq<Seq<char>>,
    at: usize,
    description: Seq<char>,
    uuid: Option<Seq<char>>,
)
    requires
        at < members.len(),
        is_first_enclosed(description, "<UDN>uuid:"@, "</UDN>"@, uuid),
    ensures
        ({
            let asking = GroupStage::Asking { coordinator, members, at };
            let step = group_next(asking, GroupEvent::Described(Some(description)));
            &&& uuid is Some ==> step.action == (GroupAction::SetUri {
                ip: members[at as int],
                uri: "x-rincon:"@ + uuid->0,
            })
            &&& uuid is Some ==> step.stage == (GroupStage::Joining { coordinator, members, at })
            &&& uuid is None ==> step.action == GroupAction::Fail(
                Some("Failed to get speaker UUID"@),
            )
            &&& uuid is None ==> step.stage is Failed
        }),
{
    uuids_are_whole(description, uuid);
}

/// Once a member joined, the coordinator is asked anew for the next, until none is
/// left.
pub proof fn next_member_follows(
    coordinator: Seq<char>,
    members: Seq<Seq<char>>,
    at: usize,
)
    requires
        at < members.len() <= usize::MAX,
    ensures
        ({
            let joining = GroupStage::Joining { coordinator, members, at };
            let step = group_next(joining, GroupEvent::Joined(true));
            &&& at + 1 < members.len() ==> step.action == GroupAction::Describe(coordinator)
            &&& at + 1 < members.len() ==> step.stage == (GroupStage::Asking {
                coordinator,
                members,
                at: (at + 1) as usize,
            })
            &&& at + 1 == members.len() ==> step.action is Finish && step.stage is Finished
        }),
{
}

/// The grouping starts with the first member, and is finished at once where there is
/// none.
pub proof fn grouping_starts_with_the_first(coordinator: Seq<char>, members: Seq<Seq<char>>)
    ensures
        ({
            let step = group_turn(coordinator, members, 0);
            &&& members.len() > 0 ==> step.action == GroupAction::Describe(coordinator)
            &&& members.len() > 0 ==> step.stage == (GroupStage::Asking {
                coordinator,
                members,
                at: 0,
            })
            &&& members.len() == 0 ==> step.action is Finish && step.stage is Finished
        }),
{
}

/// Nobody is told to join but on a description, the grouping breaks off where the
/// coordinator does not answer or a member does not join, and nothing is told.
pub proof fn group_stages_follow(stage: GroupStageView, event: GroupEvent<Seq<char>>)
    ensures
        ({
            let step = group_next(stage, event);
            let asked = stage is Asking && event is Described;
            let joining = stage is Joining && event is Joined;
            &&& step.action is SetUri ==> asked && event->Described_0 is Some
            &&& asked && event->Described_0 is None ==> step.action == GroupAction::<
                Seq<char>,
            >::Fail(None) && step.stage is Failed
            &&& joining && !event->Joined_0 ==> step.action == GroupAction::<Seq<char>>::Fail(None)
                && step.stage is Failed
            &&& step.action is Describe || step.action is Finish ==> joining && event->Joined_0
            &&& step.action is Ignore ==> step.stage == stage
            &&& step.lines.len() == 0
        }),
{
}

/// The speakers that are told to join, in order.
pub open spec fn told_to_join(actions: Seq<GroupAction<Seq<char>>>) -> Seq<Seq<char>>
    decreases actions.len(),
{
    if actions.len() == 0 {
        Seq::empty()
    } else if actions[0] is SetUri {
        seq![actions[0]->ip] + told_to_join(actions.skip(1))
    } else {
        told_to_join(actions.skip(1))
    }
}

proof fn lemma_joins(stage: GroupStageView, events: Seq<GroupEvent<Seq<char>>>, i: int)
    ensures
        ({
            let joined = told_to_join(group_actions(stage, events));
            let members = if stage is Asking {
                stage->Asking_members
            } else {
                stage->Joining_members
            };
            let at = if stage is Asking {
                stage->Asking_at
            } else {
                stage->Joining_at
            };
            let fits = at < members.len() <= usize::MAX;
            &&& stage is Asking && fits ==> joined.len() <= members.len() - at
            &&& stage is Asking && fits && 0 <= i < joined.len() ==> joined[i] == members[at + i]
            &&& stage is Joining && fits ==> joined.len() <= members.len() - at - 1
            &&& stage is Joining && fits && 0 <= i < joined.len() ==> joined[i] == members[at + 1
                + i]
            &&& stage is Finished || stage is Failed ==> joined.len() == 0
        }),
    decreases events.len(),
{
    if events.len() > 0 {
        let step = group_next(stage, events[0]);
        let actions = group_actions(stage, events);
        let rest = group_actions(step.stage, events.skip(1));
        assert(actions == seq![step.action] + rest);
        assert(actions.skip(1) =~= rest);
        lemma_joins(step.stage, events.skip(1), i);
        lemma_joins(step.stage, events.skip(1), i - 1);
    }
}

/// Whatever happens, the speakers that are told to join are the first of the members,
/// in their order, and none is told twice.
pub proof fn members_join_in_order(
    coordinator: Seq<char>,
    members: Seq<Seq<char>>,
    events: Seq<GroupEvent<Seq<char>>>,
    i: int,
)
    requires
        members.len() <= usize::MAX,
    ensures
        ({
            let joined = told_to_join(
                group_actions(group_turn(coordinator, members, 0).stage, events),
            );
            &&& joined.len() <= members.len()
            &&& 0 <= i < joined.len() ==> joined[i] == members[i]
        }),
{
    lemma_joins(group_turn(coordinator, members, 0).stage, events, i);
}

/// What is seen of the speakers and the tracks is all of them.
pub proof fn group_contents_are_shown(
    stage: GroupStage<String, Vec<String>>,
    event: GroupEvent<String>,
    action: GroupAction<String>,
)
    ensures
        stage matches GroupStage::Asking { coordinator, members, at } ==> stage@ == (
        GroupStage::Asking { coordinator: coordinator@, members: texts(members@), at }),
        stage matches GroupStage::Joining { coordinator, members, at } ==> stage@ == (
        GroupStage::Joining { coordinator: coordinator@, members: texts(members@), at }),
        event matches GroupEvent::Described(Some(text)) ==> event@ == GroupEvent::Described(
            Some(text@),
        ),
        event matches GroupEvent::Described(None) ==> event@ == GroupEvent::<Seq<char>>::Described(
            None,
        ),
        event matches GroupEvent::Joined(joined) ==> event@ == GroupEvent::<Seq<char>>::Joined(
            joined,
        ),
        action is Describe ==> action@ is Describe && action@->Describe_0 == action->Describe_0@,
        action is SetUri ==> action@ is SetUri && action@->ip == action->ip@ && action@->uri
            == action->uri@,
        action is Finish <==> action@ is Finish,
        action is Fail <==> action@ is Fail,
{
}

} // verus!
