//! The pause that has to pass between two plays of the song.

use std::time::Instant;
use vstd::prelude::*;
use crate::patterns::optional_text;
use crate::text::{decimal, decimal_text};

verus! {

/// For how many minutes the song rests after a play.
pub const COOLDOWN_MINUTES: u64 = 30;

/// The nanoseconds of a second.
pub const NANOS_PER_SECOND: u128 = 1_000_000_000;

/// Declares `std::time::Instant`, of which nothing is known but what the two
/// functions below say.
#[verifier::external_type_specification]
#[verifier::external_body]
pub struct ExInstant(std::time::Instant);

/// Calls `std::time::Instant::now`. Nothing is claimed of the result, which
/// depends on the time of the call.
#[verifier::external_body]
fn clock_start() -> Instant {
    Instant::now()
}

/// Whether a clock can read `now` nanoseconds: as many as fit the range of
/// `std::time::Duration`.
pub open spec fn is_reading(now: nat) -> bool {
    now < (u64::MAX + 1) * NANOS_PER_SECOND
}

/// Calls `std::time::Instant::elapsed`: the nanoseconds since `origin`, which
/// fit the range of `std::time::Duration`. Nothing else is claimed of the
/// result, which depends on the time of the call.
#[verifier::external_body]
fn clock_reading(origin: &Instant) -> (r: u128)
    ensures
        is_reading(r as nat),
{
    origin.elapsed().as_nanos()
}

/// What a tracker knows: the reading of its clock at the last play, if there was
/// one, and how much has to pass until the next, in nanoseconds.
pub struct Cooldown {
    pub last_played: Option<nat>,
    pub length: nat,
}

/// What passes from reading `since` to reading `now` of a clock, and nothing
/// where the clock went back.
pub open spec fn passed(since: nat, now: nat) -> nat {
    if since <= now {
        (now - since) as nat
    } else {
        0
    }
}

impl Cooldown {
    /// Whether the song may be played when the clock reads `now`.
    pub open spec fn ready_at(self, now: nat) -> bool {
        self.last_played is Some ==> passed(self.last_played->0, now) >= self.length
    }

    /// What is left of the pause when the clock reads `now`.
    pub open spec fn left_at(self, now: nat) -> Option<nat> {
        match self.last_played {
            None => None,
            Some(since) => Some(
                if passed(since, now) >= self.length {
                    0
                } else {
                    (self.length - passed(since, now)) as nat
                },
            ),
        }
    }

    /// The song is played when the clock reads `now`.
    pub open spec fn played_at(self, now: nat) -> Cooldown {
        Cooldown { last_played: Some(now), length: self.length }
    }
}

/// Tracks when the song was last played.
pub struct LastPlayedTracker {
    origin: Instant,
    last_played: Option<u128>,
    cooldown: u128,
}

impl View for LastPlayedTracker {
    type V = Cooldown;

    closed spec fn view(&self) -> Cooldown {
        Cooldown {
            last_played: match self.last_played {
                None => None,
                Some(reading) => Some(reading as nat),
            },
            length: self.cooldown as nat,
        }
    }
}

impl LastPlayedTracker {
    /// The clock of the tracker, by when it was started.
    pub closed spec fn clock(&self) -> Instant {
        self.origin
    }

    /// The pause fits the range of `std::time::Duration`.
    #[verifier::type_invariant]
    spec fn in_range(self) -> bool {
        self.cooldown < (u64::MAX + 1) * NANOS_PER_SECOND
    }

    /// A tracker of a song that was not played yet.
    pub fn new(cooldown_minutes: u64) -> (r: Self)
        requires
            cooldown_minutes * 60 <= u64::MAX,
        ensures
            r@.last_played is None,
            r@.length == cooldown_minutes * 60 * NANOS_PER_SECOND,
            r@.length == cooldown_minutes * 60_000_000_000,
    {
        LastPlayedTracker {
            origin: clock_start(),
            last_played: None,
            cooldown: (cooldown_minutes * 60) as u128 * NANOS_PER_SECOND,
        }
    }

    fn since_last_play(last_played: u128, now: u128) -> (r: u128)
        ensures
            r == passed(last_played as nat, now as nat),
    {
        if last_played <= now {
            now - last_played
        } else {
            0
        }
    }

    /// Whether the song may be played when the clock of the tracker reads `now`
    /// nanoseconds.
    pub fn can_play_at(&self, now: u128) -> (r: bool)
        ensures
            r == self@.ready_at(now as nat),
            r <==> self@.last_played is None || self@.length == 0 || now
                >= self@.last_played->0 + self@.length,
    {
        match self.last_played {
            None => true,
            Some(reading) => Self::since_last_play(reading, now) >= self.cooldown,
        }
    }

    /// Whether the song may be played now.
    pub fn can_play_now(&self) -> (r: bool)
        ensures
            exists|now: nat| is_reading(now) && r == self@.ready_at(now),
            self@.last_played is None ==> r,
            self@.length == 0 ==> r,
    {
        let now = clock_reading(&self.origin);
        let ready = self.can_play_at(now);
        assert(ready == self@.ready_at(now as nat));
        ready
    }

    /// Remembers that the song is played when the clock of the tracker reads
    /// `now` nanoseconds.
    pub fn mark_played_at(&mut self, now: u128)
        ensures
            final(self)@ == old(self)@.played_at(now as nat),
            final(self)@.last_played == Some(now as nat),
            final(self)@.length == old(self)@.length,
            final(self).clock() == old(self).clock(),
    {
        proof {
            use_type_invariant(&*self);
        }
        self.last_played = Some(now);
    }

    /// Remembers that the song is played now.
    pub fn mark_played(&mut self)
        ensures
            exists|now: nat| is_reading(now) && final(self)@ == old(self)@.played_at(now),
            final(self)@.last_played is Some,
            final(self)@.length == old(self)@.length,
            final(self).clock() == old(self).clock(),
    {
        let now = clock_reading(&self.origin);
        self.mark_played_at(now);
        assert(self@ == old(self)@.played_at(now as nat));
    }

    /// The nanoseconds that are left of the pause when the clock of the tracker
    /// reads `now` nanoseconds, or nothing before the first play.
    pub fn time_until_next_play_at(&self, now: u128) -> (r: Option<u128>)
        ensures
            r is Some <==> self@.last_played is Some,
            r is Some ==> self@.left_at(now as nat) == Some(r->0 as nat),
            r is Some && self@.last_played->0 <= now ==> r->0 == (if now
                >= self@.last_played->0 + self@.length {
                0
            } else {
                self@.last_played->0 + self@.length - now
            }),
            r is Some && self@.last_played->0 > now ==> r->0 == self@.length,
            r is Some ==> r->0 < (u64::MAX + 1) * NANOS_PER_SECOND,
    {
        proof {
            use_type_invariant(self);
        }
        match self.last_played {
            None => None,
            Some(reading) => {
                let elapsed = Self::since_last_play(reading, now);
                if elapsed >= self.cooldown {
                    Some(0)
                } else {
                    Some(self.cooldown - elapsed)
                }
            },
        }
    }

    /// The nanoseconds that are left of the pause, or nothing before the first
    /// play.
    pub fn time_until_next_play(&self) -> (r: Option<u128>)
        ensures
            r is Some <==> self@.last_played is Some,
            r is Some ==> exists|now: nat|
                is_reading(now) && self@.left_at(now) == Some(r->0 as nat),
            r is Some ==> r->0 <= self@.length,
            r is Some ==> r->0 < (u64::MAX + 1) * NANOS_PER_SECOND,
    {
        let now = clock_reading(&self.origin);
        let left = self.time_until_next_play_at(now);
        assert(left is Some ==> self@.left_at(now as nat) == Some(left->0 as nat));
        left
    }
}

/// The notice that refuses a play with `wait` nanoseconds left.
pub open spec fn refusal_text(wait: nat) -> Seq<char> {
    let seconds = wait / NANOS_PER_SECOND as nat;
    "Music was recently played. Please wait "@ + decimal_text(seconds / 60) + "m "@ + decimal_text(
        seconds % 60,
    ) + "s before playing again."@
}

/// Writes the notice that refuses a play with `wait` nanoseconds left.
pub fn refusal(wait: u128) -> (r: String)
    requires
        wait < (u64::MAX + 1) * NANOS_PER_SECOND,
    ensures
        r@ == refusal_text(wait as nat),
        r@ == "Music was recently played. Please wait "@ + decimal_text(
            (wait as nat) / 60_000_000_000,
        ) + "m "@ + decimal_text((wait as nat) / 1_000_000_000 % 60) + "s before playing again."@,
{
    proof {
        waits_are_told(
            wait as nat,
            (wait as nat) / 60_000_000_000,
            (wait as nat) / 1_000_000_000 % 60,
        );
    }
    let seconds: u64 = (wait / NANOS_PER_SECOND) as u64;
    String::from_str("Music was recently played. Please wait ").concat(
        decimal(seconds / 60).as_str(),
    ).concat("m ").concat(decimal(seconds % 60).as_str()).concat("s before playing again.")
}

/// Refuses a play, with the notice that says so, unless the tracker answered that
/// the song may be played.
pub fn refuse_unless(can_play: bool, wait: Option<u128>) -> (r: Option<String>)
    requires
        !can_play ==> wait is Some,
        !can_play ==> wait->0 < (u64::MAX + 1) * NANOS_PER_SECOND,
    ensures
        r is None <==> can_play,
        !can_play ==> r->0@ == refusal_text(wait->0 as nat),
{
    if can_play {
        None
    } else {
        Some(refusal(wait.unwrap()))
    }
}

/// Whether a tracker whose clock reads `first`, and then `second`, answers with
/// `notice`: none where the song may be played at the first reading, and else the
/// one that tells what is left of the pause at the second.
pub open spec fn answers(
    tracker: Cooldown,
    first: nat,
    second: nat,
    notice: Option<Seq<char>>,
) -> bool {
    notice == if tracker.ready_at(first) {
        None
    } else {
        Some(refusal_text(tracker.left_at(second)->0))
    }
}

/// Asks the tracker whether the song may be played: a notice refuses it.
pub fn check_cooldown(tracker: &LastPlayedTracker) -> (r: Option<String>)
    ensures
        tracker@.last_played is None ==> r is None,
        tracker@.length == 0 ==> r is None,
        exists|first: nat, second: nat|
            is_reading(first) && is_reading(second) && answers(
                tracker@,
                first,
                second,
                optional_text(r),
            ),
{
    let can_play = tracker.can_play_now();
    let wait = tracker.time_until_next_play();
    let answer = refuse_unless(can_play, wait);
    proof {
        let first = choose|now: nat|
            is_reading(now) && can_play == tracker@.ready_at(now);
        let second = if wait is Some {
            choose|now: nat| is_reading(now) && tracker@.left_at(now) == Some(wait->0 as nat)
        } else {
            0
        };
        assert(answers(tracker@, first, second, optional_text(answer)));
    }
    answer
}

/// Asks the tracker whether the song may be played when its clock reads `now`
/// nanoseconds: a notice refuses it.
pub fn check_cooldown_at(tracker: &LastPlayedTracker, now: u128) -> (r: Option<String>)
    ensures
        r is None <==> tracker@.ready_at(now as nat),
        r is Some ==> r->0@ == refusal_text(tracker@.left_at(now as nat)->0),
{
    refuse_unless(tracker.can_play_at(now), tracker.time_until_next_play_at(now))
}

/// Once the song is played, it may be played again if and only if the pause has
/// passed.
pub proof fn pause_follows_play(tracker: Cooldown, played: nat, now: nat)
    requires
        played <= now,
    ensures
        tracker.played_at(played).ready_at(now) <==> now >= played + tracker.length,
{
}

/// Once the song may be played, it may be played until it is.
pub proof fn readiness_lasts(tracker: Cooldown, now: nat, later: nat)
    requires
        now <= later,
        tracker.ready_at(now),
    ensures
        tracker.ready_at(later),
{
}

/// Where the song may not be played, the time that is left is known, and is not
/// zero; it may be played once that time has passed.
pub proof fn refusal_tells_the_wait(tracker: Cooldown, now: nat)
    requires
        !tracker.ready_at(now),
    ensures
        tracker.left_at(now) is Some,
        0 < tracker.left_at(now)->0 <= tracker.length,
        tracker.last_played->0 <= now ==> tracker.ready_at(now + tracker.left_at(now)->0),
{
}

/// Where the song may be played, no time is left.
pub proof fn readiness_leaves_no_wait(tracker: Cooldown, now: nat)
    requires
        tracker.ready_at(now),
    ensures
        tracker.left_at(now) == None::<nat> || tracker.left_at(now) == Some(0nat),
{
}

/// The notice tells the whole seconds of the wait: so many minutes, and the seconds
/// that are left of them.
pub proof fn waits_are_told(wait: nat, minutes: nat, seconds: nat)
    requires
        minutes * 60 + seconds == wait / 1_000_000_000,
        seconds < 60,
    ensures
        refusal_text(wait) == "Music was recently played. Please wait "@ + decimal_text(minutes)
            + "m "@ + decimal_text(seconds) + "s before playing again."@,
{
}

/// What is left of the pause is the shortest time after which the song may be played
/// again.
pub proof fn wait_is_shortest(tracker: Cooldown, now: nat, sooner: nat)
    requires
        tracker.last_played is Some,
        tracker.last_played->0 <= now,
    ensures
        tracker.left_at(now) is Some,
        tracker.ready_at(now + tracker.left_at(now)->0),
        sooner < tracker.left_at(now)->0 ==> !tracker.ready_at(now + sooner),
{
}

/// A play is remembered with its time, and the pause stays as long as it was; before
/// the first play there is none.
pub proof fn plays_are_remembered(tracker: Cooldown, played: nat, now: nat)
    ensures
        tracker.played_at(played).last_played == Some(played),
        tracker.played_at(played).length == tracker.length,
        tracker.last_played is None ==> tracker.ready_at(now) && tracker.left_at(now) is None,
        played <= now < played + tracker.length ==> tracker.played_at(played).left_at(now) == Some(
            (played + tracker.length - now) as nat,
        ),
{
}

/// The tracker answers with a notice if and only if the pause is not over at the
/// first reading, and the notice tells what is left at the second.
pub proof fn notices_tell_the_wait(
    tracker: Cooldown,
    first: nat,
    second: nat,
    notice: Option<Seq<char>>,
)
    requires
        answers(tracker, first, second, notice),
        tracker.last_played is Some,
        tracker.last_played->0 <= first <= second,
    ensures
        notice is None <==> first >= tracker.last_played->0 + tracker.length,
        notice is Some && second < tracker.last_played->0 + tracker.length ==> notice->0
            == refusal_text((tracker.last_played->0 + tracker.length - second) as nat),
        notice is Some && second >= tracker.last_played->0 + tracker.length ==> notice->0
            == refusal_text(0),
{
}

/// A song that was not played yet is not refused.
pub proof fn first_play_is_not_refused(
    tracker: Cooldown,
    first: nat,
    second: nat,
    notice: Option<Seq<char>>,
)
    requires
        answers(tracker, first, second, notice),
        tracker.last_played is None,
    ensures
        notice is None,
{
}

} // verus!
