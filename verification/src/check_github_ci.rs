//! Whether a CI pipeline was started a short while ago.

use chrono::DateTime;
use vstd::prelude::*;
use crate::step::{no_lines, one_line, two_lines};
use crate::text::{decimal, decimal_text, texts};

verus! {

/// The workflow that is watched.
pub const WORKFLOW: &'static str = "digitalt-haandvaerk-platform.yaml";

/// For how many nanoseconds a pipeline counts as started a short while ago.
pub const RECENT_NANOS: i128 = 1_200_000_000_000;

/// The first second that a moment can lie in, counted from the Unix epoch.
pub const FIRST_SECOND: i64 = -8_334_601_228_800;

/// The last second that a moment can lie in, counted from the Unix epoch.
pub const LAST_SECOND: i64 = 8_210_266_876_799;

/// Whether the name of a repository consists of the two parts, which hold no
/// slash, and a slash between them.
pub open spec fn is_repo(repo: Seq<char>, owner: Seq<char>, name: Seq<char>) -> bool {
    &&& !owner.contains('/')
    &&& !name.contains('/')
    &&& repo == owner + seq!['/'] + name
}

/// A text that does not name a repository.
#[derive(Clone, Copy, Debug, PartialEq, Eq, Structural)]
pub struct InvalidRepo;

impl InvalidRepo {
    /// Writes what the error says.
    pub fn message(self) -> (r: String)
        ensures
            r@ == "Invalid repository format. Use 'owner/repo'"@,
    {
        String::from_str("Invalid repository format. Use 'owner/repo'")
    }
}

fn has_slash(text: &str) -> (r: bool)
    ensures
        r == text@.contains('/'),
{
    let count = text.unicode_len();
    for i in 0..count
        invariant
            count == text@.len(),
            forall|j: int| 0 <= j < i ==> text@[j] != '/',
    {
        if text.get_char(i) == '/' {
            assert(text@[i as int] == '/');
            return true;
        }
    }
    false
}

/// Takes the name of a repository apart, into its owner and its own name.
pub fn parse_repo(repo: &str) -> (r: Result<(String, String), InvalidRepo>)
    ensures
        r is Ok <==> exists|owner: Seq<char>, name: Seq<char>| is_repo(repo@, owner, name),
        r is Ok ==> is_repo(repo@, r->Ok_0.0@, r->Ok_0.1@),
        r matches Ok((owner, name)) ==> repo@ == owner@ + seq!['/'] + name@ && !owner@.contains('/')
            && !name@.contains('/'),
        r is Err <==> repo@.filter(|c: char| c == '/').len() != 1,
{
    let count = repo.unicode_len();
    for i in 0..count
        invariant
            count == repo@.len(),
            forall|j: int| 0 <= j < i ==> repo@[j] != '/',
    {
        if repo.get_char(i) == '/' {
            let owner = repo.substring_char(0, i);
            let name = repo.substring_char(i + 1, count);
            assert(repo@ =~= owner@ + seq!['/'] + name@);
            assert(!owner@.contains('/'));
            if has_slash(name) {
                proof {
                    lemma_one_slash(repo@, i as int);
                    repos_have_one_slash(repo@);
                }
                return Err(InvalidRepo);
            }
            let parts = (String::from_str(owner), String::from_str(name));
            assert(is_repo(repo@, parts.0@, parts.1@));
            proof {
                repos_have_one_slash(repo@);
            }
            return Ok(parts);
        }
    }
    proof {
        assert forall|owner: Seq<char>, name: Seq<char>| !is_repo(repo@, owner, name) by {
            if is_repo(repo@, owner, name) {
                assert(repo@[owner.len() as int] == '/');
            }
        }
        repos_have_one_slash(repo@);
    }
    Err(InvalidRepo)
}

/// The slash of the name of a repository is its first.
proof fn lemma_one_slash(repo: Seq<char>, at: int)
    requires
        0 <= at < repo.len(),
        repo[at] == '/',
        forall|j: int| 0 <= j < at ==> repo[j] != '/',
        repo.skip(at + 1).contains('/'),
    ensures
        forall|owner: Seq<char>, name: Seq<char>| !is_repo(repo, owner, name),
{
    assert forall|owner: Seq<char>, name: Seq<char>| !is_repo(repo, owner, name) by {
        if is_repo(repo, owner, name) {
            assert(repo[owner.len() as int] == '/');
            if at < owner.len() {
                assert(owner[at] == '/');
            }
            assert(owner.len() == at);
            assert(name =~= repo.skip(at + 1));
        }
    }
}

/// A repository has one owner and one name.
pub proof fn repo_parts_are_unique(
    repo: Seq<char>,
    owner1: Seq<char>,
    name1: Seq<char>,
    owner2: Seq<char>,
    name2: Seq<char>,
)
    requires
        is_repo(repo, owner1, name1),
        is_repo(repo, owner2, name2),
    ensures
        owner1 == owner2,
        name1 == name2,
{
    assert(repo[owner1.len() as int] == '/');
    assert(repo[owner2.len() as int] == '/');
    if owner1.len() < owner2.len() {
        assert(owner2[owner1.len() as int] == '/');
    }
    if owner2.len() < owner1.len() {
        assert(owner1[owner2.len() as int] == '/');
    }
    assert(owner1 =~= repo.take(owner1.len() as int));
    assert(owner2 =~= repo.take(owner2.len() as int));
    assert(name1 =~= repo.skip(owner1.len() as int + 1));
    assert(name2 =~= repo.skip(owner2.len() as int + 1));
}

/// A question for the runs of the workflow.
pub struct CheckRequest {
    pub owner: String,
    pub name: String,
    pub workflow: String,
    pub branch: String,
    /// The lines to print before it is asked.
    pub lines: Vec<String>,
}

/// The line before the pipeline is checked.
pub open spec fn checking_text(owner: Seq<char>, name: Seq<char>, branch: Seq<char>) -> Seq<char> {
    "Checking CI status for "@ + owner + "/"@ + name + " on branch "@ + branch
}

/// The lines before the pipeline is checked, with or without a token.
pub open spec fn request_lines(
    owner: Seq<char>,
    name: Seq<char>,
    branch: Seq<char>,
    has_token: bool,
) -> Seq<Seq<char>> {
    if has_token {
        seq![checking_text(owner, name, branch)]
    } else {
        seq![
            checking_text(owner, name, branch),
            "Warning: No GITHUB_ACTIONS_TOKEN found in environment. Using unauthenticated client with rate limits."@,
        ]
    }
}

/// Asks for the runs of the workflow on a branch of a repository.
pub fn check_request(repo: &str, branch: &str, has_token: bool) -> (r: Result<
    CheckRequest,
    InvalidRepo,
>)
    ensures
        r is Ok <==> exists|owner: Seq<char>, name: Seq<char>| is_repo(repo@, owner, name),
        r is Ok <==> repo@.filter(|c: char| c == '/').len() == 1,
        r matches Ok(request) ==> {
            &&& is_repo(repo@, request.owner@, request.name@)
            &&& repo@ == request.owner@ + seq!['/'] + request.name@
            &&& request.workflow@ == "digitalt-haandvaerk-platform.yaml"@
            &&& request.lines@.len() == (if has_token {
                1nat
            } else {
                2
            })
            &&& request.lines@[0]@ == "Checking CI status for "@ + request.owner@ + "/"@
                + request.name@ + " on branch "@ + branch@
            &&& !has_token ==> request.lines@[1]@
                == "Warning: No GITHUB_ACTIONS_TOKEN found in environment. Using unauthenticated client with rate limits."@
            &&& request.workflow@ == WORKFLOW@
            &&& request.branch@ == branch@
            &&& texts(request.lines@) == request_lines(
                request.owner@,
                request.name@,
                branch@,
                has_token,
            )
        },
{
    match parse_repo(repo) {
        Err(error) => Err(error),
        Ok((owner, name)) => {
            let checking = String::from_str("Checking CI status for ").concat(
                owner.as_str(),
            ).concat("/").concat(name.as_str()).concat(" on branch ").concat(branch);
            let lines = if has_token {
                one_line(checking)
            } else {
                let warning = String::from_str(
                    "Warning: No GITHUB_ACTIONS_TOKEN found in environment. Using unauthenticated client with rate limits.",
                );
                two_lines(checking, warning)
            };
            Ok(
                CheckRequest {
                    owner,
                    name,
                    workflow: String::from_str(WORKFLOW),
                    branch: String::from_str(branch),
                    lines,
                },
            )
        },
    }
}

/// Seconds since the Unix epoch, and nanoseconds on top of them. More than a
/// second of nanoseconds stand for a leap second.
pub struct MomentView {
    pub secs: int,
    pub nanos: int,
}

impl MomentView {
    /// Whether the calendar has such a moment.
    pub open spec fn is_valid(self) -> bool {
        &&& FIRST_SECOND <= self.secs <= LAST_SECOND
        &&& 0 <= self.nanos < 2_000_000_000
        &&& self.nanos >= 1_000_000_000 ==> self.secs % 60 == 59
    }

    /// How the moment reads.
    pub open spec fn text(self) -> Seq<char> {
        utc_text(self.secs as i64, self.nanos as u32)
    }

    /// Whether the moment lies in a leap second.
    pub open spec fn is_leap(self) -> bool {
        self.nanos >= 1_000_000_000
    }

    /// The leap second that is to be counted from `earlier` to this moment, as far
    /// as one of the two lies in it. Which comes first is told by the time of day.
    pub open spec fn leap_since(self, earlier: MomentView) -> int {
        let time = self.secs % 86_400;
        let earlier_time = earlier.secs % 86_400;
        if time > earlier_time && earlier.is_leap() {
            1
        } else if time < earlier_time && self.is_leap() {
            -1
        } else {
            0
        }
    }

    /// The nanoseconds from `earlier` to this moment.
    pub open spec fn nanos_since(self, earlier: MomentView) -> int {
        (self.secs - earlier.secs + self.leap_since(earlier)) * 1_000_000_000 + (self.nanos
            - earlier.nanos)
    }
}

/// A point in time.
#[derive(Clone, Copy, Debug)]
pub struct Moment {
    secs: i64,
    nanos: u32,
}

impl View for Moment {
    type V = MomentView;

    closed spec fn view(&self) -> MomentView {
        MomentView { secs: self.secs as int, nanos: self.nanos as int }
    }
}

/// Calls `chrono::DateTime::from_timestamp`, which accepts the moments that the
/// calendar has, for two moments, and `chrono::DateTime::signed_duration_since`
/// from the second to the first: the whole seconds that have passed, and the
/// nanoseconds on top of them, both negative where the first comes earlier.
#[verifier::external_body]
fn signed_duration(secs: i64, nanos: u32, earlier_secs: i64, earlier_nanos: u32) -> (r: (i64, i32))
    requires
        (MomentView { secs: secs as int, nanos: nanos as int }).is_valid(),
        (MomentView { secs: earlier_secs as int, nanos: earlier_nanos as int }).is_valid(),
    ensures
        r.0 * 1_000_000_000 + r.1 == (MomentView {
            secs: secs as int,
            nanos: nanos as int,
        }).nanos_since(MomentView { secs: earlier_secs as int, nanos: earlier_nanos as int }),
        -1_000_000_000 < r.1 < 1_000_000_000,
        r.0 > 0 ==> r.1 >= 0,
        r.0 < 0 ==> r.1 <= 0,
{
    let first = DateTime::from_timestamp(secs, nanos).unwrap();
    let second = DateTime::from_timestamp(earlier_secs, earlier_nanos).unwrap();
    let duration = first.signed_duration_since(second);
    (duration.num_seconds(), duration.subsec_nanos())
}

/// How a moment reads: date and time of day, in UTC.
pub uninterp spec fn utc_text(secs: i64, nanos: u32) -> Seq<char>;

/// Calls `chrono::DateTime::to_string` on a moment that
/// `chrono::DateTime::from_timestamp` accepts. The text depends on the moment
/// alone; how it comes about is left unsaid.
#[verifier::external_body]
fn utc_display(secs: i64, nanos: u32) -> (r: String)
    requires
        (MomentView { secs: secs as int, nanos: nanos as int }).is_valid(),
    ensures
        r@ == utc_text(secs, nanos),
{
    DateTime::from_timestamp(secs, nanos).unwrap().to_string()
}

impl Moment {
    #[verifier::type_invariant]
    spec fn in_calendar(self) -> bool {
        self@.is_valid()
    }

    /// The moment so many seconds and nanoseconds after the Unix epoch, if the
    /// calendar has it.
    pub fn new(secs: i64, nanos: u32) -> (r: Option<Moment>)
        ensures
            r is Some <==> (MomentView { secs: secs as int, nanos: nanos as int }).is_valid(),
            r is Some ==> r->0@ == (MomentView { secs: secs as int, nanos: nanos as int }),
            r is Some <==> -8_334_601_228_800 <= secs <= 8_210_266_876_799 && (nanos
                < 1_000_000_000 || (nanos < 2_000_000_000 && secs as int % 60 == 59)),
    {
        if secs < FIRST_SECOND || secs > LAST_SECOND || nanos >= 2_000_000_000 {
            return None;
        }
        if nanos >= 1_000_000_000 {
            let shifted: i64 = secs - FIRST_SECOND;
            if shifted % 60 != 59 {
                return None;
            }
        }
        Some(Moment { secs, nanos })
    }

    /// The nanoseconds from `earlier` to this moment.
    pub fn since(self, earlier: Moment) -> (r: i128)
        ensures
            r == self@.nanos_since(earlier@),
    {
        proof {
            use_type_invariant(self);
            use_type_invariant(earlier);
        }
        let (secs, nanos) = signed_duration(self.secs, self.nanos, earlier.secs, earlier.nanos);
        secs as i128 * 1_000_000_000 + nanos as i128
    }

    /// Writes the date and the time of day, in UTC.
    pub fn text(self) -> (r: String)
        ensures
            r@ == self@.text(),
    {
        proof {
            use_type_invariant(self);
        }
        utc_display(self.secs, self.nanos)
    }
}

/// A run of the workflow.
pub struct WorkflowRun {
    pub id: u64,
    pub status: String,
    pub created: Moment,
}

/// Whether a run of so many nanoseconds and this status was started a short while
/// ago and is not over.
pub open spec fn is_trigger(age: int, status: Seq<char>) -> bool {
    age < RECENT_NANOS && (status == "in_progress"@ || status == "queued"@)
}

/// Judges by its age in nanoseconds and its status whether a run was started a
/// short while ago and is not over.
pub fn triggers(age: i128, status: &String) -> (r: bool)
    ensures
        r == is_trigger(age as int, status@),
        r <==> age < 1_200_000_000_000 && (status@ == "in_progress"@ || status@ == "queued"@),
{
    age < RECENT_NANOS && (status.eq(&String::from_str("in_progress")) || status.eq(
        &String::from_str("queued"),
    ))
}

/// What the newest run tells.
pub struct Verdict {
    /// The lines to print.
    pub lines: Vec<String>,
    /// Whether music is to be started.
    pub triggered: bool,
}

/// Whether the newest of the runs was started a short while ago and is not over.
pub open spec fn is_triggered(runs: Seq<WorkflowRun>, now: MomentView) -> bool {
    runs.len() > 0 && is_trigger(now.nanos_since(runs[0].created@), runs[0].status@)
}

/// The line on the newest run.
pub open spec fn run_text(id: u64, status: Seq<char>, created: Seq<char>) -> Seq<char> {
    "Latest run ID: "@ + decimal_text(id as nat) + ", Status: "@ + status + ", Created: "@ + created
}

/// Writes the line on the newest run, which was created at the moment that reads
/// `created`.
pub fn run_line(id: u64, status: &str, created: &str) -> (r: String)
    ensures
        r@ == run_text(id, status@, created@),
        r@ == "Latest run ID: "@ + decimal_text(id as nat) + ", Status: "@ + status@
            + ", Created: "@ + created@,
{
    String::from_str("Latest run ID: ").concat(decimal(id).as_str()).concat(", Status: ").concat(
        status,
    ).concat(", Created: ").concat(created)
}

/// The lines on the newest of the runs.
pub open spec fn verdict_lines(runs: Seq<WorkflowRun>, now: MomentView) -> Seq<Seq<char>> {
    if runs.len() == 0 {
        Seq::empty()
    } else {
        let line = run_text(runs[0].id, runs[0].status@, runs[0].created@.text());
        if is_triggered(runs, now) {
            seq![line, "Found a recently triggered CI pipeline!"@]
        } else {
            seq![line]
        }
    }
}

/// Judges the newest of the runs, which is the first, at the moment `now`.
pub fn judge_runs(runs: &Vec<WorkflowRun>, now: Moment) -> (r: Verdict)
    ensures
        r.triggered == is_triggered(runs@, now@),
        texts(r.lines@) == verdict_lines(runs@, now@),
        r.triggered <==> runs@.len() > 0 && (runs@[0].status@ == "in_progress"@
            || runs@[0].status@ == "queued"@) && now@.nanos_since(runs@[0].created@)
            < 1_200_000_000_000,
        runs@.len() == 0 ==> r.lines@.len() == 0,
        runs@.len() > 0 ==> r.lines@.len() == (if r.triggered {
            2nat
        } else {
            1
        }),
        runs@.len() > 0 ==> r.lines@[0]@ == "Latest run ID: "@ + decimal_text(runs@[0].id as nat)
            + ", Status: "@ + runs@[0].status@ + ", Created: "@ + runs@[0].created@.text(),
        r.triggered ==> r.lines@[1]@ == "Found a recently triggered CI pipeline!"@,
{
    if runs.len() == 0 {
        return Verdict { lines: no_lines(), triggered: false };
    }
    let run = &runs[0];
    let line = run_line(run.id, run.status.as_str(), run.created.text().as_str());
    if triggers(now.since(run.created), &run.status) {
        let found = String::from_str("Found a recently triggered CI pipeline!");
        Verdict { lines: two_lines(line, found), triggered: true }
    } else {
        Verdict { lines: one_line(line), triggered: false }
    }
}

/// Outside leap seconds, the time from one moment to another is their difference.
pub proof fn time_is_difference(later: MomentView, earlier: MomentView)
    requires
        later.nanos < 1_000_000_000,
        earlier.nanos < 1_000_000_000,
    ensures
        later.nanos_since(earlier) == (later.secs * 1_000_000_000 + later.nanos) - (earlier.secs
            * 1_000_000_000 + earlier.nanos),
{
}

/// A run that does not trigger, for its age or its status, does not trigger later
/// either.
pub proof fn triggers_expire(age: int, later_age: int, status: Seq<char>)
    requires
        age <= later_age,
        !is_trigger(age, status),
    ensures
        !is_trigger(later_age, status),
{
}

proof fn lemma_slashes(text: Seq<char>)
    ensures
        text.filter(|c: char| c == '/').len() == 0 <==> !text.contains('/'),
    decreases text.len(),
{
    let is_slash = |c: char| c == '/';
    reveal(Seq::filter);
    if text.len() > 0 {
        let head = text.drop_last();
        lemma_slashes(head);
        assert(text =~= head.push(text.last()));
        if head.contains('/') {
            let i = choose|i: int| 0 <= i < head.len() && head[i] == '/';
            assert(text[i] == '/');
        }
        if text.contains('/') && text.last() != '/' {
            let i = choose|i: int| 0 <= i < text.len() && text[i] == '/';
            assert(head[i] == '/');
        }
        assert(text.last() == text[text.len() - 1]);
        assert(text.filter(is_slash) == if text.last() == '/' {
            head.filter(is_slash).push('/')
        } else {
            head.filter(is_slash)
        });
    }
}

/// A text has an owner and a name if and only if it holds exactly one slash.
pub proof fn repos_have_one_slash(repo: Seq<char>)
    ensures
        (exists|owner: Seq<char>, name: Seq<char>| is_repo(repo, owner, name)) <==> repo.filter(
            |c: char| c == '/',
        ).len() == 1,
    decreases repo.len(),
{
    let is_slash = |c: char| c == '/';
    reveal(Seq::filter);
    if exists|owner: Seq<char>, name: Seq<char>| is_repo(repo, owner, name) {
        let (owner, name) = choose|owner: Seq<char>, name: Seq<char>| is_repo(repo, owner, name);
        lemma_one_slash_between(owner, name);
        assert(repo =~= owner + seq!['/'] + name);
    } else if repo.len() > 0 {
        let head = repo.drop_last();
        repos_have_one_slash(head);
        lemma_slashes(head);
        if repo.last() == '/' {
            if head.filter(is_slash).len() == 0 {
                let none = Seq::<char>::empty();
                assert(repo =~= head + seq!['/'] + none);
                assert(is_repo(repo, head, none));
            }
        } else if exists|owner: Seq<char>, name: Seq<char>| is_repo(head, owner, name) {
            let (owner, name) = choose|owner: Seq<char>, name: Seq<char>|
                is_repo(head, owner, name);
            let longer = name.push(repo.last());
            assert(repo =~= head.push(repo.last()));
            assert(repo =~= owner + seq!['/'] + longer);
            assert forall|i: int| 0 <= i < longer.len() implies longer[i] != '/' by {
                if i < name.len() {
                    assert(name.contains(name[i]));
                }
            }
            assert(is_repo(repo, owner, longer));
        }
    }
}

proof fn lemma_one_slash_between(owner: Seq<char>, name: Seq<char>)
    requires
        !owner.contains('/'),
        !name.contains('/'),
    ensures
        (owner + seq!['/'] + name).filter(|c: char| c == '/').len() == 1,
    decreases name.len(),
{
    let is_slash = |c: char| c == '/';
    let text = owner + seq!['/'] + name;
    reveal(Seq::filter);
    if name.len() == 0 {
        lemma_slashes(owner);
        assert(text.drop_last() =~= owner);
        assert(text.last() == '/');
    } else {
        let shorter = name.drop_last();
        assert(text.drop_last() =~= owner + seq!['/'] + shorter);
        assert(name.contains(name.last()));
        assert forall|i: int| 0 <= i < shorter.len() implies shorter[i] != '/' by {
            assert(name.contains(name[i]));
        }
        lemma_one_slash_between(owner, shorter);
        assert(text.last() == name.last());
    }
}

/// The newest run triggers if and only if it is in progress or queued, and was
/// created less than twenty minutes ago. Runs behind it do not matter.
pub proof fn new_unfinished_runs_trigger(runs: Seq<WorkflowRun>, now: MomentView)
    ensures
        is_triggered(runs, now) <==> runs.len() > 0 && (runs[0].status@ == "in_progress"@
            || runs[0].status@ == "queued"@) && now.nanos_since(runs[0].created@)
            < 1_200_000_000_000,
{
}

/// Outside leap seconds, a run that is in progress or queued triggers if and only if
/// twenty minutes have not passed since its creation.
pub proof fn runs_trigger_for_twenty_minutes(runs: Seq<WorkflowRun>, now: MomentView)
    requires
        runs.len() > 0,
        runs[0].status@ == "in_progress"@ || runs[0].status@ == "queued"@,
        runs[0].created@.nanos < 1_000_000_000,
        now.nanos < 1_000_000_000,
    ensures
        is_triggered(runs, now) <==> now.secs * 1_000_000_000 + now.nanos < (runs[0].created@.secs
            + 1200) * 1_000_000_000 + runs[0].created@.nanos,
{
    time_is_difference(now, runs[0].created@);
}

/// The newest run is told with its whole number, status and moment, and that it
/// triggers is told if and only if it does.
pub proof fn newest_run_is_told(runs: Seq<WorkflowRun>, now: MomentView)
    ensures
        runs.len() == 0 ==> verdict_lines(runs, now).len() == 0,
        runs.len() > 0 ==> verdict_lines(runs, now)[0] == "Latest run ID: "@ + decimal_text(
            runs[0].id as nat,
        ) + ", Status: "@ + runs[0].status@ + ", Created: "@ + runs[0].created@.text(),
        verdict_lines(runs, now).len() == 2 <==> is_triggered(runs, now),
        verdict_lines(runs, now).len() <= 2,
        is_triggered(runs, now) ==> verdict_lines(runs, now)[1]
            == "Found a recently triggered CI pipeline!"@,
{
}

/// The time from one moment to another is that back, negated. A leap second counts
/// where one moment lies in it and the other has a later time of day, and nowhere
/// else.
pub proof fn time_runs_both_ways(later: MomentView, earlier: MomentView)
    ensures
        later.nanos_since(earlier) == -earlier.nanos_since(later),
        later.nanos_since(later) == 0,
        earlier.nanos >= 1_000_000_000 && later.secs % 86_400 > earlier.secs % 86_400
            ==> later.nanos_since(earlier) == (later.secs - earlier.secs + 1) * 1_000_000_000
            + later.nanos - earlier.nanos,
        (earlier.nanos < 1_000_000_000 || later.secs % 86_400 <= earlier.secs % 86_400) && (
        later.nanos < 1_000_000_000 || later.secs % 86_400 >= earlier.secs % 86_400)
            ==> later.nanos_since(earlier) == (later.secs - earlier.secs) * 1_000_000_000
            + later.nanos - earlier.nanos,
{
}

/// A moment reads as its own seconds and nanoseconds do.
pub proof fn moments_read_as_themselves(moment: MomentView)
    ensures
        moment.text() == utc_text(moment.secs as i64, moment.nanos as u32),
{
}

/// The lines before a check name the repository and the branch, and warn if and only
/// if there is no token.
pub proof fn checks_are_told(
    owner: Seq<char>,
    name: Seq<char>,
    branch: Seq<char>,
    has_token: bool,
)
    ensures
        ({
            let lines = request_lines(owner, name, branch, has_token);
            &&& lines[0] == "Checking CI status for "@ + owner + "/"@ + name + " on branch "@
                + branch
            &&& lines.len() == 1 <==> has_token
            &&& !has_token ==> lines.len() == 2 && lines[1]
                == "Warning: No GITHUB_ACTIONS_TOKEN found in environment. Using unauthenticated client with rate limits."@
        }),
{
}

} // verus!
