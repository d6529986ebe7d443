use chrono::{DateTime, Duration};
use release_song::check_github_ci::{
    check_request, judge_runs, parse_repo, run_line, triggers, InvalidRepo, Moment, WorkflowRun,
    FIRST_SECOND, LAST_SECOND, RECENT_NANOS,
};

const NANO: u32 = 1_000_000_000;

fn moment(secs: i64, nanos: u32) -> Moment {
    Moment::new(secs, nanos).unwrap()
}

fn run(id: u64, status: &str, secs: i64) -> WorkflowRun {
    WorkflowRun {
        id,
        status: status.to_string(),
        created: moment(secs, 0),
    }
}

#[test]
fn repositories_have_an_owner_and_a_name() {
    let parts = |owner: &str, name: &str| Ok((owner.to_string(), name.to_string()));
    assert_eq!(parse_repo("own/næm"), parts("own", "næm"));
    assert_eq!(parse_repo("/"), parts("", ""));
    assert_eq!(parse_repo("own/"), parts("own", ""));
    assert_eq!(parse_repo("/name"), parts("", "name"));
    assert_eq!(parse_repo(""), Err(InvalidRepo));
    assert_eq!(parse_repo("name"), Err(InvalidRepo));
    assert_eq!(parse_repo("a/b/c"), Err(InvalidRepo));
    assert_eq!(parse_repo("a//b"), Err(InvalidRepo));
    assert_eq!(
        InvalidRepo.message(),
        "Invalid repository format. Use 'owner/repo'"
    );
}

#[test]
fn requests_name_the_workflow() {
    let request = check_request("own/name", "main", true).ok().unwrap();
    assert_eq!(request.owner, "own");
    assert_eq!(request.name, "name");
    assert_eq!(request.branch, "main");
    assert_eq!(request.workflow, "digitalt-haandvaerk-platform.yaml");
    assert_eq!(
        request.lines,
        vec!["Checking CI status for own/name on branch main"]
    );
    let request = check_request("own/name", "dev", false).ok().unwrap();
    assert_eq!(
        request.lines,
        vec![
            "Checking CI status for own/name on branch dev",
            "Warning: No GITHUB_ACTIONS_TOKEN found in environment. Using unauthenticated client with rate limits."
        ]
    );
    assert!(check_request("own", "main", true).is_err());
}

#[test]
fn moments_are_those_of_the_calendar() {
    for (secs, nanos) in [
        (FIRST_SECOND, 0),
        (FIRST_SECOND - 1, 0),
        (LAST_SECOND, 0),
        (LAST_SECOND + 1, 0),
        (i64::MIN, 0),
        (i64::MAX, 0),
        (0, NANO - 1),
        (0, NANO),
        (59, NANO),
        (59, 2 * NANO - 1),
        (59, 2 * NANO),
        (-1, NANO),
        (-2, NANO),
        (LAST_SECOND, 2 * NANO - 1),
    ] {
        assert_eq!(
            Moment::new(secs, nanos).is_some(),
            DateTime::from_timestamp(secs, nanos).is_some(),
            "{secs} {nanos}"
        );
    }
}

#[test]
fn time_between_moments_is_that_of_the_calendar() {
    let moments = [
        (FIRST_SECOND, 0),
        (-86_401, NANO + 5),
        (-1, NANO),
        (0, 0),
        (0, 7),
        (59, NANO - 1),
        (59, NANO),
        (59, 2 * NANO - 1),
        (60, 0),
        (86_399, NANO + 1),
        (86_400, 0),
        (86_459, 2 * NANO - 1),
        (1_700_000_000, 123_456_789),
        (LAST_SECOND, 2 * NANO - 1),
    ];
    for (secs, nanos) in moments {
        for (earlier_secs, earlier_nanos) in moments {
            let duration = DateTime::from_timestamp(secs, nanos)
                .unwrap()
                .signed_duration_since(DateTime::from_timestamp(earlier_secs, earlier_nanos).unwrap());
            let passed = moment(secs, nanos).since(moment(earlier_secs, earlier_nanos));
            assert_eq!(
                passed,
                duration.num_seconds() as i128 * NANO as i128 + duration.subsec_nanos() as i128
            );
            assert_eq!(passed < RECENT_NANOS, duration < Duration::minutes(20));
        }
    }
}

#[test]
fn leap_seconds_count() {
    assert_eq!(moment(60, 0).since(moment(59, NANO)), NANO as i128);
    assert_eq!(moment(59, NANO).since(moment(60, 0)), -(NANO as i128));
    assert_eq!(moment(60, 0).since(moment(59, 0)), NANO as i128);
    assert_eq!(moment(59, NANO).since(moment(59, 0)), NANO as i128);
    assert_eq!(moment(0, 7).since(moment(10, 0)), 7 - 10 * NANO as i128);
}

#[test]
fn moments_read_as_dates() {
    assert_eq!(moment(0, 0).text(), "1970-01-01 00:00:00 UTC");
    assert_eq!(
        moment(1_431_648_000, 5_000_000).text(),
        "2015-05-15 00:00:00.005 UTC"
    );
}

#[test]
fn new_unfinished_runs_trigger() {
    let text = |s: &str| s.to_string();
    assert!(triggers(RECENT_NANOS - 1, &text("in_progress")));
    assert!(triggers(0, &text("queued")));
    assert!(triggers(-1, &text("queued")));
    assert!(!triggers(RECENT_NANOS, &text("queued")));
    assert!(!triggers(0, &text("completed")));
    assert!(!triggers(0, &text("")));
}

#[test]
fn newest_run_decides() {
    let now = moment(1_431_648_000 + 1200, 0);
    let none = judge_runs(&vec![], now);
    assert!(!none.triggered);
    assert_eq!(none.lines, Vec::<String>::new());

    let new = judge_runs(&vec![run(7, "queued", 1_431_648_001)], now);
    assert!(new.triggered);
    assert_eq!(
        new.lines,
        vec![
            "Latest run ID: 7, Status: queued, Created: 2015-05-15 00:00:01 UTC",
            "Found a recently triggered CI pipeline!"
        ]
    );

    let old = judge_runs(&vec![run(8, "in_progress", 1_431_648_000)], now);
    assert!(!old.triggered);
    assert_eq!(
        old.lines,
        vec![run_line(8, "in_progress", "2015-05-15 00:00:00 UTC")]
    );

    let second = judge_runs(
        &vec![
            run(9, "completed", 1_431_649_000),
            run(10, "queued", 1_431_649_000),
        ],
        now,
    );
    assert!(!second.triggered);
    assert_eq!(
        second.lines,
        vec!["Latest run ID: 9, Status: completed, Created: 2015-05-15 00:16:40 UTC"]
    );
}
