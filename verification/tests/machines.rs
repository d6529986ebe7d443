use release_song::discovery::{
    SearchAction, SearchEvent, SearchStage, LISTEN_NANOS, PAUSE_MILLIS,
};
use release_song::group_speakers::{GroupAction, GroupEvent, GroupStage};
use release_song::kill_music::{stop_line, KillAction, KillEvent, KillStage};
use release_song::listen_to_ci::{
    track_or_default, ListenAction, ListenEvent, ListenStage, DEFAULT_TRACK,
};
use release_song::play_track::{TrackAction, TrackEvent, TrackStage};
use release_song::start_music::{StartAction, StartEvent, StartStage};

fn text(s: &str) -> String {
    s.to_string()
}

fn ips(list: &[&str]) -> Vec<String> {
    list.iter().map(|s| s.to_string()).collect()
}

const NO_LINES: Vec<String> = Vec::new();

#[test]
fn song_is_played_on_all_speakers() {
    let step = StartStage::begin(text("song"));
    assert!(matches!(step.action, StartAction::CheckCooldown));
    assert_eq!(step.lines, NO_LINES);

    let step = step.stage.next(StartEvent::Checked(None));
    assert!(matches!(step.action, StartAction::Discover));
    assert_eq!(step.lines, vec!["Finding Sonos speakers on your network..."]);

    let step = step.stage.next(StartEvent::Discovered(ips(&["a", "b", "c"])));
    assert!(matches!(&step.action, StartAction::Describe { ip, timeout_millis: 2000 } if ip == "a"));
    assert_eq!(step.lines, vec!["Found 3 Sonos devices:"]);

    let step = step.stage.next(StartEvent::Described(Some(text("Room (One) - a"))));
    assert!(matches!(&step.action, StartAction::Describe { ip, timeout_millis: 2000 } if ip == "b"));
    assert_eq!(step.lines, vec!["[1] Room (One) - a"]);

    let step = step.stage.next(StartEvent::Described(None));
    assert!(matches!(&step.action, StartAction::Describe { ip, timeout_millis: 2000 } if ip == "c"));
    assert_eq!(step.lines, vec!["[2] Unknown Device at b"]);

    let step = step.stage.next(StartEvent::Described(None));
    assert!(matches!(
        &step.action,
        StartAction::Group { coordinator, members }
            if coordinator == "a" && members == &ips(&["b", "c"])
    ));
    assert_eq!(
        step.lines,
        vec![
            "[3] Unknown Device at c",
            "Grouping 3 speakers with coordinator a..."
        ]
    );

    let step = step.stage.next(StartEvent::Grouped(None));
    assert!(matches!(step.action, StartAction::Settle(1000)));
    assert_eq!(step.lines, vec!["Speakers grouped successfully."]);

    let step = step.stage.next(StartEvent::Settled);
    assert!(matches!(
        &step.action,
        StartAction::Play { coordinator, track } if coordinator == "a" && track == "song"
    ));
    assert_eq!(step.lines, vec!["Playing music on coordinator speaker a..."]);

    let step = step.stage.next(StartEvent::Played(None));
    assert!(matches!(step.action, StartAction::MarkPlayed));
    assert_eq!(
        step.lines,
        vec![
            "Successfully sent play command to coordinator a",
            "Play command sent."
        ]
    );

    let step = step.stage.next(StartEvent::Marked);
    assert!(matches!(step.action, StartAction::Finish));
    assert_eq!(step.lines, NO_LINES);
}

#[test]
fn one_speaker_is_not_grouped() {
    let step = StartStage::begin(text("song"));
    let step = step.stage.next(StartEvent::Checked(None));
    let step = step.stage.next(StartEvent::Discovered(ips(&["a"])));
    let step = step.stage.next(StartEvent::Described(None));
    assert!(matches!(
        &step.action,
        StartAction::Play { coordinator, track } if coordinator == "a" && track == "song"
    ));
    assert_eq!(
        step.lines,
        vec![
            "[1] Unknown Device at a",
            "Playing music on coordinator speaker a..."
        ]
    );
}

#[test]
fn failures_to_group_and_play_are_told() {
    let step = StartStage::begin(text("song"));
    let step = step.stage.next(StartEvent::Checked(None));
    let step = step.stage.next(StartEvent::Discovered(ips(&["a", "b"])));
    let step = step.stage.next(StartEvent::Described(None));
    let step = step.stage.next(StartEvent::Described(None));
    let step = step.stage.next(StartEvent::Grouped(Some(text("Failed to set track URI"))));
    assert_eq!(
        step.lines,
        vec!["Failed to group speakers: Failed to set track URI. Proceeding without grouping."]
    );
    let step = step.stage.next(StartEvent::Settled);
    let step = step.stage.next(StartEvent::Played(Some(text("Failed to play"))));
    assert!(matches!(step.action, StartAction::MarkPlayed));
    assert_eq!(
        step.lines,
        vec![
            "Failed to send play command to coordinator a: Failed to play",
            "Play command sent."
        ]
    );
}

#[test]
fn song_is_not_played_too_soon() {
    let step = StartStage::begin(text("song"));
    let step = step.stage.next(StartEvent::Checked(Some(text("wait"))));
    assert!(matches!(step.action, StartAction::Finish));
    assert_eq!(step.lines, vec!["wait"]);
    let step = step.stage.next(StartEvent::Discovered(ips(&["a"])));
    assert!(matches!(step.action, StartAction::Ignore));
}

#[test]
fn song_needs_speakers() {
    let step = StartStage::begin(text("song"));
    let step = step.stage.next(StartEvent::Checked(None));
    let step = step.stage.next(StartEvent::Discovered(ips(&[])));
    assert!(matches!(step.action, StartAction::Finish));
    assert_eq!(step.lines, vec!["No Sonos devices found."]);

    let step = StartStage::begin(text("song"));
    let step = step.stage.next(StartEvent::Checked(None));
    let step = step.stage.next(StartEvent::DiscoveryFailed);
    assert!(matches!(step.action, StartAction::Fail));
}

#[test]
fn events_out_of_turn_are_ignored() {
    let step = StartStage::begin(text("song"));
    let step = step.stage.next(StartEvent::Marked);
    assert!(matches!(step.action, StartAction::Ignore));
    assert!(matches!(&step.stage, StartStage::Checking { track } if track == "song"));
    assert_eq!(step.lines, NO_LINES);
}

#[test]
fn members_join_in_turn() {
    let description = || Some(text("<UDN>uuid:R1</UDN>"));
    let step = GroupStage::begin(text("a"), ips(&["b", "c"]));
    assert!(matches!(&step.action, GroupAction::Describe(ip) if ip == "a"));
    let step = step.stage.next(GroupEvent::Described(description()));
    assert!(matches!(
        &step.action,
        GroupAction::SetUri { ip, uri } if ip == "b" && uri == "x-rincon:R1"
    ));
    let step = step.stage.next(GroupEvent::Joined(true));
    assert!(matches!(&step.action, GroupAction::Describe(ip) if ip == "a"));
    let step = step.stage.next(GroupEvent::Described(Some(text("<UDN>uuid:R2</UDN>"))));
    assert!(matches!(
        &step.action,
        GroupAction::SetUri { ip, uri } if ip == "c" && uri == "x-rincon:R2"
    ));
    let step = step.stage.next(GroupEvent::Joined(true));
    assert!(matches!(step.action, GroupAction::Finish));
}

#[test]
fn grouping_breaks_off_on_a_failure() {
    let step = GroupStage::begin(text("a"), ips(&["b", "c"]));
    let step = step.stage.next(GroupEvent::Described(Some(text("<UDN></UDN>"))));
    assert!(matches!(
        &step.action,
        GroupAction::Fail(Some(reason)) if reason == "Failed to get speaker UUID"
    ));
    let step = step.stage.next(GroupEvent::Joined(true));
    assert!(matches!(step.action, GroupAction::Ignore));

    let step = GroupStage::begin(text("a"), ips(&["b"]));
    let step = step.stage.next(GroupEvent::Described(None));
    assert!(matches!(step.action, GroupAction::Fail(None)));

    let step = GroupStage::begin(text("a"), ips(&["b"]));
    let step = step.stage.next(GroupEvent::Described(Some(text("<UDN>uuid:R</UDN>"))));
    let step = step.stage.next(GroupEvent::Joined(false));
    assert!(matches!(step.action, GroupAction::Fail(None)));

    let step = GroupStage::begin(text("a"), ips(&[]));
    assert!(matches!(step.action, GroupAction::Finish));
}

#[test]
fn tracks_are_set_and_played() {
    let step = TrackStage::begin(text("a"), text("song"));
    assert!(matches!(
        &step.action,
        TrackAction::SetUri { ip, uri } if ip == "a" && uri == "song"
    ));
    assert_eq!(step.lines, vec!["Setting track URI song on a"]);
    let step = step.stage.next(TrackEvent::UriSet(true));
    assert!(matches!(step.action, TrackAction::Pause(500)));
    let step = step.stage.next(TrackEvent::Paused);
    assert!(matches!(&step.action, TrackAction::Play(ip) if ip == "a"));
    assert_eq!(step.lines, vec!["Sending Play command to a"]);
    let step = step.stage.next(TrackEvent::Started(true));
    assert!(matches!(step.action, TrackAction::Finish));

    let step = TrackStage::begin(text("a"), text("song"));
    let step = step.stage.next(TrackEvent::UriSet(false));
    assert!(matches!(step.action, TrackAction::Fail));
    let step = step.stage.next(TrackEvent::Paused);
    assert!(matches!(step.action, TrackAction::Ignore));

    let step = TrackStage::begin(text("a"), text("song"));
    let step = step.stage.next(TrackEvent::UriSet(true));
    let step = step.stage.next(TrackEvent::Paused);
    let step = step.stage.next(TrackEvent::Started(false));
    assert!(matches!(step.action, TrackAction::Fail));
}

#[test]
fn all_speakers_are_stopped() {
    let step = KillStage::begin();
    assert!(matches!(step.action, KillAction::Discover));
    assert_eq!(step.lines, vec!["Finding Sonos speakers to stop music..."]);
    let step = step.stage.next(KillEvent::Discovered(ips(&["a", "b"])));
    assert!(matches!(&step.action, KillAction::StopAll(all) if all == &ips(&["a", "b"])));
    assert_eq!(step.lines, vec!["Stopping music on 2 Sonos devices..."]);
    let step = step.stage.next(KillEvent::Stopped);
    assert!(matches!(step.action, KillAction::Finish));
    assert_eq!(step.lines, vec!["All speakers stopped!"]);

    let step = KillStage::begin().stage.next(KillEvent::Discovered(ips(&[])));
    assert!(matches!(step.action, KillAction::Finish));
    assert_eq!(step.lines, vec!["No Sonos devices found."]);

    let step = KillStage::begin().stage.next(KillEvent::DiscoveryFailed);
    assert!(matches!(step.action, KillAction::Fail));
    assert_eq!(step.stage, KillStage::Failed);

    let step = KillStage::begin().stage.next(KillEvent::Stopped);
    assert!(matches!(step.action, KillAction::Ignore));
    assert_eq!(step.stage, KillStage::Discovering);

    assert_eq!(stop_line("a", None), "Successfully stopped playback on a");
    assert_eq!(
        stop_line("a", Some(text("Failed to stop playback"))),
        "Failed to stop playback on a: Failed to stop playback"
    );
}

#[test]
fn triggers_start_the_song() {
    let step = ListenStage::begin("own/name", "main", 60);
    assert!(matches!(step.action, ListenAction::Check));
    assert_eq!(
        step.lines,
        vec![
            "Monitoring GitHub CI pipeline for own/name on branch main",
            "Checking every 60 seconds"
        ]
    );
    let step = step.stage.next(60, ListenEvent::Checked(true));
    assert!(matches!(&step.action, ListenAction::Start(track) if track == DEFAULT_TRACK));
    assert_eq!(step.lines, vec!["CI trigger detected! Starting music..."]);
    let step = step.stage.next(60, ListenEvent::Started(true));
    assert!(matches!(step.action, ListenAction::Sleep(60)));
    let step = step.stage.next(60, ListenEvent::Slept);
    assert!(matches!(step.action, ListenAction::Check));

    let step = step.stage.next(60, ListenEvent::Checked(true));
    let step = step.stage.next(60, ListenEvent::Started(false));
    assert!(matches!(step.action, ListenAction::Fail));
}

#[test]
fn watching_goes_on_without_triggers() {
    let step = ListenStage::begin("own/name", "main", 5);
    let step = step.stage.next(5, ListenEvent::Checked(false));
    assert!(matches!(step.action, ListenAction::Sleep(5)));
    assert_eq!(step.lines, vec!["No CI trigger detected. Waiting 5 seconds..."]);
    let step = step.stage.next(5, ListenEvent::Slept);
    assert!(matches!(step.action, ListenAction::Check));
    let step = step.stage.next(5, ListenEvent::CheckFailed(text("oops")));
    assert!(matches!(step.action, ListenAction::Sleep(5)));
    assert_eq!(step.lines, vec!["Error checking CI status: oops"]);
    let step = step.stage.next(5, ListenEvent::Checked(true));
    assert!(matches!(step.action, ListenAction::Ignore));
}

#[test]
fn song_is_played_unless_a_track_is_chosen() {
    assert_eq!(track_or_default(Some(text("x"))), "x");
    assert_eq!(
        track_or_default(None),
        "x-sonos-spotify:spotify:track:4LiJE6pqgsTX3FtukW6bNh?sid=9&flags=8224&sn=7"
    );
}

#[test]
fn answers_are_taken_while_the_time_lasts() {
    let datagram = || b"Sonos LOCATION: http://1.2.3.4:1400".to_vec();
    let step = SearchStage::begin();
    assert!(matches!(step.action, SearchAction::ReadClock));
    let step = step.stage.next(SearchEvent::TimePassed(0));
    assert!(matches!(
        step.action,
        SearchAction::Receive { timeout_millis: 3000, bytes: 2048 }
    ));
    let step = step.stage.next(SearchEvent::Datagram(datagram()));
    assert!(matches!(step.action, SearchAction::ReadClock));
    let step = step.stage.next(SearchEvent::TimePassed(LISTEN_NANOS - 1));
    assert!(matches!(
        step.action,
        SearchAction::Receive { timeout_millis: 3000, bytes: 2048 }
    ));
    let step = step.stage.next(SearchEvent::Datagram(datagram()));
    let step = step.stage.next(SearchEvent::TimePassed(0));
    let step = step.stage.next(SearchEvent::Silence);
    assert!(matches!(step.action, SearchAction::Pause(PAUSE_MILLIS)));
    let step = step.stage.next(SearchEvent::Paused);
    assert!(matches!(step.action, SearchAction::ReadClock));
    let step = step.stage.next(SearchEvent::TimePassed(LISTEN_NANOS));
    assert!(matches!(&step.action, SearchAction::Report(found) if found == &ips(&["1.2.3.4"])));
    assert_eq!(step.lines, NO_LINES);
}

#[test]
fn announced_addresses_are_reported() {
    let datagram = |ip: &str| {
        let text = format!("Sonos LOCATION: http://{ip}:1400");
        SearchEvent::Datagram(text.into_bytes())
    };
    let step = SearchStage::begin();
    let step = step.stage.next(datagram("9.9.9.9"));
    assert!(matches!(step.action, SearchAction::Ignore));
    let step = step.stage.next(SearchEvent::TimePassed(1));
    let step = step.stage.next(datagram("5.6.7.8"));
    let step = step.stage.next(SearchEvent::TimePassed(2));
    let step = step.stage.next(SearchEvent::Datagram(b"nobody".to_vec()));
    let step = step.stage.next(SearchEvent::TimePassed(3));
    let step = step.stage.next(datagram("1.2.3.4"));
    let step = step.stage.next(SearchEvent::TimePassed(4));
    let step = step.stage.next(datagram("5.6.7.8"));
    let step = step.stage.next(SearchEvent::TimePassed(LISTEN_NANOS));
    assert!(matches!(
        &step.action,
        SearchAction::Report(found) if found == &ips(&["5.6.7.8", "1.2.3.4"])
    ));
}

#[test]
fn subnet_is_scanned_without_answers() {
    let step = SearchStage::begin();
    let step = step.stage.next(SearchEvent::TimePassed(LISTEN_NANOS));
    assert!(matches!(step.action, SearchAction::FindSubnet));
    assert_eq!(
        step.lines,
        vec!["SSDP discovery failed. Trying network scan (this may take a minute)..."]
    );
    let step = step.stage.next(SearchEvent::Subnet(Some(text("10.0.0"))));
    assert!(matches!(
        &step.action,
        SearchAction::Scan { targets, timeout_millis: 500, width: 50 }
            if targets.len() == 254 && targets[0] == "10.0.0.1"
    ));
    assert_eq!(step.lines, vec!["Scanning subnet: 10.0.0/24"]);
    let step = step.stage.next(SearchEvent::Subnet(Some(text("10.0.0"))));
    assert!(matches!(step.action, SearchAction::Ignore));
    let step = step.stage.next(SearchEvent::Scanned(vec![None, Some(text("10.0.0.9"))]));
    assert!(matches!(&step.action, SearchAction::Report(found) if found == &ips(&["10.0.0.9"])));
}

#[test]
fn search_can_break_off() {
    let step = SearchStage::begin();
    let step = step.stage.next(SearchEvent::TimePassed(LISTEN_NANOS));
    let step = step.stage.next(SearchEvent::Subnet(None));
    assert!(matches!(step.action, SearchAction::Fail));

    let step = SearchStage::begin();
    let step = step.stage.next(SearchEvent::TimePassed(LISTEN_NANOS));
    let step = step.stage.next(SearchEvent::Subnet(Some(text("10.0.0"))));
    let step = step.stage.next(SearchEvent::ScanFailed);
    assert!(matches!(step.action, SearchAction::Fail));
    let step = step.stage.next(SearchEvent::Silence);
    assert!(matches!(step.action, SearchAction::Ignore));
}
