//! Finding the speakers of the local network.

use vstd::prelude::*;
use vstd::utf8::{decode_utf8, valid_utf8};
use crate::patterns::{
    first_location, first_location_exists, first_location_is_unique, is_first_location, location,
    optional_text,
};
use crate::soap::{is_success, succeeded};
use crate::step::{no_lines, one_line, Step};
use crate::text::{
    contains, decimal, decimal_text, decimals_tell_numbers_apart, from_utf8_lossy, has_part,
    lossy_text, texts,
};

verus! {

/// Where the search for devices is sent.
pub const SSDP_ADDR: &'static str = "239.255.255.250:1900";

/// The search for devices.
pub const SSDP_M_SEARCH: &'static str = "M-SEARCH * HTTP/1.1\r\nHOST: 239.255.255.250:1900\r\nMAN: \"ssdp:discover\"\r\nMX: 3\r\nST: urn:schemas-upnp-org:device:ZonePlayer:1\r\n\r\n";

/// For how many nanoseconds answers to the search are taken.
pub const LISTEN_NANOS: u128 = 5_000_000_000;

/// For how many milliseconds at most an answer is waited for.
pub const ANSWER_MILLIS: u64 = 3000;

/// How many bytes of an answer are taken.
pub const ANSWER_BYTES: usize = 2048;

/// For how many milliseconds at most an address that is scanned may take to reply.
pub const SCAN_MILLIS: u64 = 500;

/// How many addresses are scanned at a time, at most.
pub const SCAN_WIDTH: usize = 50;

/// For how many milliseconds to pause when no answer came.
pub const PAUSE_MILLIS: u64 = 100;

/// The address that an answer to the search announces: that of its location, if
/// the answer comes from a Sonos device.
pub open spec fn announced(response: Seq<char>) -> Option<Seq<char>> {
    if has_part(response, "Sonos"@) {
        first_location(response)
    } else {
        None
    }
}

/// The addresses once one more was announced.
pub open spec fn noted(found: Seq<Seq<char>>, address: Option<Seq<char>>) -> Seq<Seq<char>> {
    match address {
        None => found,
        Some(ip) => if found.contains(ip) {
            found
        } else {
            found.push(ip)
        },
    }
}

/// Finds the address that an answer to the search announces.
pub fn announced_address(response: &str) -> (r: Option<String>)
    ensures
        optional_text(r) == announced(response@),
        has_part(response@, "Sonos"@) ==> is_first_location(response@, optional_text(r)),
        !has_part(response@, "Sonos"@) ==> r is None,
{
    if contains(response, "Sonos") {
        location(response)
    } else {
        None
    }
}

fn holds(found: &Vec<String>, ip: &String) -> (r: bool)
    ensures
        r == texts(found@).contains(ip@),
{
    for i in 0..found.len()
        invariant
            forall|j: int| 0 <= j < i ==> texts(found@)[j] != ip@,
    {
        if found[i].eq(ip) {
            assert(texts(found@)[i as int] == ip@);
            return true;
        }
    }
    false
}

/// Adds the address that an answer to the search announces, unless it is there
/// already.
pub fn note_response(found: &mut Vec<String>, response: &str)
    ensures
        texts(final(found)@) == noted(texts(old(found)@), announced(response@)),
        forall|ip: Seq<char>| #[trigger]
            texts(final(found)@).contains(ip) <==> texts(old(found)@).contains(ip) || (has_part(
                response@,
                "Sonos"@,
            ) && is_first_location(response@, Some(ip))),
{
    if let Some(ip) = announced_address(response) {
        if !holds(found, &ip) {
            let ghost before = found@;
            found.push(ip);
            assert(texts(found@) =~= texts(before).push(ip@));
        }
    }
    proof {
        assert forall|ip: Seq<char>| #[trigger]
            texts(found@).contains(ip) <==> texts(old(found)@).contains(ip) || (has_part(
                response@,
                "Sonos"@,
            ) && is_first_location(response@, Some(ip))) by {
            answers_are_noted(texts(old(found)@), response@, ip);
        }
    }
}

/// Adds the address that a datagram announces, unless it is there already.
pub fn note_datagram(found: &mut Vec<String>, datagram: &[u8])
    ensures
        texts(final(found)@) == noted(texts(old(found)@), announced(lossy_text(datagram@))),
        valid_utf8(datagram@) ==> lossy_text(datagram@) == decode_utf8(datagram@),
        forall|ip: Seq<char>| #[trigger]
            texts(final(found)@).contains(ip) <==> texts(old(found)@).contains(ip) || (has_part(
                lossy_text(datagram@),
                "Sonos"@,
            ) && is_first_location(lossy_text(datagram@), Some(ip))),
{
    let response = from_utf8_lossy(datagram);
    note_response(found, response.as_str());
}

/// The first three numbers of the address of this machine, or a stand-in where
/// the address has none.
pub open spec fn subnet_text(octets: Option<(u8, u8, u8, u8)>) -> Seq<char> {
    match octets {
        Some((a, b, c, _)) => decimal_text(a as nat) + "."@ + decimal_text(b as nat) + "."@
            + decimal_text(c as nat),
        None => "192.168.1"@,
    }
}

/// Writes the subnet of the address of this machine, which is given by its octets
/// if it is one of version 4.
pub fn get_local_subnet(octets: Option<(u8, u8, u8, u8)>) -> (r: String)
    ensures
        r@ == subnet_text(octets),
        octets is None ==> r@ == "192.168.1"@,
        octets matches Some((a, b, c, _)) ==> r@ == decimal_text(a as nat) + "."@ + decimal_text(
            b as nat,
        ) + "."@ + decimal_text(c as nat),
{
    match octets {
        Some((a, b, c, _)) => decimal(a as u64).concat(".").concat(
            decimal(b as u64).as_str(),
        ).concat(".").concat(decimal(c as u64).as_str()),
        None => String::from_str("192.168.1"),
    }
}

/// The addresses of a subnet that can belong to a device.
pub open spec fn subnet_addresses(subnet: Seq<char>) -> Seq<Seq<char>> {
    Seq::new(254, |i: int| subnet + "."@ + decimal_text((i + 1) as nat))
}

/// Lists the addresses of a subnet that can belong to a device.
pub fn scan_targets(subnet: &str) -> (r: Vec<String>)
    ensures
        texts(r@) == subnet_addresses(subnet@),
        r@.len() == 254,
        forall|i: int|
            0 <= i < 254 ==> (#[trigger] r@[i])@ == subnet@ + "."@ + decimal_text((i + 1) as nat),
{
    let mut targets: Vec<String> = Vec::new();
    for i in 1..255u64
        invariant
            targets@.len() == i - 1,
            forall|j: int|
                0 <= j < i - 1 ==> #[trigger] targets@[j]@ == subnet@ + "."@ + decimal_text(
                    (j + 1) as nat,
                ),
    {
        targets.push(String::from_str(subnet).concat(".").concat(decimal(i).as_str()));
    }
    assert(texts(targets@) =~= subnet_addresses(subnet@));
    assert forall|i: int| 0 <= i < 254 implies (#[trigger] targets@[i])@ == subnet@ + "."@
        + decimal_text((i + 1) as nat) by {
        assert(texts(targets@)[i] == targets@[i]@);
    }
    targets
}

/// Whether the reply of a device to a request for its description is that of a
/// Sonos device.
pub open spec fn is_sonos_reply(status: u16, description: Seq<char>) -> bool {
    is_success(status) && has_part(description, "Sonos"@)
}

/// Judges by the reply of the device at `ip` whether it is a Sonos device.
pub fn probe_result(ip: String, status: u16, description: &str) -> (r: Option<String>)
    ensures
        r == (if is_sonos_reply(status, description@) {
            Some(ip)
        } else {
            None
        }),
        r == (if 200 <= status <= 299 && has_part(description@, "Sonos"@) {
            Some(ip)
        } else {
            None
        }),
{
    if succeeded(status) && contains(description, "Sonos") {
        Some(ip)
    } else {
        None
    }
}

/// The addresses among the results of a scan, in their order.
pub open spec fn scanned(results: Seq<Option<Seq<char>>>) -> Seq<Seq<char>>
    decreases results.len(),
{
    if results.len() == 0 {
        Seq::empty()
    } else {
        match results.last() {
            None => scanned(results.drop_last()),
            Some(ip) => scanned(results.drop_last()).push(ip),
        }
    }
}

/// The contents of a list of strings that may be absent.
pub open spec fn optional_texts(list: Seq<Option<String>>) -> Seq<Option<Seq<char>>> {
    list.map_values(|s: Option<String>| optional_text(s))
}

/// Collects the addresses among the results of a scan.
pub fn collect_scan(results: &Vec<Option<String>>) -> (r: Vec<String>)
    ensures
        texts(r@) == scanned(optional_texts(results@)),
{
    let ghost all = optional_texts(results@);
    let mut found: Vec<String> = Vec::new();
    assert(texts(found@) =~= Seq::empty());
    for i in 0..results.len()
        invariant
            all == optional_texts(results@),
            texts(found@) == scanned(all.take(i as int)),
    {
        let ghost before = found@;
        proof {
            assert(all.take(i + 1).drop_last() =~= all.take(i as int));
            assert(all.take(i + 1).last() == optional_text(results@[i as int]));
        }
        if let Some(ip) = &results[i] {
            found.push(ip.clone());
            assert(texts(found@) =~= texts(before).push(ip@));
        }
    }
    assert(all.take(results@.len() as int) =~= all);
    found
}

/// The addresses that were found once the responses came in.
pub open spec fn all_noted(responses: Seq<Seq<char>>) -> Seq<Seq<char>>
    decreases responses.len(),
{
    if responses.len() == 0 {
        Seq::empty()
    } else {
        noted(all_noted(responses.drop_last()), announced(responses.last()))
    }
}

/// Whatever answers come in, no address is found twice.
pub proof fn addresses_are_found_once(responses: Seq<Seq<char>>)
    ensures
        all_noted(responses).no_duplicates(),
    decreases responses.len(),
{
    if responses.len() > 0 {
        addresses_are_found_once(responses.drop_last());
    }
}

/// An address is found if and only if an answer announces it.
pub proof fn announced_addresses_are_found(responses: Seq<Seq<char>>, ip: Seq<char>)
    ensures
        all_noted(responses).contains(ip) <==> exists|i: int|
            0 <= i < responses.len() && announced(#[trigger] responses[i]) == Some(ip),
    decreases responses.len(),
{
    if responses.len() > 0 {
        let rest = responses.drop_last();
        let before = all_noted(rest);
        announced_addresses_are_found(rest, ip);
        assert(forall|i: int| 0 <= i < rest.len() ==> rest[i] == responses[i]);
        match announced(responses.last()) {
            None => {},
            Some(last) => {
                assert(announced(responses[responses.len() - 1]) == Some(last));
                if !before.contains(last) {
                    let after = before.push(last);
                    assert(after[before.len() as int] == last);
                    if before.contains(ip) {
                        let j = choose|j: int| 0 <= j < before.len() && before[j] == ip;
                        assert(after[j] == ip);
                    }
                    if after.contains(ip) && ip != last {
                        let j = choose|j: int| 0 <= j < after.len() && after[j] == ip;
                        assert(before[j] == ip);
                    }
                }
            },
        }
        if exists|i: int| 0 <= i < rest.len() && announced(#[trigger] rest[i]) == Some(ip) {
            let i = choose|i: int| 0 <= i < rest.len() && announced(#[trigger] rest[i]) == Some(ip);
            assert(announced(responses[i]) == Some(ip));
        }
    }
}

/// A scan finds an address if and only if one of its results is that address, and
/// finds none twice if no two of its results are the same address.
pub proof fn scan_results_are_found(results: Seq<Option<Seq<char>>>, ip: Seq<char>)
    ensures
        scanned(results).contains(ip) <==> results.contains(Some(ip)),
        (forall|i: int, j: int|
            0 <= i < j < results.len() && results[i] is Some ==> results[i] != results[j])
            ==> scanned(results).no_duplicates(),
    decreases results.len(),
{
    if results.len() > 0 {
        let rest = results.drop_last();
        let before = scanned(rest);
        let count = rest.len() as int;
        scan_results_are_found(rest, ip);
        assert(results =~= rest.push(results.last()));
        if rest.contains(Some(ip)) {
            let j = choose|j: int| 0 <= j < rest.len() && rest[j] == Some(ip);
            assert(results[j] == Some(ip));
        }
        if results.contains(Some(ip)) && results.last() != Some(ip) {
            let j = choose|j: int| 0 <= j < results.len() && results[j] == Some(ip);
            assert(rest[j] == Some(ip));
        }
        if let Some(last) = results.last() {
            let after = before.push(last);
            assert(results[count] == Some(last));
            assert(after[before.len() as int] == last);
            if before.contains(ip) {
                let j = choose|j: int| 0 <= j < before.len() && before[j] == ip;
                assert(after[j] == ip);
            }
            if after.contains(ip) && ip != last {
                let j = choose|j: int| 0 <= j < after.len() && after[j] == ip;
                assert(before[j] == ip);
            }
            if before.contains(last) {
                scan_results_are_found(rest, last);
                let j = choose|j: int| 0 <= j < rest.len() && rest[j] == Some(last);
                assert(results[j] == results[count]);
            }
        }
        if forall|i: int, j: int|
            0 <= i < j < results.len() && results[i] is Some ==> results[i] != results[j] {
            assert forall|i: int, j: int| 0 <= i < j < rest.len() && rest[i] is Some implies rest[i]
                != rest[j] by {
                assert(results[i] != results[j]);
            }
        }
    }
}

/// A scan asks no address twice.
pub proof fn scan_targets_are_distinct(subnet: Seq<char>)
    ensures
        subnet_addresses(subnet).no_duplicates(),
{
    let addresses = subnet_addresses(subnet);
    assert forall|i: int, j: int|
        0 <= i < addresses.len() && 0 <= j < addresses.len() && i != j implies addresses[i]
        != addresses[j] by {
        if addresses[i] == addresses[j] {
            let prefix = subnet + "."@;
            let first = decimal_text((i + 1) as nat);
            let second = decimal_text((j + 1) as nat);
            assert(first =~= (prefix + first).skip(prefix.len() as int));
            assert(second =~= (prefix + second).skip(prefix.len() as int));
            decimals_tell_numbers_apart((i + 1) as nat, (j + 1) as nat);
        }
    }
}

/// A scan asks the address with the last number `number` if and only if the number
/// is one of 1 to 254: neither the network nor its broadcast address is asked.
pub proof fn scan_targets_are_hosts(subnet: Seq<char>, number: nat)
    ensures
        subnet_addresses(subnet).contains(subnet + "."@ + decimal_text(number)) <==> 1 <= number
            <= 254,
{
    let addresses = subnet_addresses(subnet);
    let prefix = subnet + "."@;
    let text = decimal_text(number);
    if 1 <= number <= 254 {
        assert(addresses[number - 1] == prefix + text);
    }
    if addresses.contains(prefix + text) {
        let i = choose|i: int| 0 <= i < addresses.len() && addresses[i] == prefix + text;
        let other = decimal_text((i + 1) as nat);
        assert(text =~= (prefix + text).skip(prefix.len() as int));
        assert(other =~= (prefix + other).skip(prefix.len() as int));
        decimals_tell_numbers_apart(number, (i + 1) as nat);
    }
}

/// How far the search for speakers has come.
pub enum SearchStage<L> {
    /// The clock decides whether to wait for another answer.
    Timing { found: L },
    /// An answer may come.
    Receiving { found: L },
    /// No answer came.
    Pausing { found: L },
    /// The subnet is looked for.
    Locating,
    /// The subnet is scanned.
    Scanning,
    /// The addresses were reported.
    Finished,
    /// The search broke off.
    Failed,
}

/// What happened outside.
pub enum SearchEvent<S, B, R> {
    /// So many nanoseconds have passed since the search was sent.
    TimePassed(u128),
    /// A datagram came.
    Datagram(B),
    /// No datagram came.
    Silence,
    /// The pause is over.
    Paused,
    /// The subnet was found, or was not.
    Subnet(Option<S>),
    /// The scan gave these results.
    Scanned(R),
    /// The scan could not be made.
    ScanFailed,
}

/// What to do outside.
pub enum SearchAction<L> {
    /// Read how much time has passed since the search was sent.
    ReadClock,
    /// Wait for a datagram, for so many milliseconds at most, and take so many bytes
    /// of it at most.
    Receive { timeout_millis: u64, bytes: usize },
    /// Pause for so many milliseconds.
    Pause(u64),
    /// Find the subnet.
    FindSubnet,
    /// Ask each of the addresses for its description: at most `width` of them at a
    /// time, each with so many milliseconds at most to reply.
    Scan { targets: L, timeout_millis: u64, width: usize },
    /// The search is over and found these addresses.
    Report(L),
    /// The search broke off on what the last call reported.
    Fail,
    /// The event came out of turn and changes nothing.
    Ignore,
}

impl View for SearchStage<Vec<String>> {
    type V = SearchStage<Seq<Seq<char>>>;

    open spec fn view(&self) -> SearchStage<Seq<Seq<char>>> {
        match self {
            SearchStage::Timing { found } => SearchStage::Timing { found: texts(found@) },
            SearchStage::Receiving { found } => SearchStage::Receiving { found: texts(found@) },
            SearchStage::Pausing { found } => SearchStage::Pausing { found: texts(found@) },
            SearchStage::Locating => SearchStage::Locating,
            SearchStage::Scanning => SearchStage::Scanning,
            SearchStage::Finished => SearchStage::Finished,
            SearchStage::Failed => SearchStage::Failed,
        }
    }
}

impl View for SearchEvent<String, Vec<u8>, Vec<Option<String>>> {
    type V = SearchEvent<Seq<char>, Seq<u8>, Seq<Option<Seq<char>>>>;

    open spec fn view(&self) -> SearchEvent<Seq<char>, Seq<u8>, Seq<Option<Seq<char>>>> {
        match self {
            SearchEvent::TimePassed(nanos) => SearchEvent::TimePassed(*nanos),
            SearchEvent::Datagram(bytes) => SearchEvent::Datagram(bytes@),
            SearchEvent::Silence => SearchEvent::Silence,
            SearchEvent::Paused => SearchEvent::Paused,
            SearchEvent::Subnet(subnet) => SearchEvent::Subnet(optional_text(*subnet)),
            SearchEvent::Scanned(results) => SearchEvent::Scanned(optional_texts(results@)),
            SearchEvent::ScanFailed => SearchEvent::ScanFailed,
        }
    }
}

impl View for SearchAction<Vec<String>> {
    type V = SearchAction<Seq<Seq<char>>>;

    open spec fn view(&self) -> SearchAction<Seq<Seq<char>>> {
        match self {
            SearchAction::ReadClock => SearchAction::ReadClock,
            SearchAction::Receive { timeout_millis, bytes } => SearchAction::Receive {
                timeout_millis: *timeout_millis,
                bytes: *bytes,
            },
            SearchAction::Pause(millis) => SearchAction::Pause(*millis),
            SearchAction::FindSubnet => SearchAction::FindSubnet,
            SearchAction::Scan { targets, timeout_millis, width } => SearchAction::Scan {
                targets: texts(targets@),
                timeout_millis: *timeout_millis,
                width: *width,
            },
            SearchAction::Report(found) => SearchAction::Report(texts(found@)),
            SearchAction::Fail => SearchAction::Fail,
            SearchAction::Ignore => SearchAction::Ignore,
        }
    }
}

/// A step of the search on contents.
pub type SearchStep = Step<
    SearchStage<Seq<Seq<char>>>,
    SearchAction<Seq<Seq<char>>>,
    Seq<Seq<char>>,
>;

/// A step that prints nothing.
pub open spec fn search_step(
    stage: SearchStage<Seq<Seq<char>>>,
    action: SearchAction<Seq<Seq<char>>>,
) -> SearchStep {
    Step { stage, lines: Seq::empty(), action }
}

/// The first step, once the search was sent: nothing is found yet.
pub open spec fn search_begin() -> SearchStep {
    search_step(SearchStage::Timing { found: Seq::empty() }, SearchAction::ReadClock)
}

/// The scan of a subnet.
pub open spec fn scan_of(subnet: Seq<char>) -> SearchAction<Seq<Seq<char>>> {
    SearchAction::Scan {
        targets: subnet_addresses(subnet),
        timeout_millis: SCAN_MILLIS,
        width: SCAN_WIDTH,
    }
}

/// What follows in the search: answers are taken while the time lasts, and the
/// subnet is scanned if none gave an address.
pub open spec fn search_next(
    stage: SearchStage<Seq<Seq<char>>>,
    event: SearchEvent<Seq<char>, Seq<u8>, Seq<Option<Seq<char>>>>,
) -> SearchStep {
    match (stage, event) {
        (SearchStage::Timing { found }, SearchEvent::TimePassed(nanos)) => {
            if nanos < LISTEN_NANOS {
                search_step(
                    SearchStage::Receiving { found },
                    SearchAction::Receive { timeout_millis: ANSWER_MILLIS, bytes: ANSWER_BYTES },
                )
            } else if found.len() == 0 {
                Step {
                    stage: SearchStage::Locating,
                    lines: seq![
                        "SSDP discovery failed. Trying network scan (this may take a minute)..."@,
                    ],
                    action: SearchAction::FindSubnet,
                }
            } else {
                search_step(SearchStage::Finished, SearchAction::Report(found))
            }
        },
        (SearchStage::Receiving { found }, SearchEvent::Datagram(bytes)) => search_step(
            SearchStage::Timing { found: noted(found, announced(lossy_text(bytes))) },
            SearchAction::ReadClock,
        ),
        (SearchStage::Receiving { found }, SearchEvent::Silence) => search_step(
            SearchStage::Pausing { found },
            SearchAction::Pause(PAUSE_MILLIS),
        ),
        (SearchStage::Pausing { found }, SearchEvent::Paused) => search_step(
            SearchStage::Timing { found },
            SearchAction::ReadClock,
        ),
        (SearchStage::Locating, SearchEvent::Subnet(Some(subnet))) => Step {
            stage: SearchStage::Scanning,
            lines: seq!["Scanning subnet: "@ + subnet + "/24"@],
            action: scan_of(subnet),
        },
        (SearchStage::Locating, SearchEvent::Subnet(None)) => search_step(
            SearchStage::Failed,
            SearchAction::Fail,
        ),
        (SearchStage::Scanning, SearchEvent::Scanned(results)) => search_step(
            SearchStage::Finished,
            SearchAction::Report(scanned(results)),
        ),
        (SearchStage::Scanning, SearchEvent::ScanFailed) => search_step(
            SearchStage::Failed,
            SearchAction::Fail,
        ),
        (stage, _) => search_step(stage, SearchAction::Ignore),
    }
}

/// What is done outside as the events come in.
pub open spec fn search_actions(
    stage: SearchStage<Seq<Seq<char>>>,
    events: Seq<SearchEvent<Seq<char>, Seq<u8>, Seq<Option<Seq<char>>>>>,
) -> Seq<SearchAction<Seq<Seq<char>>>>
    decreases events.len(),
{
    if events.len() == 0 {
        Seq::empty()
    } else {
        let step = search_next(stage, events[0]);
        seq![step.action] + search_actions(step.stage, events.skip(1))
    }
}

/// The addresses that the answers gave so far, while answers are taken.
pub open spec fn collected(stage: SearchStage<Seq<Seq<char>>>) -> Option<Seq<Seq<char>>> {
    match stage {
        SearchStage::Timing { found } => Some(found),
        SearchStage::Receiving { found } => Some(found),
        SearchStage::Pausing { found } => Some(found),
        _ => None,
    }
}

/// Whatever happens, the addresses that are reported when the time is over are
/// distinct, and there is one.
pub proof fn answers_are_reported_once(
    stage: SearchStage<Seq<Seq<char>>>,
    events: Seq<SearchEvent<Seq<char>, Seq<u8>, Seq<Option<Seq<char>>>>>,
    at: int,
)
    requires
        collected(stage) is Some ==> collected(stage)->0.no_duplicates(),
        0 <= at < search_actions(stage, events).len(),
        search_actions(stage, events)[at] is Report,
        at < events.len(),
        events[at] is TimePassed,
    ensures
        search_actions(stage, events)[at]->Report_0.no_duplicates(),
        search_actions(stage, events)[at]->Report_0.len() > 0,
    decreases events.len(),
{
    let step = search_next(stage, events[0]);
    let actions = search_actions(stage, events);
    let rest = search_actions(step.stage, events.skip(1));
    assert(actions == seq![step.action] + rest);
    if at > 0 {
        assert(rest[at - 1] == actions[at]);
        answers_are_reported_once(step.stage, events.skip(1), at - 1);
    }
}

/// The answers among the events: the texts of the datagrams that came while one was
/// waited for, in order.
pub open spec fn received(
    stage: SearchStage<Seq<Seq<char>>>,
    events: Seq<SearchEvent<Seq<char>, Seq<u8>, Seq<Option<Seq<char>>>>>,
) -> Seq<Seq<char>>
    decreases events.len(),
{
    if events.len() == 0 {
        Seq::empty()
    } else {
        let rest = received(search_next(stage, events[0]).stage, events.skip(1));
        if stage is Receiving && events[0] is Datagram {
            seq![lossy_text(events[0]->Datagram_0)] + rest
        } else {
            rest
        }
    }
}

/// Once no more answers are taken, only a scan is reported.
proof fn lemma_scan_report(
    stage: SearchStage<Seq<Seq<char>>>,
    events: Seq<SearchEvent<Seq<char>, Seq<u8>, Seq<Option<Seq<char>>>>>,
    at: int,
)
    requires
        collected(stage) is None,
        0 <= at < search_actions(stage, events).len(),
        search_actions(stage, events)[at] is Report,
    ensures
        at < events.len(),
        events[at] is Scanned,
    decreases events.len(),
{
    let step = search_next(stage, events[0]);
    let actions = search_actions(stage, events);
    let rest = search_actions(step.stage, events.skip(1));
    assert(actions == seq![step.action] + rest);
    if at > 0 {
        assert(rest[at - 1] == actions[at]);
        lemma_scan_report(step.stage, events.skip(1), at - 1);
    }
}

/// The addresses that the answers `earlier` gave are reported together with those
/// of the answers among the events.
proof fn lemma_answers_are_reported(
    stage: SearchStage<Seq<Seq<char>>>,
    earlier: Seq<Seq<char>>,
    events: Seq<SearchEvent<Seq<char>, Seq<u8>, Seq<Option<Seq<char>>>>>,
    at: int,
)
    requires
        collected(stage) == Some(all_noted(earlier)),
        0 <= at < search_actions(stage, events).len(),
        search_actions(stage, events)[at] is Report,
        at < events.len(),
        events[at] is TimePassed,
    ensures
        search_actions(stage, events)[at]->Report_0 == all_noted(
            earlier + received(stage, events.take(at)),
        ),
    decreases events.len(),
{
    let step = search_next(stage, events[0]);
    let actions = search_actions(stage, events);
    let rest = search_actions(step.stage, events.skip(1));
    assert(actions == seq![step.action] + rest);
    if at == 0 {
        assert(earlier + received(stage, events.take(at)) =~= earlier);
    } else {
        let later = events.skip(1);
        assert(rest[at - 1] == actions[at]);
        assert(events.take(at)[0] == events[0]);
        assert(events.take(at).skip(1) =~= later.take(at - 1));
        if collected(step.stage) is None {
            lemma_scan_report(step.stage, later, at - 1);
        } else if stage is Receiving && events[0] is Datagram {
            let text = lossy_text(events[0]->Datagram_0);
            assert(earlier.push(text).drop_last() =~= earlier);
            lemma_answers_are_reported(step.stage, earlier.push(text), later, at - 1);
            assert(earlier.push(text) + received(step.stage, later.take(at - 1)) =~= earlier
                + received(stage, events.take(at)));
        } else {
            lemma_answers_are_reported(step.stage, earlier, later, at - 1);
        }
    }
}

/// Whatever happens, what is reported when the time is over are the addresses that
/// the answers announced which came until then.
pub proof fn announced_addresses_are_reported(
    events: Seq<SearchEvent<Seq<char>, Seq<u8>, Seq<Option<Seq<char>>>>>,
    at: int,
)
    requires
        0 <= at < search_actions(search_begin().stage, events).len(),
        search_actions(search_begin().stage, events)[at] is Report,
        at < events.len(),
        events[at] is TimePassed,
    ensures
        search_actions(search_begin().stage, events)[at]->Report_0 == all_noted(
            received(search_begin().stage, events.take(at)),
        ),
{
    let none = Seq::<Seq<char>>::empty();
    let answers = received(search_begin().stage, events.take(at));
    lemma_answers_are_reported(search_begin().stage, none, events, at);
    assert(none + answers =~= answers);
}

/// Whatever happens, the subnet is not scanned once an answer gave an address.
pub proof fn answers_spare_the_scan(
    stage: SearchStage<Seq<Seq<char>>>,
    events: Seq<SearchEvent<Seq<char>, Seq<u8>, Seq<Option<Seq<char>>>>>,
    at: int,
)
    requires
        stage is Finished || (collected(stage) is Some && collected(stage)->0.len() > 0),
        0 <= at < search_actions(stage, events).len(),
    ensures
        search_actions(stage, events)[at] !is FindSubnet,
        search_actions(stage, events)[at] !is Scan,
    decreases events.len(),
{
    let step = search_next(stage, events[0]);
    let actions = search_actions(stage, events);
    let rest = search_actions(step.stage, events.skip(1));
    assert(actions == seq![step.action] + rest);
    if at > 0 {
        assert(rest[at - 1] == actions[at]);
        answers_spare_the_scan(step.stage, events.skip(1), at - 1);
    }
}

proof fn lemma_no_more_scans(
    stage: SearchStage<Seq<Seq<char>>>,
    events: Seq<SearchEvent<Seq<char>, Seq<u8>, Seq<Option<Seq<char>>>>>,
    at: int,
)
    requires
        stage is Scanning || stage is Finished || stage is Failed,
        0 <= at < search_actions(stage, events).len(),
    ensures
        search_actions(stage, events)[at] !is Scan,
    decreases events.len(),
{
    let step = search_next(stage, events[0]);
    let actions = search_actions(stage, events);
    let rest = search_actions(step.stage, events.skip(1));
    assert(actions == seq![step.action] + rest);
    if at > 0 {
        assert(rest[at - 1] == actions[at]);
        lemma_no_more_scans(step.stage, events.skip(1), at - 1);
    }
}

/// Whatever happens, a scan is that of the subnet that was found, with its limits,
/// and no other scan follows it.
pub proof fn subnet_is_scanned_once(
    stage: SearchStage<Seq<Seq<char>>>,
    events: Seq<SearchEvent<Seq<char>, Seq<u8>, Seq<Option<Seq<char>>>>>,
    at: int,
    later: int,
)
    requires
        0 <= at < search_actions(stage, events).len(),
        search_actions(stage, events)[at] is Scan,
    ensures
        at < events.len(),
        events[at] is Subnet,
        events[at]->Subnet_0 is Some,
        search_actions(stage, events)[at] == scan_of(events[at]->Subnet_0->0),
        at < later < search_actions(stage, events).len() ==> search_actions(
            stage,
            events,
        )[later] !is Scan,
    decreases events.len(),
{
    let step = search_next(stage, events[0]);
    let actions = search_actions(stage, events);
    let rest = search_actions(step.stage, events.skip(1));
    assert(actions == seq![step.action] + rest);
    if at > 0 {
        assert(rest[at - 1] == actions[at]);
        subnet_is_scanned_once(step.stage, events.skip(1), at - 1, later - 1);
        if at < later < actions.len() {
            assert(rest[later - 1] == actions[later]);
        }
    } else if at < later < actions.len() {
        assert(rest[later - 1] == actions[later]);
        lemma_no_more_scans(step.stage, events.skip(1), later - 1);
    }
}

impl SearchStage<Vec<String>> {
    /// The search was sent, and nothing is found yet.
    pub fn begin() -> (r: Step<Self, SearchAction<Vec<String>>, Vec<String>>)
        ensures
            r@ == search_begin(),
    {
        Step {
            stage: SearchStage::Timing { found: no_lines() },
            lines: no_lines(),
            action: SearchAction::ReadClock,
        }
    }

    /// What follows in the search.
    pub fn next(self, event: SearchEvent<String, Vec<u8>, Vec<Option<String>>>) -> (r: Step<
        Self,
        SearchAction<Vec<String>>,
        Vec<String>,
    >)
        ensures
            r@ == search_next(self@, event@),
            self is Timing && event is TimePassed && event->TimePassed_0 >= 5_000_000_000
                && self->Timing_found@.len() > 0 ==> r.action is Report && r.action->Report_0@
                == self->Timing_found@,
            self is Receiving && event is Datagram && valid_utf8(event->Datagram_0@)
                ==> lossy_text(event->Datagram_0@) == decode_utf8(event->Datagram_0@),
    {
        match (self, event) {
            (SearchStage::Timing { found }, SearchEvent::TimePassed(nanos)) => {
                if nanos < LISTEN_NANOS {
                    Step {
                        stage: SearchStage::Receiving { found },
                        lines: no_lines(),
                        action: SearchAction::Receive {
                            timeout_millis: ANSWER_MILLIS,
                            bytes: ANSWER_BYTES,
                        },
                    }
                } else if found.len() == 0 {
                    Step {
                        stage: SearchStage::Locating,
                        lines: one_line(
                            String::from_str(
                                "SSDP discovery failed. Trying network scan (this may take a minute)...",
                            ),
                        ),
                        action: SearchAction::FindSubnet,
                    }
                } else {
                    Step {
                        stage: SearchStage::Finished,
                        lines: no_lines(),
                        action: SearchAction::Report(found),
                    }
                }
            },
            (SearchStage::Receiving { found }, SearchEvent::Datagram(bytes)) => {
                let mut found = found;
                note_datagram(&mut found, bytes.as_slice());
                Step {
                    stage: SearchStage::Timing { found },
                    lines: no_lines(),
                    action: SearchAction::ReadClock,
                }
            },
            (SearchStage::Receiving { found }, SearchEvent::Silence) => Step {
                stage: SearchStage::Pausing { found },
                lines: no_lines(),
                action: SearchAction::Pause(PAUSE_MILLIS),
            },
            (SearchStage::Pausing { found }, SearchEvent::Paused) => Step {
                stage: SearchStage::Timing { found },
                lines: no_lines(),
                action: SearchAction::ReadClock,
            },
            (SearchStage::Locating, SearchEvent::Subnet(Some(subnet))) => {
                let line = String::from_str("Scanning subnet: ").concat(subnet.as_str()).concat(
                    "/24",
                );
                Step {
                    stage: SearchStage::Scanning,
                    lines: one_line(line),
                    action: SearchAction::Scan {
                        targets: scan_targets(subnet.as_str()),
                        timeout_millis: SCAN_MILLIS,
                        width: SCAN_WIDTH,
                    },
                }
            },
            (SearchStage::Locating, SearchEvent::Subnet(None)) => Step {
                stage: SearchStage::Failed,
                lines: no_lines(),
                action: SearchAction::Fail,
            },
            (SearchStage::Scanning, SearchEvent::Scanned(results)) => Step {
                stage: SearchStage::Finished,
                lines: no_lines(),
                action: SearchAction::Report(collect_scan(&results)),
            },
            (SearchStage::Scanning, SearchEvent::ScanFailed) => Step {
                stage: SearchStage::Failed,
                lines: no_lines(),
                action: SearchAction::Fail,
            },
            (stage, _) => Step { stage, lines: no_lines(), action: SearchAction::Ignore },
        }
    }
}

/// An answer announces an address if and only if it names Sonos and the address is
/// all of its first location.
pub proof fn announcements_are_first_locations(response: Seq<char>, address: Seq<char>)
    ensures
        announced(response) == Some(address) <==> has_part(response, "Sonos"@)
            && is_first_location(response, Some(address)),
        announced(response) is None <==> !has_part(response, "Sonos"@) || is_first_location(
            response,
            None,
        ),
{
    first_location_exists(response);
    if is_first_location(response, Some(address)) {
        first_location_is_unique(response, Some(address));
    }
    if is_first_location(response, None) {
        first_location_is_unique(response, None);
    }
}

/// An address is found after an answer if and only if it was found before, or the
/// answer names Sonos and the address is its first location. What was found stays in
/// its place, and nothing is found twice.
pub proof fn answers_are_noted(found: Seq<Seq<char>>, response: Seq<char>, ip: Seq<char>)
    ensures
        noted(found, announced(response)).contains(ip) <==> found.contains(ip) || (has_part(
            response,
            "Sonos"@,
        ) && is_first_location(response, Some(ip))),
        found.len() <= noted(found, announced(response)).len() <= found.len() + 1,
        noted(found, announced(response)).take(found.len() as int) == found,
        found.no_duplicates() ==> noted(found, announced(response)).no_duplicates(),
{
    announcements_are_first_locations(response, ip);
    let after = noted(found, announced(response));
    assert(after.take(found.len() as int) =~= found);
    if announced(response) is Some {
        let last = announced(response)->0;
        announcements_are_first_locations(response, last);
        if is_first_location(response, Some(ip)) {
            first_location_is_unique(response, Some(ip));
        }
        if !found.contains(last) {
            assert(after[found.len() as int] == last);
        }
    }
    if found.contains(ip) {
        let j = choose|j: int| 0 <= j < found.len() && found[j] == ip;
        assert(after[j] == ip);
    }
    if after.contains(ip) && !found.contains(ip) {
        let j = choose|j: int| 0 <= j < after.len() && after[j] == ip;
        assert(j == found.len());
    }
}

/// A datagram that comes while one is waited for is an answer: what it announces is
/// found, and the clock is read next.
pub proof fn datagrams_are_noted(found: Seq<Seq<char>>, bytes: Seq<u8>, ip: Seq<char>)
    ensures
        ({
            let step = search_next(SearchStage::Receiving { found }, SearchEvent::Datagram(bytes));
            let text = lossy_text(bytes);
            &&& step.action is ReadClock
            &&& step.stage is Timing
            &&& step.stage->Timing_found.contains(ip) <==> found.contains(ip) || (has_part(
                text,
                "Sonos"@,
            ) && is_first_location(text, Some(ip)))
            &&& step.stage->Timing_found.take(found.len() as int) == found
        }),
{
    answers_are_noted(found, lossy_text(bytes), ip);
}

/// Whatever happens, the search reports an address when the time is over if and only
/// if an answer that came until then names Sonos and has it as its first location.
pub proof fn reported_addresses_were_announced(
    events: Seq<SearchEvent<Seq<char>, Seq<u8>, Seq<Option<Seq<char>>>>>,
    at: int,
    ip: Seq<char>,
)
    requires
        0 <= at < search_actions(search_begin().stage, events).len(),
        search_actions(search_begin().stage, events)[at] is Report,
        at < events.len(),
        events[at] is TimePassed,
    ensures
        search_actions(search_begin().stage, events)[at]->Report_0.no_duplicates(),
        ({
            let answers = received(search_begin().stage, events.take(at));
            let found = search_actions(search_begin().stage, events)[at]->Report_0;
            found.contains(ip) <==> exists|i: int|
                0 <= i < answers.len() && has_part(#[trigger] answers[i], "Sonos"@)
                    && is_first_location(answers[i], Some(ip))
        }),
{
    let answers = received(search_begin().stage, events.take(at));
    announced_addresses_are_reported(events, at);
    addresses_are_found_once(answers);
    announced_addresses_are_found(answers, ip);
    assert forall|i: int| 0 <= i < answers.len() implies (announced(#[trigger] answers[i]) == Some(
        ip,
    ) <==> has_part(answers[i], "Sonos"@) && is_first_location(answers[i], Some(ip))) by {
        announcements_are_first_locations(answers[i], ip);
    }
}

/// An answer is waited for while less than five seconds have passed, for three
/// seconds at a time; where none comes, a tenth of a second passes before the clock
/// is read again.
pub proof fn answers_are_taken_in_time(
    stage: SearchStage<Seq<Seq<char>>>,
    event: SearchEvent<Seq<char>, Seq<u8>, Seq<Option<Seq<char>>>>,
)
    ensures
        ({
            let action = search_next(stage, event).action;
            &&& action is Receive <==> stage is Timing && event is TimePassed
                && event->TimePassed_0 < 5_000_000_000
            &&& action is Receive ==> action->Receive_timeout_millis == 3000
            &&& action is Receive ==> action->bytes == 2048
            &&& action is Pause <==> stage is Receiving && event is Silence
            &&& action is Pause ==> action->Pause_0 == 100
            &&& action is ReadClock <==> (stage is Receiving && event is Datagram) || (
            stage is Pausing && event is Paused)
        }),
{
}

/// When five seconds have passed, what was found is reported, and the subnet is
/// looked for where nothing was. The scan of it reports the addresses among its
/// results. The search breaks off where there is no subnet or no scan.
pub proof fn searches_end(
    stage: SearchStage<Seq<Seq<char>>>,
    event: SearchEvent<Seq<char>, Seq<u8>, Seq<Option<Seq<char>>>>,
)
    ensures
        ({
            let action = search_next(stage, event).action;
            let over = stage is Timing && event is TimePassed && event->TimePassed_0
                >= 5_000_000_000;
            &&& action is FindSubnet <==> over && stage->Timing_found.len() == 0
            &&& action is Report <==> (over && stage->Timing_found.len() > 0) || (stage is Scanning
                && event is Scanned)
            &&& over && action is Report ==> action->Report_0 == stage->Timing_found
            &&& action is Scan <==> stage is Locating && event is Subnet
                && event->Subnet_0 is Some
            &&& action is Scan ==> action->Scan_timeout_millis == 500
            &&& action is Scan ==> action->width == 50
            &&& action is Scan ==> action->targets.len() == 254
            &&& action is Scan ==> forall|i: int|
                0 <= i < 254 ==> #[trigger] action->targets[i] == event->Subnet_0->0 + "."@
                    + decimal_text((i + 1) as nat)
            &&& action is Fail <==> (stage is Locating && event is Subnet
                && event->Subnet_0 is None) || (stage is Scanning && event is ScanFailed)
        }),
{
}

/// The stage tells what the search waits for, and keeps what was found; an event out
/// of turn changes nothing.
pub proof fn search_stages_follow(
    stage: SearchStage<Seq<Seq<char>>>,
    event: SearchEvent<Seq<char>, Seq<u8>, Seq<Option<Seq<char>>>>,
)
    ensures
        ({
            let step = search_next(stage, event);
            &&& step.action is Receive ==> step.stage is Receiving
            &&& step.action is Pause ==> step.stage is Pausing
            &&& step.action is ReadClock ==> step.stage is Timing
            &&& step.action is FindSubnet ==> step.stage is Locating
            &&& step.action is Scan ==> step.stage is Scanning
            &&& step.action is Report ==> step.stage is Finished
            &&& step.action is Fail ==> step.stage is Failed
            &&& step.action is Ignore ==> step.stage == stage
            &&& step.action is Receive ==> step.stage->Receiving_found == stage->Timing_found
            &&& step.action is Pause ==> step.stage->Pausing_found == stage->Receiving_found
            &&& stage is Pausing && step.action is ReadClock ==> step.stage->Timing_found
                == stage->Pausing_found
        }),
{
}

/// What the search tells: that no answer came, and which subnet is scanned.
pub proof fn search_is_told(
    stage: SearchStage<Seq<Seq<char>>>,
    event: SearchEvent<Seq<char>, Seq<u8>, Seq<Option<Seq<char>>>>,
)
    ensures
        ({
            let step = search_next(stage, event);
            &&& step.action is FindSubnet ==> step.lines == seq![
                "SSDP discovery failed. Trying network scan (this may take a minute)..."@,
            ]
            &&& step.action is Scan ==> step.lines == seq![
                "Scanning subnet: "@ + event->Subnet_0->0 + "/24"@,
            ]
            &&& !(step.action is FindSubnet) && !(step.action is Scan) ==> step.lines.len() == 0
        }),
{
}

/// A scan reports the addresses among its results in their order, and no others: one
/// more result that is an address comes last, and one that is not changes nothing.
pub proof fn scans_report_their_results(results: Seq<Option<Seq<char>>>, ip: Seq<char>)
    ensures
        search_next(SearchStage::Scanning, SearchEvent::Scanned(results)).action
            == SearchAction::Report(scanned(results)),
        scanned(Seq::empty()) == Seq::<Seq<char>>::empty(),
        scanned(results.push(None)) == scanned(results),
        scanned(results.push(Some(ip))) == scanned(results).push(ip),
{
    assert(results.push(None).drop_last() =~= results);
    assert(results.push(Some(ip)).drop_last() =~= results);
}

/// The subnet is the first three numbers of the address: two addresses have the same
/// subnet text if these are the same, whatever the fourth.
pub proof fn subnets_are_three_numbers(a: u8, b: u8, c: u8, d: u8)
    ensures
        subnet_text(Some((a, b, c, d))) == decimal_text(a as nat) + "."@ + decimal_text(b as nat)
            + "."@ + decimal_text(c as nat),
        subnet_text(None) == "192.168.1"@,
{
}

/// What is seen of the list of addresses that is reported or scanned is the list.
pub proof fn search_actions_show_their_lists(action: SearchAction<Vec<String>>)
    ensures
        action is Report ==> action@ == SearchAction::Report(texts(action->Report_0@)),
        action is Scan ==> action@ is Scan && action@->targets == texts(action->targets@)
            && action@->Scan_timeout_millis == action->Scan_timeout_millis && action@->width
            == action->width,
        action is Receive ==> action@ is Receive && action@->Receive_timeout_millis
            == action->Receive_timeout_millis && action@->bytes == action->bytes,
        action is Pause ==> action@ is Pause && action@->Pause_0 == action->Pause_0,
{
}

/// What is seen of a stage is what was found in it.
pub proof fn search_stages_show_their_lists(stage: SearchStage<Vec<String>>)
    ensures
        stage matches SearchStage::Timing { found } ==> stage@ == (SearchStage::Timing {
            found: texts(found@),
        }),
        stage matches SearchStage::Receiving { found } ==> stage@ == (SearchStage::Receiving {
            found: texts(found@),
        }),
        stage matches SearchStage::Pausing { found } ==> stage@ == (SearchStage::Pausing {
            found: texts(found@),
        }),
        stage is Locating <==> stage@ is Locating,
        stage is Scanning <==> stage@ is Scanning,
        stage is Finished <==> stage@ is Finished,
        stage is Failed <==> stage@ is Failed,
{
}

/// What is seen of an event is all that came with it.
pub proof fn search_events_show_their_contents(
    event: SearchEvent<String, Vec<u8>, Vec<Option<String>>>,
)
    ensures
        event matches SearchEvent::TimePassed(nanos) ==> event@ is TimePassed
            && event@->TimePassed_0 == nanos,
        event matches SearchEvent::Datagram(bytes) ==> event@ is Datagram && event@->Datagram_0
            == bytes@,
        event matches SearchEvent::Subnet(Some(subnet)) ==> event@ is Subnet && event@->Subnet_0
            == Some(subnet@),
        event matches SearchEvent::Subnet(None) ==> event@ is Subnet && event@->Subnet_0 is None,
        event matches SearchEvent::Scanned(results) ==> event@ is Scanned
            && event@->Scanned_0.len() == results@.len() && forall|i: int|
            0 <= i < results@.len() ==> #[trigger] event@->Scanned_0[i] == optional_text(
                results@[i],
            ),
        event is Silence <==> event@ is Silence,
        event is Paused <==> event@ is Paused,
        event is ScanFailed <==> event@ is ScanFailed,
{
}

} // verus!
