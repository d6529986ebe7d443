use release_song::device::{description_url, get_device_info, get_speaker_uuid, group_uri, NoUuid};
use release_song::discovery::{
    announced_address, collect_scan, get_local_subnet, note_datagram, note_response, probe_result,
    scan_targets, SSDP_ADDR, SSDP_M_SEARCH,
};

#[test]
fn search_is_a_message_of_six_lines() {
    assert_eq!(SSDP_ADDR, "239.255.255.250:1900");
    assert_eq!(
        SSDP_M_SEARCH,
        "M-SEARCH * HTTP/1.1\r\n\
         HOST: 239.255.255.250:1900\r\n\
         MAN: \"ssdp:discover\"\r\n\
         MX: 3\r\n\
         ST: urn:schemas-upnp-org:device:ZonePlayer:1\r\n\r\n"
    );
}

#[test]
fn announcements_give_addresses() {
    let announce = |text: &str| announced_address(text);
    assert_eq!(
        announce("SERVER: Sonos/1\r\nLOCATION: http://192.168.1.20:1400/xml\r\n"),
        Some("192.168.1.20".to_string())
    );
    assert_eq!(
        announce("Sonos LOCATION: http://a LOCATION: http://1.2.3 LOCATION: http://01.2.3.4567"),
        Some("01.2.3.4567".to_string())
    );
    assert_eq!(
        announce("Sonos LOCATION: http://1.2.3.4.5"),
        Some("1.2.3.4".to_string())
    );
    assert_eq!(announce("LOCATION: http://192.168.1.20:1400/xml"), None);
    assert_eq!(announce("sonos LOCATION: http://1.2.3.4"), None);
    assert_eq!(announce("Sonos Location: http://1.2.3.4"), None);
    assert_eq!(announce("Sonos LOCATION: https://1.2.3.4"), None);
    assert_eq!(announce("Sonos LOCATION: http://1.2..4"), None);
    assert_eq!(announce(""), None);
}

#[test]
fn addresses_are_noted_once() {
    let mut found: Vec<String> = Vec::new();
    note_response(&mut found, "Sonos LOCATION: http://1.2.3.4:1400");
    note_response(&mut found, "Sonos LOCATION: http://5.6.7.8:1400");
    note_response(&mut found, "Sonos LOCATION: http://1.2.3.4:80");
    note_response(&mut found, "Other LOCATION: http://9.9.9.9");
    assert_eq!(found, vec!["1.2.3.4", "5.6.7.8"]);
}

#[test]
fn datagrams_need_not_be_utf8() {
    let mut found: Vec<String> = Vec::new();
    let mut datagram = b"\xff\xfe Sonos LOCATION: http://1.2.3.4".to_vec();
    datagram.push(0xc3);
    note_datagram(&mut found, &datagram);
    note_datagram(&mut found, b"So\xffnos LOCATION: http://5.6.7.8");
    assert_eq!(found, vec!["1.2.3.4"]);
}

#[test]
fn subnet_is_the_first_three_numbers() {
    assert_eq!(get_local_subnet(Some((10, 0, 255, 7))), "10.0.255");
    assert_eq!(get_local_subnet(None), "192.168.1");
}

#[test]
fn scans_ask_all_addresses_of_a_subnet() {
    let targets = scan_targets("10.0.0");
    assert_eq!(targets.len(), 254);
    assert_eq!(targets[0], "10.0.0.1");
    assert_eq!(targets[99], "10.0.0.100");
    assert_eq!(targets[253], "10.0.0.254");
    assert!(!targets.contains(&"10.0.0.0".to_string()));
    assert!(!targets.contains(&"10.0.0.255".to_string()));
    for i in 0..targets.len() {
        assert!(!targets[i + 1..].contains(&targets[i]));
    }
}

#[test]
fn probes_tell_sonos_devices() {
    let ip = || "10.0.0.9".to_string();
    assert_eq!(probe_result(ip(), 200, "<m>Sonos One</m>"), Some(ip()));
    assert_eq!(probe_result(ip(), 404, "<m>Sonos One</m>"), None);
    assert_eq!(probe_result(ip(), 200, "<m>SONOS One</m>"), None);
    assert_eq!(probe_result(ip(), 200, ""), None);
}

#[test]
fn scans_keep_the_order_of_results() {
    let results = vec![
        None,
        Some("10.0.0.7".to_string()),
        None,
        Some("10.0.0.3".to_string()),
    ];
    assert_eq!(collect_scan(&results), vec!["10.0.0.7", "10.0.0.3"]);
    assert_eq!(collect_scan(&vec![None, None]), Vec::<String>::new());
}

#[test]
fn descriptions_are_at_an_address() {
    assert_eq!(
        description_url("10.0.0.9"),
        "http://10.0.0.9:1400/xml/device_description.xml"
    );
}

#[test]
fn descriptions_name_room_and_model() {
    let text = "<roomName></roomName><roomName>Stue &amp;\nkøkken</roomName><roomName>B</roomName>\
                <displayName>One</displayName>";
    assert_eq!(
        get_device_info("10.0.0.9", text),
        "Stue &amp;\nkøkken (One) - 10.0.0.9"
    );
    assert_eq!(
        get_device_info("10.0.0.9", "<displayName>One</displayName>"),
        "Unknown (One) - 10.0.0.9"
    );
    assert_eq!(
        get_device_info("10.0.0.9", "<roomName>A<b></roomName>"),
        "Unknown (Unknown) - 10.0.0.9"
    );
}

#[test]
fn descriptions_identify_speakers() {
    assert_eq!(
        get_speaker_uuid("<UDN>uuid:RINCON_1</UDN><UDN>uuid:RINCON_2</UDN>"),
        Ok("RINCON_1".to_string())
    );
    assert_eq!(get_speaker_uuid("<UDN>RINCON_1</UDN>"), Err(NoUuid));
    assert_eq!(get_speaker_uuid("<UDN>uuid:</UDN>"), Err(NoUuid));
    assert_eq!(NoUuid.message(), "Failed to get speaker UUID");
    assert_eq!(group_uri("RINCON_1"), "x-rincon:RINCON_1");
}
