use release_song::listen_to_ci::DEFAULT_TRACK;
use release_song::soap::{
    judge_reply, lines_of_refusal, play, refusal_lines, set_av_transport_uri, stop_playback,
    succeeded, Action, SoapError, SoapRequest,
};

const HEAD: &str = "<?xml version=\"1.0\" encoding=\"UTF-8\"?><s:Envelope xmlns:s=\"http://schemas.xmlsoap.org/soap/envelope/\" s:encodingStyle=\"http://schemas.xmlsoap.org/soap/encoding/\"><s:Body>";
const TAIL: &str = "</s:Body></s:Envelope>";
const NAMESPACE: &str = "xmlns:u=\"urn:schemas-upnp-org:service:AVTransport:1\"";

fn set_uri_body(escaped: &str) -> String {
    format!(
        "{HEAD}<u:SetAVTransportURI {NAMESPACE}><InstanceID>0</InstanceID><CurrentURI>{escaped}</CurrentURI><CurrentURIMetaData></CurrentURIMetaData></u:SetAVTransportURI>{TAIL}"
    )
}

fn check_headers(request: &SoapRequest, ip: &str, action: &str) {
    assert_eq!(
        request.url,
        format!("http://{ip}:1400/MediaRenderer/AVTransport/Control")
    );
    assert_eq!(request.content_type, "text/xml; charset=\"utf-8\"");
    assert_eq!(
        request.soap_action,
        format!("\"urn:schemas-upnp-org:service:AVTransport:1#{action}\"")
    );
}

#[test]
fn track_is_set_by_a_request() {
    let request = set_av_transport_uri("192.168.1.20", DEFAULT_TRACK).unwrap();
    check_headers(&request, "192.168.1.20", "SetAVTransportURI");
    assert_eq!(
        request.body,
        set_uri_body(
            "x-sonos-spotify:spotify:track:4LiJE6pqgsTX3FtukW6bNh?sid=9&amp;flags=8224&amp;sn=7"
        )
    );
}

#[test]
fn markup_in_a_track_is_escaped() {
    let request = set_av_transport_uri("10.0.0.2", "</CurrentURI><a b='c'>\"d\"&lt;æ\n").unwrap();
    assert_eq!(
        request.body,
        set_uri_body("&lt;/CurrentURI&gt;&lt;a b='c'&gt;\"d\"&amp;lt;æ\n")
    );
}

#[test]
fn empty_track_is_an_empty_element() {
    let request = set_av_transport_uri("10.0.0.2", "").unwrap();
    assert_eq!(request.body, set_uri_body(""));
}

#[test]
fn requests_for_different_tracks_differ() {
    let plain = set_av_transport_uri("10.0.0.2", "a&b").unwrap();
    let escaped = set_av_transport_uri("10.0.0.2", "a&amp;b").unwrap();
    assert_ne!(plain.body, escaped.body);
}

#[test]
fn speaker_is_started_by_a_request() {
    let request = play("10.0.0.2").unwrap();
    check_headers(&request, "10.0.0.2", "Play");
    assert_eq!(
        request.body,
        format!("{HEAD}<u:Play {NAMESPACE}><InstanceID>0</InstanceID><Speed>1</Speed></u:Play>{TAIL}")
    );
}

#[test]
fn speaker_is_stopped_by_a_request() {
    let request = stop_playback("10.0.0.3").unwrap();
    check_headers(&request, "10.0.0.3", "Stop");
    assert_eq!(
        request.body,
        format!("{HEAD}<u:Stop {NAMESPACE}><InstanceID>0</InstanceID></u:Stop>{TAIL}")
    );
}

#[test]
fn actions_are_header_values() {
    for request in [
        set_av_transport_uri("10.0.0.2", "x").unwrap(),
        play("10.0.0.2").unwrap(),
        stop_playback("10.0.0.2").unwrap(),
    ] {
        assert!(reqwest::header::HeaderValue::from_str(&request.soap_action).is_ok());
        assert!(reqwest::header::HeaderValue::from_str(&request.content_type).is_ok());
    }
}

#[test]
fn replies_are_judged_by_status() {
    assert!(!succeeded(199));
    assert!(succeeded(200));
    assert!(succeeded(299));
    assert!(!succeeded(300));
    assert_eq!(judge_reply(Action::Play, 200), Ok(()));
    assert_eq!(
        judge_reply(Action::Play, 500),
        Err(SoapError::Refused(Action::Play))
    );
    for status in 100..1000u16 {
        let code = reqwest::StatusCode::from_u16(status).unwrap();
        assert_eq!(succeeded(status), code.is_success());
    }
}

#[test]
fn errors_have_messages() {
    assert_eq!(
        SoapError::Refused(Action::SetUri).message(),
        "Failed to set track URI"
    );
    assert_eq!(SoapError::Refused(Action::Play).message(), "Failed to play");
    assert_eq!(
        SoapError::Refused(Action::Stop).message(),
        "Failed to stop playback"
    );
    assert_eq!(
        SoapError::InvalidHeader.message(),
        reqwest::header::HeaderValue::from_str("\n")
            .unwrap_err()
            .to_string()
    );
}

#[test]
fn refusals_are_told_in_two_lines() {
    assert_eq!(
        refusal_lines(Action::SetUri, 500, "oops"),
        vec![
            "Error setting track URI. Status: 500 Internal Server Error",
            "Response: oops"
        ]
    );
    assert_eq!(
        refusal_lines(Action::Play, 404, ""),
        vec!["Error playing track. Status: 404 Not Found", "Response: "]
    );
    assert_eq!(
        refusal_lines(Action::Stop, 999, "x"),
        vec![
            "Error stopping playback. Status: 999 <unknown status code>",
            "Response: x"
        ]
    );
    assert_eq!(
        lines_of_refusal(Action::Stop, "503 Service Unavailable", "x"),
        refusal_lines(Action::Stop, 503, "x")
    );
}
