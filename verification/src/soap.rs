//! The SOAP requests that control a speaker.

use vstd::prelude::*;
use vstd::utf8::{encode_utf8_decode_utf8, encode_utf8_valid_utf8};
use xml::writer::EventWriter;
use crate::step::two_lines;
use crate::text::{from_utf8, texts};
use crate::xml_text::{
    attribute_text, attributes_text, content_holds_no_tags, content_is_read_back, escaped_content,
    escaped_value, into_bytes, lead, new_writer, plain_content_stays, plain_values_stay, tagged,
    unended, unescaped_content, write_characters, write_end, write_start, written, Attribute,
    DECLARATION,
};

verus! {

/// An argument of a SOAP action.
pub struct Argument<'a> {
    pub name: &'a str,
    pub value: &'a str,
}

/// An element with its content.
pub open spec fn element(name: Seq<char>, attributes: Seq<char>, content: Seq<char>) -> Seq<char> {
    "<"@ + name + attributes + ">"@ + content + "</"@ + name + ">"@
}

/// The arguments of an action in order, an element each.
pub open spec fn arguments_text(arguments: Seq<Argument>) -> Seq<char>
    decreases arguments.len(),
{
    if arguments.len() == 0 {
        Seq::empty()
    } else {
        arguments_text(arguments.drop_last()) + argument_text(
            arguments.last().name@,
            arguments.last().value@,
        )
    }
}

/// An argument as an element.
pub open spec fn argument_text(name: Seq<char>, value: Seq<char>) -> Seq<char> {
    element(name, Seq::empty(), escaped_content(value))
}

/// The namespace of a service.
pub open spec fn service_namespace(service: Seq<char>) -> Seq<char> {
    "urn:schemas-upnp-org:service:"@ + service + ":1"@
}

/// The envelope of the call of `action` with `content` as its arguments.
pub open spec fn envelope_text(
    service: Seq<char>,
    action: Seq<char>,
    content: Seq<char>,
) -> Seq<char> {
    let call = element(
        "u:"@ + action,
        attribute_text("xmlns:u"@, service_namespace(service)),
        content,
    );
    let body = element("s:Body"@, Seq::empty(), call);
    DECLARATION@ + element(
        "s:Envelope"@,
        attribute_text("xmlns:s"@, "http://schemas.xmlsoap.org/soap/envelope/"@) + attribute_text(
            "s:encodingStyle"@,
            "http://schemas.xmlsoap.org/soap/encoding/"@,
        ),
        body,
    )
}

fn write_argument(writer: &mut EventWriter<Vec<u8>>, argument: &Argument)
    requires
        written(*old(writer)).len() > 0,
    ensures
        written(*final(writer)) == written(*old(writer)) + lead(
            written(*old(writer)),
            unended(*old(writer)),
        ) + argument_text(argument.name@, argument.value@),
        unended(*final(writer)) == tagged(unended(*old(writer))),
{
    let ghost before = written(*writer);
    let ghost open = unended(*writer);
    let none: Vec<Attribute> = Vec::new();
    write_start(writer, argument.name, &none).unwrap();
    write_characters(writer, argument.value).unwrap();
    write_end(writer).unwrap();
    proof {
        assert(unended(*writer) =~= tagged(open));
        assert(written(*writer) =~= before + lead(before, open) + argument_text(
            argument.name@,
            argument.value@,
        ));
    }
}

fn write_arguments(writer: &mut EventWriter<Vec<u8>>, arguments: &Vec<Argument>)
    requires
        written(*old(writer)).len() > 0,
        arguments@.len() > 0,
    ensures
        written(*final(writer)) == written(*old(writer)) + lead(
            written(*old(writer)),
            unended(*old(writer)),
        ) + arguments_text(arguments@),
        unended(*final(writer)) == tagged(unended(*old(writer))),
{
    let ghost before = written(*writer);
    let ghost open = unended(*writer);
    let ghost start = before + lead(before, open);
    for i in 0..arguments.len()
        invariant
            before.len() > 0,
            start == before + lead(before, open),
            i == 0 ==> written(*writer) == before && unended(*writer) == open,
            i > 0 ==> written(*writer) == start + arguments_text(arguments@.take(i as int)),
            i > 0 ==> unended(*writer) == tagged(open),
    {
        let ghost text = written(*writer);
        write_argument(writer, &arguments[i]);
        proof {
            let done = arguments@.take(i + 1);
            assert(done.drop_last() =~= arguments@.take(i as int));
            assert(done.last() == arguments@[i as int]);
            assert(tagged(tagged(open)) =~= tagged(open));
            if i == 0 {
                assert(arguments_text(done.drop_last()) =~= Seq::empty());
            } else {
                assert(lead(text, tagged(open)) =~= Seq::empty());
            }
            assert(written(*writer) =~= start + arguments_text(done));
        }
    }
    proof {
        assert(arguments@.take(arguments@.len() as int) =~= arguments@);
    }
}

/// A start tag, content and an end tag behind `prefix` are an element behind it.
proof fn lemma_element(
    prefix: Seq<char>,
    name: Seq<char>,
    attributes: Seq<char>,
    content: Seq<char>,
)
    ensures
        prefix + "<"@ + name + attributes + ">"@ + content + ("</"@ + name + ">"@) == prefix
            + element(name, attributes, content),
{
    assert(prefix + "<"@ + name + attributes + ">"@ + content + ("</"@ + name + ">"@) =~= prefix
        + element(name, attributes, content));
}

/// Writes the envelope of the call of `action` with `arguments`.
fn envelope(service: &str, action: &str, arguments: &Vec<Argument>) -> (r: String)
    requires
        arguments@.len() > 0,
    ensures
        r@ == envelope_text(service@, action@, arguments_text(arguments@)),
{
    let mut writer = new_writer();
    let mut attributes: Vec<Attribute> = Vec::new();
    attributes.push(
        Attribute { name: "xmlns:s", value: "http://schemas.xmlsoap.org/soap/envelope/" },
    );
    attributes.push(
        Attribute { name: "s:encodingStyle", value: "http://schemas.xmlsoap.org/soap/encoding/" },
    );
    write_start(&mut writer, "s:Envelope", &attributes).unwrap();
    let ghost envelope_attributes = attributes_text(attributes@);
    let ghost head = written(writer);
    proof {
        lemma_two_attributes(attributes@);
        reveal_strlit("<");
        assert(Seq::<char>::empty() + DECLARATION@ =~= DECLARATION@);
        assert(head == DECLARATION@ + "<"@ + "s:Envelope"@ + envelope_attributes);
        assert(unended(writer) =~= seq![("s:Envelope"@, true)]);
    }
    let none: Vec<Attribute> = Vec::new();
    write_start(&mut writer, "s:Body", &none).unwrap();
    let ghost body_head = written(writer);
    proof {
        assert(body_head == head + ">"@ + "<"@ + "s:Body"@ + Seq::empty());
        assert(unended(writer) =~= seq![("s:Envelope"@, false), ("s:Body"@, true)]);
    }
    let action_name = String::from_str("u:").concat(action);
    let namespace = String::from_str("urn:schemas-upnp-org:service:").concat(service).concat(":1");
    let mut call_attributes: Vec<Attribute> = Vec::new();
    call_attributes.push(Attribute { name: "xmlns:u", value: namespace.as_str() });
    write_start(&mut writer, action_name.as_str(), &call_attributes).unwrap();
    let ghost call_attribute = attributes_text(call_attributes@);
    proof {
        lemma_one_attribute(call_attributes@);
        assert(written(writer) == body_head + ">"@ + "<"@ + action_name@ + call_attribute);
        assert(unended(writer) =~= seq![
            ("s:Envelope"@, false),
            ("s:Body"@, false),
            (action_name@, true),
        ]);
    }
    write_arguments(&mut writer, arguments);
    let ghost content = arguments_text(arguments@);
    let ghost call = element(action_name@, call_attribute, content);
    let ghost body = element("s:Body"@, Seq::empty(), call);
    proof {
        assert(unended(writer) =~= seq![
            ("s:Envelope"@, false),
            ("s:Body"@, false),
            (action_name@, false),
        ]);
    }
    write_end(&mut writer).unwrap();
    proof {
        lemma_element(body_head + ">"@, action_name@, call_attribute, content);
        assert(written(writer) == body_head + ">"@ + call);
        assert(unended(writer) =~= seq![("s:Envelope"@, false), ("s:Body"@, false)]);
    }
    write_end(&mut writer).unwrap();
    proof {
        lemma_element(head + ">"@, "s:Body"@, Seq::empty(), call);
        assert(written(writer) == head + ">"@ + body);
        assert(unended(writer) =~= seq![("s:Envelope"@, false)]);
    }
    write_end(&mut writer).unwrap();
    proof {
        lemma_element(DECLARATION@, "s:Envelope"@, envelope_attributes, body);
        assert(written(writer) == envelope_text(service@, action@, content));
        encode_utf8_valid_utf8(written(writer));
        encode_utf8_decode_utf8(written(writer));
    }
    from_utf8(into_bytes(writer)).unwrap()
}

proof fn lemma_one_attribute(attributes: Seq<Attribute>)
    requires
        attributes.len() == 1,
    ensures
        attributes_text(attributes) == attribute_text(attributes[0].name@, attributes[0].value@),
{
    reveal_with_fuel(attributes_text, 2);
    assert(attributes_text(attributes) =~= attribute_text(
        attributes[0].name@,
        attributes[0].value@,
    ));
}

proof fn lemma_two_attributes(attributes: Seq<Attribute>)
    requires
        attributes.len() == 2,
    ensures
        attributes_text(attributes) == attribute_text(attributes[0].name@, attributes[0].value@)
            + attribute_text(attributes[1].name@, attributes[1].value@),
{
    lemma_one_attribute(attributes.drop_last());
}

/// The service that plays music.
pub const SERVICE: &'static str = "AVTransport";

/// The type of the content of a request.
pub const CONTENT_TYPE: &'static str = "text/xml; charset=\"utf-8\"";

/// What a speaker can be asked to do.
#[derive(Clone, Copy, Debug, PartialEq, Eq, Structural)]
pub enum Action {
    SetUri,
    Play,
    Stop,
}

/// The name of an action in a request.
pub open spec fn action_name(action: Action) -> Seq<char> {
    match action {
        Action::SetUri => "SetAVTransportURI"@,
        Action::Play => "Play"@,
        Action::Stop => "Stop"@,
    }
}

/// A request to a speaker, to be posted to `url` with the two headers.
pub struct SoapRequest {
    pub url: String,
    pub content_type: String,
    pub soap_action: String,
    pub body: String,
}

/// Why a speaker was not brought to do what it should.
#[derive(Clone, Copy, Debug, PartialEq, Eq, Structural)]
pub enum SoapError {
    /// The name of the action cannot be a header.
    InvalidHeader,
    /// The speaker answered that the action failed.
    Refused(Action),
}

/// The address to which the requests for a speaker go.
pub open spec fn control_url(ip: Seq<char>) -> Seq<char> {
    "http://"@ + ip + ":1400/MediaRenderer/AVTransport/Control"@
}

/// The header that names an action.
pub open spec fn soap_action_text(action: Action) -> Seq<char> {
    "\""@ + service_namespace(SERVICE@) + "#"@ + action_name(action) + "\""@
}

/// Whether `request` asks the speaker at `ip` for `action` with `content` as the
/// arguments.
pub open spec fn asks(
    request: SoapRequest,
    ip: Seq<char>,
    action: Action,
    content: Seq<char>,
) -> bool {
    &&& request.url@ == control_url(ip)
    &&& request.content_type@ == CONTENT_TYPE@
    &&& request.soap_action@ == soap_action_text(action)
    &&& request.body@ == envelope_text(SERVICE@, action_name(action), content)
}

/// The arguments that set the track of a speaker.
pub open spec fn set_uri_content(track_uri: Seq<char>) -> Seq<char> {
    argument_text("InstanceID"@, "0"@) + argument_text("CurrentURI"@, track_uri) + argument_text(
        "CurrentURIMetaData"@,
        ""@,
    )
}

/// The arguments that start a speaker.
pub open spec fn play_content() -> Seq<char> {
    argument_text("InstanceID"@, "0"@) + argument_text("Speed"@, "1"@)
}

/// The arguments that stop a speaker.
pub open spec fn stop_content() -> Seq<char> {
    argument_text("InstanceID"@, "0"@)
}

/// Whether a header may hold the character.
pub open spec fn header_char(c: char) -> bool {
    c == '\t' || (c as u32 >= 32 && c as u32 != 127)
}

/// Whether a header may hold the text.
pub open spec fn header_text(text: Seq<char>) -> bool {
    forall|i: int| 0 <= i < text.len() ==> header_char(#[trigger] text[i])
}

/// Calls `reqwest::header::HeaderValue::from_str`: it accepts a text unless that
/// holds a control character other than the tab.
#[verifier::external_body]
fn is_header_value(text: &str) -> (r: bool)
    ensures
        r == header_text(text@),
{
    reqwest::header::HeaderValue::from_str(text).is_ok()
}

proof fn lemma_header_concat(first: Seq<char>, second: Seq<char>)
    requires
        header_text(first),
        header_text(second),
    ensures
        header_text(first + second),
{
}

/// Every action can be named in a header.
pub proof fn actions_fit_headers(action: Action)
    ensures
        header_text(soap_action_text(action)),
{
    reveal_strlit("\"");
    reveal_strlit("urn:schemas-upnp-org:service:");
    reveal_strlit("AVTransport");
    reveal_strlit(":1");
    reveal_strlit("#");
    reveal_strlit("SetAVTransportURI");
    reveal_strlit("Play");
    reveal_strlit("Stop");
    let prefix = "urn:schemas-upnp-org:service:"@;
    lemma_header_concat(prefix, SERVICE@);
    lemma_header_concat(prefix + SERVICE@, ":1"@);
    lemma_header_concat("\""@, service_namespace(SERVICE@));
    lemma_header_concat("\""@ + service_namespace(SERVICE@), "#"@);
    lemma_header_concat("\""@ + service_namespace(SERVICE@) + "#"@, action_name(action));
    lemma_header_concat(
        "\""@ + service_namespace(SERVICE@) + "#"@ + action_name(action),
        "\""@,
    );
}

impl Action {
    /// The name of the action in a request.
    pub fn name(self) -> (r: &'static str)
        ensures
            r@ == action_name(self),
    {
        match self {
            Action::SetUri => "SetAVTransportURI",
            Action::Play => "Play",
            Action::Stop => "Stop",
        }
    }
}

fn request(ip: &str, action: Action, arguments: &Vec<Argument>) -> (r: Result<
    SoapRequest,
    SoapError,
>)
    requires
        arguments@.len() > 0,
    ensures
        r is Ok,
        asks(r->Ok_0, ip@, action, arguments_text(arguments@)),
{
    let body = envelope(SERVICE, action.name(), arguments);
    let url = String::from_str("http://").concat(ip).concat(
        ":1400/MediaRenderer/AVTransport/Control",
    );
    let namespace = String::from_str("urn:schemas-upnp-org:service:").concat(SERVICE).concat(":1");
    let soap_action = String::from_str("\"").concat(namespace.as_str()).concat("#").concat(
        action.name(),
    ).concat("\"");
    proof {
        actions_fit_headers(action);
    }
    if !is_header_value(soap_action.as_str()) {
        return Err(SoapError::InvalidHeader);
    }
    Ok(SoapRequest { url, content_type: String::from_str(CONTENT_TYPE), soap_action, body })
}

/// The request that sets the track of the speaker at `ip`.
pub fn set_av_transport_uri(ip: &str, track_uri: &str) -> (r: Result<SoapRequest, SoapError>)
    ensures
        r is Ok,
        asks(r->Ok_0, ip@, Action::SetUri, set_uri_content(track_uri@)),
        r->Ok_0.url@ == "http://"@ + ip@ + ":1400/MediaRenderer/AVTransport/Control"@,
        r->Ok_0.content_type@ == "text/xml; charset=\"utf-8\""@,
        r->Ok_0.soap_action@ == "\""@ + "urn:schemas-upnp-org:service:"@ + "AVTransport"@ + ":1"@
            + "#"@ + "SetAVTransportURI"@ + "\""@,
{
    let mut arguments: Vec<Argument> = Vec::new();
    arguments.push(Argument { name: "InstanceID", value: "0" });
    arguments.push(Argument { name: "CurrentURI", value: track_uri });
    arguments.push(Argument { name: "CurrentURIMetaData", value: "" });
    proof {
        lemma_two_arguments(arguments@.drop_last());
        headers_are_written_out(Action::SetUri);
    }
    request(ip, Action::SetUri, &arguments)
}

/// The request that starts the speaker at `ip`.
pub fn play(ip: &str) -> (r: Result<SoapRequest, SoapError>)
    ensures
        r is Ok,
        asks(r->Ok_0, ip@, Action::Play, play_content()),
        r->Ok_0.url@ == "http://"@ + ip@ + ":1400/MediaRenderer/AVTransport/Control"@,
        r->Ok_0.content_type@ == "text/xml; charset=\"utf-8\""@,
        r->Ok_0.soap_action@ == "\""@ + "urn:schemas-upnp-org:service:"@ + "AVTransport"@ + ":1"@
            + "#"@ + "Play"@ + "\""@,
{
    let mut arguments: Vec<Argument> = Vec::new();
    arguments.push(Argument { name: "InstanceID", value: "0" });
    arguments.push(Argument { name: "Speed", value: "1" });
    proof {
        lemma_two_arguments(arguments@);
        headers_are_written_out(Action::Play);
    }
    request(ip, Action::Play, &arguments)
}

/// The request that stops the speaker at `ip`.
pub fn stop_playback(ip: &str) -> (r: Result<SoapRequest, SoapError>)
    ensures
        r is Ok,
        asks(r->Ok_0, ip@, Action::Stop, stop_content()),
        r->Ok_0.url@ == "http://"@ + ip@ + ":1400/MediaRenderer/AVTransport/Control"@,
        r->Ok_0.content_type@ == "text/xml; charset=\"utf-8\""@,
        r->Ok_0.soap_action@ == "\""@ + "urn:schemas-upnp-org:service:"@ + "AVTransport"@ + ":1"@
            + "#"@ + "Stop"@ + "\""@,
{
    let mut arguments: Vec<Argument> = Vec::new();
    arguments.push(Argument { name: "InstanceID", value: "0" });
    proof {
        lemma_one_argument(arguments@);
        headers_are_written_out(Action::Stop);
    }
    request(ip, Action::Stop, &arguments)
}

proof fn lemma_one_argument(arguments: Seq<Argument>)
    requires
        arguments.len() == 1,
    ensures
        arguments_text(arguments) == argument_text(arguments[0].name@, arguments[0].value@),
{
    reveal_with_fuel(arguments_text, 2);
    assert(arguments_text(arguments) =~= argument_text(arguments[0].name@, arguments[0].value@));
}

proof fn lemma_two_arguments(arguments: Seq<Argument>)
    requires
        arguments.len() == 2,
    ensures
        arguments_text(arguments) == argument_text(arguments[0].name@, arguments[0].value@)
            + argument_text(arguments[1].name@, arguments[1].value@),
{
    lemma_one_argument(arguments.drop_last());
}

/// Whether the status of a reply says that the request succeeded.
pub open spec fn is_success(status: u16) -> bool {
    200 <= status < 300
}

/// Judges by the status of a reply whether the request succeeded.
pub fn succeeded(status: u16) -> (r: bool)
    ensures
        r == is_success(status),
        r <==> 200 <= status <= 299,
{
    200 <= status && status < 300
}

/// Judges the reply to a request by its status.
pub fn judge_reply(action: Action, status: u16) -> (r: Result<(), SoapError>)
    ensures
        r is Ok <==> is_success(status),
        r is Ok <==> 200 <= status <= 299,
        r is Err ==> r->Err_0 == SoapError::Refused(action),
{
    if succeeded(status) {
        Ok(())
    } else {
        Err(SoapError::Refused(action))
    }
}

/// What is said of a speaker that refused an action, up to its status.
pub open spec fn refused_text(action: Action) -> Seq<char> {
    match action {
        Action::SetUri => "Error setting track URI. Status: "@,
        Action::Play => "Error playing track. Status: "@,
        Action::Stop => "Error stopping playback. Status: "@,
    }
}

/// Whether a reply can have the status.
pub open spec fn is_status(status: u16) -> bool {
    100 <= status < 1000
}

/// How a status reads: its number and what it stands for.
pub uninterp spec fn status_text(status: u16) -> Seq<char>;

/// Calls `reqwest::StatusCode::from_u16`, which accepts the numbers of three
/// digits, and `reqwest::StatusCode::to_string`. The text depends on the number
/// alone; what it says of which number is left unsaid.
#[verifier::external_body]
fn status_display(status: u16) -> (r: String)
    requires
        is_status(status),
    ensures
        r@ == status_text(status),
{
    reqwest::StatusCode::from_u16(status).unwrap().to_string()
}

/// The lines that tell of a speaker that refused an action with a status that
/// reads `status`.
pub open spec fn refusal_texts(action: Action, status: Seq<char>, reply: Seq<char>) -> Seq<
    Seq<char>,
> {
    seq![refused_text(action) + status, "Response: "@ + reply]
}

/// Writes the lines that tell of a speaker that refused an action, from the way
/// its status reads and from its reply.
pub fn lines_of_refusal(action: Action, status: &str, reply: &str) -> (r: Vec<String>)
    ensures
        texts(r@) == refusal_texts(action, status@, reply@),
        texts(r@) == seq![
            (match action {
                Action::SetUri => "Error setting track URI. Status: "@,
                Action::Play => "Error playing track. Status: "@,
                Action::Stop => "Error stopping playback. Status: "@,
            }) + status@,
            "Response: "@ + reply@,
        ],
{
    let prefix = match action {
        Action::SetUri => "Error setting track URI. Status: ",
        Action::Play => "Error playing track. Status: ",
        Action::Stop => "Error stopping playback. Status: ",
    };
    two_lines(
        String::from_str(prefix).concat(status),
        String::from_str("Response: ").concat(reply),
    )
}

/// Writes the lines that tell of a speaker that refused an action: its status and
/// its reply.
pub fn refusal_lines(action: Action, status: u16, reply: &str) -> (r: Vec<String>)
    requires
        is_status(status),
    ensures
        texts(r@) == refusal_texts(action, status_text(status), reply@),
        texts(r@) == seq![
            (match action {
                Action::SetUri => "Error setting track URI. Status: "@,
                Action::Play => "Error playing track. Status: "@,
                Action::Stop => "Error stopping playback. Status: "@,
            }) + status_text(status),
            "Response: "@ + reply@,
        ],
{
    lines_of_refusal(action, status_display(status).as_str(), reply)
}

impl SoapError {
    /// What the error says.
    pub open spec fn text(self) -> Seq<char> {
        match self {
            SoapError::InvalidHeader => "failed to parse header value"@,
            SoapError::Refused(Action::SetUri) => "Failed to set track URI"@,
            SoapError::Refused(Action::Play) => "Failed to play"@,
            SoapError::Refused(Action::Stop) => "Failed to stop playback"@,
        }
    }

    /// Writes what the error says.
    pub fn message(self) -> (r: String)
        ensures
            r@ == self.text(),
            self == SoapError::Refused(Action::SetUri) ==> r@ == "Failed to set track URI"@,
            self == SoapError::Refused(Action::Play) ==> r@ == "Failed to play"@,
            self == SoapError::Refused(Action::Stop) ==> r@ == "Failed to stop playback"@,
            self == SoapError::InvalidHeader ==> r@ == "failed to parse header value"@,
    {
        match self {
            SoapError::InvalidHeader => String::from_str("failed to parse header value"),
            SoapError::Refused(Action::SetUri) => String::from_str("Failed to set track URI"),
            SoapError::Refused(Action::Play) => String::from_str("Failed to play"),
            SoapError::Refused(Action::Stop) => String::from_str("Failed to stop playback"),
        }
    }
}

proof fn lemma_same_middle(
    before: Seq<char>,
    first: Seq<char>,
    second: Seq<char>,
    after: Seq<char>,
)
    requires
        before + first + after == before + second + after,
    ensures
        first == second,
{
    let whole = before + first + after;
    assert(whole.len() == (before + second + after).len());
    assert(first =~= whole.subrange(before.len() as int, (before.len() + first.len()) as int));
    assert(second =~= whole.subrange(before.len() as int, (before.len() + second.len()) as int));
}

proof fn lemma_same_element(
    name: Seq<char>,
    attributes: Seq<char>,
    first: Seq<char>,
    second: Seq<char>,
)
    requires
        element(name, attributes, first) == element(name, attributes, second),
    ensures
        first == second,
{
    let before = "<"@ + name + attributes + ">"@;
    let after = "</"@ + name + ">"@;
    assert(element(name, attributes, first) =~= before + first + after);
    assert(element(name, attributes, second) =~= before + second + after);
    lemma_same_middle(before, first, second, after);
}

/// Requests that call an action with different arguments differ.
pub proof fn envelopes_tell_arguments_apart(
    service: Seq<char>,
    action: Seq<char>,
    first: Seq<char>,
    second: Seq<char>,
)
    requires
        envelope_text(service, action, first) == envelope_text(service, action, second),
    ensures
        first == second,
{
    let name = "u:"@ + action;
    let attribute = attribute_text("xmlns:u"@, service_namespace(service));
    let call1 = element(name, attribute, first);
    let call2 = element(name, attribute, second);
    let body1 = element("s:Body"@, Seq::empty(), call1);
    let body2 = element("s:Body"@, Seq::empty(), call2);
    let attributes = attribute_text("xmlns:s"@, "http://schemas.xmlsoap.org/soap/envelope/"@)
        + attribute_text("s:encodingStyle"@, "http://schemas.xmlsoap.org/soap/encoding/"@);
    let envelope1 = element("s:Envelope"@, attributes, body1);
    let envelope2 = element("s:Envelope"@, attributes, body2);
    assert(DECLARATION@ + envelope1 =~= DECLARATION@ + envelope1 + Seq::empty());
    assert(DECLARATION@ + envelope2 =~= DECLARATION@ + envelope2 + Seq::empty());
    lemma_same_middle(DECLARATION@, envelope1, envelope2, Seq::empty());
    lemma_same_element("s:Envelope"@, attributes, body1, body2);
    lemma_same_element("s:Body"@, Seq::empty(), call1, call2);
    lemma_same_element(name, attribute, first, second);
}

/// A speaker can tell any two tracks apart by the requests that set them.
pub proof fn requests_tell_tracks_apart(
    ip: Seq<char>,
    first: SoapRequest,
    first_uri: Seq<char>,
    second: SoapRequest,
    second_uri: Seq<char>,
)
    requires
        asks(first, ip, Action::SetUri, set_uri_content(first_uri)),
        asks(second, ip, Action::SetUri, set_uri_content(second_uri)),
        first.body@ == second.body@,
    ensures
        first_uri == second_uri,
{
    envelopes_tell_arguments_apart(
        SERVICE@,
        action_name(Action::SetUri),
        set_uri_content(first_uri),
        set_uri_content(second_uri),
    );
    let before = argument_text("InstanceID"@, "0"@);
    let after = argument_text("CurrentURIMetaData"@, ""@);
    lemma_same_middle(
        before,
        argument_text("CurrentURI"@, first_uri),
        argument_text("CurrentURI"@, second_uri),
        after,
    );
    lemma_same_element(
        "CurrentURI"@,
        Seq::empty(),
        escaped_content(first_uri),
        escaped_content(second_uri),
    );
    content_is_read_back(first_uri);
    content_is_read_back(second_uri);
}

/// The header that names an action holds the service and the name of that action.
pub proof fn headers_are_written_out(action: Action)
    ensures
        soap_action_text(action) == "\""@ + "urn:schemas-upnp-org:service:"@ + "AVTransport"@
            + ":1"@ + "#"@ + (match action {
            Action::SetUri => "SetAVTransportURI"@,
            Action::Play => "Play"@,
            Action::Stop => "Stop"@,
        }) + "\""@,
{
    assert(soap_action_text(action) =~= "\""@ + "urn:schemas-upnp-org:service:"@ + SERVICE@ + ":1"@
        + "#"@ + action_name(action) + "\""@);
}

/// The requests to speakers at different addresses go to different places, and that
/// place is made of the address alone.
pub proof fn control_urls_tell_speakers_apart(first: Seq<char>, second: Seq<char>)
    ensures
        control_url(first) == control_url(second) <==> first == second,
        control_url(first) == "http://"@ + first + ":1400/MediaRenderer/AVTransport/Control"@,
{
    if control_url(first) == control_url(second) {
        lemma_same_middle(
            "http://"@,
            first,
            second,
            ":1400/MediaRenderer/AVTransport/Control"@,
        );
    }
}

/// A request that asks a speaker for an action goes to that speaker and no other,
/// names the action and no other, and carries all the arguments.
pub proof fn requests_tell_what_they_ask(
    first: SoapRequest,
    ip: Seq<char>,
    action: Action,
    content: Seq<char>,
    second: SoapRequest,
    other_ip: Seq<char>,
    other_action: Action,
    other_content: Seq<char>,
)
    requires
        asks(first, ip, action, content),
        asks(second, other_ip, other_action, other_content),
    ensures
        first.url@ == second.url@ <==> ip == other_ip,
        first.soap_action@ == second.soap_action@ <==> action == other_action,
        action == other_action ==> (first.body@ == second.body@ <==> content == other_content),
        first.content_type@ == second.content_type@,
{
    control_urls_tell_speakers_apart(ip, other_ip);
    if action == other_action && first.body@ == second.body@ {
        envelopes_tell_arguments_apart(
            SERVICE@,
            action_name(action),
            content,
            other_content,
        );
    }
    if first.soap_action@ == second.soap_action@ {
        let before = "\""@ + service_namespace(SERVICE@) + "#"@;
        assert(soap_action_text(action) =~= before + action_name(action) + "\""@);
        assert(soap_action_text(other_action) =~= before + action_name(other_action) + "\""@);
        lemma_same_middle(before, action_name(action), action_name(other_action), "\""@);
        reveal_strlit("SetAVTransportURI");
        reveal_strlit("Play");
        reveal_strlit("Stop");
        assert("Play"@[0] == 'P');
        assert("Stop"@[0] == 'S');
    }
}

/// An element is its start tag, its content and its end tag.
proof fn lemma_tags(name: Seq<char>, attributes: Seq<char>, content: Seq<char>)
    ensures
        element(name, attributes, content) == ("<"@ + name + attributes + ">"@) + content + ("</"@
            + name + ">"@),
{
    assert(element(name, attributes, content) =~= ("<"@ + name + attributes + ">"@) + content + (
    "</"@ + name + ">"@));
}

proof fn lemma_flat(
    start: Seq<char>,
    open1: Seq<char>,
    open2: Seq<char>,
    open3: Seq<char>,
    content: Seq<char>,
    close3: Seq<char>,
    close2: Seq<char>,
    close1: Seq<char>,
)
    ensures
        start + (open1 + (open2 + (open3 + content + close3) + close2) + close1) == start + open1
            + open2 + open3 + content + close3 + close2 + close1,
{
    let call = open3 + content + close3;
    let body = open2 + call + close2;
    assert(start + (open1 + body + close1) =~= start + open1 + body + close1);
    assert(start + open1 + body =~= start + open1 + open2 + call + close2);
    assert(start + open1 + open2 + call =~= start + open1 + open2 + open3 + content + close3);
}

/// An envelope is flat text: the declaration, three start tags, the arguments and
/// three end tags.
proof fn lemma_flat_envelope(service: Seq<char>, action: Seq<char>, content: Seq<char>)
    ensures
        envelope_text(service, action, content) == DECLARATION@ + ("<"@ + "s:Envelope"@ + (
        attribute_text("xmlns:s"@, "http://schemas.xmlsoap.org/soap/envelope/"@) + attribute_text(
            "s:encodingStyle"@,
            "http://schemas.xmlsoap.org/soap/encoding/"@,
        )) + ">"@) + ("<"@ + "s:Body"@ + Seq::empty() + ">"@) + ("<"@ + ("u:"@ + action)
            + attribute_text("xmlns:u"@, service_namespace(service)) + ">"@) + content + ("</"@ + (
        "u:"@ + action) + ">"@) + ("</"@ + "s:Body"@ + ">"@) + ("</"@ + "s:Envelope"@ + ">"@),
{
    let name = "u:"@ + action;
    let attribute = attribute_text("xmlns:u"@, service_namespace(service));
    let attributes = attribute_text("xmlns:s"@, "http://schemas.xmlsoap.org/soap/envelope/"@)
        + attribute_text("s:encodingStyle"@, "http://schemas.xmlsoap.org/soap/encoding/"@);
    let call = element(name, attribute, content);
    let body = element("s:Body"@, Seq::empty(), call);
    lemma_tags(name, attribute, content);
    lemma_tags("s:Body"@, Seq::empty(), call);
    lemma_tags("s:Envelope"@, attributes, body);
    lemma_flat(
        DECLARATION@,
        "<"@ + "s:Envelope"@ + attributes + ">"@,
        "<"@ + "s:Body"@ + Seq::empty() + ">"@,
        "<"@ + name + attribute + ">"@,
        content,
        "</"@ + name + ">"@,
        "</"@ + "s:Body"@ + ">"@,
        "</"@ + "s:Envelope"@ + ">"@,
    );
}

/// An envelope holds the arguments between fixed texts: nothing but the name of the
/// action and its arguments varies.
pub proof fn envelopes_are_written_out(action: Seq<char>, content: Seq<char>)
    ensures
        envelope_text("AVTransport"@, action, content)
            == "<?xml version=\"1.0\" encoding=\"UTF-8\"?>"@ + ("<"@ + "s:Envelope"@ + ((" "@
            + "xmlns:s"@ + "=\""@ + "http://schemas.xmlsoap.org/soap/envelope/"@ + "\""@) + (" "@
            + "s:encodingStyle"@ + "=\""@ + "http://schemas.xmlsoap.org/soap/encoding/"@ + "\""@))
            + ">"@) + ("<"@ + "s:Body"@ + ">"@) + ("<"@ + ("u:"@ + action) + (" "@ + "xmlns:u"@
            + "=\""@ + ("urn:schemas-upnp-org:service:"@ + "AVTransport"@ + ":1"@) + "\""@) + ">"@)
            + content + ("</"@ + ("u:"@ + action) + ">"@) + ("</"@ + "s:Body"@ + ">"@) + ("</"@
            + "s:Envelope"@ + ">"@),
{
    lemma_plain_envelope_value();
    lemma_plain_encoding_value();
    lemma_plain_namespace_value();
    lemma_flat_envelope("AVTransport"@, action, content);
    assert("<"@ + "s:Body"@ + Seq::empty() + ">"@ =~= "<"@ + "s:Body"@ + ">"@);
}

proof fn lemma_plain_envelope_value()
    ensures
        escaped_value("http://schemas.xmlsoap.org/soap/envelope/"@)
            == "http://schemas.xmlsoap.org/soap/envelope/"@,
{
    reveal_strlit("http://schemas.xmlsoap.org/soap/envelope/");
    plain_values_stay("http://schemas.xmlsoap.org/soap/envelope/"@);
}

proof fn lemma_plain_encoding_value()
    ensures
        escaped_value("http://schemas.xmlsoap.org/soap/encoding/"@)
            == "http://schemas.xmlsoap.org/soap/encoding/"@,
{
    reveal_strlit("http://schemas.xmlsoap.org/soap/encoding/");
    plain_values_stay("http://schemas.xmlsoap.org/soap/encoding/"@);
}

proof fn lemma_plain_namespace_value()
    ensures
        escaped_value(service_namespace("AVTransport"@)) == service_namespace("AVTransport"@),
{
    reveal_strlit("urn:schemas-upnp-org:service:");
    reveal_strlit("AVTransport");
    reveal_strlit(":1");
    let prefix = "urn:schemas-upnp-org:service:"@;
    let name = "AVTransport"@;
    let text = service_namespace(name);
    assert forall|i: int| 0 <= i < text.len() implies ({
        let c = #[trigger] text[i];
        c != '<' && c != '>' && c != '&' && c != '"' && c != '\'' && c != '\n' && c != '\r'
    }) by {
        if i < prefix.len() {
            assert(text[i] == prefix[i]);
        } else if i < prefix.len() + name.len() {
            assert(text[i] == name[i - prefix.len()]);
        } else {
            assert(text[i] == ":1"@[i - prefix.len() - name.len()]);
        }
    }
    plain_values_stay(text);
}

/// The arguments of each action are written out: the instance in all of them, the
/// whole track in the one that sets it, and the speed in the one that plays.
pub proof fn arguments_are_written_out(track_uri: Seq<char>)
    ensures
        set_uri_content(track_uri) == "<"@ + "InstanceID"@ + ">"@ + "0"@ + "</"@ + "InstanceID"@
            + ">"@ + ("<"@ + "CurrentURI"@ + ">"@ + escaped_content(track_uri) + "</"@
            + "CurrentURI"@ + ">"@) + ("<"@ + "CurrentURIMetaData"@ + ">"@ + "</"@
            + "CurrentURIMetaData"@ + ">"@),
        play_content() == "<"@ + "InstanceID"@ + ">"@ + "0"@ + "</"@ + "InstanceID"@ + ">"@ + ("<"@
            + "Speed"@ + ">"@ + "1"@ + "</"@ + "Speed"@ + ">"@),
        stop_content() == "<"@ + "InstanceID"@ + ">"@ + "0"@ + "</"@ + "InstanceID"@ + ">"@,
{
    reveal_strlit("0");
    reveal_strlit("1");
    reveal_strlit("");
    plain_content_stays("0"@);
    plain_content_stays("1"@);
    plain_content_stays(""@);
    let instance = "<"@ + "InstanceID"@ + ">"@ + "0"@ + "</"@ + "InstanceID"@ + ">"@;
    let speed = "<"@ + "Speed"@ + ">"@ + "1"@ + "</"@ + "Speed"@ + ">"@;
    let uri = "<"@ + "CurrentURI"@ + ">"@ + escaped_content(track_uri) + "</"@ + "CurrentURI"@
        + ">"@;
    let data = "<"@ + "CurrentURIMetaData"@ + ">"@ + "</"@ + "CurrentURIMetaData"@ + ">"@;
    assert(argument_text("InstanceID"@, "0"@) =~= instance);
    assert(argument_text("Speed"@, "1"@) =~= speed);
    assert(argument_text("CurrentURI"@, track_uri) =~= uri);
    assert(argument_text("CurrentURIMetaData"@, ""@) =~= data);
}

/// What a reader finds as the track of a request that sets one is that track: all of
/// it, and nothing else.
pub proof fn tracks_are_read_from_requests(
    request: SoapRequest,
    ip: Seq<char>,
    track_uri: Seq<char>,
)
    requires
        asks(request, ip, Action::SetUri, set_uri_content(track_uri)),
    ensures
        request.body@ == envelope_text(
            "AVTransport"@,
            "SetAVTransportURI"@,
            set_uri_content(track_uri),
        ),
        exists|before: Seq<char>, inner: Seq<char>, after: Seq<char>|
            {
                &&& request.body@ == #[trigger] (before + track_element(inner) + after)
                &&& unescaped_content(inner) == track_uri
                &&& !inner.contains('<')
            },
{
    let inner = escaped_content(track_uri);
    let instance = argument_text("InstanceID"@, "0"@);
    let data = argument_text("CurrentURIMetaData"@, ""@);
    content_is_read_back(track_uri);
    content_holds_no_tags(track_uri);
    let content = set_uri_content(track_uri);
    lemma_flat_envelope(SERVICE@, action_name(Action::SetUri), content);
    let head = DECLARATION@ + ("<"@ + "s:Envelope"@ + (attribute_text(
        "xmlns:s"@,
        "http://schemas.xmlsoap.org/soap/envelope/"@,
    ) + attribute_text("s:encodingStyle"@, "http://schemas.xmlsoap.org/soap/encoding/"@)) + ">"@) + (
    "<"@ + "s:Body"@ + Seq::empty() + ">"@) + ("<"@ + ("u:"@ + action_name(Action::SetUri))
        + attribute_text("xmlns:u"@, service_namespace(SERVICE@)) + ">"@);
    let close3 = "</"@ + ("u:"@ + action_name(Action::SetUri)) + ">"@;
    let close2 = "</"@ + "s:Body"@ + ">"@;
    let close1 = "</"@ + "s:Envelope"@ + ">"@;
    assert(track_element(inner) =~= argument_text("CurrentURI"@, track_uri));
    lemma_regroup(head, instance, track_element(inner), data, close3, close2, close1);
}

/// The element of the track in a request that sets one.
pub open spec fn track_element(inner: Seq<char>) -> Seq<char> {
    "<"@ + "CurrentURI"@ + ">"@ + inner + "</"@ + "CurrentURI"@ + ">"@
}

proof fn lemma_regroup(
    head: Seq<char>,
    first: Seq<char>,
    second: Seq<char>,
    third: Seq<char>,
    close3: Seq<char>,
    close2: Seq<char>,
    close1: Seq<char>,
)
    ensures
        head + (first + second + third) + close3 + close2 + close1 == (head + first) + second + (
        third + close3 + close2 + close1),
{
    assert(head + (first + second + third) =~= (head + first) + second + third);
    assert((head + first) + second + third + close3 + close2 + close1 =~= (head + first) + second + (
    third + close3 + close2 + close1));
}

} // verus!
