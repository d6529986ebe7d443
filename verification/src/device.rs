//! What a speaker says of itself.

use vstd::prelude::*;
use crate::patterns::{
    display_name, enclosed_fronts_are_found, first_enclosed, first_enclosed_exists,
    first_enclosed_is_unique, identifier, is_first_enclosed, optional_text, room_name,
};

verus! {

/// For how many milliseconds at most a speaker may take to describe itself for the
/// list of speakers.
pub const DESCRIPTION_MILLIS: u64 = 2000;

/// Where the description of a speaker is.
pub open spec fn description_url_text(ip: Seq<char>) -> Seq<char> {
    "http://"@ + ip + ":1400/xml/device_description.xml"@
}

/// Writes where the description of the speaker at `ip` is.
pub fn description_url(ip: &str) -> (r: String)
    ensures
        r@ == description_url_text(ip@),
        r@ == "http://"@ + ip@ + ":1400/xml/device_description.xml"@,
{
    String::from_str("http://").concat(ip).concat(":1400/xml/device_description.xml")
}

/// What stands in a description between two tags, or a stand-in for it.
pub open spec fn enclosed_or_unknown(text: Seq<char>, open: Seq<char>, close: Seq<char>) -> Seq<
    char,
> {
    match first_enclosed(text, open, close) {
        None => "Unknown"@,
        Some(inner) => inner,
    }
}

/// The line on a speaker: its room, its model and its address.
pub open spec fn device_info_text(ip: Seq<char>, description: Seq<char>) -> Seq<char> {
    enclosed_or_unknown(description, "<roomName>"@, "</roomName>"@) + " ("@ + enclosed_or_unknown(
        description,
        "<displayName>"@,
        "</displayName>"@,
    ) + ") - "@ + ip
}

fn or_unknown(found: Option<String>) -> (r: String)
    ensures
        r@ == (match optional_text(found) {
            None => "Unknown"@,
            Some(text) => text,
        }),
{
    match found {
        None => String::from_str("Unknown"),
        Some(text) => text,
    }
}

/// Writes the line on the speaker at `ip` from its description.
pub fn get_device_info(ip: &str, description: &str) -> (r: String)
    ensures
        r@ == device_info_text(ip@, description@),
        exists|name: Option<Seq<char>>, model: Option<Seq<char>>|
            {
                &&& #[trigger] is_first_enclosed(
                    description@,
                    "<roomName>"@,
                    "</roomName>"@,
                    name,
                )
                &&& #[trigger] is_first_enclosed(
                    description@,
                    "<displayName>"@,
                    "</displayName>"@,
                    model,
                )
                &&& r@ == (if name is Some {
                    name->0
                } else {
                    "Unknown"@
                }) + " ("@ + (if model is Some {
                    model->0
                } else {
                    "Unknown"@
                }) + ") - "@ + ip@
            },
{
    let room = room_name(description);
    let display = display_name(description);
    assert(is_first_enclosed(
        description@,
        "<roomName>"@,
        "</roomName>"@,
        optional_text(room),
    ));
    assert(is_first_enclosed(
        description@,
        "<displayName>"@,
        "</displayName>"@,
        optional_text(display),
    ));
    let name = or_unknown(room);
    let model = or_unknown(display);
    name.concat(" (").concat(model.as_str()).concat(") - ").concat(ip)
}

/// A description without the identifier of the speaker.
#[derive(Clone, Copy, Debug, PartialEq, Eq, Structural)]
pub struct NoUuid;

impl NoUuid {
    /// Writes what the error says.
    pub fn message(self) -> (r: String)
        ensures
            r@ == "Failed to get speaker UUID"@,
    {
        String::from_str("Failed to get speaker UUID")
    }
}

/// The identifier of a speaker in its description.
pub open spec fn uuid_in(description: Seq<char>) -> Option<Seq<char>> {
    first_enclosed(description, "<UDN>uuid:"@, "</UDN>"@)
}

/// Finds the identifier of a speaker in its description.
pub fn get_speaker_uuid(description: &str) -> (r: Result<String, NoUuid>)
    ensures
        r is Ok <==> uuid_in(description@) is Some,
        r is Ok ==> r->Ok_0@ == uuid_in(description@)->0,
        is_first_enclosed(
            description@,
            "<UDN>uuid:"@,
            "</UDN>"@,
            match r {
                Ok(uuid) => Some(uuid@),
                Err(_) => None,
            },
        ),
{
    match identifier(description) {
        None => Err(NoUuid),
        Some(uuid) => Ok(uuid),
    }
}

/// Writes the address under which other speakers join the group of the speaker
/// with the identifier `uuid`.
pub fn group_uri(uuid: &str) -> (r: String)
    ensures
        r@ == "x-rincon:"@ + uuid@,
{
    String::from_str("x-rincon:").concat(uuid)
}

/// Speakers at different addresses have their descriptions at different places.
pub proof fn description_urls_tell_speakers_apart(first: Seq<char>, second: Seq<char>)
    requires
        description_url_text(first) == description_url_text(second),
    ensures
        first == second,
{
    let before = "http://"@;
    let after = ":1400/xml/device_description.xml"@;
    let whole = before + first + after;
    assert(whole.len() == (before + second + after).len());
    assert(first =~= whole.subrange(before.len() as int, (before.len() + first.len()) as int));
    assert(second =~= whole.subrange(before.len() as int, (before.len() + second.len()) as int));
}

/// The identifier of a speaker is all that stands first between its tags, and
/// nothing is the identifier where nothing stands between them.
pub proof fn uuids_are_whole(description: Seq<char>, uuid: Option<Seq<char>>)
    ensures
        uuid_in(description) == uuid <==> is_first_enclosed(
            description,
            "<UDN>uuid:"@,
            "</UDN>"@,
            uuid,
        ),
{
    reveal_strlit("</UDN>");
    first_enclosed_exists(description, "<UDN>uuid:"@, "</UDN>"@);
    if is_first_enclosed(description, "<UDN>uuid:"@, "</UDN>"@, uuid) {
        first_enclosed_is_unique(description, "<UDN>uuid:"@, "</UDN>"@, uuid);
    }
}

/// Whatever identifier a speaker gives first is read back from its description.
pub proof fn given_uuids_are_read_back(uuid: Seq<char>, rest: Seq<char>)
    requires
        uuid.len() > 0,
        !uuid.contains('<'),
    ensures
        uuid_in("<UDN>uuid:"@ + uuid + "</UDN>"@ + rest) == Some(uuid),
{
    reveal_strlit("</UDN>");
    enclosed_fronts_are_found("<UDN>uuid:"@, uuid, "</UDN>"@, rest);
}

/// The line on a speaker holds all that stands first between the tags of the room,
/// all that stands first between those of the model, and the address.
pub proof fn device_lines_are_whole(
    ip: Seq<char>,
    description: Seq<char>,
    name: Option<Seq<char>>,
    model: Option<Seq<char>>,
)
    requires
        is_first_enclosed(description, "<roomName>"@, "</roomName>"@, name),
        is_first_enclosed(description, "<displayName>"@, "</displayName>"@, model),
    ensures
        device_info_text(ip, description) == (if name is Some {
            name->0
        } else {
            "Unknown"@
        }) + " ("@ + (if model is Some {
            model->0
        } else {
            "Unknown"@
        }) + ") - "@ + ip,
{
    reveal_strlit("</roomName>");
    reveal_strlit("</displayName>");
    first_enclosed_is_unique(description, "<roomName>"@, "</roomName>"@, name);
    first_enclosed_is_unique(description, "<displayName>"@, "</displayName>"@, model);
}

} // verus!
