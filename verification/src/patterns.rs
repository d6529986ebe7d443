//! What is looked for in the replies of speakers.

use vstd::prelude::*;
use crate::text::part_at;

verus! {

/// Finds the address in an announcement.
pub const LOCATION_PATTERN: &'static str =
    "LOCATION: http://([0-9]+\\.[0-9]+\\.[0-9]+\\.[0-9]+)";

/// Finds the name of the room in a description.
pub const ROOM_NAME_PATTERN: &'static str = "<roomName>([^<]+)</roomName>";

/// Finds the name of the model in a description.
pub const DISPLAY_NAME_PATTERN: &'static str = "<displayName>([^<]+)</displayName>";

/// Finds the identifier of the speaker in a description.
pub const UDN_PATTERN: &'static str = "<UDN>uuid:([^<]+)</UDN>";

/// Whether `inner`, which is not empty and holds no `<`, stands in `text` between
/// `open` at position `at` and `close`.
pub open spec fn enclosed_at(
    text: Seq<char>,
    open: Seq<char>,
    close: Seq<char>,
    at: int,
    inner: Seq<char>,
) -> bool {
    &&& inner.len() > 0
    &&& !inner.contains('<')
    &&& part_at(text, open + inner + close, at)
}

/// Whether `inner` stands in `text` between `open` at position `at` and `close`, and
/// nothing does from an earlier position.
pub open spec fn first_enclosed_at(
    text: Seq<char>,
    open: Seq<char>,
    close: Seq<char>,
    at: int,
    inner: Seq<char>,
) -> bool {
    &&& enclosed_at(text, open, close, at, inner)
    &&& forall|earlier: int, other: Seq<char>|
        earlier < at ==> !enclosed_at(text, open, close, earlier, other)
}

/// Whether `found` is the first that stands in `text` between `open` and `close`,
/// or nothing does.
pub open spec fn is_first_enclosed(
    text: Seq<char>,
    open: Seq<char>,
    close: Seq<char>,
    found: Option<Seq<char>>,
) -> bool {
    match found {
        None => forall|at: int, inner: Seq<char>| !enclosed_at(text, open, close, at, inner),
        Some(first) => exists|at: int| first_enclosed_at(text, open, close, at, first),
    }
}

/// The first that stands in `text` between `open` and `close`.
pub open spec fn first_enclosed(text: Seq<char>, open: Seq<char>, close: Seq<char>) -> Option<
    Seq<char>,
> {
    choose|found: Option<Seq<char>>| is_first_enclosed(text, open, close, found)
}

/// Whether the text consists of digits, and of one at least.
pub open spec fn is_digits(text: Seq<char>) -> bool {
    text.len() > 0 && forall|i: int| 0 <= i < text.len() ==> '0' <= #[trigger] text[i] <= '9'
}

/// Whether the text is made of the four numbers with dots between them.
pub open spec fn is_quad_of(
    text: Seq<char>,
    a: Seq<char>,
    b: Seq<char>,
    c: Seq<char>,
    d: Seq<char>,
) -> bool {
    &&& is_digits(a)
    &&& is_digits(b)
    &&& is_digits(c)
    &&& is_digits(d)
    &&& text == a + "."@ + b + "."@ + c + "."@ + d
}

/// Whether the text is four numbers with dots between them.
pub open spec fn is_quad(text: Seq<char>) -> bool {
    exists|a: Seq<char>, b: Seq<char>, c: Seq<char>, d: Seq<char>| is_quad_of(text, a, b, c, d)
}

/// What precedes the address in an announcement.
pub const LOCATION_PREFIX: &'static str = "LOCATION: http://";

/// Whether `address`, with all its digits, stands behind the prefix of a location
/// that is at position `at` of `text`.
pub open spec fn location_at(text: Seq<char>, at: int, address: Seq<char>) -> bool {
    let end = at + LOCATION_PREFIX@.len() + address.len();
    &&& is_quad(address)
    &&& part_at(text, LOCATION_PREFIX@ + address, at)
    &&& end < text.len() ==> !('0' <= text[end] <= '9')
}

/// Whether the location of `address` is at position `at` of `text`, and no location
/// is at an earlier position.
pub open spec fn first_location_at(text: Seq<char>, at: int, address: Seq<char>) -> bool {
    &&& location_at(text, at, address)
    &&& forall|earlier: int, other: Seq<char>| earlier < at ==> !location_at(text, earlier, other)
}

/// Whether `found` is the address of the first location in `text`, or there is
/// none.
pub open spec fn is_first_location(text: Seq<char>, found: Option<Seq<char>>) -> bool {
    match found {
        None => forall|at: int, address: Seq<char>| !location_at(text, at, address),
        Some(first) => exists|at: int| first_location_at(text, at, first),
    }
}

/// The address of the first location in `text`.
pub open spec fn first_location(text: Seq<char>) -> Option<Seq<char>> {
    choose|found: Option<Seq<char>>| is_first_location(text, found)
}

/// The contents of a string that may be absent.
pub open spec fn optional_text(text: Option<String>) -> Option<Seq<char>> {
    match text {
        None => None,
        Some(s) => Some(s@),
    }
}

/// Calls `regex::Regex::new`, which accepts the four patterns, and
/// `regex::Regex::captures`, which finds the first match in the text, and gives
/// the first group of it. In three of the patterns the group is all that stands
/// between two tags; in the other it is four numbers behind a prefix, the last as
/// long as its digits go.
#[verifier::external_body]
fn first_group(pattern: &str, text: &str) -> (r: Option<String>)
    requires
        pattern@ == LOCATION_PATTERN@ || pattern@ == ROOM_NAME_PATTERN@ || pattern@
            == DISPLAY_NAME_PATTERN@ || pattern@ == UDN_PATTERN@,
    ensures
        pattern@ == LOCATION_PATTERN@ ==> is_first_location(text@, optional_text(r)),
        pattern@ == ROOM_NAME_PATTERN@ ==> is_first_enclosed(
            text@,
            "<roomName>"@,
            "</roomName>"@,
            optional_text(r),
        ),
        pattern@ == DISPLAY_NAME_PATTERN@ ==> is_first_enclosed(
            text@,
            "<displayName>"@,
            "</displayName>"@,
            optional_text(r),
        ),
        pattern@ == UDN_PATTERN@ ==> is_first_enclosed(
            text@,
            "<UDN>uuid:"@,
            "</UDN>"@,
            optional_text(r),
        ),
{
    let regex = regex::Regex::new(pattern).unwrap();
    let group = regex.captures(text).and_then(|captures| captures.get(1));
    group.map(|found| found.as_str().to_string())
}

proof fn lemma_one_enclosed_at(
    text: Seq<char>,
    open: Seq<char>,
    close: Seq<char>,
    at: int,
    first: Seq<char>,
    second: Seq<char>,
)
    requires
        close.len() > 0,
        close[0] == '<',
        enclosed_at(text, open, close, at, first),
        enclosed_at(text, open, close, at, second),
    ensures
        first == second,
{
    let whole1 = open + first + close;
    let whole2 = open + second + close;
    let start = open.len();
    assert forall|i: int| 0 <= i < whole1.len() implies text[at + i] == whole1[i] by {
        assert(text.subrange(at, at + whole1.len())[i] == whole1[i]);
    }
    assert forall|i: int| 0 <= i < whole2.len() implies text[at + i] == whole2[i] by {
        assert(text.subrange(at, at + whole2.len())[i] == whole2[i]);
    }
    if first.len() < second.len() {
        let i = start + first.len();
        assert(whole1[i as int] == '<');
        assert(whole2[i as int] == second[first.len() as int]);
        assert(second.contains('<'));
    }
    if second.len() < first.len() {
        let i = start + second.len();
        assert(whole2[i as int] == '<');
        assert(whole1[i as int] == first[second.len() as int]);
        assert(first.contains('<'));
    }
    assert forall|i: int| 0 <= i < first.len() implies first[i] == second[i] by {
        assert(whole1[start + i] == first[i]);
        assert(whole2[start + i] == second[i]);
    }
    assert(first =~= second);
}

/// A text has at most one first enclosed part.
pub proof fn first_enclosed_is_unique(
    text: Seq<char>,
    open: Seq<char>,
    close: Seq<char>,
    found: Option<Seq<char>>,
)
    requires
        close.len() > 0,
        close[0] == '<',
        is_first_enclosed(text, open, close, found),
    ensures
        first_enclosed(text, open, close) == found,
{
    let other = first_enclosed(text, open, close);
    assert(is_first_enclosed(text, open, close, other));
    match (found, other) {
        (Some(first), Some(second)) => {
            let at1 = choose|at: int| first_enclosed_at(text, open, close, at, first);
            let at2 = choose|at: int| first_enclosed_at(text, open, close, at, second);
            assert(at1 == at2);
            lemma_one_enclosed_at(text, open, close, at1, first, second);
        },
        _ => {},
    }
}

proof fn lemma_some_first_enclosed(
    text: Seq<char>,
    open: Seq<char>,
    close: Seq<char>,
    at: int,
    inner: Seq<char>,
)
    requires
        enclosed_at(text, open, close, at, inner),
    ensures
        exists|found: Option<Seq<char>>| is_first_enclosed(text, open, close, found),
    decreases at,
{
    if exists|earlier: int, other: Seq<char>|
        earlier < at && enclosed_at(text, open, close, earlier, other) {
        let (earlier, other) = choose|earlier: int, other: Seq<char>|
            earlier < at && enclosed_at(text, open, close, earlier, other);
        lemma_some_first_enclosed(text, open, close, earlier, other);
    } else {
        let found = Some(inner);
        assert(first_enclosed_at(text, open, close, at, found->0));
        assert(is_first_enclosed(text, open, close, found));
    }
}

/// Every text has a first enclosed part, or nothing is enclosed in it.
pub proof fn first_enclosed_exists(text: Seq<char>, open: Seq<char>, close: Seq<char>)
    ensures
        is_first_enclosed(text, open, close, first_enclosed(text, open, close)),
{
    if exists|at: int, inner: Seq<char>| enclosed_at(text, open, close, at, inner) {
        let (at, inner) = choose|at: int, inner: Seq<char>|
            enclosed_at(text, open, close, at, inner);
        lemma_some_first_enclosed(text, open, close, at, inner);
    } else {
        assert(is_first_enclosed(text, open, close, None));
    }
}

/// Two numbers that start at position `from` of `text` and end at a dot are the
/// same number.
proof fn lemma_same_number(text: Seq<char>, from: int, first: Seq<char>, second: Seq<char>)
    requires
        0 <= from,
        is_digits(first),
        is_digits(second),
        from + first.len() < text.len(),
        from + second.len() < text.len(),
        forall|i: int| 0 <= i < first.len() ==> text[from + i] == #[trigger] first[i],
        forall|i: int| 0 <= i < second.len() ==> text[from + i] == #[trigger] second[i],
        text[from + first.len()] == '.',
        text[from + second.len()] == '.',
    ensures
        first.len() == second.len(),
{
    if first.len() < second.len() {
        assert(text[from + first.len()] == second[first.len() as int]);
    }
    if second.len() < first.len() {
        assert(text[from + second.len()] == first[second.len() as int]);
    }
}

/// Where the four numbers and the three dots of an address stand in `text`.
proof fn lemma_quad_parts(
    text: Seq<char>,
    start: int,
    address: Seq<char>,
    a: Seq<char>,
    b: Seq<char>,
    c: Seq<char>,
    d: Seq<char>,
)
    requires
        0 <= start,
        start + address.len() <= text.len(),
        address == text.subrange(start, start + address.len()),
        is_quad_of(address, a, b, c, d),
    ensures
        address.len() == a.len() + b.len() + c.len() + d.len() + 3,
        forall|i: int| 0 <= i < a.len() ==> text[start + i] == #[trigger] a[i],
        text[start + a.len()] == '.',
        forall|i: int| 0 <= i < b.len() ==> text[start + a.len() + 1 + i] == #[trigger] b[i],
        text[start + a.len() + 1 + b.len()] == '.',
        forall|i: int|
            0 <= i < c.len() ==> text[start + a.len() + 1 + b.len() + 1 + i] == #[trigger] c[i],
        text[start + a.len() + 1 + b.len() + 1 + c.len()] == '.',
        forall|i: int|
            0 <= i < d.len() ==> text[start + a.len() + 1 + b.len() + 1 + c.len() + 1 + i]
                == #[trigger] d[i],
{
    reveal_strlit(".");
    assert forall|i: int| 0 <= i < address.len() implies text[start + i] == #[trigger] address[i] by {
        assert(text.subrange(start, start + address.len())[i] == text[start + i]);
    }
    assert(address[a.len() as int] == '.');
    assert(address[a.len() + 1 + b.len() as int] == '.');
    assert(address[a.len() + 1 + b.len() + 1 + c.len() as int] == '.');
    assert forall|i: int| 0 <= i < a.len() implies text[start + i] == #[trigger] a[i] by {
        assert(address[i] == a[i]);
    }
    assert forall|i: int| 0 <= i < b.len() implies text[start + a.len() + 1 + i]
        == #[trigger] b[i] by {
        assert(address[a.len() + 1 + i] == b[i]);
    }
    assert forall|i: int| 0 <= i < c.len() implies text[start + a.len() + 1 + b.len() + 1 + i]
        == #[trigger] c[i] by {
        assert(address[a.len() + 1 + b.len() + 1 + i] == c[i]);
    }
    assert forall|i: int| 0 <= i < d.len() implies text[start + a.len() + 1 + b.len() + 1 + c.len()
        + 1 + i] == #[trigger] d[i] by {
        assert(address[a.len() + 1 + b.len() + 1 + c.len() + 1 + i] == d[i]);
    }
}

proof fn lemma_location_text(text: Seq<char>, at: int, address: Seq<char>)
    requires
        location_at(text, at, address),
    ensures
        ({
            let start = at + LOCATION_PREFIX@.len();
            &&& 0 <= start
            &&& start + address.len() <= text.len()
            &&& address == text.subrange(start, start + address.len())
        }),
{
    let whole = LOCATION_PREFIX@ + address;
    let start = at + LOCATION_PREFIX@.len();
    assert(whole == text.subrange(at, at + whole.len()));
    assert(address =~= whole.subrange(LOCATION_PREFIX@.len() as int, whole.len() as int));
    assert(address =~= text.subrange(start, start + address.len()));
}

proof fn lemma_one_location_at(text: Seq<char>, at: int, first: Seq<char>, second: Seq<char>)
    requires
        location_at(text, at, first),
        location_at(text, at, second),
    ensures
        first == second,
{
    let start = at + LOCATION_PREFIX@.len();
    lemma_location_text(text, at, first);
    lemma_location_text(text, at, second);
    let (a1, b1, c1, d1) = choose|a: Seq<char>, b: Seq<char>, c: Seq<char>, d: Seq<char>|
        is_quad_of(first, a, b, c, d);
    let (a2, b2, c2, d2) = choose|a: Seq<char>, b: Seq<char>, c: Seq<char>, d: Seq<char>|
        is_quad_of(second, a, b, c, d);
    lemma_quad_parts(text, start, first, a1, b1, c1, d1);
    lemma_quad_parts(text, start, second, a2, b2, c2, d2);
    lemma_same_number(text, start, a1, a2);
    let from_b = start + a1.len() + 1;
    lemma_same_number(text, from_b, b1, b2);
    let from_c = from_b + b1.len() + 1;
    lemma_same_number(text, from_c, c1, c2);
    let from_d = from_c + c1.len() + 1;
    if d1.len() < d2.len() {
        assert(text[from_d + d1.len()] == d2[d1.len() as int]);
    }
    if d2.len() < d1.len() {
        assert(text[from_d + d2.len()] == d1[d2.len() as int]);
    }
}

/// A text has at most one first location.
pub proof fn first_location_is_unique(text: Seq<char>, found: Option<Seq<char>>)
    requires
        is_first_location(text, found),
    ensures
        first_location(text) == found,
{
    let other = first_location(text);
    assert(is_first_location(text, other));
    match (found, other) {
        (Some(first), Some(second)) => {
            let at1 = choose|at: int| first_location_at(text, at, first);
            let at2 = choose|at: int| first_location_at(text, at, second);
            assert(at1 == at2);
            lemma_one_location_at(text, at1, first, second);
        },
        _ => {},
    }
}

proof fn lemma_some_first_location(text: Seq<char>, at: int, address: Seq<char>)
    requires
        location_at(text, at, address),
    ensures
        exists|found: Option<Seq<char>>| is_first_location(text, found),
    decreases at,
{
    if exists|earlier: int, other: Seq<char>| earlier < at && location_at(text, earlier, other) {
        let (earlier, other) = choose|earlier: int, other: Seq<char>|
            earlier < at && location_at(text, earlier, other);
        lemma_some_first_location(text, earlier, other);
    } else {
        let found = Some(address);
        assert(first_location_at(text, at, found->0));
        assert(is_first_location(text, found));
    }
}

/// Every text has a first location, or no location is in it.
pub proof fn first_location_exists(text: Seq<char>)
    ensures
        is_first_location(text, first_location(text)),
{
    if exists|at: int, address: Seq<char>| location_at(text, at, address) {
        let (at, address) = choose|at: int, address: Seq<char>| location_at(text, at, address);
        lemma_some_first_location(text, at, address);
    } else {
        assert(is_first_location(text, None));
    }
}

/// Finds the address of the first location in an announcement.
pub fn location(text: &str) -> (r: Option<String>)
    ensures
        optional_text(r) == first_location(text@),
        is_first_location(text@, optional_text(r)),
{
    let found = first_group(LOCATION_PATTERN, text);
    proof {
        first_location_is_unique(text@, optional_text(found));
    }
    found
}

/// Finds the name of the room in a description.
pub fn room_name(text: &str) -> (r: Option<String>)
    ensures
        optional_text(r) == first_enclosed(text@, "<roomName>"@, "</roomName>"@),
        is_first_enclosed(text@, "<roomName>"@, "</roomName>"@, optional_text(r)),
{
    let found = first_group(ROOM_NAME_PATTERN, text);
    proof {
        reveal_strlit("</roomName>");
        first_enclosed_is_unique(text@, "<roomName>"@, "</roomName>"@, optional_text(found));
    }
    found
}

/// Finds the name of the model in a description.
pub fn display_name(text: &str) -> (r: Option<String>)
    ensures
        optional_text(r) == first_enclosed(text@, "<displayName>"@, "</displayName>"@),
        is_first_enclosed(text@, "<displayName>"@, "</displayName>"@, optional_text(r)),
{
    let found = first_group(DISPLAY_NAME_PATTERN, text);
    proof {
        reveal_strlit("</displayName>");
        first_enclosed_is_unique(text@, "<displayName>"@, "</displayName>"@, optional_text(found));
    }
    found
}

/// Finds the identifier of the speaker in a description.
pub fn identifier(text: &str) -> (r: Option<String>)
    ensures
        optional_text(r) == first_enclosed(text@, "<UDN>uuid:"@, "</UDN>"@),
        is_first_enclosed(text@, "<UDN>uuid:"@, "</UDN>"@, optional_text(r)),
{
    let found = first_group(UDN_PATTERN, text);
    proof {
        reveal_strlit("</UDN>");
        first_enclosed_is_unique(text@, "<UDN>uuid:"@, "</UDN>"@, optional_text(found));
    }
    found
}

/// What may be absent is its contents where it is there.
pub proof fn optional_texts_are_contents(text: String)
    ensures
        optional_text(Some(text)) == Some(text@),
        optional_text(None) == None::<Seq<char>>,
{
}

/// A part is enclosed at a position if and only if the text is made of so much, what
/// encloses it and the part between, and a rest; the part is not empty and holds no
/// `<`.
pub proof fn enclosed_parts_stand_in_texts(
    text: Seq<char>,
    open: Seq<char>,
    close: Seq<char>,
    at: int,
    inner: Seq<char>,
)
    ensures
        enclosed_at(text, open, close, at, inner) <==> {
            &&& inner.len() > 0
            &&& !inner.contains('<')
            &&& exists|before: Seq<char>, after: Seq<char>|
                before.len() == at && text == #[trigger] (before + (open + inner + close) + after)
        },
{
    let whole = open + inner + close;
    if enclosed_at(text, open, close, at, inner) {
        let before = text.take(at);
        let after = text.skip(at + whole.len());
        assert(text =~= before + whole + after);
    }
    if exists|before: Seq<char>, after: Seq<char>|
        before.len() == at && text == #[trigger] (before + whole + after) {
        let (before, after) = choose|before: Seq<char>, after: Seq<char>|
            before.len() == at && text == #[trigger] (before + whole + after);
        assert(text.subrange(at, at + whole.len()) =~= whole);
    }
}

/// What a text encloses at its front is found whole, whatever follows.
pub proof fn enclosed_fronts_are_found(
    open: Seq<char>,
    inner: Seq<char>,
    close: Seq<char>,
    rest: Seq<char>,
)
    requires
        close.len() > 0,
        close[0] == '<',
        inner.len() > 0,
        !inner.contains('<'),
    ensures
        first_enclosed(open + inner + close + rest, open, close) == Some(inner),
{
    let text = open + inner + close + rest;
    let whole = open + inner + close;
    assert(text.subrange(0, whole.len() as int) =~= whole);
    let found = Some(inner);
    assert(first_enclosed_at(text, open, close, 0, found->0));
    assert(is_first_enclosed(text, open, close, found));
    first_enclosed_is_unique(text, open, close, found);
}

/// A location at the front of a text is found with all its digits, whatever
/// follows, if that is no digit.
pub proof fn location_fronts_are_found(
    a: Seq<char>,
    b: Seq<char>,
    c: Seq<char>,
    d: Seq<char>,
    rest: Seq<char>,
)
    requires
        is_digits(a),
        is_digits(b),
        is_digits(c),
        is_digits(d),
        rest.len() > 0 ==> !('0' <= rest[0] <= '9'),
    ensures
        first_location("LOCATION: http://"@ + (a + "."@ + b + "."@ + c + "."@ + d) + rest) == Some(
            a + "."@ + b + "."@ + c + "."@ + d,
        ),
{
    let address = a + "."@ + b + "."@ + c + "."@ + d;
    let whole = LOCATION_PREFIX@ + address;
    let text = whole + rest;
    assert(is_quad_of(address, a, b, c, d));
    assert(text.subrange(0, whole.len() as int) =~= whole);
    let found = Some(address);
    assert(first_location_at(text, 0, found->0));
    assert(is_first_location(text, found));
    first_location_is_unique(text, found);
}

/// A text consists of digits if and only if each of its characters is one, and there
/// is one.
pub proof fn digits_are_digits(text: Seq<char>)
    ensures
        is_digits(text) <==> text.len() > 0 && forall|i: int|
            0 <= i < text.len() ==> '0' <= #[trigger] text[i] && text[i] <= '9',
{
}

} // verus!
