//! XML documents: what the escaping of text means, and the writer that emits it.

use vstd::prelude::*;
use vstd::utf8::encode_utf8;
use xml::writer::EventWriter;

verus! {

/// The declaration that opens every document.
pub const DECLARATION: &'static str = "<?xml version=\"1.0\" encoding=\"UTF-8\"?>";

/// An attribute of an element.
pub struct Attribute<'a> {
    pub name: &'a str,
    pub value: &'a str,
}

/// How a character of the content of an element is written.
pub open spec fn content_entity(c: char) -> Seq<char> {
    if c == '<' {
        "&lt;"@
    } else if c == '>' {
        "&gt;"@
    } else if c == '&' {
        "&amp;"@
    } else {
        seq![c]
    }
}

/// How a character of the value of an attribute is written.
pub open spec fn value_entity(c: char) -> Seq<char> {
    if c == '"' {
        "&quot;"@
    } else if c == '\'' {
        "&apos;"@
    } else if c == '\n' {
        "&#xA;"@
    } else if c == '\r' {
        "&#xD;"@
    } else {
        content_entity(c)
    }
}

/// The content `text` with its markup characters replaced by entities.
pub open spec fn escaped_content(text: Seq<char>) -> Seq<char>
    decreases text.len(),
{
    if text.len() == 0 {
        Seq::empty()
    } else {
        escaped_content(text.drop_last()) + content_entity(text.last())
    }
}

/// The attribute value `text` with its markup characters replaced by entities.
pub open spec fn escaped_value(text: Seq<char>) -> Seq<char>
    decreases text.len(),
{
    if text.len() == 0 {
        Seq::empty()
    } else {
        escaped_value(text.drop_last()) + value_entity(text.last())
    }
}

/// An attribute inside a start tag, with the space before it.
pub open spec fn attribute_text(name: Seq<char>, value: Seq<char>) -> Seq<char> {
    " "@ + name + "=\""@ + escaped_value(value) + "\""@
}

/// The attributes of a start tag in order.
pub open spec fn attributes_text(attributes: Seq<Attribute>) -> Seq<char>
    decreases attributes.len(),
{
    if attributes.len() == 0 {
        Seq::empty()
    } else {
        attributes_text(attributes.drop_last()) + attribute_text(
            attributes.last().name@,
            attributes.last().value@,
        )
    }
}

/// Declares `xml::writer::EventWriter`. What a writer holds is told by the two names
/// below.
#[verifier::external_type_specification]
#[verifier::external_body]
#[verifier::reject_recursive_types(W)]
pub struct ExEventWriter<W>(xml::writer::EventWriter<W>);

/// Declares `xml::writer::Error`, which is carried and not looked into.
#[verifier::external_type_specification]
#[verifier::external_body]
pub struct ExWriterError(xml::writer::Error);

/// The text that a writer has put into its sink.
pub uninterp spec fn written(writer: EventWriter<Vec<u8>>) -> Seq<char>;

/// The elements that a writer has started and not ended, outermost first: the
/// name of each, and whether its start tag still lacks the closing `>`.
pub uninterp spec fn unended(writer: EventWriter<Vec<u8>>) -> Seq<(Seq<char>, bool)>;

/// What precedes the next piece of a document: the declaration in an empty one,
/// and the `>` of a start tag that lacks it.
pub open spec fn lead(text: Seq<char>, open: Seq<(Seq<char>, bool)>) -> Seq<char> {
    if text.len() == 0 {
        DECLARATION@
    } else if open.len() > 0 && open.last().1 {
        ">"@
    } else {
        Seq::empty()
    }
}

/// The unended elements once the innermost start tag has its `>`.
pub open spec fn tagged(open: Seq<(Seq<char>, bool)>) -> Seq<(Seq<char>, bool)> {
    if open.len() == 0 {
        open
    } else {
        open.drop_last().push((open.last().0, false))
    }
}

/// Calls `xml::writer::EventWriter::new` on an empty vector of bytes: a writer
/// with the default configuration, which has written nothing.
#[verifier::external_body]
pub(crate) fn new_writer() -> (r: EventWriter<Vec<u8>>)
    ensures
        written(r) == Seq::<char>::empty(),
        unended(r) == Seq::<(Seq<char>, bool)>::empty(),
{
    EventWriter::new(Vec::new())
}

/// Calls `xml::writer::EventWriter::write` with a start element event that has
/// the given name and attributes: the start tag is written but for its `>`,
/// which comes with what follows. Writing to a vector does not fail.
#[verifier::external_body]
pub(crate) fn write_start(
    writer: &mut EventWriter<Vec<u8>>,
    name: &str,
    attributes: &Vec<Attribute>,
) -> (r: Result<(), xml::writer::Error>)
    ensures
        r is Ok,
        written(*final(writer)) == written(*old(writer)) + lead(
            written(*old(writer)),
            unended(*old(writer)),
        ) + "<"@ + name@ + attributes_text(attributes@),
        unended(*final(writer)) == tagged(unended(*old(writer))).push((name@, true)),
{
    let mut element = xml::writer::XmlEvent::start_element(name);
    for attribute in attributes {
        element = element.attr(attribute.name, attribute.value);
    }
    writer.write(element)
}

/// Calls `xml::writer::EventWriter::write` with a characters event: the text is
/// written with its markup characters escaped. Writing to a vector does not
/// fail.
#[verifier::external_body]
pub(crate) fn write_characters(writer: &mut EventWriter<Vec<u8>>, text: &str) -> (r: Result<
    (),
    xml::writer::Error,
>)
    ensures
        r is Ok,
        written(*final(writer)) == written(*old(writer)) + lead(
            written(*old(writer)),
            unended(*old(writer)),
        ) + escaped_content(text@),
        unended(*final(writer)) == tagged(unended(*old(writer))),
{
    writer.write(xml::writer::XmlEvent::characters(text))
}

/// Calls `xml::writer::EventWriter::write` with an end element event: the
/// innermost element ends, as an empty element if nothing was written in it.
/// The call fails where no element is left to end, so one is asked for.
#[verifier::external_body]
pub(crate) fn write_end(writer: &mut EventWriter<Vec<u8>>) -> (r: Result<(), xml::writer::Error>)
    requires
        unended(*old(writer)).len() > 0,
    ensures
        r is Ok,
        written(*final(writer)) == written(*old(writer)) + (if unended(*old(writer)).last().1 {
            " />"@
        } else {
            "</"@ + unended(*old(writer)).last().0 + ">"@
        }),
        unended(*final(writer)) == unended(*old(writer)).drop_last(),
{
    writer.write(xml::writer::XmlEvent::end_element())
}

/// Calls `xml::writer::EventWriter::into_inner`: the sink holds the written text
/// in UTF-8.
#[verifier::external_body]
pub(crate) fn into_bytes(writer: EventWriter<Vec<u8>>) -> (r: Vec<u8>)
    ensures
        r@ == encode_utf8(written(writer)),
{
    writer.into_inner()
}

/// What a reader of XML makes of the content of an element.
pub open spec fn unescaped_content(text: Seq<char>) -> Seq<char>
    decreases text.len(),
{
    if text.len() == 0 {
        Seq::empty()
    } else if text.len() >= 4 && text.take(4) == "&lt;"@ {
        seq!['<'] + unescaped_content(text.skip(4))
    } else if text.len() >= 4 && text.take(4) == "&gt;"@ {
        seq!['>'] + unescaped_content(text.skip(4))
    } else if text.len() >= 5 && text.take(5) == "&amp;"@ {
        seq!['&'] + unescaped_content(text.skip(5))
    } else {
        seq![text[0]] + unescaped_content(text.skip(1))
    }
}

proof fn lemma_escaped_front(c: char, rest: Seq<char>)
    ensures
        escaped_content(seq![c] + rest) == content_entity(c) + escaped_content(rest),
    decreases rest.len(),
{
    let text = seq![c] + rest;
    if rest.len() == 0 {
        assert(text.drop_last() =~= rest);
        assert(text.last() == c);
        assert(escaped_content(rest) =~= Seq::empty());
        assert(escaped_content(text) =~= content_entity(c) + escaped_content(rest));
    } else {
        lemma_escaped_front(c, rest.drop_last());
        assert(text.drop_last() =~= seq![c] + rest.drop_last());
        assert(escaped_content(text) =~= content_entity(c) + escaped_content(rest));
    }
}

/// Content that was escaped is read as it was before.
pub proof fn content_is_read_back(text: Seq<char>)
    ensures
        unescaped_content(escaped_content(text)) == text,
    decreases text.len(),
{
    if text.len() > 0 {
        let c = text[0];
        let rest = text.skip(1);
        let tail = escaped_content(rest);
        lemma_escaped_front(c, rest);
        content_is_read_back(rest);
        assert(text =~= seq![c] + rest);
        reveal_strlit("&lt;");
        reveal_strlit("&gt;");
        reveal_strlit("&amp;");
        let entity = content_entity(c);
        let whole = entity + tail;
        assert(whole.skip(entity.len() as int) =~= tail);
        assert(whole.take(entity.len() as int) =~= entity);
        if c == '&' {
            assert(whole.take(4)[1] == 'a');
        } else if c != '<' && c != '>' {
            assert(whole[0] == c);
            assert(whole.len() >= 4 ==> whole.take(4)[0] == c);
            assert(whole.len() >= 5 ==> whole.take(5)[0] == c);
        } else if c == '>' {
            assert(whole.take(4)[1] == 'g');
        }
        assert(unescaped_content(whole) =~= text);
    }
}

/// Escaped content cannot start or end a tag.
pub proof fn content_holds_no_tags(text: Seq<char>)
    ensures
        !escaped_content(text).contains('<'),
        !escaped_content(text).contains('>'),
    decreases text.len(),
{
    if text.len() > 0 {
        content_holds_no_tags(text.drop_last());
        reveal_strlit("&lt;");
        reveal_strlit("&gt;");
        reveal_strlit("&amp;");
        let head = escaped_content(text.drop_last());
        let entity = content_entity(text.last());
        assert forall|i: int| 0 <= i < (head + entity).len() implies (head + entity)[i] != '<' && (
        head + entity)[i] != '>' by {
            if i < head.len() {
                assert(head.contains(head[i]));
            } else {
                assert((head + entity)[i] == entity[i - head.len()]);
            }
        }
    }
}

/// Text is escaped piece by piece, and three characters are replaced: all others
/// stay as they are.
pub proof fn content_is_escaped_by_character(first: Seq<char>, second: Seq<char>, c: char)
    ensures
        escaped_content(Seq::empty()) == Seq::<char>::empty(),
        escaped_content(first + second) == escaped_content(first) + escaped_content(second),
        escaped_content(seq!['<']) == "&lt;"@,
        escaped_content(seq!['>']) == "&gt;"@,
        escaped_content(seq!['&']) == "&amp;"@,
        c != '<' && c != '>' && c != '&' ==> escaped_content(seq![c]) == seq![c],
    decreases second.len(),
{
    reveal_with_fuel(escaped_content, 2);
    assert(escaped_content(seq!['<']) =~= "&lt;"@);
    assert(escaped_content(seq!['>']) =~= "&gt;"@);
    assert(escaped_content(seq!['&']) =~= "&amp;"@);
    assert(escaped_content(seq![c]) =~= content_entity(c));
    if second.len() == 0 {
        assert(first + second =~= first);
        assert(escaped_content(first + second) =~= escaped_content(first) + escaped_content(second));
    } else {
        content_is_escaped_by_character(first, second.drop_last(), c);
        assert((first + second).drop_last() =~= first + second.drop_last());
        assert((first + second).last() == second.last());
        assert(escaped_content(first + second) =~= escaped_content(first) + escaped_content(second));
    }
}

/// Content without the three characters is written as it is.
pub proof fn plain_content_stays(text: Seq<char>)
    requires
        !text.contains('<'),
        !text.contains('>'),
        !text.contains('&'),
    ensures
        escaped_content(text) == text,
    decreases text.len(),
{
    if text.len() > 0 {
        let head = text.drop_last();
        assert forall|i: int| 0 <= i < head.len() implies head[i] != '<' && head[i] != '>'
            && head[i] != '&' by {
            assert(text.contains(text[i]));
        }
        assert(text.contains(text.last()));
        plain_content_stays(head);
        assert(escaped_content(text) =~= text);
    }
}

/// A value without markup, quotes and line ends is written as it is.
pub proof fn plain_values_stay(text: Seq<char>)
    requires
        forall|i: int|
            0 <= i < text.len() ==> {
                let c = #[trigger] text[i];
                c != '<' && c != '>' && c != '&' && c != '"' && c != '\'' && c != '\n' && c != '\r'
            },
    ensures
        escaped_value(text) == text,
    decreases text.len(),
{
    if text.len() > 0 {
        let head = text.drop_last();
        assert forall|i: int| 0 <= i < head.len() implies ({
            let c = #[trigger] head[i];
            c != '<' && c != '>' && c != '&' && c != '"' && c != '\'' && c != '\n' && c != '\r'
        }) by {
            assert(head[i] == text[i]);
        }
        assert(text.last() == text[text.len() - 1]);
        plain_values_stay(head);
        assert(escaped_value(text) =~= text);
    }
}

} // verus!
