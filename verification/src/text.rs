//! Text building and searching shared by the other modules.

use vstd::prelude::*;
use vstd::utf8::{decode_utf8, valid_utf8};

verus! {

/// The contents of a list of strings.
pub open spec fn texts(list: Seq<String>) -> Seq<Seq<char>> {
    list.map_values(|s: String| s@)
}

/// The character of a decimal digit.
pub open spec fn digit_char(digit: nat) -> char {
    ('0' as nat + digit) as char
}

/// A number in decimal, without sign or leading zeros.
pub open spec fn decimal_text(number: nat) -> Seq<char>
    decreases number,
{
    if number < 10 {
        seq![digit_char(number)]
    } else {
        decimal_text(number / 10).push(digit_char(number % 10))
    }
}

/// Whether `needle` occurs in `text` at some position.
pub open spec fn has_part(text: Seq<char>, needle: Seq<char>) -> bool {
    exists|at: int| part_at(text, needle, at)
}

/// Whether `needle` occurs in `text` at position `at`.
pub open spec fn part_at(text: Seq<char>, needle: Seq<char>, at: int) -> bool {
    &&& 0 <= at
    &&& at + needle.len() <= text.len()
    &&& text.subrange(at, at + needle.len()) == needle
}

fn digit(value: u64) -> (r: &'static str)
    requires
        value < 10,
    ensures
        r@ == seq![digit_char(value as nat)],
{
    proof {
        reveal_strlit("0");
        reveal_strlit("1");
        reveal_strlit("2");
        reveal_strlit("3");
        reveal_strlit("4");
        reveal_strlit("5");
        reveal_strlit("6");
        reveal_strlit("7");
        reveal_strlit("8");
        reveal_strlit("9");
    }
    match value {
        0 => "0",
        1 => "1",
        2 => "2",
        3 => "3",
        4 => "4",
        5 => "5",
        6 => "6",
        7 => "7",
        8 => "8",
        _ => "9",
    }
}

/// Writes `number` in decimal.
pub fn decimal(number: u64) -> (r: String)
    ensures
        r@ == decimal_text(number as nat),
    decreases number,
{
    if number < 10 {
        String::from_str(digit(number))
    } else {
        let mut head = decimal(number / 10);
        head.append(digit(number % 10));
        assert(head@ =~= decimal_text((number / 10) as nat).push(digit_char((number % 10) as nat)));
        head
    }
}

/// Different numbers are written differently.
pub proof fn decimals_tell_numbers_apart(first: nat, second: nat)
    requires
        decimal_text(first) == decimal_text(second),
    ensures
        first == second,
    decreases first,
{
    let text = decimal_text(first);
    assert(text.last() == digit_char(first % 10));
    assert(text.last() == digit_char(second % 10));
    assert(first >= 10 ==> decimal_text(first / 10).len() > 0);
    assert(second >= 10 ==> decimal_text(second / 10).len() > 0);
    if first >= 10 && second >= 10 {
        assert(text.drop_last() =~= decimal_text(first / 10));
        assert(text.drop_last() =~= decimal_text(second / 10));
        decimals_tell_numbers_apart(first / 10, second / 10);
    }
}

/// Declares `std::string::FromUtf8Error`, which is carried and not looked into.
#[verifier::external_type_specification]
#[verifier::external_body]
pub struct ExFromUtf8Error(std::string::FromUtf8Error);

/// Calls `std::string::String::from_utf8`: it succeeds on valid UTF-8 and on
/// nothing else, and gives the text that the bytes encode.
#[verifier::external_body]
pub(crate) fn from_utf8(bytes: Vec<u8>) -> (r: Result<String, std::string::FromUtf8Error>)
    ensures
        r is Ok <==> valid_utf8(bytes@),
        r is Ok ==> r->Ok_0@ == decode_utf8(bytes@),
{
    String::from_utf8(bytes)
}

/// The text that is made of bytes which need not be UTF-8.
pub uninterp spec fn lossy_text(bytes: Seq<u8>) -> Seq<char>;

/// Calls `std::string::String::from_utf8_lossy`: valid UTF-8 gives the text that
/// it encodes; what becomes of other bytes is named and not described.
#[verifier::external_body]
pub(crate) fn from_utf8_lossy(bytes: &[u8]) -> (r: String)
    ensures
        r@ == lossy_text(bytes@),
        valid_utf8(bytes@) ==> r@ == decode_utf8(bytes@),
{
    String::from_utf8_lossy(bytes).into_owned()
}

/// Calls `str::contains`: whether one text occurs in another.
#[verifier::external_body]
pub(crate) fn contains(text: &str, needle: &str) -> (r: bool)
    ensures
        r == has_part(text@, needle@),
{
    text.contains(needle)
}

/// What a text of digits stands for.
pub open spec fn number_of(text: Seq<char>) -> int
    decreases text.len(),
{
    if text.len() == 0 {
        0
    } else {
        number_of(text.drop_last()) * 10 + (text.last() as int - '0' as int)
    }
}

/// A number in decimal is made of digits, is read as that number, and has no
/// leading zero.
pub proof fn decimals_are_read_back(number: nat)
    ensures
        decimal_text(number).len() > 0,
        forall|i: int|
            0 <= i < decimal_text(number).len() ==> '0' <= #[trigger] decimal_text(number)[i]
                <= '9',
        number_of(decimal_text(number)) == number,
        decimal_text(number)[0] == '0' ==> decimal_text(number).len() == 1,
    decreases number,
{
    let text = decimal_text(number);
    if number < 10 {
        assert(text.drop_last() =~= Seq::empty());
        assert(number_of(text.drop_last()) == 0);
    } else {
        let head = decimal_text(number / 10);
        decimals_are_read_back(number / 10);
        assert(text.drop_last() =~= head);
        assert forall|i: int| 0 <= i < text.len() implies '0' <= #[trigger] text[i] <= '9' by {
            if i < head.len() {
                assert(text[i] == head[i]);
            }
        }
        if head[0] == '0' {
            assert(head.drop_last() =~= Seq::empty());
            assert(number_of(head.drop_last()) == 0);
            assert(number_of(head) == 0);
        }
        assert(text[0] == head[0]);
    }
}

/// The contents of a list are those of its strings, each in its place.
pub proof fn lists_keep_their_strings(list: Seq<String>, i: int)
    requires
        0 <= i < list.len(),
    ensures
        texts(list).len() == list.len(),
        texts(list)[i] == list[i]@,
{
}

/// A text has a part if and only if it is made of that part, with something before
/// and behind it.
pub proof fn parts_stand_in_texts(text: Seq<char>, needle: Seq<char>)
    ensures
        has_part(text, needle) <==> exists|before: Seq<char>, after: Seq<char>|
            text == #[trigger] (before + needle + after),
{
    if has_part(text, needle) {
        let at = choose|at: int| part_at(text, needle, at);
        let before = text.take(at);
        let after = text.skip(at + needle.len());
        assert(text =~= before + needle + after);
    }
    if exists|before: Seq<char>, after: Seq<char>| text == #[trigger] (before + needle + after) {
        let (before, after) = choose|before: Seq<char>, after: Seq<char>|
            text == #[trigger] (before + needle + after);
        assert(text.subrange(before.len() as int, (before.len() + needle.len()) as int)
            =~= needle);
        assert(part_at(text, needle, before.len() as int));
    }
}

} // verus!
