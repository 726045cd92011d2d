//! What a tool wrote to its error stream, and the message made of it.
use crate::text;
use vstd::prelude::*;

verus! {

/// Bytes read as UTF-8 with every malformed sequence replaced, as
/// `String::from_utf8_lossy` reads them.
pub uninterp spec fn utf8_lossy(bytes: Seq<u8>) -> Seq<char>;

/// Whether a character has the Unicode property `White_Space`.
pub open spec fn white_space(character: char) -> bool {
    let code = character as u32;
    ||| 0x9 <= code <= 0xd
    ||| code == 0x20
    ||| code == 0x85
    ||| code == 0xa0
    ||| code == 0x1680
    ||| 0x2000 <= code <= 0x200a
    ||| code == 0x2028
    ||| code == 0x2029
    ||| code == 0x202f
    ||| code == 0x205f
    ||| code == 0x3000
}

/// A text without its leading white space.
pub open spec fn without_leading_space(whole: Seq<char>) -> Seq<char>
    decreases whole.len(),
{
    if whole.len() > 0 && white_space(whole.first()) {
        without_leading_space(whole.drop_first())
    } else {
        whole
    }
}

/// A text without its trailing white space.
pub open spec fn without_trailing_space(whole: Seq<char>) -> Seq<char>
    decreases whole.len(),
{
    if whole.len() > 0 && white_space(whole.last()) {
        without_trailing_space(whole.drop_last())
    } else {
        whole
    }
}

/// A text without the white space around it.
pub open spec fn trimmed(whole: Seq<char>) -> Seq<char> {
    without_trailing_space(without_leading_space(whole))
}

/// Reads bytes as text with `String::from_utf8_lossy`. Valid UTF-8 is read as
/// what it encodes; which replacements a malformed sequence gets is left to the
/// name.
#[verifier::external_body]
fn read_utf8_lossy(bytes: &[u8]) -> (read: String)
    ensures
        read@ == utf8_lossy(bytes@),
        vstd::utf8::valid_utf8(bytes@) ==> read@ == vstd::utf8::decode_utf8(bytes@),
{
    String::from_utf8_lossy(bytes).into_owned()
}

/// Removes the white space around a text with `str::trim`: everything that has
/// the Unicode property `White_Space`, from both ends.
#[verifier::external_body]
fn trim(whole: &str) -> (rest: &str)
    ensures
        rest@ == trimmed(whole@),
{
    whole.trim()
}

/// The message for a patch that could not be written: the error, followed by
/// what the error stream holds, if it holds anything.
pub open spec fn write_failure_message(error: Seq<char>, stderr: Seq<char>) -> Seq<char> {
    if stderr.len() == 0 {
        "failed to apply patch: "@ + error
    } else {
        "failed to apply patch: "@ + error + ": "@ + stderr
    }
}

/// The message for a patch that could not be written, from the error and the
/// trimmed text of the error stream.
pub fn write_failure_text(error: &str, stderr: &str) -> (message: String)
    ensures
        message@ == write_failure_message(error@, stderr@),
{
    let mut message: String = text::concatenate("failed to apply patch: ", error);
    if !stderr.is_empty() {
        message.append(": ");
        message.append(stderr);
    }
    message
}

/// The message for a patch that could not be written, from the error and the
/// bytes of the error stream.
pub fn describe_write_failure(error: &str, stderr: &[u8]) -> (message: String)
    ensures
        message@ == write_failure_message(error@, trimmed(utf8_lossy(stderr@))),
        vstd::utf8::valid_utf8(stderr@) ==> message@ == write_failure_message(
            error@,
            trimmed(vstd::utf8::decode_utf8(stderr@)),
        ),
{
    let read: String = read_utf8_lossy(stderr);
    write_failure_text(error, trim(read.as_str()))
}

/// Whether a text holds nothing but white space.
pub open spec fn is_blank(whole: Seq<char>) -> bool {
    forall|i: int| 0 <= i < whole.len() ==> white_space(#[trigger] whole[i])
}

proof fn lemma_leading_space_goes(whole: Seq<char>)
    ensures
        without_leading_space(whole).len() == 0 <==> is_blank(whole),
        without_leading_space(whole).len() > 0 ==> !white_space(
            without_leading_space(whole).first(),
        ),
    decreases whole.len(),
{
    if whole.len() > 0 && white_space(whole.first()) {
        let rest = whole.drop_first();
        lemma_leading_space_goes(rest);
        assert forall|i: int| is_blank(rest) && 0 <= i < whole.len() implies white_space(
            #[trigger] whole[i],
        ) by {
            if i > 0 {
                assert(white_space(rest[i - 1]));
            }
        }
        assert forall|i: int| is_blank(whole) && 0 <= i < rest.len() implies white_space(
            #[trigger] rest[i],
        ) by {
            assert(white_space(whole[i + 1]));
        }
    } else if whole.len() > 0 {
        assert(!white_space(whole[0]));
    }
}

proof fn lemma_trailing_space_goes(whole: Seq<char>)
    requires
        whole.len() > 0,
        !white_space(whole.first()),
    ensures
        without_trailing_space(whole).len() > 0,
        without_trailing_space(whole).first() == whole.first(),
        !white_space(without_trailing_space(whole).last()),
    decreases whole.len(),
{
    if white_space(whole.last()) {
        assert(whole.drop_last().first() == whole.first());
        lemma_trailing_space_goes(whole.drop_last());
    }
}

/// Trimming leaves nothing of a text exactly if the text is blank; what it
/// leaves of any other text begins and ends with something else than white
/// space.
pub proof fn law_trimmed_text_is_bare(whole: Seq<char>)
    ensures
        trimmed(whole).len() == 0 <==> is_blank(whole),
        trimmed(whole).len() > 0 ==> !white_space(trimmed(whole).first()) && !white_space(
            trimmed(whole).last(),
        ),
{
    lemma_leading_space_goes(whole);
    if !is_blank(whole) {
        lemma_trailing_space_goes(without_leading_space(whole));
    }
}

/// An error stream that holds nothing but white space is left out of the
/// message; any other is named in it.
pub proof fn law_blank_error_stream_is_left_out(error: Seq<char>, stderr: Seq<char>)
    ensures
        write_failure_message(error, trimmed(stderr)) == if is_blank(stderr) {
            "failed to apply patch: "@ + error
        } else {
            "failed to apply patch: "@ + error + ": "@ + trimmed(stderr)
        },
{
    law_trimmed_text_is_bare(stderr);
}

/// The message for a patch that could not be written names the error, and what
/// the error stream holds behind it, if it holds anything.
pub proof fn law_write_failure_names_error_and_stream(error: Seq<char>, stderr: Seq<char>)
    ensures
        stderr.len() == 0 ==> write_failure_message(error, stderr) == "failed to apply patch: "@
            + error,
        stderr.len() > 0 ==> write_failure_message(error, stderr) == "failed to apply patch: "@
            + error + ": "@ + stderr,
{
}

proof fn lemma_leading_space_comes_first(whole: Seq<char>) -> (lead: Seq<char>)
    ensures
        is_blank(lead),
        whole == lead + without_leading_space(whole),
    decreases whole.len(),
{
    if whole.len() > 0 && white_space(whole.first()) {
        let rest = lemma_leading_space_comes_first(whole.drop_first());
        let lead = seq![whole.first()] + rest;
        assert forall|i: int| 0 <= i < lead.len() implies white_space(#[trigger] lead[i]) by {
            if i > 0 {
                assert(lead[i] == rest[i - 1]);
            }
        }
        assert(whole =~= seq![whole.first()] + whole.drop_first());
        assert(whole =~= lead + without_leading_space(whole));
        lead
    } else {
        assert(whole =~= Seq::empty() + whole);
        Seq::empty()
    }
}

proof fn lemma_trailing_space_comes_last(whole: Seq<char>) -> (tail: Seq<char>)
    ensures
        is_blank(tail),
        whole == without_trailing_space(whole) + tail,
    decreases whole.len(),
{
    if whole.len() > 0 && white_space(whole.last()) {
        let rest = lemma_trailing_space_comes_last(whole.drop_last());
        let tail = rest.push(whole.last());
        assert forall|i: int| 0 <= i < tail.len() implies white_space(#[trigger] tail[i]) by {
            if i < rest.len() {
                assert(tail[i] == rest[i]);
            }
        }
        assert(whole =~= whole.drop_last().push(whole.last()));
        assert(whole =~= without_trailing_space(whole) + tail);
        tail
    } else {
        assert(whole =~= whole + Seq::empty());
        Seq::empty()
    }
}

/// Trimming takes away white space at the two ends and nothing else: the text is
/// what is left of it between two blank texts.
pub proof fn law_trimming_takes_only_space_at_the_ends(whole: Seq<char>)
    ensures
        exists|lead: Seq<char>, tail: Seq<char>|
            #[trigger] is_blank(lead) && #[trigger] is_blank(tail) && whole == lead + trimmed(whole)
                + tail,
{
    let lead = lemma_leading_space_comes_first(whole);
    let tail = lemma_trailing_space_comes_last(without_leading_space(whole));
    assert(whole =~= lead + trimmed(whole) + tail);
    assert(is_blank(lead) && is_blank(tail));
}

/// Blanks, tabs and line ends are white space; letters, digits and signs are not.
pub proof fn law_printed_characters_are_no_white_space(character: char)
    ensures
        '!' <= character <= '~' ==> !white_space(character),
        character == ' ' || character == '\t' || character == '\n' || character == '\r'
            ==> white_space(character),
{
}

} // verus!
