//! What the texts of the library say, read back from their characters.
use crate::text;
use vstd::prelude::*;

verus! {

/// A list of strings has one text for each string, in order.
pub proof fn law_texts_go_string_by_string(strings: Seq<String>)
    ensures
        text::texts(strings).len() == strings.len(),
        forall|i: int| 0 <= i < strings.len() ==> #[trigger] text::texts(strings)[i] == strings[i]@,
{
}

/// Nothing joins to nothing, and a single part to itself.
pub proof fn law_separator_stands_only_between(part: Seq<char>, separator: Seq<char>)
    ensures
        text::joined(Seq::empty(), separator) == Seq::<char>::empty(),
        text::joined(seq![part], separator) == part,
{
}

/// Two lists join to what each joins to, with one separator between.
pub proof fn law_joining_goes_list_by_list(
    first: Seq<Seq<char>>,
    second: Seq<Seq<char>>,
    separator: Seq<char>,
)
    requires
        first.len() > 0,
        second.len() > 0,
    ensures
        text::joined(first + second, separator) == text::joined(first, separator) + separator
            + text::joined(second, separator),
    decreases second.len(),
{
    let whole = first + second;
    let rest = second.drop_last();
    assert(whole.drop_last() =~= first + rest);
    assert(whole.last() == second.last());
    if rest.len() == 0 {
        assert(whole.drop_last() =~= first);
    } else {
        law_joining_goes_list_by_list(first, rest, separator);
        assert(text::joined(whole, separator) =~= text::joined(first, separator) + separator
            + text::joined(second, separator));
    }
}

/// The number that a row of decimal digits stands for.
pub open spec fn numeral_value(numeral: Seq<char>) -> int
    decreases numeral.len(),
{
    if numeral.len() == 0 {
        0
    } else {
        10 * numeral_value(numeral.drop_last()) + (numeral.last() as int - '0' as int)
    }
}

/// Whether a text is a row of decimal digits with no zero in front, unless it
/// is a zero alone.
pub open spec fn is_plain_numeral(numeral: Seq<char>) -> bool {
    &&& numeral.len() > 0
    &&& forall|i: int| 0 <= i < numeral.len() ==> '0' <= #[trigger] numeral[i] <= '9'
    &&& numeral[0] == '0' ==> numeral.len() == 1
}

proof fn lemma_digit_counts(value: nat)
    requires
        value < 10,
    ensures
        text::digit(value) as int == '0' as int + value,
{
    reveal_strlit("0123456789");
}

proof fn lemma_digits_read_back(value: nat)
    ensures
        is_plain_numeral(text::digits(value)),
        text::digits(value)[0] == '0' <==> value == 0,
        numeral_value(text::digits(value)) == value,
    decreases value,
{
    let numeral = text::digits(value);
    lemma_digit_counts(value % 10);
    if value < 10 {
        assert(value % 10 == value);
        assert(numeral.drop_last() =~= Seq::empty());
        assert(numeral_value(Seq::empty()) == 0);
    } else {
        let rest = text::digits(value / 10);
        lemma_digits_read_back(value / 10);
        assert(numeral.drop_last() =~= rest);
        assert(numeral[0] == rest[0]);
        assert forall|i: int| 0 <= i < numeral.len() implies '0' <= #[trigger] numeral[i] <= '9' by {
            if i < rest.len() {
                assert(numeral[i] == rest[i]);
            }
        }
    }
}

/// A number in decimal reads back as that number: digits alone if it is not
/// negative, and otherwise a minus sign before the digits of its magnitude.
pub proof fn law_decimal_reads_back(value: int)
    ensures
        value >= 0 ==> is_plain_numeral(text::decimal(value)) && numeral_value(text::decimal(value))
            == value,
        value < 0 ==> {
            &&& text::decimal(value).len() > 0
            &&& text::decimal(value)[0] == '-'
            &&& is_plain_numeral(text::decimal(value).skip(1))
            &&& numeral_value(text::decimal(value).skip(1)) == -value
        },
{
    if value >= 0 {
        lemma_digits_read_back(value as nat);
    } else {
        reveal_strlit("-");
        lemma_digits_read_back((-value) as nat);
        assert(text::decimal(value).skip(1) =~= text::digits((-value) as nat));
    }
}

} // verus!
