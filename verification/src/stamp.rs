//! Fresh names and times for approval requests.
use crate::clock;
use crate::text;
use uuid::Uuid;
use vstd::prelude::*;

verus! {

/// The number that the first `count` of the 32 hexadecimal digits of a number
/// of 128 bits stand for.
pub open spec fn leading(bits: u128, count: int) -> int {
    bits as int / vstd::arithmetic::power::pow(16, (32 - count) as nat)
}

/// The `index`-th of the 32 hexadecimal digits of a number of 128 bits, counted
/// from the most significant one.
pub open spec fn nibble(bits: u128, index: int) -> int {
    leading(bits, index + 1) % 16
}

/// Whether a number of 128 bits is a random (version 4) UUID of the standard
/// variant.
pub open spec fn is_random_uuid(bits: u128) -> bool {
    nibble(bits, 12) == 4 && 8 <= nibble(bits, 16) <= 11
}

/// Whether a hyphen stands at a position of a UUID's text.
pub open spec fn is_hyphen(position: int) -> bool {
    position == 8 || position == 13 || position == 18 || position == 23
}

/// Which of the hexadecimal digits stands at a position of a UUID's text that
/// holds no hyphen.
pub open spec fn digit_at(position: int) -> int {
    if position < 8 {
        position
    } else if position < 13 {
        position - 1
    } else if position < 18 {
        position - 2
    } else if position < 23 {
        position - 3
    } else {
        position - 4
    }
}

/// A UUID as text: its digits in lower case, in groups of eight, four, four,
/// four and twelve, with hyphens between the groups.
pub open spec fn hyphenated(bits: u128) -> Seq<char> {
    Seq::new(
        36,
        |position: int|
            if is_hyphen(position) {
                '-'
            } else {
                "0123456789abcdef"@[nibble(bits, digit_at(position))]
            },
    )
}

/// Draws a random UUID with `Uuid::new_v4`. Of the bits drawn only the version
/// and the variant are promised. `Uuid::new_v4` panics if the operating system
/// has no random bytes to give.
#[verifier::external_body]
fn random_uuid() -> (bits: u128)
    ensures
        is_random_uuid(bits),
{
    Uuid::new_v4().as_u128()
}

/// Writes a UUID out with the `Display` of `Uuid`, which is its hyphenated
/// form in lower case.
#[verifier::external_body]
fn uuid_text(bits: u128) -> (written: String)
    ensures
        written@ == hyphenated(bits),
{
    Uuid::from_u128(bits).to_string()
}

/// What makes an approval request one of its kind: a random UUID and the time
/// at which the request was made.
#[derive(Clone, Copy, Debug, PartialEq, Eq)]
pub struct ApprovalStamp {
    /// The bits of the UUID.
    pub uuid: u128,
    /// The time in Unix milliseconds.
    pub started_at_ms: i64,
}

/// The id of the file-change item of a standalone patch.
pub open spec fn item_id(uuid: u128) -> Seq<char> {
    "codex-apply-patch-"@ + hyphenated(uuid)
}

impl ApprovalStamp {
    /// A stamp with a random UUID and the current time.
    pub fn fresh() -> (stamp: ApprovalStamp)
        ensures
            is_random_uuid(stamp.uuid),
            exists|time: std::time::SystemTime|
                stamp.started_at_ms == clock::timestamp_ms(
                    #[trigger] clock::millis_since_epoch(time),
                ),
    {
        ApprovalStamp { uuid: random_uuid(), started_at_ms: clock::now_unix_timestamp_ms() }
    }

    /// The item id that the stamp gives.
    pub fn item_id(&self) -> (id: String)
        ensures
            id@ == item_id(self.uuid),
    {
        text::concatenate("codex-apply-patch-", uuid_text(self.uuid).as_str())
    }
}

proof fn lemma_hex_digits_differ(left: int, right: int)
    requires
        0 <= left < 16,
        0 <= right < 16,
        "0123456789abcdef"@[left] == "0123456789abcdef"@[right],
    ensures
        left == right,
{
    reveal_strlit("0123456789abcdef");
}

proof fn lemma_leading_by_digits(bits: u128, count: int)
    requires
        0 <= count < 32,
    ensures
        leading(bits, count + 1) == leading(bits, count) * 16 + nibble(bits, count),
{
    let step = vstd::arithmetic::power::pow(16, (31 - count) as nat);
    vstd::arithmetic::power::lemma_pow_positive(16, (31 - count) as nat);
    reveal(vstd::arithmetic::power::pow);
    assert(vstd::arithmetic::power::pow(16, (32 - count) as nat) == 16 * step);
    vstd::arithmetic::div_mod::lemma_div_denominator(bits as int, step, 16);
    assert(step * 16 == 16 * step);
}

proof fn lemma_leading_of_none(bits: u128)
    ensures
        leading(bits, 0) == 0,
{
    reveal_with_fuel(vstd::arithmetic::power::pow, 33);
    assert(vstd::arithmetic::power::pow(16, 32) == u128::MAX + 1);
    vstd::arithmetic::div_mod::lemma_basic_div(bits as int, u128::MAX + 1);
}

proof fn lemma_leading_of_all(bits: u128)
    ensures
        leading(bits, 32) == bits,
{
    reveal(vstd::arithmetic::power::pow);
}

proof fn lemma_equal_text_equal_leading(left: u128, right: u128, count: int)
    requires
        hyphenated(left) == hyphenated(right),
        0 <= count <= 32,
    ensures
        leading(left, count) == leading(right, count),
    decreases count,
{
    if count == 0 {
        lemma_leading_of_none(left);
        lemma_leading_of_none(right);
    } else {
        let index = count - 1;
        lemma_equal_text_equal_leading(left, right, index);
        let position = if index < 8 {
            index
        } else if index < 12 {
            index + 1
        } else if index < 16 {
            index + 2
        } else if index < 20 {
            index + 3
        } else {
            index + 4
        };
        assert(digit_at(position) == index && !is_hyphen(position));
        assert(hyphenated(left)[position] == "0123456789abcdef"@[nibble(left, index)]);
        assert(hyphenated(right)[position] == "0123456789abcdef"@[nibble(right, index)]);
        lemma_hex_digits_differ(nibble(left, index), nibble(right, index));
        lemma_leading_by_digits(left, index);
        lemma_leading_by_digits(right, index);
    }
}

/// Stamps with different UUIDs give different item ids.
pub proof fn law_item_ids_tell_uuids_apart(left: u128, right: u128)
    requires
        left != right,
    ensures
        item_id(left) != item_id(right),
{
    if item_id(left) == item_id(right) {
        let lead = "codex-apply-patch-"@;
        assert(hyphenated(left) =~= item_id(left).skip(lead.len() as int));
        assert(hyphenated(right) =~= item_id(right).skip(lead.len() as int));
        lemma_equal_text_equal_leading(left, right, 32);
        lemma_leading_of_all(left);
        lemma_leading_of_all(right);
    }
}

/// The value of a hexadecimal digit in lower case.
pub open spec fn hex_value(digit: char) -> int {
    if '0' <= digit <= '9' {
        digit as int - '0' as int
    } else {
        digit as int - 'a' as int + 10
    }
}

/// The number that the first `count` characters of a text stand for in
/// hexadecimal, hyphens aside.
pub open spec fn hex_prefix(written: Seq<char>, count: int) -> int
    decreases count,
{
    if count <= 0 {
        0
    } else if written[count - 1] == '-' {
        hex_prefix(written, count - 1)
    } else {
        hex_prefix(written, count - 1) * 16 + hex_value(written[count - 1])
    }
}

proof fn lemma_hex_digit_counts(value: int)
    requires
        0 <= value < 16,
    ensures
        hex_value("0123456789abcdef"@[value]) == value,
        ({
            let digit = "0123456789abcdef"@[value];
            '0' <= digit <= '9' || 'a' <= digit <= 'f'
        }),
{
    reveal_strlit("0123456789abcdef");
}

/// How many digits stand before a position of a UUID's text.
spec fn digits_before(position: int) -> int {
    if position <= 8 {
        position
    } else if position <= 13 {
        position - 1
    } else if position <= 18 {
        position - 2
    } else if position <= 23 {
        position - 3
    } else {
        position - 4
    }
}

proof fn lemma_hex_prefix(bits: u128, count: int)
    requires
        0 <= count <= 36,
    ensures
        hex_prefix(hyphenated(bits), count) == leading(bits, digits_before(count)),
    decreases count,
{
    if count == 0 {
        lemma_leading_of_none(bits);
    } else {
        let position = count - 1;
        lemma_hex_prefix(bits, position);
        if !is_hyphen(position) {
            let index = digit_at(position);
            assert(index == digits_before(position));
            lemma_leading_by_digits(bits, index);
            lemma_hex_digit_counts(nibble(bits, index));
        }
    }
}

/// The item id of a UUID is a fixed lead followed by the UUID as text. That text
/// has five groups of digits with hyphens between, and read in hexadecimal it
/// gives the UUID back.
pub proof fn law_item_id_spells_the_uuid(uuid: u128)
    ensures
        item_id(uuid) == "codex-apply-patch-"@ + hyphenated(uuid),
        hyphenated(uuid).len() == 36,
        forall|i: int|
            0 <= i < 36 ==> {
                let character = #[trigger] hyphenated(uuid)[i];
                if i == 8 || i == 13 || i == 18 || i == 23 {
                    character == '-'
                } else {
                    '0' <= character <= '9' || 'a' <= character <= 'f'
                }
            },
        hex_prefix(hyphenated(uuid), 36) == uuid,
{
    lemma_hex_prefix(uuid, 36);
    lemma_leading_of_all(uuid);
    assert forall|i: int| 0 <= i < 36 implies {
        let character = #[trigger] hyphenated(uuid)[i];
        if i == 8 || i == 13 || i == 18 || i == 23 {
            character == '-'
        } else {
            '0' <= character <= '9' || 'a' <= character <= 'f'
        }
    } by {
        if !is_hyphen(i) {
            lemma_hex_digit_counts(nibble(uuid, digit_at(i)));
        }
    }
}

/// A random UUID has the version four in its thirteenth digit, and the two
/// highest bits of its seventeenth are one and zero.
pub proof fn law_random_uuid_shows_version_and_variant(uuid: u128)
    ensures
        is_random_uuid(uuid) <==> uuid as int / 0x1000_0000_0000_0000_0000 % 16 == 4 && uuid as int
            / 0x1000_0000_0000_0000 % 16 / 4 == 2,
{
    reveal_with_fuel(vstd::arithmetic::power::pow, 20);
    assert(vstd::arithmetic::power::pow(16, 19) == 0x1000_0000_0000_0000_0000);
    assert(vstd::arithmetic::power::pow(16, 15) == 0x1000_0000_0000_0000);
}

} // verus!
