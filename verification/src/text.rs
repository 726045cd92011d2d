//! Texts: concatenation, joining, decimal numbers.
use vstd::prelude::*;

verus! {

/// The parts in order, with `separator` between neighbours.
pub open spec fn joined(parts: Seq<Seq<char>>, separator: Seq<char>) -> Seq<char>
    decreases parts.len(),
{
    if parts.len() == 0 {
        Seq::empty()
    } else if parts.len() == 1 {
        parts.last()
    } else {
        joined(parts.drop_last(), separator) + separator + parts.last()
    }
}

/// The decimal digit of a value below ten.
pub open spec fn digit(value: nat) -> char {
    "0123456789"@[value as int]
}

/// A natural number in decimal, without leading zeros.
pub open spec fn digits(value: nat) -> Seq<char>
    decreases value,
{
    if value < 10 {
        seq![digit(value)]
    } else {
        digits(value / 10).push(digit(value % 10))
    }
}

/// An integer in decimal, with a leading minus sign if it is negative.
pub open spec fn decimal(value: int) -> Seq<char> {
    if value < 0 {
        "-"@ + digits((-value) as nat)
    } else {
        digits(value as nat)
    }
}

/// The texts of a list of strings.
pub open spec fn texts(strings: Seq<String>) -> Seq<Seq<char>> {
    strings.map_values(|s: String| s@)
}

/// `left` followed by `right`.
pub fn concatenate(left: &str, right: &str) -> (whole: String)
    ensures
        whole@ == left@ + right@,
{
    let mut whole: String = left.to_owned();
    whole.append(right);
    whole
}

/// The same strings once more.
pub fn copy_all(strings: &Vec<String>) -> (copies: Vec<String>)
    ensures
        texts(copies@) == texts(strings@),
{
    let mut copies: Vec<String> = Vec::new();
    let mut i: usize = 0;
    while i < strings.len()
        invariant
            i <= strings.len(),
            texts(copies@) == texts(strings@).take(i as int),
        decreases strings.len() - i,
    {
        let ghost before = copies@;
        copies.push(strings[i].clone());
        proof {
            assert(texts(copies@) =~= texts(before).push(strings@[i as int]@));
            assert(texts(strings@).take(i + 1) =~= texts(strings@).take(i as int).push(
                strings@[i as int]@,
            ));
        }
        i = i + 1;
    }
    assert(texts(strings@).take(strings@.len() as int) =~= texts(strings@));
    copies
}

/// The strings in order, with `separator` between neighbours.
pub fn join(parts: &Vec<String>, separator: &str) -> (whole: String)
    ensures
        whole@ == joined(texts(parts@), separator@),
{
    let mut whole: String = String::new();
    let mut i: usize = 0;
    while i < parts.len()
        invariant
            i <= parts.len(),
            whole@ == joined(texts(parts@).take(i as int), separator@),
        decreases parts.len() - i,
    {
        if i > 0 {
            whole.append(separator);
        }
        whole.append(parts[i].as_str());
        proof {
            let next = texts(parts@).take(i + 1);
            assert(next.drop_last() =~= texts(parts@).take(i as int));
            assert(next.last() == parts@[i as int]@);
            if i == 0 {
                assert(Seq::<char>::empty() + next.last() =~= next.last());
            }
        }
        i = i + 1;
    }
    assert(texts(parts@).take(parts@.len() as int) =~= texts(parts@));
    whole
}

fn push_digit(out: &mut String, value: u32)
    requires
        value < 10,
    ensures
        final(out)@ == old(out)@.push(digit(value as nat)),
{
    let numeral: &str = match value {
        0 => "0",
        1 => "1",
        2 => "2",
        3 => "3",
        4 => "4",
        5 => "5",
        6 => "6",
        7 => "7",
        8 => "8",
        _ => "9",
    };
    proof {
        reveal_strlit("0123456789");
        reveal_strlit("0");
        reveal_strlit("1");
        reveal_strlit("2");
        reveal_strlit("3");
        reveal_strlit("4");
        reveal_strlit("5");
        reveal_strlit("6");
        reveal_strlit("7");
        reveal_strlit("8");
        reveal_strlit("9");
        assert(numeral@ =~= seq![digit(value as nat)]);
    }
    out.append(numeral);
    assert(out@ =~= old(out)@.push(digit(value as nat)));
}

fn push_digits(out: &mut String, value: u32)
    ensures
        final(out)@ == old(out)@ + digits(value as nat),
    decreases value,
{
    if value >= 10 {
        push_digits(out, value / 10);
        push_digit(out, value % 10);
    } else {
        push_digit(out, value);
    }
    assert(out@ =~= old(out)@ + digits(value as nat));
}

/// `value` in decimal.
pub fn decimal_text(value: i32) -> (numeral: String)
    ensures
        numeral@ == decimal(value as int),
{
    let mut numeral: String = String::new();
    if value < 0 {
        numeral.append("-");
        let magnitude: u32 = (-(value as i64)) as u32;
        push_digits(&mut numeral, magnitude);
    } else {
        push_digits(&mut numeral, value as u32);
    }
    assert(numeral@ =~= decimal(value as int));
    numeral
}

} // verus!
