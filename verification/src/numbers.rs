//! Directory names as numbers, and numbers as directory names.

use vstd::prelude::*;
use vstd::string::*;
use crate::entry::{Entry, EntryKind};

verus! {

/// Whether `c` is one of the ten decimal digits.
pub open spec fn is_digit(c: char) -> bool {
    '0' <= c && c <= '9'
}

/// The value of a decimal digit.
pub open spec fn digit_value(c: char) -> nat {
    (c as u32 - '0' as u32) as nat
}

/// Whether every character of `s` is a decimal digit.
pub open spec fn all_digits(s: Seq<char>) -> bool {
    forall|i: int| 0 <= i < s.len() ==> is_digit(#[trigger] s[i])
}

/// The number that a sequence of decimal digits writes, most significant digit first.
pub open spec fn digits_value(s: Seq<char>) -> nat
    decreases s.len(),
{
    if s.len() == 0 {
        0
    } else {
        digits_value(s.drop_last()) * 10 + digit_value(s.last())
    }
}

/// A name without the plus sign that may stand in front of its digits.
pub open spec fn unsigned_part(s: Seq<char>) -> Seq<char> {
    if s.len() > 0 && s[0] == '+' {
        s.subrange(1, s.len() as int)
    } else {
        s
    }
}

/// The number that a name writes, if it writes one: an optional plus sign, then at least one
/// decimal digit and nothing else, the whole no greater than `u32::MAX`.
pub open spec fn numeric_value(s: Seq<char>) -> Option<u32> {
    let digits = unsigned_part(s);
    if digits.len() > 0 && all_digits(digits) && digits_value(digits) <= u32::MAX {
        Some(digits_value(digits) as u32)
    } else {
        None
    }
}

/// The number a directory name counts as: the number it writes, and 0 where it writes none.
pub open spec fn name_number(s: Seq<char>) -> u32 {
    match numeric_value(s) {
        Some(n) => n,
        None => 0,
    }
}

/// The greatest number among the names of the directories in a listing; 0 where none of them
/// writes a number, and where there is no directory.
pub open spec fn max_number(entries: Seq<Entry>) -> u32
    decreases entries.len(),
{
    if entries.len() == 0 {
        0
    } else {
        let rest = max_number(entries.drop_last());
        let last = name_number(entries.last().name@);
        if entries.last().is_directory() && last > rest {
            last
        } else {
            rest
        }
    }
}

/// The character of a decimal digit.
pub open spec fn digit_char(d: nat) -> char {
    if d == 0 {
        '0'
    } else if d == 1 {
        '1'
    } else if d == 2 {
        '2'
    } else if d == 3 {
        '3'
    } else if d == 4 {
        '4'
    } else if d == 5 {
        '5'
    } else if d == 6 {
        '6'
    } else if d == 7 {
        '7'
    } else if d == 8 {
        '8'
    } else {
        '9'
    }
}

/// A number in decimal, without leading zeros.
pub open spec fn decimal(n: nat) -> Seq<char>
    decreases n,
{
    if n < 10 {
        seq![digit_char(n)]
    } else {
        decimal(n / 10).push(digit_char(n % 10))
    }
}

/// A number in decimal, with a zero in front where it has a single digit.
pub open spec fn two_digits(n: nat) -> Seq<char> {
    if n < 10 {
        seq!['0'] + decimal(n)
    } else {
        decimal(n)
    }
}

/// Reads a name as a number.
pub fn parse_number(name: &str) -> (r: Option<u32>)
    ensures
        r == numeric_value(name@),
{
    let len: usize = name.unicode_len();
    let mut start: usize = 0;
    if len > 0 && name.get_char(0) == '+' {
        start = 1;
    }
    let ghost digits = unsigned_part(name@);
    assert(digits =~= name@.subrange(start as int, len as int));
    if start == len {
        return None;
    }
    let mut value: u64 = 0;
    let mut too_large = false;
    let mut i: usize = start;
    while i < len
        invariant
            start <= i <= len,
            len == name@.len(),
            digits == unsigned_part(name@),
            digits == name@.subrange(start as int, len as int),
            all_digits(name@.subrange(start as int, i as int)),
            !too_large ==> value == digits_value(name@.subrange(start as int, i as int)) && value
                <= u32::MAX,
            too_large ==> digits_value(name@.subrange(start as int, i as int)) > u32::MAX,
        decreases len - i,
    {
        let c = name.get_char(i);
        let ghost before = name@.subrange(start as int, i as int);
        let ghost after = name@.subrange(start as int, i + 1);
        assert(after.drop_last() =~= before);
        assert(after.last() == c);
        if !(c >= '0' && c <= '9') {
            assert(digits[i - start] == c);
            assert(!is_digit(digits[i - start]));
            return None;
        }
        assert forall|k: int| 0 <= k < after.len() implies is_digit(#[trigger] after[k]) by {
            if k < before.len() {
                assert(after[k] == before[k]);
            }
        }
        if !too_large {
            let d: u64 = (c as u32 - '0' as u32) as u64;
            value = value * 10 + d;
            if value > 0xffff_ffff {
                too_large = true;
            }
        }
        i = i + 1;
    }
    assert(digits =~= name@.subrange(start as int, i as int));
    if too_large {
        None
    } else {
        Some(value as u32)
    }
}

/// The greatest number among the names of the directories in a listing. An entry that is no
/// directory is passed over; a name that writes no number counts as 0, and so does a listing
/// without directories.
pub fn max_name(entries: &Vec<Entry>) -> (r: u32)
    ensures
        r == max_number(entries@),
{
    let mut best: u32 = 0;
    let mut i: usize = 0;
    while i < entries.len()
        invariant
            i <= entries.len(),
            best == max_number(entries@.subrange(0, i as int)),
        decreases entries.len() - i,
    {
        proof {
            let before = entries@.subrange(0, i as int);
            let after = entries@.subrange(0, i + 1);
            assert(after.drop_last() =~= before);
            assert(after.last() == entries@[i as int]);
        }
        if entries[i].kind == EntryKind::Directory {
            let n: u32 = match parse_number(entries[i].name.as_str()) {
                Some(n) => n,
                None => 0,
            };
            if n > best {
                best = n;
            }
        }
        i = i + 1;
    }
    assert(entries@.subrange(0, i as int) =~= entries@);
    best
}

/// The text of one decimal digit.
fn digit_text(d: u32) -> (r: &'static str)
    requires
        d < 10,
    ensures
        r@ == seq![digit_char(d as nat)],
{
    proof {
        reveal_strlit("0");
        reveal_strlit("1");
        reveal_strlit("2");
        reveal_strlit("3");
        reveal_strlit("4");
        reveal_strlit("5");
        reveal_strlit("6");
        reveal_strlit("7");
        reveal_strlit("8");
        reveal_strlit("9");
    }
    let r = if d == 0 {
        "0"
    } else if d == 1 {
        "1"
    } else if d == 2 {
        "2"
    } else if d == 3 {
        "3"
    } else if d == 4 {
        "4"
    } else if d == 5 {
        "5"
    } else if d == 6 {
        "6"
    } else if d == 7 {
        "7"
    } else if d == 8 {
        "8"
    } else {
        "9"
    };
    assert(r@ =~= seq![digit_char(d as nat)]);
    r
}

/// Writes a number in decimal, without leading zeros: the name of a year's directory.
pub fn decimal_name(n: u32) -> (r: String)
    ensures
        r@ == decimal(n as nat),
    decreases n,
{
    if n < 10 {
        String::from_str(digit_text(n))
    } else {
        let mut text = decimal_name(n / 10);
        text.append(digit_text(n % 10));
        assert(text@ =~= decimal(n as nat));
        text
    }
}

/// Writes a number in decimal with at least two digits: the name of a month's or a day's
/// directory.
pub fn two_digit_name(n: u32) -> (r: String)
    ensures
        r@ == two_digits(n as nat),
{
    if n < 10 {
        proof {
            reveal_strlit("0");
        }
        let mut text = String::from_str("0");
        text.append(digit_text(n));
        assert(text@ =~= two_digits(n as nat));
        text
    } else {
        decimal_name(n)
    }
}

/// No directory of a listing counts as more than `max_number` of the listing.
pub proof fn max_number_bounds(entries: Seq<Entry>, i: int)
    requires
        0 <= i < entries.len(),
        entries[i].is_directory(),
    ensures
        name_number(entries[i].name@) <= max_number(entries),
    decreases entries.len(),
{
    if i < entries.len() - 1 {
        max_number_bounds(entries.drop_last(), i);
    }
}

/// `max_number` of a listing is 0 or the number of one of its directories.
pub proof fn max_number_is_attained(entries: Seq<Entry>)
    ensures
        max_number(entries) == 0 || exists|i: int|
            0 <= i < entries.len() && (#[trigger] entries[i]).is_directory() && name_number(
                entries[i].name@,
            ) == max_number(entries),
    decreases entries.len(),
{
    if entries.len() > 0 {
        let rest = entries.drop_last();
        max_number_is_attained(rest);
        if entries.last().is_directory() && name_number(entries.last().name@) > max_number(rest) {
            assert(entries[entries.len() - 1] == entries.last());
        } else if max_number(rest) != 0 {
            let i = choose|i: int|
                0 <= i < rest.len() && (#[trigger] rest[i]).is_directory() && name_number(
                    rest[i].name@,
                ) == max_number(rest);
            assert(entries[i] == rest[i]);
        }
    }
}

/// What `decimal` writes is made of digits and writes the number it was given.
proof fn decimal_is_digits(n: nat)
    ensures
        decimal(n).len() > 0,
        all_digits(decimal(n)),
        digits_value(decimal(n)) == n,
    decreases n,
{
    let text = decimal(n);
    if n < 10 {
        assert(text.drop_last() =~= Seq::<char>::empty());
        assert(digits_value(text.drop_last()) == 0);
        assert(text.last() == digit_char(n));
    } else {
        decimal_is_digits(n / 10);
        let front = decimal(n / 10);
        assert(text.drop_last() =~= front);
        assert(text.last() == digit_char(n % 10));
        assert forall|i: int| 0 <= i < text.len() implies is_digit(#[trigger] text[i]) by {
            if i < front.len() {
                assert(text[i] == front[i]);
            }
        }
    }
}

/// A directory named after a number counts as that number: what `decimal` and `two_digits`
/// write for `n` is read back as `n`.
pub proof fn written_name_reads_back(n: u32)
    ensures
        numeric_value(decimal(n as nat)) == Some(n),
        numeric_value(two_digits(n as nat)) == Some(n),
{
    decimal_is_digits(n as nat);
    let plain = decimal(n as nat);
    assert(is_digit(plain[0]));
    assert(unsigned_part(plain) == plain);
    if n < 10 {
        let padded = two_digits(n as nat);
        assert(padded =~= seq!['0', digit_char(n as nat)]);
        assert(is_digit(padded[0]));
        assert(unsigned_part(padded) == padded);
        assert(padded.drop_last() =~= seq!['0']);
        assert(padded.drop_last().drop_last() =~= Seq::<char>::empty());
        assert(digits_value(padded.drop_last().drop_last()) == 0);
        assert(digits_value(padded.drop_last()) == 0);
        assert(digits_value(padded) == n);
    }
}

} // verus!
