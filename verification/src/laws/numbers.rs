//! What holds of numbers and of white space in text.

use crate::json::{as_count, Json, JsonNumber};
use crate::operations::geocode::clamped;
use crate::text::{
    blank, decimal, digits_value, is_digit, is_white_space, parsed_u64, without_plus,
};
use vstd::prelude::*;

verus! {

/// Whether `c` is one of the code points that Unicode lists as white space.
pub open spec fn listed_white(c: char) -> bool {
    ||| c == '\t' || c == '\n' || c == '\x0b' || c == '\x0c' || c == '\r' || c == ' '
    ||| c == '\u{85}' || c == '\u{a0}' || c == '\u{1680}'
    ||| '\u{2000}' <= c <= '\u{200a}'
    ||| c == '\u{2028}' || c == '\u{2029}' || c == '\u{202f}' || c == '\u{205f}' || c == '\u{3000}'
}

/// White space is what Unicode lists as such.
pub proof fn law_white_space_is_listed(c: char)
    ensures
        is_white_space(c) <==> listed_white(c),
{
}

/// One character that is not listed as white space keeps a text from being blank, whatever else
/// is in it.
pub proof fn law_one_other_character_is_not_blank(s: Seq<char>, i: int)
    requires
        0 <= i < s.len(),
        !listed_white(s[i]),
    ensures
        !blank(s),
{
    law_white_space_is_listed(s[i]);
}

/// A text of nothing but listed white space is blank, and so is the empty text.
pub proof fn law_white_space_alone_is_blank(s: Seq<char>)
    requires
        forall|i: int| 0 <= i < s.len() ==> listed_white(#[trigger] s[i]),
    ensures
        blank(s),
{
    assert forall|i: int| 0 <= i < s.len() implies is_white_space(#[trigger] s[i]) by {
        law_white_space_is_listed(s[i]);
    }
}

/// Putting two texts together gives a blank one exactly when both are blank.
pub proof fn law_blank_texts_join(a: Seq<char>, b: Seq<char>)
    ensures
        blank(a + b) <==> blank(a) && blank(b),
{
    if blank(a + b) {
        assert forall|i: int| 0 <= i < a.len() implies is_white_space(#[trigger] a[i]) by {
            assert((a + b)[i] == a[i]);
        }
        assert forall|i: int| 0 <= i < b.len() implies is_white_space(#[trigger] b[i]) by {
            assert((a + b)[a.len() + i] == b[i]);
        }
    }
}

/// A number below ten is written as the one character of its digit, and any other number as
/// the digits of its tens with the digit of its ones behind them.
pub proof fn law_decimal_adds_a_digit(tens: nat, ones: nat)
    requires
        ones < 10,
    ensures
        tens == 0 ==> decimal(ones) == seq![('0' as nat + ones) as char],
        tens > 0 ==> decimal(10 * tens + ones) == decimal(tens).push(
            ('0' as nat + ones) as char,
        ),
{
    if tens > 0 {
        assert((10 * tens + ones) / 10 == tens);
        assert((10 * tens + ones) % 10 == ones);
    }
}

/// One digit reads as the number that it is.
pub proof fn law_one_digit_reads_as_itself(c: char)
    requires
        '0' <= c <= '9',
    ensures
        parsed_u64(seq![c]) == Some((c as nat - '0' as nat) as u64),
{
    let s = seq![c];
    assert(without_plus(s) == s);
    assert(s.drop_last() =~= Seq::<char>::empty());
    assert(digits_value(s.drop_last()) == 0);
    assert(digits_value(s) == (c as nat - 48) as nat);
}

/// One more digit makes the number ten times as large and adds the digit, as long as the number
/// fits; one that does not fit is not read.
pub proof fn law_one_more_digit_is_read(s: Seq<char>, c: char, n: u64)
    requires
        parsed_u64(s) == Some(n),
        '0' <= c <= '9',
    ensures
        n * 10 + (c as nat - '0' as nat) <= u64::MAX ==> parsed_u64(s.push(c)) == Some(
            (n * 10 + (c as nat - '0' as nat)) as u64,
        ),
        n * 10 + (c as nat - '0' as nat) > u64::MAX ==> parsed_u64(s.push(c)) is None,
{
    let t = s.push(c);
    assert(t[0] == s[0]);
    assert(without_plus(t) =~= without_plus(s).push(c));
    assert(without_plus(t).drop_last() =~= without_plus(s));
    assert(digits_value(without_plus(t)) == n * 10 + (c as nat - 48));
}

/// A row of digits that is too large stays so with one more digit.
pub proof fn law_too_large_stays_too_large(s: Seq<char>, c: char)
    requires
        s.len() > 0,
        forall|i: int| 0 <= i < s.len() ==> '0' <= #[trigger] s[i] <= '9',
        parsed_u64(s) is None,
        '0' <= c <= '9',
    ensures
        parsed_u64(s.push(c)) is None,
{
    let t = s.push(c);
    assert(t[0] == s[0]);
    assert(without_plus(s) == s && without_plus(t) == t);
    assert forall|i: int| 0 <= i < s.len() implies is_digit(s[i]) by {}
    assert(t.drop_last() =~= s);
}

/// A plus sign in front changes nothing, but only one is read, and it is not read alone.
pub proof fn law_one_plus_sign_is_read(s: Seq<char>)
    ensures
        s.len() > 0 && s[0] != '+' ==> parsed_u64(seq!['+'] + s) == parsed_u64(s),
        s.len() == 0 || s[0] == '+' ==> parsed_u64(seq!['+'] + s) is None,
        parsed_u64(Seq::<char>::empty()) is None,
{
    let t = seq!['+'] + s;
    assert(t[0] == '+');
    assert(without_plus(t) =~= s);
    if s.len() > 0 && s[0] == '+' {
        assert(!is_digit(without_plus(t)[0]));
    }
}

/// A text with any other character in it, wherever it stands, is not read as a number.
pub proof fn law_other_characters_are_not_read(s: Seq<char>, i: int)
    requires
        0 <= i < s.len(),
        !('0' <= s[i] <= '9'),
        s[i] != '+' || i > 0,
    ensures
        parsed_u64(s) is None,
{
    let digits = without_plus(s);
    if s[0] == '+' {
        assert(digits[i - 1] == s[i]);
    } else {
        assert(digits[i] == s[i]);
    }
}

/// A count is an integer that is not negative, or a text that reads as one, and nothing else is.
pub proof fn law_counts_are_numbers_or_texts(v: Json)
    ensures
        v matches Json::Number(JsonNumber::Unsigned(n)) ==> as_count(v) == Some(n),
        v matches Json::Text(s) ==> as_count(v) == parsed_u64(s),
        !(v matches Json::Number(JsonNumber::Unsigned(_))) && !(v is Text) ==> as_count(v) is None,
{
}

/// The number of results is the one that is wanted, or else the nearest one from one to ten.
pub proof fn law_limit_is_the_nearest(count: u32, other: u32)
    requires
        1 <= other <= 10,
    ensures
        1 <= clamped(count) <= 10,
        count <= clamped(count) ==> clamped(count) - count <= (if other >= count {
            other - count
        } else {
            count - other
        }),
        count > clamped(count) ==> count - clamped(count) <= (if other >= count {
            other - count
        } else {
            count - other
        }),
{
}

} // verus!
