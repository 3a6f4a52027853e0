//! Text handling on `str`, stated over the characters that a string holds.
use vstd::prelude::*;
use vstd::string::StrSliceExecFns;

verus! {

/// The characters of an optional string.
pub open spec fn optional_text(text: Option<&str>) -> Option<Seq<char>> {
    match text {
        Some(text) => Some(text@),
        None => None,
    }
}

/// The characters of an optional owned string.
pub open spec fn optional_string(text: Option<String>) -> Option<Seq<char>> {
    match text {
        Some(text) => Some(text@),
        None => None,
    }
}

/// The characters of `text`, in order.
pub fn chars_of(text: &str) -> (chars: Vec<char>)
    ensures
        chars@ == text@,
{
    let mut chars: Vec<char> = Vec::new();
    for c in iter: text.chars()
        invariant
            iter.seq() == text@,
            chars@ == text@.take(iter.index()),
    {
        chars.push(c);
    }
    chars
}

/// Whether two strings hold the same characters.
pub fn same_text(a: &str, b: &str) -> (same: bool)
    ensures
        same == (a@ == b@),
{
    let xs = chars_of(a);
    let ys = chars_of(b);
    if xs.len() != ys.len() {
        return false;
    }
    let mut i: usize = 0;
    while i < xs.len()
        invariant
            i <= xs.len(),
            xs.len() == ys.len(),
            xs@ == a@,
            ys@ == b@,
            a@.take(i as int) == b@.take(i as int),
        decreases xs.len() - i,
    {
        if xs[i] != ys[i] {
            assert(a@[i as int] != b@[i as int]);
            return false;
        }
        assert(a@.take(i + 1) == a@.take(i as int).push(a@[i as int]));
        assert(b@.take(i + 1) == b@.take(i as int).push(b@[i as int]));
        i = i + 1;
    }
    assert(a@.take(a@.len() as int) == a@);
    assert(b@.take(b@.len() as int) == b@);
    true
}

/// Whether `c` has the Unicode property `White_Space`.
pub open spec fn is_white_space(c: char) -> bool {
    ||| '\u{9}' <= c <= '\u{d}'
    ||| c == '\u{20}'
    ||| c == '\u{85}'
    ||| c == '\u{a0}'
    ||| c == '\u{1680}'
    ||| '\u{2000}' <= c <= '\u{200a}'
    ||| c == '\u{2028}'
    ||| c == '\u{2029}'
    ||| c == '\u{202f}'
    ||| c == '\u{205f}'
    ||| c == '\u{3000}'
}

/// `text` without the white space at its start.
pub open spec fn trimmed_start(text: Seq<char>) -> Seq<char>
    decreases text.len(),
{
    if text.len() > 0 && is_white_space(text.first()) {
        trimmed_start(text.drop_first())
    } else {
        text
    }
}

/// `text` without the white space at its end.
pub open spec fn trimmed_end(text: Seq<char>) -> Seq<char>
    decreases text.len(),
{
    if text.len() > 0 && is_white_space(text.last()) {
        trimmed_end(text.drop_last())
    } else {
        text
    }
}

/// `text` without the white space around it.
pub open spec fn trimmed(text: Seq<char>) -> Seq<char> {
    trimmed_end(trimmed_start(text))
}

fn white_space(c: char) -> (r: bool)
    ensures
        r == is_white_space(c),
{
    ('\u{9}' <= c && c <= '\u{d}') || c == '\u{20}' || c == '\u{85}' || c == '\u{a0}' || c
        == '\u{1680}' || ('\u{2000}' <= c && c <= '\u{200a}') || c == '\u{2028}' || c == '\u{2029}'
        || c == '\u{202f}' || c == '\u{205f}' || c == '\u{3000}'
}

/// `text` without the white space around it.
pub fn trim(text: &str) -> (r: &str)
    ensures
        r@ == trimmed(text@),
{
    let chars = chars_of(text);
    let mut from: usize = 0;
    assert(text@.skip(0) == text@);
    while from < chars.len() && white_space(chars[from])
        invariant
            from <= chars.len(),
            chars@ == text@,
            trimmed_start(text@.skip(from as int)) == trimmed_start(text@),
        decreases chars.len() - from,
    {
        assert(text@.skip(from as int).drop_first() == text@.skip(from + 1));
        from = from + 1;
    }
    let mut to: usize = chars.len();
    let ghost start = text@.skip(from as int);
    assert(start == trimmed_start(text@));
    assert(text@.subrange(from as int, to as int) == start);
    while from < to && white_space(chars[to - 1])
        invariant
            from <= to <= chars.len(),
            chars@ == text@,
            trimmed_end(text@.subrange(from as int, to as int)) == trimmed_end(start),
        decreases to,
    {
        assert(text@.subrange(from as int, to as int).drop_last() == text@.subrange(
            from as int,
            to - 1,
        ));
        to = to - 1;
    }
    text.substring_char(from, to)
}

/// Whether `text` begins with `prefix`.
pub fn starts_with(text: &str, prefix: &str) -> (r: bool)
    ensures
        r == prefix@.is_prefix_of(text@),
{
    let chars = chars_of(text);
    let head = chars_of(prefix);
    if head.len() > chars.len() {
        return false;
    }
    let mut i: usize = 0;
    while i < head.len()
        invariant
            i <= head.len() <= chars.len(),
            chars@ == text@,
            head@ == prefix@,
            forall|j: int| 0 <= j < i ==> prefix@[j] == text@[j],
        decreases head.len() - i,
    {
        if head[i] != chars[i] {
            assert(prefix@[i as int] != text@.subrange(0, prefix@.len() as int)[i as int]);
            return false;
        }
        i = i + 1;
    }
    assert(prefix@ == text@.subrange(0, prefix@.len() as int));
    true
}

/// Whether `c` is a decimal digit.
pub open spec fn is_digit(c: char) -> bool {
    '0' <= c <= '9'
}

/// The number that the decimal digits of `digits` write out.
pub open spec fn digits_value(digits: Seq<char>) -> nat
    decreases digits.len(),
{
    if digits.len() == 0 {
        0
    } else {
        digits_value(digits.drop_last()) * 10 + (digits.last() as nat - '0' as nat) as nat
    }
}

/// The digits of a number that may carry a plus sign.
pub open spec fn unsigned_digits(text: Seq<char>) -> Seq<char> {
    if text.len() > 0 && text.first() == '+' {
        text.drop_first()
    } else {
        text
    }
}

/// The 32-bit number that `text` writes out: decimal digits, at least one of them, with an
/// optional plus sign before them, whose value is in range.
pub open spec fn u32_of(text: Seq<char>) -> Option<u32> {
    let digits = unsigned_digits(text);
    if digits.len() > 0 && (forall|i: int| 0 <= i < digits.len() ==> is_digit(digits[i]))
        && digits_value(digits) <= u32::MAX {
        Some(digits_value(digits) as u32)
    } else {
        None
    }
}

/// A number with more digits is no smaller.
proof fn lemma_digits_value_grows(digits: Seq<char>, n: int)
    requires
        0 <= n <= digits.len(),
    ensures
        digits_value(digits.take(n)) <= digits_value(digits),
    decreases digits.len() - n,
{
    if n < digits.len() {
        lemma_digits_value_grows(digits, n + 1);
        assert(digits.take(n + 1).drop_last() == digits.take(n));
    } else {
        assert(digits.take(n) == digits);
    }
}

/// Reads a 32-bit number.
pub fn parse_u32(text: &str) -> (r: Option<u32>)
    ensures
        r == u32_of(text@),
{
    let chars = chars_of(text);
    let from: usize = if chars.len() > 0 && chars[0] == '+' { 1 } else { 0 };
    let ghost digits = unsigned_digits(text@);
    assert(digits == text@.skip(from as int));
    if from == chars.len() {
        return None;
    }
    let mut i: usize = from;
    let mut value: u64 = 0;
    while i < chars.len()
        invariant
            from <= i <= chars.len(),
            chars@ == text@,
            digits == text@.skip(from as int),
            digits == unsigned_digits(text@),
            value <= u32::MAX,
            value == digits_value(digits.take(i - from)),
            forall|j: int| 0 <= j < i - from ==> is_digit(digits[j]),
        decreases chars.len() - i,
    {
        let c = chars[i];
        assert(c == digits[i - from]);
        if !('0' <= c && c <= '9') {
            return None;
        }
        let digit: u64 = (c as u32 - '0' as u32) as u64;
        assert(digits.take(i + 1 - from).drop_last() == digits.take(i - from));
        value = value * 10 + digit;
        if value > u32::MAX as u64 {
            proof {
                lemma_digits_value_grows(digits, i + 1 - from);
            }
            return None;
        }
        i = i + 1;
    }
    assert(digits.take(digits.len() as int) == digits);
    Some(value as u32)
}

/// Leading white space is taken off.
proof fn lemma_leading_white_space(before: Seq<char>, text: Seq<char>)
    requires
        forall|i: int| 0 <= i < before.len() ==> is_white_space(#[trigger] before[i]),
        text.len() > 0,
        !is_white_space(text.first()),
    ensures
        trimmed_start(before + text) == text,
    decreases before.len(),
{
    if before.len() == 0 {
        assert(before + text == text);
    } else {
        assert(is_white_space(before[0]));
        assert((before + text).drop_first() == before.drop_first() + text);
        lemma_leading_white_space(before.drop_first(), text);
    }
}

/// Trailing white space is taken off.
proof fn lemma_trailing_white_space(text: Seq<char>, after: Seq<char>)
    requires
        forall|i: int| 0 <= i < after.len() ==> is_white_space(#[trigger] after[i]),
        text.len() > 0,
        !is_white_space(text.last()),
    ensures
        trimmed_end(text + after) == text,
    decreases after.len(),
{
    if after.len() == 0 {
        assert(text + after == text);
    } else {
        assert(is_white_space(after[after.len() - 1]));
        assert((text + after).last() == after.last());
        assert((text + after).drop_last() == text + after.drop_last());
        lemma_trailing_white_space(text, after.drop_last());
    }
}

/// Trimming takes off the white space at both ends of a text, all of it and nothing else: what is
/// left is the text that begins and ends with something else.
pub proof fn law_trimming_takes_off_white_space(
    before: Seq<char>,
    text: Seq<char>,
    after: Seq<char>,
)
    requires
        forall|i: int| 0 <= i < before.len() ==> is_white_space(#[trigger] before[i]),
        forall|i: int| 0 <= i < after.len() ==> is_white_space(#[trigger] after[i]),
        text.len() > 0,
        !is_white_space(text.first()),
        !is_white_space(text.last()),
    ensures
        trimmed(before + text + after) == text,
{
    assert(before + text + after == before + (text + after));
    assert((text + after).first() == text.first());
    lemma_leading_white_space(before, text + after);
    lemma_trailing_white_space(text, after);
}

/// Of a text that is all white space nothing is left.
pub proof fn law_white_space_is_trimmed_to_nothing(text: Seq<char>)
    requires
        forall|i: int| 0 <= i < text.len() ==> is_white_space(#[trigger] text[i]),
    ensures
        trimmed(text) == Seq::<char>::empty(),
    decreases text.len(),
{
    if text.len() > 0 {
        assert(is_white_space(text[0]));
        assert forall|i: int| 0 <= i < text.drop_first().len() implies is_white_space(
            #[trigger] text.drop_first()[i],
        ) by {
            assert(text.drop_first()[i] == text[i + 1]);
        }
        law_white_space_is_trimmed_to_nothing(text.drop_first());
        assert(trimmed_start(text) == trimmed_start(text.drop_first()));
    }
}

/// A visible ASCII character is no white space; the blank and the controls from tab to carriage
/// return are.
pub proof fn law_white_space_is_not_visible(c: char)
    requires
        c < '\u{80}',
    ensures
        is_white_space(c) <==> c == ' ' || c == '\t' || c == '\n' || c == '\u{b}' || c == '\u{c}' || c
            == '\r',
{
}

/// Numbers are read in base ten: a further digit makes ten times the number and the digit, as long
/// as that is in range. A plus sign before a digit changes nothing, and one digit is its own
/// number.
pub proof fn law_numbers_are_read_in_base_ten(text: Seq<char>, digit: char)
    requires
        text.len() > 0,
        '0' <= digit <= '9',
    ensures
        u32_of(seq![digit]) == Some((digit as u32 - '0' as u32) as u32),
        u32_of(text) matches Some(number) ==> u32_of(text.push(digit)) == (if number * 10 + (
        digit as int - '0' as int) <= u32::MAX {
            Some((number * 10 + (digit as int - '0' as int)) as u32)
        } else {
            None
        }),
        text.first() != '+' ==> u32_of(seq!['+'] + text) == u32_of(text),
{
    let one = seq![digit];
    assert(one.drop_last() == Seq::<char>::empty());
    reveal_with_fuel(digits_value, 2);
    assert(unsigned_digits(one) == one);
    let digits = unsigned_digits(text);
    let longer = unsigned_digits(text.push(digit));
    assert(text.push(digit).first() == text.first());
    if text.first() == '+' {
        assert(longer == digits.push(digit));
    }
    assert(longer == digits.push(digit));
    assert(longer.drop_last() == digits);
    if u32_of(text) is Some {
        assert forall|i: int| 0 <= i < longer.len() implies is_digit(longer[i]) by {
            if i < digits.len() {
                assert(longer[i] == digits[i]);
            }
        }
    }
    let signed = seq!['+'] + text;
    assert(signed.first() == '+');
    assert(signed.drop_first() == text);
}

/// Nothing but digits, and one plus sign before them, is a number.
pub proof fn law_numbers_are_digits(text: Seq<char>, i: int)
    requires
        0 <= i < text.len(),
        !('0' <= text[i] <= '9'),
        !(i == 0 && text[0] == '+'),
    ensures
        u32_of(text) is None,
        u32_of(Seq::empty()) is None,
        u32_of(seq!['+']) is None,
{
    let digits = unsigned_digits(text);
    if text.first() == '+' {
        assert(digits[i - 1] == text[i]);
        assert(!is_digit(digits[i - 1]));
    } else {
        assert(!is_digit(digits[i]));
    }
    assert(unsigned_digits(seq!['+']) == Seq::<char>::empty());
}

/// What is no number does not become one by a further digit, unless the plus sign was all there was.
pub proof fn law_digits_do_not_mend_a_number(text: Seq<char>, digit: char)
    requires
        text.len() > 0,
        text != seq!['+'],
        '0' <= digit <= '9',
        u32_of(text) is None,
    ensures
        u32_of(text.push(digit)) is None,
{
    let digits = unsigned_digits(text);
    let longer = unsigned_digits(text.push(digit));
    assert(text.push(digit).first() == text.first());
    assert(longer == digits.push(digit));
    assert(longer.drop_last() == digits);
    if digits.len() == 0 {
        assert(text == seq!['+']);
    }
    if forall|i: int| 0 <= i < longer.len() ==> is_digit(longer[i]) {
        assert forall|i: int| 0 <= i < digits.len() implies is_digit(digits[i]) by {
            assert(longer[i] == digits[i]);
        }
        lemma_digits_value_grows(longer, digits.len() as int);
        assert(longer.take(digits.len() as int) == digits);
    }
}

} // verus!
