//! Text: what the library takes from the standard library's strings, and
//! the reading and writing of numbers and lists.

use vstd::prelude::*;
use vstd::string::StringExecFns;

verus! {

/// Two string slices are equal exactly when they hold the same characters.
///
/// This states what `str`'s `eq` returns; Verus takes it on trust.
pub assume_specification[ <str as PartialEq>::eq ](a: &str, b: &str) -> (same: bool)
    ensures
        same == (a@ == b@),
;

/// The lower-case form of a text, as `str::to_lowercase` gives it: each
/// character replaced by what Unicode defines as its lower-case mapping.
pub uninterp spec fn lowercase(text: Seq<char>) -> Seq<char>;

/// `str::to_lowercase` returns the lower-case form of its argument, which
/// depends on the argument's characters alone; Verus takes it on trust.
pub assume_specification[ str::to_lowercase ](text: &str) -> (lower: String)
    ensures
        lower@ == lowercase(text@),
;

/// The words of a line, as `str::split_whitespace` yields them: the line's
/// stretches of characters that are not Unicode white space, in order.
pub uninterp spec fn words_of(line: Seq<char>) -> Seq<Seq<char>>;

/// Splits a line into its words with `str::split_whitespace`. That the
/// result is the named function of the line's characters is taken on trust.
#[verifier::external_body]
pub(crate) fn split_words(line: &str) -> (words: Vec<&str>)
    ensures
        words.deep_view() == words_of(line@),
{
    line.split_whitespace().collect()
}

/// Whether `part` occurs in `text` as an unbroken run of characters.
pub open spec fn occurs_in(part: Seq<char>, text: Seq<char>) -> bool {
    exists|start: int|
        0 <= start <= text.len() - part.len() && #[trigger] text.subrange(
            start,
            start + part.len(),
        ) == part
}

/// Tells with `str::contains` whether `part` occurs in `text`. That it finds
/// exactly the unbroken runs of characters is taken on trust.
#[verifier::external_body]
pub(crate) fn contains(text: &str, part: &str) -> (found: bool)
    ensures
        found == occurs_in(part@, text@),
{
    text.contains(part)
}

/// Whether `c` is one of the ten decimal digits.
pub open spec fn is_digit(c: char) -> bool {
    '0' <= c <= '9'
}

/// What a decimal digit counts for; any other character counts for nothing.
pub open spec fn digit_value(c: char) -> nat {
    if is_digit(c) {
        (c as int - '0' as int) as nat
    } else {
        0
    }
}

/// The value of a run of decimal digits, the empty run counting as zero.
pub open spec fn digits_value(digits: Seq<char>) -> nat
    decreases digits.len(),
{
    if digits.len() == 0 {
        0
    } else {
        digits_value(digits.drop_last()) * 10 + digit_value(digits.last())
    }
}

/// What remains of a number's text once an optional leading plus sign is
/// taken off.
pub open spec fn unsigned_part(text: Seq<char>) -> Seq<char> {
    if text.len() > 0 && text[0] == '+' {
        text.drop_first()
    } else {
        text
    }
}

/// The number that `text` writes in decimal: an optional plus sign followed
/// by at least one digit and nothing else. Any other text writes no number.
pub open spec fn number(text: Seq<char>) -> Option<nat> {
    let digits = unsigned_part(text);
    if digits.len() > 0 && (forall|i: int| 0 <= i < digits.len() ==> is_digit(#[trigger] digits[i])) {
        Some(digits_value(digits))
    } else {
        None
    }
}

/// The byte that encodes the plus sign.
const PLUS: u8 = 43;

/// The byte that encodes the digit zero.
const ZERO: u8 = 48;

/// The byte that encodes the digit nine.
const NINE: u8 = 57;

/// Reads the number that `text` writes, if it writes one that fits.
pub fn parse_number(text: &str) -> (parsed: Option<usize>)
    ensures
        parsed == match number(text@) {
            Some(value) => if value <= usize::MAX {
                Some(value as usize)
            } else {
                None
            },
            None => None,
        },
{
    broadcast use vstd::string::is_ascii_spec_bytes;

    if !text.is_ascii() {
        proof {
            let digits = unsigned_part(text@);
            if digits.len() > 0 && (forall|i: int|
                0 <= i < digits.len() ==> is_digit(#[trigger] digits[i])) {
                assert forall|i: int| 0 <= i < text@.len() implies '\0' <= #[trigger] text@[i]
                    <= '\u{7f}' by {
                    if digits.len() == text@.len() {
                        assert(is_digit(digits[i]));
                    } else if i > 0 {
                        assert(is_digit(digits[i - 1]));
                    }
                }
            }
        }
        return None;
    }
    let bytes = text.as_bytes();
    let start: usize = if bytes.len() > 0 && bytes[0] == PLUS {
        1
    } else {
        0
    };
    let ghost digits = unsigned_part(text@);
    assert(digits =~= text@.subrange(start as int, text@.len() as int));
    if start == bytes.len() {
        return None;
    }
    let mut value: usize = 0;
    let mut at: usize = start;
    while at < bytes.len()
        invariant
            start <= at <= bytes.len(),
            bytes@.len() == text@.len(),
            forall|i: int| 0 <= i < text@.len() ==> bytes@[i] == #[trigger] text@[i] as u8,
            forall|i: int| 0 <= i < text@.len() ==> '\0' <= #[trigger] text@[i] <= '\u{7f}',
            digits == unsigned_part(text@),
            digits == text@.subrange(start as int, text@.len() as int),
            forall|i: int| 0 <= i < at - start ==> is_digit(#[trigger] digits[i]),
            value == digits_value(digits.take(at - start)),
        decreases bytes.len() - at,
    {
        let byte: u8 = bytes[at];
        let ghost seen = digits.take(at - start + 1);
        proof {
            assert(seen.drop_last() =~= digits.take(at - start));
            assert(seen.last() == text@[at as int]);
        }
        if byte < ZERO || byte > NINE {
            assert(digits[at - start] == text@[at as int]);
            assert(!is_digit(digits[at - start]));
            return None;
        }
        let digit: usize = (byte - ZERO) as usize;
        assert(is_digit(seen.last()) && digit == digit_value(seen.last()));
        assert(digits_value(seen) == value * 10 + digit);
        let next: Option<usize> = match value.checked_mul(10) {
            Some(tens) => tens.checked_add(digit),
            None => None,
        };
        match next {
            Some(next) => {
                value = next;
            },
            None => {
                proof {
                    lemma_digits_value_grows(digits, at - start + 1);
                }
                return None;
            },
        }
        at += 1;
    }
    assert(digits.take(at - start) =~= digits);
    Some(value)
}

/// The value of a run of digits is at least the value of each of its
/// beginnings.
proof fn lemma_digits_value_grows(digits: Seq<char>, length: int)
    requires
        0 <= length <= digits.len(),
    ensures
        digits_value(digits.take(length)) <= digits_value(digits),
    decreases digits.len(),
{
    if length < digits.len() {
        lemma_digits_value_grows(digits.drop_last(), length);
        assert(digits.drop_last().take(length) =~= digits.take(length));
    } else {
        assert(digits.take(length) =~= digits);
    }
}

/// The character that writes a digit's value.
pub open spec fn digit_char(digit: nat) -> char
    recommends
        digit < 10,
{
    ('0' as int + digit) as char
}

/// A number written in decimal, without sign or leading zeros.
pub open spec fn decimal(n: nat) -> Seq<char>
    decreases n,
{
    if n < 10 {
        seq![digit_char(n)]
    } else {
        decimal(n / 10).push(digit_char(n % 10))
    }
}

/// `lines` put one after the other with `separator` between each two.
pub open spec fn joined(lines: Seq<Seq<char>>, separator: Seq<char>) -> Seq<char>
    decreases lines.len(),
{
    if lines.len() == 0 {
        Seq::empty()
    } else if lines.len() == 1 {
        lines[0]
    } else {
        joined(lines.drop_last(), separator) + separator + lines.last()
    }
}

/// One line of a numbered list: the entry's number, counted from one, a full
/// stop, a space and the entry's name.
pub open spec fn numbered_line(position: int, name: Seq<char>) -> Seq<char> {
    decimal((position + 1) as nat) + seq!['.', ' '] + name
}

/// A numbered list of `names`, one line for each, lines separated by a line
/// feed.
pub open spec fn numbered_list(names: Seq<Seq<char>>) -> Seq<char> {
    joined(Seq::new(names.len(), |i: int| numbered_line(i, names[i])), seq!['\n'])
}

/// The text of one decimal digit.
fn digit_text(digit: usize) -> (text: &'static str)
    requires
        digit < 10,
    ensures
        text@ == seq![digit_char(digit as nat)],
{
    proof {
        reveal_strlit("0");
        reveal_strlit("1");
        reveal_strlit("2");
        reveal_strlit("3");
        reveal_strlit("4");
        reveal_strlit("5");
        reveal_strlit("6");
        reveal_strlit("7");
        reveal_strlit("8");
        reveal_strlit("9");
    }
    let text = if digit == 0 {
        "0"
    } else if digit == 1 {
        "1"
    } else if digit == 2 {
        "2"
    } else if digit == 3 {
        "3"
    } else if digit == 4 {
        "4"
    } else if digit == 5 {
        "5"
    } else if digit == 6 {
        "6"
    } else if digit == 7 {
        "7"
    } else if digit == 8 {
        "8"
    } else {
        "9"
    };
    assert(text@ =~= seq![digit_char(digit as nat)]);
    text
}

/// Writes `n` in decimal.
pub fn format_number(n: usize) -> (text: String)
    ensures
        text@ == decimal(n as nat),
    decreases n,
{
    if n < 10 {
        String::from_str(digit_text(n))
    } else {
        let mut text = format_number(n / 10);
        text.append(digit_text(n % 10));
        assert(text@ =~= decimal(n as nat));
        text
    }
}

/// Writes `names` as a numbered list.
pub fn format_list(names: &Vec<&str>) -> (list: String)
    ensures
        list@ == numbered_list(names.deep_view()),
{
    proof {
        reveal_strlit(". ");
        reveal_strlit("\n");
    }
    let ghost lines = Seq::new(
        names.deep_view().len(),
        |i: int| numbered_line(i, names.deep_view()[i]),
    );
    let mut list = String::new();
    let mut done: usize = 0;
    while done < names.len()
        invariant
            done <= names.len(),
            lines == Seq::new(
                names.deep_view().len(),
                |i: int| numbered_line(i, names.deep_view()[i]),
            ),
            ". "@ == seq!['.', ' '],
            "\n"@ == seq!['\n'],
            list@ == joined(lines.take(done as int), seq!['\n']),
        decreases names.len() - done,
    {
        let ghost before = list@;
        if done > 0 {
            list.append("\n");
        }
        list.append(format_number(done + 1).as_str());
        list.append(". ");
        list.append(names[done]);
        proof {
            let shown = lines.take(done + 1);
            assert(shown.drop_last() =~= lines.take(done as int));
            assert(shown.last() == numbered_line(done as int, names.deep_view()[done as int]));
            assert(names.deep_view()[done as int] == names[done as int]@);
            if done > 0 {
                assert(list@ =~= before + seq!['\n'] + shown.last());
            } else {
                assert(list@ =~= shown.last());
            }
        }
        done += 1;
    }
    assert(lines.take(done as int) =~= lines);
    list
}

/// Puts the words from position `from` on together, a space between each
/// two.
pub fn join_words(words: &Vec<&str>, from: usize) -> (text: String)
    requires
        from <= words.len(),
    ensures
        text@ == joined(words.deep_view().skip(from as int), seq![' ']),
{
    proof {
        reveal_strlit(" ");
    }
    let ghost rest = words.deep_view().skip(from as int);
    let mut text = String::new();
    let mut at: usize = from;
    while at < words.len()
        invariant
            from <= at <= words.len(),
            rest == words.deep_view().skip(from as int),
            " "@ == seq![' '],
            text@ == joined(rest.take(at - from), seq![' ']),
        decreases words.len() - at,
    {
        let ghost before = text@;
        if at > from {
            text.append(" ");
        }
        text.append(words[at]);
        proof {
            let taken = rest.take(at - from + 1);
            assert(taken.drop_last() =~= rest.take(at - from));
            assert(taken.last() == words[at as int]@);
            if at > from {
                assert(text@ =~= before + seq![' '] + taken.last());
            } else {
                assert(text@ =~= taken.last());
            }
        }
        at += 1;
    }
    assert(rest.take(at - from) =~= rest);
    text
}

} // verus!
