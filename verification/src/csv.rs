//! Tables as text: lines, the fields of a line, and whole numbers.

use crate::text::{chars_of, decimal_digits, digit_char, string_of};
use crate::resolver::texts;
use vstd::prelude::*;

verus! {

/// A line without the carriage return that may end it.
pub open spec fn without_return(line: Seq<char>) -> Seq<char> {
    if line.len() > 0 && line.last() == '\r' {
        line.drop_last()
    } else {
        line
    }
}

/// The lines of `rest`, where `current` holds what has been read of the line
/// that `rest` goes on with. A line ends at a line feed, or at a carriage
/// return and a line feed; the last line needs no ending.
pub open spec fn lines_from(current: Seq<char>, rest: Seq<char>) -> Seq<Seq<char>>
    decreases rest.len(),
{
    if rest.len() == 0 {
        if current.len() == 0 {
            Seq::empty()
        } else {
            seq![current]
        }
    } else if rest.first() == '\n' {
        seq![without_return(current)] + lines_from(Seq::empty(), rest.drop_first())
    } else {
        lines_from(current.push(rest.first()), rest.drop_first())
    }
}

/// The lines of a text.
pub open spec fn lines_of(text: Seq<char>) -> Seq<Seq<char>> {
    lines_from(Seq::empty(), text)
}

/// The fields of `rest`, where `current` holds what has been read of the
/// field that `rest` goes on with. Fields are parted by commas.
pub open spec fn fields_from(current: Seq<char>, rest: Seq<char>) -> Seq<Seq<char>>
    decreases rest.len(),
{
    if rest.len() == 0 {
        seq![current]
    } else if rest.first() == ',' {
        seq![current] + fields_from(Seq::empty(), rest.drop_first())
    } else {
        fields_from(current.push(rest.first()), rest.drop_first())
    }
}

/// The fields of a line. A line without a comma is one field, and so is the
/// empty line.
pub open spec fn fields_of(line: Seq<char>) -> Seq<Seq<char>> {
    fields_from(Seq::empty(), line)
}

/// Splits a text into its lines.
pub fn split_lines(text: &str) -> (r: Vec<String>)
    ensures
        texts(r@) == lines_of(text@),
{
    let chars = chars_of(text);
    let mut out: Vec<String> = Vec::new();
    let mut current: Vec<char> = Vec::new();
    let mut i: usize = 0;
    assert(chars@.skip(0) == chars@);
    assert(texts(out@) =~= Seq::<Seq<char>>::empty());
    while i < chars.len()
        invariant
            i <= chars.len(),
            chars@ == text@,
            lines_of(text@) == texts(out@) + lines_from(current@, chars@.skip(i as int)),
        decreases chars.len() - i,
    {
        let c = chars[i];
        proof {
            assert(chars@.skip(i as int).first() == c);
            assert(chars@.skip(i as int).drop_first() == chars@.skip(i + 1));
        }
        if c == '\n' {
            let n = current.len();
            if n > 0 && current[n - 1] == '\r' {
                current.pop();
            }
            let line = string_of(&current);
            proof {
                assert(texts(out@.push(line)) =~= texts(out@) + seq![line@]);
            }
            out.push(line);
            current = Vec::new();
        } else {
            current.push(c);
        }
        i = i + 1;
    }
    if current.len() > 0 {
        let line = string_of(&current);
        proof {
            assert(texts(out@.push(line)) =~= texts(out@) + seq![line@]);
        }
        out.push(line);
    }
    out
}

/// Splits a line into its fields.
pub fn split_fields(line: &str) -> (r: Vec<String>)
    ensures
        texts(r@) == fields_of(line@),
{
    let chars = chars_of(line);
    let mut out: Vec<String> = Vec::new();
    let mut current: Vec<char> = Vec::new();
    let mut i: usize = 0;
    assert(chars@.skip(0) == chars@);
    assert(texts(out@) =~= Seq::<Seq<char>>::empty());
    while i < chars.len()
        invariant
            i <= chars.len(),
            chars@ == line@,
            fields_of(line@) == texts(out@) + fields_from(current@, chars@.skip(i as int)),
        decreases chars.len() - i,
    {
        let c = chars[i];
        proof {
            assert(chars@.skip(i as int).first() == c);
            assert(chars@.skip(i as int).drop_first() == chars@.skip(i + 1));
        }
        if c == ',' {
            let field = string_of(&current);
            proof {
                assert(texts(out@.push(field)) =~= texts(out@) + seq![field@]);
            }
            out.push(field);
            current = Vec::new();
        } else {
            current.push(c);
        }
        i = i + 1;
    }
    let field = string_of(&current);
    proof {
        assert(texts(out@.push(field)) =~= texts(out@) + seq![field@]);
    }
    out.push(field);
    out
}

/// Whether a character is a decimal digit.
pub open spec fn is_digit(c: char) -> bool {
    '0' <= c <= '9'
}

/// Whether a text is made of decimal digits, at least one.
pub open spec fn is_digits(s: Seq<char>) -> bool {
    s.len() > 0 && forall|i: int| 0 <= i < s.len() ==> is_digit(#[trigger] s[i])
}

/// The value of a decimal digit.
pub open spec fn digit_value(c: char) -> nat {
    if is_digit(c) {
        (c as u32 - '0' as u32) as nat
    } else {
        0
    }
}

/// The number that a text of decimal digits stands for.
pub open spec fn digits_value(s: Seq<char>) -> nat
    decreases s.len(),
{
    if s.len() == 0 {
        0
    } else {
        digits_value(s.drop_last()) * 10 + digit_value(s.last())
    }
}

/// The digits of a whole number as it is written: without the plus sign
/// that may stand before them.
pub open spec fn unsigned_part(s: Seq<char>) -> Seq<char> {
    if s.len() > 0 && s.first() == '+' {
        s.drop_first()
    } else {
        s
    }
}

/// The whole number that a text stands for: decimal digits, a plus sign
/// before them or none, and a value of at most 18,446,744,073,709,551,615.
pub open spec fn whole_number(s: Seq<char>) -> Option<u64> {
    let digits = unsigned_part(s);
    if is_digits(digits) && digits_value(digits) <= u64::MAX {
        Some(digits_value(digits) as u64)
    } else {
        None
    }
}

/// The value of digits never shrinks when more digits follow.
proof fn lemma_digits_value_grows(s: Seq<char>, n: int)
    requires
        0 <= n <= s.len(),
    ensures
        digits_value(s.take(n)) <= digits_value(s),
    decreases s.len() - n,
{
    if n < s.len() {
        lemma_digits_value_grows(s, n + 1);
        assert(s.take(n + 1).drop_last() == s.take(n));
    } else {
        assert(s.take(n) == s);
    }
}

/// Reads a whole number.
pub fn parse_whole_number(text: &str) -> (r: Option<u64>)
    ensures
        r == whole_number(text@),
{
    let chars = chars_of(text);
    let start: usize = if chars.len() > 0 && chars[0] == '+' {
        1
    } else {
        0
    };
    let ghost digits = unsigned_part(text@);
    assert(digits == chars@.skip(start as int));
    if start == chars.len() {
        return None;
    }
    let mut value: u64 = 0;
    let mut i: usize = start;
    assert(digits.take(0) =~= Seq::<char>::empty());
    while i < chars.len()
        invariant
            start <= i <= chars.len(),
            chars@ == text@,
            digits == chars@.skip(start as int),
            digits == unsigned_part(text@),
            digits.len() > 0,
            forall|j: int| 0 <= j < i - start ==> is_digit(#[trigger] digits[j]),
            value == digits_value(digits.take(i - start)),
        decreases chars.len() - i,
    {
        let c = chars[i];
        assert(digits[i - start] == c);
        if !('0' <= c && c <= '9') {
            assert(!is_digit(digits[i - start]));
            return None;
        }
        let d: u64 = (c as u32 - '0' as u32) as u64;
        proof {
            assert(digits.take(i - start + 1).drop_last() == digits.take(i - start));
            assert(digits.take(i - start + 1).last() == c);
            lemma_digits_value_grows(digits, i - start + 1);
        }
        if value > (u64::MAX - d) / 10 {
            return None;
        }
        value = value * 10 + d;
        i = i + 1;
    }
    proof {
        assert(digits.take(digits.len() as int) == digits);
    }
    Some(value)
}

/// Fields, written one after the other with a comma between each two.
pub open spec fn joined(fields: Seq<Seq<char>>) -> Seq<char>
    decreases fields.len(),
{
    if fields.len() == 0 {
        Seq::empty()
    } else if fields.len() == 1 {
        fields[0]
    } else {
        fields[0] + seq![','] + joined(fields.drop_first())
    }
}

/// Whether a text holds no comma.
pub open spec fn has_no_comma(s: Seq<char>) -> bool {
    forall|i: int| 0 <= i < s.len() ==> #[trigger] s[i] != ','
}

/// What has been read of a field and what follows split into at least one
/// field; no field holds a comma, and joined they give back what was split.
proof fn lemma_fields_from(current: Seq<char>, rest: Seq<char>)
    requires
        has_no_comma(current),
    ensures
        fields_from(current, rest).len() >= 1,
        forall|i: int|
            0 <= i < fields_from(current, rest).len() ==> has_no_comma(
                #[trigger] fields_from(current, rest)[i],
            ),
        joined(fields_from(current, rest)) == current + rest,
    decreases rest.len(),
{
    let fields = fields_from(current, rest);
    if rest.len() == 0 {
        assert(current + rest =~= current);
    } else if rest.first() == ',' {
        let tail = fields_from(Seq::empty(), rest.drop_first());
        lemma_fields_from(Seq::empty(), rest.drop_first());
        assert(fields.drop_first() =~= tail);
        assert(fields[0] == current);
        assert(Seq::<char>::empty() + rest.drop_first() =~= rest.drop_first());
        assert(current + seq![','] + rest.drop_first() =~= current + rest);
        assert forall|i: int| 0 <= i < fields.len() implies has_no_comma(#[trigger] fields[i]) by {
            if i > 0 {
                assert(fields[i] == tail[i - 1]);
            }
        }
    } else {
        let longer = current.push(rest.first());
        lemma_fields_from(longer, rest.drop_first());
        assert(longer + rest.drop_first() =~= current + rest);
    }
}

/// The fields of a line hold no comma, and written one after the other with
/// commas between them they are the line again.
pub proof fn law_fields_join(line: Seq<char>)
    ensures
        fields_of(line).len() >= 1,
        forall|i: int| 0 <= i < fields_of(line).len() ==> has_no_comma(#[trigger] fields_of(line)[i]),
        joined(fields_of(line)) == line,
{
    lemma_fields_from(Seq::empty(), line);
    assert(Seq::<char>::empty() + line =~= line);
}

/// The decimal digits of a number are digits, and their value is the number.
proof fn lemma_decimal_digits(n: nat)
    ensures
        is_digits(decimal_digits(n)),
        digits_value(decimal_digits(n)) == n,
    decreases n,
{
    let d = (n % 10) as int;
    assert(is_digit(digit_char(d)) && digit_value(digit_char(d)) == d);
    if n < 10 {
        assert(decimal_digits(n).drop_last() =~= Seq::<char>::empty());
        assert(digits_value(Seq::<char>::empty()) == 0);
    } else {
        lemma_decimal_digits(n / 10);
        let front = decimal_digits(n / 10);
        let all = decimal_digits(n);
        assert(all.drop_last() =~= front);
        assert forall|i: int| 0 <= i < all.len() implies is_digit(#[trigger] all[i]) by {
            if i < front.len() {
                assert(all[i] == front[i]);
            }
        }
    }
}

/// A whole number that is written in decimal digits reads as itself.
pub proof fn law_decimal_round_trip(n: u64)
    ensures
        whole_number(decimal_digits(n as nat)) == Some(n),
{
    lemma_decimal_digits(n as nat);
    let digits = decimal_digits(n as nat);
    assert(is_digit(digits[0]));
}

} // verus!
