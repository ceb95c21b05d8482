//! Small text tools that the rest of the crate builds its strings with.

use vstd::prelude::*;
use vstd::string::*;

verus! {

/// `String::push`: the text with one character added at its end.
#[verifier::external_body]
pub(crate) fn push_char(text: &mut String, c: char)
    ensures
        final(text)@ == old(text)@.push(c),
{
    text.push(c)
}

/// Tells whether two texts hold the same characters.
pub fn same_text(a: &str, b: &str) -> (r: bool)
    ensures
        r == (a@ == b@),
{
    let x = chars_of(a);
    let y = chars_of(b);
    if x.len() != y.len() {
        return false;
    }
    let mut i: usize = 0;
    while i < x.len()
        invariant
            i <= x.len() == y.len(),
            x@ == a@,
            y@ == b@,
            forall|k: int| 0 <= k < i ==> x@[k] == y@[k],
        decreases x.len() - i,
    {
        if x[i] != y[i] {
            return false;
        }
        i = i + 1;
    }
    assert(x@ =~= y@);
    true
}

/// The characters of a text, in a vector.
pub fn chars_of(text: &str) -> (r: Vec<char>)
    ensures
        r@ == text@,
{
    let mut r: Vec<char> = Vec::new();
    for c in it: text.chars()
        invariant
            r@ == text@.take(it.index() as int),
            it.seq() == text@,
    {
        r.push(c);
        assert(text@.take(it.index() + 1) =~= text@.take(it.index() as int).push(c));
    }
    assert(text@.take(text@.len() as int) =~= text@);
    r
}

/// Whether a character is white space: one of the twenty-five characters
/// that Unicode gives the property White_Space.
pub open spec fn is_space(c: char) -> bool {
    let n = c as u32;
    ||| 0x09 <= n <= 0x0d
    ||| n == 0x20
    ||| n == 0x85
    ||| n == 0xa0
    ||| n == 0x1680
    ||| 0x2000 <= n <= 0x200a
    ||| n == 0x2028
    ||| n == 0x2029
    ||| n == 0x202f
    ||| n == 0x205f
    ||| n == 0x3000
}

/// Tells whether a character is white space.
pub fn is_whitespace(c: char) -> (r: bool)
    ensures
        r == is_space(c),
{
    let n = c as u32;
    (0x09 <= n && n <= 0x0d) || n == 0x20 || n == 0x85 || n == 0xa0 || n == 0x1680 || (0x2000 <= n
        && n <= 0x200a) || n == 0x2028 || n == 0x2029 || n == 0x202f || n == 0x205f || n == 0x3000
}

/// How often a character occurs in a text.
pub open spec fn count_of(text: Seq<char>, c: char) -> nat
    decreases text.len(),
{
    if text.len() == 0 {
        0
    } else {
        count_of(text.drop_last(), c) + if text.last() == c {
            1nat
        } else {
            0nat
        }
    }
}

/// A character occurs at most as often as the text is long, and not at all
/// exactly when no place holds it.
pub proof fn lemma_count_of(text: Seq<char>, c: char)
    ensures
        count_of(text, c) <= text.len(),
        count_of(text, c) == 0 <==> forall|i: int| 0 <= i < text.len() ==> text[i] != c,
    decreases text.len(),
{
    if text.len() > 0 {
        lemma_count_of(text.drop_last(), c);
        if count_of(text, c) == 0 {
            assert forall|i: int| 0 <= i < text.len() implies text[i] != c by {
                if i < text.len() - 1 {
                    assert(text.drop_last()[i] == text[i]);
                }
            }
        } else if text.last() != c {
            let i = choose|i: int| 0 <= i < text.drop_last().len() && text.drop_last()[i] == c;
            assert(text[i] == c);
        }
    }
}

/// Counts how often a character occurs among these characters.
pub fn count_in(chars: &Vec<char>, c: char) -> (r: usize)
    ensures
        r == count_of(chars@, c),
{
    let mut r: usize = 0;
    let mut i: usize = 0;
    while i < chars.len()
        invariant
            i <= chars.len(),
            r == count_of(chars@.take(i as int), c),
            r <= i,
        decreases chars.len() - i,
    {
        proof {
            assert(chars@.take(i + 1).drop_last() =~= chars@.take(i as int));
            assert(chars@.take(i + 1).last() == chars@[i as int]);
        }
        if chars[i] == c {
            r = r + 1;
        }
        i = i + 1;
    }
    assert(chars@.take(chars.len() as int) =~= chars@);
    r
}

/// Counts how often a character occurs in a text.
pub fn count_char(text: &str, c: char) -> (r: usize)
    ensures
        r == count_of(text@, c),
{
    let chars = chars_of(text);
    count_in(&chars, c)
}

/// The text made of some of these characters.
pub fn text_of(chars: &Vec<char>, from: usize, to: usize) -> (r: String)
    requires
        from <= to <= chars.len(),
    ensures
        r@ == chars@.subrange(from as int, to as int),
{
    let mut r = String::new();
    let mut i: usize = from;
    while i < to
        invariant
            from <= i <= to <= chars.len(),
            r@ == chars@.subrange(from as int, i as int),
        decreases to - i,
    {
        push_char(&mut r, chars[i]);
        assert(r@ =~= chars@.subrange(from as int, i + 1));
        i = i + 1;
    }
    r
}

/// A text without the white space at its end.
pub open spec fn trim_end(text: Seq<char>) -> Seq<char>
    decreases text.len(),
{
    if text.len() > 0 && is_space(text.last()) {
        trim_end(text.drop_last())
    } else {
        text
    }
}

/// A text without the white space at its start.
pub open spec fn trim_start(text: Seq<char>) -> Seq<char>
    decreases text.len(),
{
    if text.len() > 0 && is_space(text[0]) {
        trim_start(text.drop_first())
    } else {
        text
    }
}

/// A text without the copies of one character at its end.
pub open spec fn trim_end_of(text: Seq<char>, c: char) -> Seq<char>
    decreases text.len(),
{
    if text.len() > 0 && text.last() == c {
        trim_end_of(text.drop_last(), c)
    } else {
        text
    }
}

/// Trimming leaves no text longer.
pub proof fn lemma_trim_len(text: Seq<char>, c: char)
    ensures
        trim_start(text).len() <= text.len(),
        trim_end(text).len() <= text.len(),
        trim_end_of(text, c).len() <= text.len(),
    decreases text.len(),
{
    if text.len() > 0 {
        lemma_trim_len(text.drop_first(), c);
        lemma_trim_len(text.drop_last(), c);
    }
}

/// Where the white space at the end of a run of characters starts.
pub fn trim_end_at(chars: &Vec<char>, from: usize, to: usize) -> (r: usize)
    requires
        from <= to <= chars.len(),
    ensures
        from <= r <= to,
        chars@.subrange(from as int, r as int) == trim_end(chars@.subrange(from as int, to as int)),
{
    let mut r = to;
    while r > from && is_whitespace(chars[r - 1])
        invariant
            from <= r <= to <= chars.len(),
            trim_end(chars@.subrange(from as int, r as int)) == trim_end(
                chars@.subrange(from as int, to as int),
            ),
        decreases r,
    {
        assert(chars@.subrange(from as int, r as int).drop_last() =~= chars@.subrange(
            from as int,
            r - 1,
        ));
        r = r - 1;
    }
    r
}

/// Where the white space at the start of a run of characters ends.
pub fn trim_start_at(chars: &Vec<char>, from: usize, to: usize) -> (r: usize)
    requires
        from <= to <= chars.len(),
    ensures
        from <= r <= to,
        chars@.subrange(r as int, to as int) == trim_start(chars@.subrange(from as int, to as int)),
{
    let mut r = from;
    while r < to && is_whitespace(chars[r])
        invariant
            from <= r <= to <= chars.len(),
            trim_start(chars@.subrange(r as int, to as int)) == trim_start(
                chars@.subrange(from as int, to as int),
            ),
        decreases to - r,
    {
        assert(chars@.subrange(r as int, to as int).drop_first() =~= chars@.subrange(
            r + 1,
            to as int,
        ));
        r = r + 1;
    }
    r
}

/// Where the copies of one character at the end of a run of characters start.
pub fn trim_end_of_at(chars: &Vec<char>, from: usize, to: usize, c: char) -> (r: usize)
    requires
        from <= to <= chars.len(),
    ensures
        from <= r <= to,
        chars@.subrange(from as int, r as int) == trim_end_of(
            chars@.subrange(from as int, to as int),
            c,
        ),
{
    let mut r = to;
    while r > from && chars[r - 1] == c
        invariant
            from <= r <= to <= chars.len(),
            trim_end_of(chars@.subrange(from as int, r as int), c) == trim_end_of(
                chars@.subrange(from as int, to as int),
                c,
            ),
        decreases r,
    {
        assert(chars@.subrange(from as int, r as int).drop_last() =~= chars@.subrange(
            from as int,
            r - 1,
        ));
        r = r - 1;
    }
    r
}

/// Some lines in a row, with a line break between each two.
pub open spec fn joined_lines(lines: Seq<Seq<char>>) -> Seq<char>
    decreases lines.len(),
{
    if lines.len() == 0 {
        Seq::empty()
    } else if lines.len() == 1 {
        lines[0]
    } else {
        joined_lines(lines.drop_last()) + "\n"@ + lines.last()
    }
}

/// The texts of some strings.
pub open spec fn texts_of(lines: Seq<String>) -> Seq<Seq<char>> {
    Seq::new(lines.len(), |i: int| lines[i]@)
}

/// Sets lines in a row, with a line break between each two.
pub fn join_lines(lines: &Vec<String>) -> (r: String)
    ensures
        r@ == joined_lines(texts_of(lines@)),
{
    let mut r = String::new();
    let mut i: usize = 0;
    let ghost all = texts_of(lines@);
    while i < lines.len()
        invariant
            i <= lines.len(),
            all == texts_of(lines@),
            r@ == joined_lines(all.take(i as int)),
        decreases lines.len() - i,
    {
        proof {
            assert(all.take(i + 1).drop_last() =~= all.take(i as int));
            assert(all.take(i + 1).last() == lines@[i as int]@);
            assert(all.take(i + 1)[0] == all[0]);
        }
        if i > 0 {
            r.append("\n");
        }
        r.append(lines[i].as_str());
        proof {
            if i == 0 {
                assert(r@ =~= all[0]);
            }
        }
        i = i + 1;
    }
    assert(all.take(lines.len() as int) =~= all);
    r
}

/// A signed number in decimal, with a space before it where it has one
/// character only.
pub open spec fn padded_text(n: int) -> Seq<char> {
    if signed_decimal_text(n).len() < 2 {
        " "@ + signed_decimal_text(n)
    } else {
        signed_decimal_text(n)
    }
}

/// A text with each backslash that is followed by the letter n replaced,
/// together with that letter, by a line break and a space.
pub open spec fn breaks_of(text: Seq<char>) -> Seq<char>
    decreases text.len(),
{
    if text.len() == 0 {
        text
    } else if text.len() >= 2 && text[0] == '\\' && text[1] == 'n' {
        seq!['\n', ' '] + breaks_of(text.skip(2))
    } else {
        seq![text[0]] + breaks_of(text.drop_first())
    }
}

/// Replaces each backslash and letter n by a line break and a space.
pub fn with_breaks(text: &str) -> (r: String)
    ensures
        r@ == breaks_of(text@),
{
    let chars = chars_of(text);
    let mut r = String::new();
    let mut i: usize = 0;
    assert(chars@.skip(0) =~= chars@);
    assert(r@ + breaks_of(chars@) =~= breaks_of(text@));
    while i < chars.len()
        invariant
            i <= chars.len(),
            chars@ == text@,
            r@ + breaks_of(chars@.skip(i as int)) == breaks_of(text@),
        decreases chars.len() - i,
    {
        let ghost rest = chars@.skip(i as int);
        if chars[i] == '\\' && i + 1 < chars.len() && chars[i + 1] == 'n' {
            proof {
                assert(rest[0] == chars@[i as int] && rest[1] == chars@[i + 1]);
                assert(rest.skip(2) =~= chars@.skip(i + 2));
            }
            let ghost before = r@;
            push_char(&mut r, '\n');
            push_char(&mut r, ' ');
            assert(r@ + breaks_of(chars@.skip(i + 2)) =~= before + breaks_of(rest));
            i = i + 2;
        } else {
            proof {
                assert(rest[0] == chars@[i as int]);
                if rest.len() >= 2 {
                    assert(rest[1] == chars@[i + 1]);
                }
                assert(rest.drop_first() =~= chars@.skip(i + 1));
            }
            let ghost before = r@;
            push_char(&mut r, chars[i]);
            assert(r@ + breaks_of(chars@.skip(i + 1)) =~= before + breaks_of(rest));
            i = i + 1;
        }
    }
    assert(r@ + breaks_of(chars@.skip(i as int)) =~= r@);
    r
}

/// A signed number in decimal, at least two characters wide.
pub fn padded(n: i32) -> (r: String)
    ensures
        r@ == padded_text(n as int),
{
    let text = signed_decimal(n as i64);
    if text.as_str().unicode_len() < 2 {
        let mut r = String::from_str(" ");
        r.append(text.as_str());
        r
    } else {
        text
    }
}

/// The character that writes one decimal digit.
pub open spec fn digit_char(d: nat) -> char
    recommends
        d < 10,
{
    if d == 0 {
        '0'
    } else if d == 1 {
        '1'
    } else if d == 2 {
        '2'
    } else if d == 3 {
        '3'
    } else if d == 4 {
        '4'
    } else if d == 5 {
        '5'
    } else if d == 6 {
        '6'
    } else if d == 7 {
        '7'
    } else if d == 8 {
        '8'
    } else {
        '9'
    }
}

/// A number in decimal, most significant digit first, without leading zeros.
pub open spec fn decimal_text(n: nat) -> Seq<char>
    decreases n,
{
    if n < 10 {
        seq![digit_char(n)]
    } else {
        decimal_text(n / 10).push(digit_char(n % 10))
    }
}

/// A signed number in decimal: a minus sign before the magnitude when negative.
pub open spec fn signed_decimal_text(n: int) -> Seq<char> {
    if n < 0 {
        seq!['-'] + decimal_text((-n) as nat)
    } else {
        decimal_text(n as nat)
    }
}

fn digit(d: u64) -> (c: char)
    requires
        d < 10,
    ensures
        c == digit_char(d as nat),
{
    if d == 0 {
        '0'
    } else if d == 1 {
        '1'
    } else if d == 2 {
        '2'
    } else if d == 3 {
        '3'
    } else if d == 4 {
        '4'
    } else if d == 5 {
        '5'
    } else if d == 6 {
        '6'
    } else if d == 7 {
        '7'
    } else if d == 8 {
        '8'
    } else {
        '9'
    }
}

/// Writes a number in decimal at the end of a text.
pub fn push_decimal(text: &mut String, n: u64)
    ensures
        final(text)@ == old(text)@ + decimal_text(n as nat),
    decreases n,
{
    if n >= 10 {
        push_decimal(text, n / 10);
    }
    push_char(text, digit(n % 10));
    proof {
        if n < 10 {
            assert(old(text)@.push(digit_char(n as nat)) =~= old(text)@ + decimal_text(n as nat));
        } else {
            assert((old(text)@ + decimal_text((n / 10) as nat)).push(digit_char((n % 10) as nat))
                =~= old(text)@ + decimal_text(n as nat));
        }
    }
}

/// A number in decimal.
pub fn decimal(n: u64) -> (r: String)
    ensures
        r@ == decimal_text(n as nat),
{
    let mut r = String::new();
    push_decimal(&mut r, n);
    assert(Seq::<char>::empty() + decimal_text(n as nat) =~= decimal_text(n as nat));
    r
}

/// A signed number in decimal.
pub fn signed_decimal(n: i64) -> (r: String)
    ensures
        r@ == signed_decimal_text(n as int),
{
    if n < 0 {
        let mut r = String::from_str("-");
        proof {
            reveal_strlit("-");
            assert("-"@ =~= seq!['-']);
        }
        let magnitude: u64 = if n == i64::MIN {
            9223372036854775808u64
        } else {
            (-n) as u64
        };
        push_decimal(&mut r, magnitude);
        r
    } else {
        decimal(n as u64)
    }
}

/// The text of a number starts with a digit and holds digits only.
pub proof fn lemma_decimal_digits(n: nat)
    ensures
        decimal_text(n).len() >= 1,
        forall|i: int| 0 <= i < decimal_text(n).len() ==> '0' <= #[trigger] decimal_text(n)[i] <= '9',
    decreases n,
{
    if n >= 10 {
        lemma_decimal_digits(n / 10);
    }
}

/// The number that one decimal digit writes.
pub open spec fn digit_of(c: char) -> Option<nat> {
    if '0' <= c <= '9' {
        Some((c as u32 - 48) as nat)
    } else {
        None
    }
}

/// The number that a run of decimal digits writes; `None` where a character
/// is no digit. No digits write zero.
pub open spec fn digits_value(text: Seq<char>) -> Option<nat>
    decreases text.len(),
{
    if text.len() == 0 {
        Some(0)
    } else {
        match (digits_value(text.drop_last()), digit_of(text.last())) {
            (Some(v), Some(d)) => Some(v * 10 + d),
            _ => None,
        }
    }
}

/// The number that a text writes in decimal: digits, at least one, after at
/// most one plus sign, that write a number of 64 bits.
pub open spec fn parsed_decimal(text: Seq<char>) -> Option<u64> {
    let digits = if text.len() > 0 && text[0] == '+' {
        text.drop_first()
    } else {
        text
    };
    if digits.len() == 0 {
        None
    } else {
        match digits_value(digits) {
            Some(v) => if v <= u64::MAX {
                Some(v as u64)
            } else {
                None
            },
            None => None,
        }
    }
}

/// More digits write no smaller number.
pub proof fn lemma_digits_grow(text: Seq<char>, n: int)
    requires
        0 <= n <= text.len(),
        digits_value(text) is Some,
    ensures
        digits_value(text.take(n)) is Some,
        digits_value(text.take(n))->0 <= digits_value(text)->0,
    decreases text.len() - n,
{
    if n < text.len() {
        lemma_digits_grow(text.drop_last(), n);
        assert(text.drop_last().take(n) =~= text.take(n));
    } else {
        assert(text.take(n) =~= text);
    }
}

/// The text of a number writes that number.
pub proof fn lemma_decimal_round_trip(n: nat)
    ensures
        digits_value(decimal_text(n)) == Some(n),
        decimal_text(n).len() > 0,
        decimal_text(n)[0] != '+',
    decreases n,
{
    if n < 10 {
        let t = decimal_text(n);
        assert(t.drop_last() =~= Seq::<char>::empty());
        assert(digit_of(digit_char(n)) == Some(n));
        reveal_with_fuel(digits_value, 2);
    } else {
        lemma_decimal_round_trip(n / 10);
        let t = decimal_text(n);
        assert(t.drop_last() =~= decimal_text(n / 10));
        assert(t.last() == digit_char(n % 10));
        assert(digit_of(digit_char(n % 10)) == Some(n % 10));
        assert(t[0] == decimal_text(n / 10)[0]);
    }
}

/// A number is read back from its text.
pub proof fn lemma_parse_of_decimal(n: u64)
    ensures
        parsed_decimal(decimal_text(n as nat)) == Some(n),
{
    lemma_decimal_round_trip(n as nat);
}

/// Reads a number written in decimal.
pub fn parse_decimal(text: &str) -> (r: Option<u64>)
    ensures
        r == parsed_decimal(text@),
{
    let chars = chars_of(text);
    let start: usize = if chars.len() > 0 && chars[0] == '+' {
        1
    } else {
        0
    };
    if start >= chars.len() {
        return None;
    }
    let ghost digits = chars@.skip(start as int);
    proof {
        if start == 1 {
            assert(digits =~= chars@.drop_first());
        } else {
            assert(digits =~= chars@);
        }
    }
    let mut value: u64 = 0;
    let mut i: usize = start;
    assert(digits.take(0) =~= Seq::<char>::empty());
    assert(digits.len() > 0);
    while i < chars.len()
        invariant
            start <= i <= chars.len(),
            digits == chars@.skip(start as int),
            digits_value(digits.take(i - start)) == Some(value as nat),
            parsed_decimal(text@) == (match digits_value(digits) {
                Some(v) => if v <= u64::MAX {
                    Some(v as u64)
                } else {
                    None
                },
                None => None,
            }),
        decreases chars.len() - i,
    {
        let c = chars[i];
        let ghost prefix = digits.take(i - start + 1);
        proof {
            assert(prefix.drop_last() =~= digits.take(i - start));
            assert(prefix.last() == c);
        }
        if !('0' <= c && c <= '9') {
            proof {
                assert(digits_value(prefix) is None);
                if digits_value(digits) is Some {
                    lemma_digits_grow(digits, i - start + 1);
                }
            }
            return None;
        }
        let d = (c as u32 - 48) as u64;
        if value > (u64::MAX - d) / 10 {
            proof {
                assert(value * 10 + d > u64::MAX) by (nonlinear_arith)
                    requires
                        value > (u64::MAX - d) / 10,
                        0 <= d <= 9,
                ;
                if digits_value(digits) is Some {
                    lemma_digits_grow(digits, i - start + 1);
                }
            }
            return None;
        }
        assert(value * 10 + d <= u64::MAX) by (nonlinear_arith)
            requires
                value <= (u64::MAX - d) / 10,
                0 <= d <= 9,
        ;
        value = value * 10 + d;
        i = i + 1;
    }
    assert(digits.take(chars.len() - start) =~= digits);
    Some(value)
}

} // verus!
