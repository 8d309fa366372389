//! Character-level text operations: white space, trimming, numbers as text and string building.

use vstd::prelude::*;

verus! {

/// `String::push` appends one character to the end of the string and keeps what was there.
pub assume_specification[ String::push ](s: &mut String, c: char)
    ensures
        final(s)@ == old(s)@.push(c),
;

/// The characters with the Unicode `White_Space` property.
pub open spec fn white_space(c: char) -> bool {
    let n = c as u32;
    ||| 0x9 <= n <= 0xd
    ||| n == 0x20
    ||| n == 0x85
    ||| n == 0xa0
    ||| n == 0x1680
    ||| 0x2000 <= n <= 0x200a
    ||| n == 0x2028
    ||| n == 0x2029
    ||| n == 0x202f
    ||| n == 0x205f
    ||| n == 0x3000
}

/// Whether `c` has the Unicode `White_Space` property.
pub fn is_whitespace(c: char) -> (r: bool)
    ensures
        r == white_space(c),
{
    let n: u32 = c as u32;
    (0x9 <= n && n <= 0xd) || n == 0x20 || n == 0x85 || n == 0xa0 || n == 0x1680 || (0x2000 <= n
        && n <= 0x200a) || n == 0x2028 || n == 0x2029 || n == 0x202f || n == 0x205f || n == 0x3000
}

/// The characters of the Unicode general category `Cc`.
pub open spec fn control(c: char) -> bool {
    let n = c as u32;
    n <= 0x1f || 0x7f <= n <= 0x9f
}

/// Whether `c` is a control character.
pub fn is_control(c: char) -> (r: bool)
    ensures
        r == control(c),
{
    let n: u32 = c as u32;
    n <= 0x1f || (0x7f <= n && n <= 0x9f)
}

/// The characters of `s`, in order.
pub fn to_chars(s: &str) -> (chars: Vec<char>)
    ensures
        chars@ == s@,
{
    let mut chars: Vec<char> = Vec::new();
    for c in it: s.chars()
        invariant
            it.seq() == s@,
            chars@ == s@.take(it.index() as int),
    {
        chars.push(c);
    }
    chars
}

/// The string of the characters `chars[from..to]`.
pub fn from_chars(chars: &Vec<char>, from: usize, to: usize) -> (s: String)
    requires
        from <= to <= chars@.len(),
    ensures
        s@ == chars@.subrange(from as int, to as int),
{
    let mut s = String::new();
    let mut i: usize = from;
    while i < to
        invariant
            from <= i <= to <= chars@.len(),
            s@ == chars@.subrange(from as int, i as int),
        decreases to - i,
    {
        s.push(chars[i]);
        i += 1;
    }
    s
}

/// Whether two strings hold the same characters.
pub fn same_text(a: &str, b: &str) -> (r: bool)
    ensures
        r == (a@ == b@),
{
    a.to_owned() == b.to_owned()
}

/// `s` without its leading white space.
pub open spec fn trimmed_start(s: Seq<char>) -> Seq<char>
    decreases s.len(),
{
    if s.len() > 0 && white_space(s[0]) {
        trimmed_start(s.drop_first())
    } else {
        s
    }
}

/// `s` without its trailing white space.
pub open spec fn trimmed_end(s: Seq<char>) -> Seq<char>
    decreases s.len(),
{
    if s.len() > 0 && white_space(s.last()) {
        trimmed_end(s.drop_last())
    } else {
        s
    }
}

/// `s` without leading and trailing white space.
pub open spec fn trimmed(s: Seq<char>) -> Seq<char> {
    trimmed_end(trimmed_start(s))
}

/// What trimming the end keeps is a prefix that is empty or ends in a visible character.
pub proof fn lemma_trimmed_end(s: Seq<char>)
    ensures
        trimmed_end(s).len() <= s.len(),
        trimmed_end(s) == s.take(trimmed_end(s).len() as int),
        trimmed_end(s).len() > 0 ==> !white_space(trimmed_end(s).last()),
        forall|i: int| trimmed_end(s).len() <= i < s.len() ==> white_space(s[i]),
    decreases s.len(),
{
    if s.len() > 0 && white_space(s.last()) {
        let t = s.drop_last();
        lemma_trimmed_end(t);
        assert(trimmed_end(s) == s.take(trimmed_end(s).len() as int));
        assert forall|i: int| trimmed_end(s).len() <= i < s.len() implies white_space(s[i]) by {
            if i < t.len() {
                assert(t[i] == s[i]);
            }
        }
    } else {
        assert(s == s.take(s.len() as int));
    }
}

/// What trimming the start keeps is a suffix that is empty or starts with a visible character.
pub proof fn lemma_trimmed_start(s: Seq<char>)
    ensures
        trimmed_start(s).len() <= s.len(),
        trimmed_start(s) == s.skip(s.len() - trimmed_start(s).len()),
        trimmed_start(s).len() > 0 ==> !white_space(trimmed_start(s)[0]),
        forall|i: int| 0 <= i < s.len() - trimmed_start(s).len() ==> white_space(s[i]),
    decreases s.len(),
{
    if s.len() > 0 && white_space(s[0]) {
        let t = s.drop_first();
        lemma_trimmed_start(t);
        assert(trimmed_start(s) == s.skip(s.len() - trimmed_start(s).len()));
        assert forall|i: int| 0 <= i < s.len() - trimmed_start(s).len() implies white_space(
            s[i],
        ) by {
            if i > 0 {
                assert(t[i - 1] == s[i]);
            }
        }
    } else {
        assert(s == s.skip(0));
    }
}

/// The prefix `s[..n]` is what trimming the end of `s` keeps, when only white space follows and
/// the prefix does not end in white space.
pub proof fn lemma_trimmed_end_is(s: Seq<char>, n: int)
    requires
        0 <= n <= s.len(),
        forall|i: int| n <= i < s.len() ==> white_space(s[i]),
        n > 0 ==> !white_space(s[n - 1]),
    ensures
        trimmed_end(s) == s.take(n),
    decreases s.len(),
{
    if n < s.len() {
        lemma_trimmed_end_is(s.drop_last(), n);
        assert(s.drop_last().take(n) == s.take(n));
    } else {
        assert(s.take(n) == s);
    }
}

/// The suffix `s[n..]` is what trimming the start of `s` keeps, when only white space precedes and
/// the suffix does not start with white space.
pub proof fn lemma_trimmed_start_is(s: Seq<char>, n: int)
    requires
        0 <= n <= s.len(),
        forall|i: int| 0 <= i < n ==> white_space(s[i]),
        n < s.len() ==> !white_space(s[n]),
    ensures
        trimmed_start(s) == s.skip(n),
    decreases s.len(),
{
    if n > 0 {
        lemma_trimmed_start_is(s.drop_first(), n - 1);
        assert(s.drop_first().skip(n - 1) == s.skip(n));
    } else {
        assert(s.skip(n) == s);
    }
}

/// The length of `chars` without its trailing white space.
fn visible_end(chars: &Vec<char>) -> (n: usize)
    ensures
        n <= chars@.len(),
        trimmed_end(chars@) == chars@.take(n as int),
        forall|i: int| n <= i < chars@.len() ==> white_space(chars@[i]),
        n > 0 ==> !white_space(chars@[n - 1]),
{
    let mut n: usize = chars.len();
    while n > 0 && is_whitespace(chars[n - 1])
        invariant
            n <= chars@.len(),
            forall|i: int| n <= i < chars@.len() ==> white_space(chars@[i]),
        decreases n,
    {
        n -= 1;
    }
    proof {
        lemma_trimmed_end_is(chars@, n as int);
    }
    n
}

/// `s` without its trailing white space.
pub fn trim_end(s: &str) -> (r: String)
    ensures
        r@ == trimmed_end(s@),
{
    let chars = to_chars(s);
    let n = visible_end(&chars);
    from_chars(&chars, 0, n)
}

/// `s` without leading and trailing white space.
pub fn trim(s: &str) -> (r: String)
    ensures
        r@ == trimmed(s@),
{
    let chars = to_chars(s);
    let end = visible_end(&chars);
    let mut start: usize = 0;
    while start < end && is_whitespace(chars[start])
        invariant
            start <= end <= chars@.len(),
            forall|i: int| 0 <= i < start ==> white_space(chars@[i]),
        decreases end - start,
    {
        start += 1;
    }
    proof {
        if start == end {
            // Everything is white space.
            assert(end == 0);
            lemma_trimmed_start_is(s@, s@.len() as int);
            assert(trimmed(s@) == Seq::<char>::empty());
        } else {
            lemma_trimmed_start_is(s@, start as int);
            let rest = s@.skip(start as int);
            lemma_trimmed_end_is(rest, end - start);
            assert(rest.take(end - start) == s@.subrange(start as int, end as int));
        }
    }
    from_chars(&chars, start, end)
}

/// The decimal digit of `d`.
pub open spec fn digit(d: nat) -> char {
    "0123456789"@[d as int]
}

/// `n` written in decimal.
pub open spec fn decimal(n: nat) -> Seq<char>
    decreases n,
{
    if n < 10 {
        seq![digit(n)]
    } else {
        decimal(n / 10).push(digit(n % 10))
    }
}

/// The lowercase hexadecimal digit of `d`.
pub open spec fn hex_digit(d: nat) -> char {
    "0123456789abcdef"@[d as int]
}

/// The lowercase hexadecimal digit of `d`.
pub fn hex_char(d: u32) -> (c: char)
    requires
        d < 16,
    ensures
        c == hex_digit(d as nat),
{
    proof {
        reveal_strlit("0123456789abcdef");
    }
    match d {
        0 => '0',
        1 => '1',
        2 => '2',
        3 => '3',
        4 => '4',
        5 => '5',
        6 => '6',
        7 => '7',
        8 => '8',
        9 => '9',
        10 => 'a',
        11 => 'b',
        12 => 'c',
        13 => 'd',
        14 => 'e',
        _ => 'f',
    }
}

/// Appends `n` in decimal to `out`.
pub fn push_decimal(out: &mut String, n: u128)
    ensures
        final(out)@ == old(out)@ + decimal(n as nat),
    decreases n,
{
    if n >= 10 {
        push_decimal(out, n / 10);
    }
    let d: u32 = (n % 10) as u32;
    proof {
        reveal_strlit("0123456789");
        reveal_strlit("0123456789abcdef");
    }
    out.push(hex_char(d));
    assert(out@ == old(out)@ + decimal(n as nat));
}

/// Every digit is the image of one value.
proof fn lemma_digit_injective(a: nat, b: nat)
    requires
        a < 10,
        b < 10,
        digit(a) == digit(b),
    ensures
        a == b,
{
    reveal_strlit("0123456789");
}

/// Different numbers are written differently in decimal.
pub proof fn lemma_decimal_injective(a: nat, b: nat)
    requires
        decimal(a) == decimal(b),
    ensures
        a == b,
    decreases a,
{
    lemma_decimal_shape(a);
    lemma_decimal_shape(b);
    if a < 10 && b < 10 {
        lemma_digit_injective(a, b);
    } else if a >= 10 && b >= 10 {
        lemma_digit_injective(a % 10, b % 10);
        lemma_decimal_injective(a / 10, b / 10);
    }
}

/// The last digit of a number, and the digits before it.
proof fn lemma_decimal_shape(n: nat)
    ensures
        n < 10 ==> decimal(n).len() == 1 && decimal(n).last() == digit(n),
        n >= 10 ==> decimal(n).len() > 1 && decimal(n).last() == digit(n % 10)
            && decimal(n).drop_last() == decimal(n / 10),
    decreases n,
{
    if n >= 10 {
        lemma_decimal_shape(n / 10);
        assert(decimal(n).drop_last() == decimal(n / 10));
    }
}

/// The value of a run of decimal digits.
pub open spec fn digits_value(s: Seq<char>) -> nat
    decreases s.len(),
{
    if s.len() == 0 {
        0
    } else {
        digits_value(s.drop_last()) * 10 + digit_value(s.last())
    }
}

/// Whether `c` is an ASCII decimal digit.
pub open spec fn is_digit(c: char) -> bool {
    '0' as u32 <= c as u32 <= '9' as u32
}

/// The value of the decimal digit `c`.
pub open spec fn digit_value(c: char) -> nat {
    (c as u32 - '0' as u32) as nat
}

/// The digits of a number that may start with a plus sign.
pub open spec fn unsigned_digits(s: Seq<char>) -> Seq<char> {
    if s.len() > 0 && s[0] == '+' {
        s.drop_first()
    } else {
        s
    }
}

/// Whether `s` is an optional plus sign followed by decimal digits, and nothing else.
pub open spec fn is_unsigned(s: Seq<char>) -> bool {
    let digits = unsigned_digits(s);
    digits.len() > 0 && forall|i: int| 0 <= i < digits.len() ==> is_digit(#[trigger] digits[i])
}

/// A prefix of a run of digits stands for no more than the whole run.
proof fn lemma_digits_value_monotone(s: Seq<char>, n: int)
    requires
        0 <= n <= s.len(),
    ensures
        digits_value(s.take(n)) <= digits_value(s),
    decreases s.len(),
{
    if n < s.len() {
        lemma_digits_value_monotone(s.drop_last(), n);
        assert(s.drop_last().take(n) == s.take(n));
    } else {
        assert(s.take(n) == s);
    }
}

/// Reads an unsigned number: an optional plus sign and decimal digits whose value fits.
pub fn parse_u64(s: &str) -> (r: Option<u64>)
    ensures
        r is Some <==> is_unsigned(s@) && digits_value(unsigned_digits(s@)) <= u64::MAX,
        r matches Some(n) ==> n == digits_value(unsigned_digits(s@)),
{
    let chars = to_chars(s);
    let start: usize = if chars.len() > 0 && chars[0] == '+' {
        1
    } else {
        0
    };
    let ghost digits = unsigned_digits(s@);
    assert(digits == chars@.skip(start as int));
    if start == chars.len() {
        return None;
    }
    let mut value: u64 = 0;
    let mut i: usize = start;
    while i < chars.len()
        invariant
            start <= i <= chars@.len(),
            start < chars@.len(),
            chars@ == s@,
            digits == unsigned_digits(s@),
            digits == chars@.skip(start as int),
            value == digits_value(digits.take(i - start)),
            forall|j: int| 0 <= j < i - start ==> is_digit(#[trigger] digits[j]),
        decreases chars@.len() - i,
    {
        let n: u32 = chars[i] as u32;
        assert(chars@[i as int] == digits[i - start]);
        if n < 48 || n > 57 {
            return None;
        }
        let d: u64 = (n - 48) as u64;
        proof {
            assert(digits.take(i - start + 1).drop_last() == digits.take(i - start));
            lemma_digits_value_monotone(digits, i - start + 1);
        }
        match value.checked_mul(10) {
            None => {
                return None;
            },
            Some(tens) => match tens.checked_add(d) {
                None => {
                    return None;
                },
                Some(next) => {
                    value = next;
                },
            },
        }
        i += 1;
    }
    assert(digits.take(i - start) == digits);
    Some(value)
}

/// Whether `s` starts with `prefix`.
pub open spec fn has_prefix(s: Seq<char>, prefix: Seq<char>) -> bool {
    prefix.len() <= s.len() && s.take(prefix.len() as int) == prefix
}

/// What follows `prefix` in `s`, if `s` starts with it.
pub fn strip_prefix(s: &str, prefix: &str) -> (r: Option<String>)
    ensures
        r is Some <==> has_prefix(s@, prefix@),
        r matches Some(rest) ==> rest@ == s@.skip(prefix@.len() as int),
{
    let chars = to_chars(s);
    let head = to_chars(prefix);
    if head.len() > chars.len() {
        return None;
    }
    let mut i: usize = 0;
    while i < head.len()
        invariant
            i <= head@.len() <= chars@.len(),
            chars@ == s@,
            head@ == prefix@,
            s@.take(i as int) == prefix@.take(i as int),
        decreases head@.len() - i,
    {
        if chars[i] != head[i] {
            assert(s@.take(head@.len() as int)[i as int] != prefix@[i as int]);
            return None;
        }
        assert(s@.take(i + 1) == s@.take(i as int).push(s@[i as int]));
        assert(prefix@.take(i + 1) == prefix@.take(i as int).push(prefix@[i as int]));
        i += 1;
    }
    assert(prefix@.take(i as int) == prefix@);
    assert(s@.subrange(i as int, s@.len() as int) == s@.skip(i as int));
    let end: usize = chars.len();
    Some(from_chars(&chars, i, end))
}

/// The items joined by `separator`.
pub open spec fn joined(items: Seq<Seq<char>>, separator: Seq<char>) -> Seq<char>
    decreases items.len(),
{
    if items.len() == 0 {
        Seq::empty()
    } else if items.len() == 1 {
        items[0]
    } else {
        joined(items.drop_last(), separator) + separator + items.last()
    }
}

/// The texts of a list of strings.
pub open spec fn texts(items: Seq<String>) -> Seq<Seq<char>> {
    Seq::new(items.len(), |i: int| items[i]@)
}

/// The items joined by `separator`.
pub fn join(items: &Vec<String>, separator: &str) -> (r: String)
    ensures
        r@ == joined(texts(items@), separator@),
{
    let mut r = String::new();
    let mut i: usize = 0;
    assert(texts(items@).take(0) == Seq::<Seq<char>>::empty());
    while i < items.len()
        invariant
            i <= items@.len(),
            r@ == joined(texts(items@).take(i as int), separator@),
        decreases items@.len() - i,
    {
        let ghost before = r@;
        if i > 0 {
            r.append(separator);
        }
        r.append(items[i].as_str());
        proof {
            let next = texts(items@).take(i + 1);
            assert(next.drop_last() == texts(items@).take(i as int));
            assert(next.last() == items@[i as int]@);
            if i == 0 {
                assert(r@ == items@[0]@);
            }
        }
        i += 1;
    }
    assert(texts(items@).take(i as int) == texts(items@));
    r
}

/// White space is what Unicode counts as such, and nothing else is.
pub proof fn law_white_space_is_that_of_unicode(c: char, r: bool)
    requires
        call_ensures(is_whitespace, (c,), r),
    ensures
        r <==> {
            ||| c == '\t' || c == '\n' || c == '\u{b}' || c == '\u{c}' || c == '\r' || c == ' '
            ||| c == '\u{85}' || c == '\u{a0}' || c == '\u{1680}' || c == '\u{2000}' || c
                == '\u{2001}'
            ||| c == '\u{2002}' || c == '\u{2003}' || c == '\u{2004}' || c == '\u{2005}'
            ||| c == '\u{2006}' || c == '\u{2007}' || c == '\u{2008}' || c == '\u{2009}'
            ||| c == '\u{200a}' || c == '\u{2028}' || c == '\u{2029}' || c == '\u{202f}'
            ||| c == '\u{205f}' || c == '\u{3000}'
        },
        r == white_space(c),
{
}

/// The control characters are those before the space, and those from the delete character up to the
/// one before the no-break space.
pub proof fn law_control_characters_are_those_of_unicode(c: char, r: bool)
    requires
        call_ensures(is_control, (c,), r),
    ensures
        r <==> (c as u32) < 0x20 || 0x7f <= (c as u32) < 0xa0,
        r == control(c),
{
}

/// Two texts are the same where they have the same characters.
pub proof fn law_same_texts_have_the_same_characters(a: &str, b: &str, r: bool)
    requires
        call_ensures(same_text, (a, b), r),
    ensures
        r <==> a@.len() == b@.len() && forall|i: int| 0 <= i < a@.len() ==> a@[i] == b@[i],
{
    if a@.len() == b@.len() && forall|i: int| 0 <= i < a@.len() ==> a@[i] == b@[i] {
        assert(a@ == b@);
    }
}

/// Trimming takes away white space at the ends, all of it, and nothing else.
pub proof fn law_trimming_takes_white_space_at_the_ends(s: &str, r: String)
    requires
        call_ensures(trim, (s,), r),
    ensures
        exists|from: int, to: int|
            {
                &&& 0 <= from <= to <= s@.len()
                &&& #[trigger] s@.subrange(from, to) == r@
                &&& forall|i: int| 0 <= i < from || to <= i < s@.len() ==> white_space(s@[i])
            },
        r@.len() > 0 ==> !white_space(r@[0]) && !white_space(r@.last()),
{
    let t = trimmed_start(s@);
    lemma_trimmed_start(s@);
    lemma_trimmed_end(t);
    let from = s@.len() - t.len();
    let to = from + r@.len();
    assert(s@.subrange(from, to) == r@);
    assert forall|i: int| 0 <= i < from || to <= i < s@.len() implies white_space(s@[i]) by {
        if to <= i {
            assert(t[i - from] == s@[i]);
        }
    }
    if r@.len() > 0 {
        assert(r@[0] == t[0]);
    }
}

/// Trimming the end takes away the white space there, all of it, and nothing else.
pub proof fn law_trimming_the_end_keeps_the_start(s: &str, r: String)
    requires
        call_ensures(trim_end, (s,), r),
    ensures
        r@.len() <= s@.len(),
        r@ == s@.take(r@.len() as int),
        forall|i: int| r@.len() <= i < s@.len() ==> white_space(s@[i]),
        r@.len() > 0 ==> !white_space(r@.last()),
{
    lemma_trimmed_end(s@);
}

/// A number below ten is written as its digit, and every other number as the number without its last
/// digit, followed by that digit. What was written before stays.
pub proof fn law_numbers_are_written_in_decimal(
    before: String,
    n: u128,
    after: String,
    other: String,
    after_other: String,
)
    requires
        exists|out: &mut String|
            *out == before && *final(out) == after && #[trigger] call_ensures(
                push_decimal,
                (out, n),
                (),
            ),
        exists|out: &mut String|
            *out == other && *final(out) == after_other && #[trigger] call_ensures(
                push_decimal,
                (out, n / 10),
                (),
            ),
        before@ == other@,
    ensures
        n < 10 ==> after@.len() == before@.len() + 1 && after@.drop_last() == before@,
        n >= 10 ==> after@.drop_last() == after_other@,
        after@.last() as u32 == '0' as u32 + n % 10,
{
    reveal_strlit("0123456789");
    assert(after@ == before@ + decimal(n as nat));
    lemma_decimal_shape(n as nat);
    assert(after@.last() == decimal(n as nat).last());
    assert(n < 10 ==> n % 10 == n);
    if n < 10 {
        assert(after@.drop_last() == before@);
    } else {
        assert(after@.drop_last() == before@ + decimal(n as nat).drop_last());
    }
}

/// Every number of a decimal text is read back as itself.
proof fn lemma_decimal_reads_back(n: nat)
    ensures
        digits_value(decimal(n)) == n,
        decimal(n).len() > 0,
        forall|i: int| 0 <= i < decimal(n).len() ==> is_digit(#[trigger] decimal(n)[i]),
    decreases n,
{
    reveal_strlit("0123456789");
    lemma_decimal_shape(n);
    if n >= 10 {
        lemma_decimal_reads_back(n / 10);
    } else {
        assert(decimal(n).drop_last() == Seq::<char>::empty());
        reveal_with_fuel(digits_value, 2);
    }
}

/// A number that was written is read back as itself, with or without a plus sign before it.
pub proof fn law_numbers_read_back(written: String, n: u64, s: &str, r: Option<u64>)
    requires
        exists|out: &mut String|
            out@.len() == 0 && *final(out) == written && #[trigger] call_ensures(
                push_decimal,
                (out, n as u128),
                (),
            ),
        s@ == written@ || s@ == seq!['+'] + written@,
        call_ensures(parse_u64, (s,), r),
    ensures
        r == Some(n),
{
    lemma_decimal_reads_back(n as nat);
    let digits = decimal(n as nat);
    assert(written@ == digits);
    assert(is_digit(digits[0]));
    if s@ != written@ {
        assert(s@.drop_first() == digits);
    }
}

/// A text is read as a number only where it has a digit and nothing but digits behind a plus sign,
/// which may be missing; one more digit makes ten times the number and the digit.
pub proof fn law_numbers_are_read_digit_by_digit(
    s: &str,
    r: Option<u64>,
    longer: &str,
    r_longer: Option<u64>,
)
    requires
        call_ensures(parse_u64, (s,), r),
        call_ensures(parse_u64, (longer,), r_longer),
        longer@.len() > 0,
        s@ == longer@.drop_last(),
    ensures
        r_longer is Some ==> '0' as u32 <= longer@.last() as u32 <= '9' as u32,
        r matches Some(n) ==> ('0' as u32 <= longer@.last() as u32 <= '9' as u32 ==> {
            let value = n * 10 + (longer@.last() as u32 - '0' as u32);
            if value <= u64::MAX {
                r_longer matches Some(m) && m == value
            } else {
                r_longer is None
            }
        }),
        r is None && s@.len() > 0 && s@ != seq!['+'] ==> r_longer is None,
        s@.len() == 0 ==> r is None,
        s@ == seq!['+'] ==> r is None,
        s@.len() == 0 && '0' as u32 <= longer@.last() as u32 <= '9' as u32 ==> (
        r_longer matches Some(m) && m == longer@.last() as u32 - '0' as u32),
{
    let a = unsigned_digits(s@);
    let b = unsigned_digits(longer@);
    reveal_with_fuel(digits_value, 2);
    if s@.len() == 0 {
        assert(longer@.len() == 1);
        assert(longer@[0] == longer@.last());
        if longer@[0] != '+' {
            assert(b.drop_last() == Seq::<char>::empty());
            assert(b.last() == longer@.last());
        }
    } else {
        assert(longer@[0] == s@[0]);
        if a.len() == 0 {
            assert(s@ == seq!['+']);
        }
        assert(b.drop_last() == a);
        assert(b.last() == longer@.last());
        assert forall|i: int| 0 <= i < a.len() implies a[i] == b[i] by {
        }
        if is_unsigned(longer@) {
            assert(is_digit(b[b.len() - 1]));
            if a.len() > 0 {
                assert forall|i: int| 0 <= i < a.len() implies is_digit(#[trigger] a[i]) by {
                    assert(is_digit(b[i]));
                }
            }
        }
        if is_unsigned(s@) && is_digit(longer@.last()) {
            assert forall|i: int| 0 <= i < b.len() implies is_digit(#[trigger] b[i]) by {
                if i < a.len() {
                    assert(is_digit(a[i]));
                }
            }
        }
    }
}

/// A prefix is stripped where the text is the prefix and something behind it, which is what is left.
pub proof fn law_stripping_leaves_the_rest(s: &str, prefix: &str, r: Option<String>)
    requires
        call_ensures(strip_prefix, (s, prefix), r),
    ensures
        r matches Some(rest) ==> s@ == prefix@ + rest@,
        r is None ==> forall|rest: Seq<char>| s@ != #[trigger] (prefix@ + rest),
{
    let n = prefix@.len() as int;
    if r is Some {
        assert(s@ == s@.take(n) + s@.skip(n));
    } else {
        assert forall|rest: Seq<char>| s@ != #[trigger] (prefix@ + rest) by {
            if s@ == prefix@ + rest {
                assert(s@.take(n) == prefix@);
            }
        }
    }
}

/// Joining puts the separator between the items and nowhere else: no item gives no text, one item
/// gives that item, and one more adds the separator and itself.
pub proof fn law_joining_separates_items(
    items: &Vec<String>,
    separator: &str,
    r: String,
    more: &Vec<String>,
    r_more: String,
)
    requires
        call_ensures(join, (items, separator), r),
        call_ensures(join, (more, separator), r_more),
        more@.len() == items@.len() + 1,
        forall|i: int| 0 <= i < items@.len() ==> (#[trigger] items@[i])@ == more@[i]@,
    ensures
        items@.len() == 0 ==> r@.len() == 0 && r_more@ == more@[0]@,
        items@.len() > 0 ==> r_more@ == r@ + separator@ + more@.last()@,
{
    assert(texts(more@).drop_last() == texts(items@));
    assert(texts(more@).last() == more@.last()@);
}

/// The digit of a value below sixteen.
pub proof fn law_hexadecimal_digits(d: u32, c: char)
    requires
        d < 16,
        call_ensures(hex_char, (d,), c),
    ensures
        d < 10 ==> c as u32 == '0' as u32 + d,
        d >= 10 ==> c as u32 == 'a' as u32 + d - 10,
        c == hex_digit(d as nat),
{
    reveal_strlit("0123456789abcdef");
}

/// The characters of a text, and a part of them as a text again.
pub proof fn law_texts_are_their_characters(
    s: &str,
    chars: Vec<char>,
    from: usize,
    to: usize,
    part: String,
)
    requires
        call_ensures(to_chars, (s,), chars),
        from <= to <= chars@.len(),
        call_ensures(from_chars, (&chars, from, to), part),
    ensures
        chars@.len() == s@.len(),
        part@.len() == to - from,
        forall|i: int| 0 <= i < part@.len() ==> part@[i] == s@[from + i],
{
}

} // verus!
