//! Text: building, comparing, searching and reading strings of characters.
use vstd::prelude::*;
use vstd::string::*;

verus! {

/// Width of the sidebar column, separator included.
pub const SIDEBAR_WIDTH: usize = 24;

/// Width of a sidebar row without the separator.
pub const SIDEBAR_BODY: usize = SIDEBAR_WIDTH - 1;

/// What `str::to_lowercase` makes of a text.
pub uninterp spec fn lowercase(text: Seq<char>) -> Seq<char>;

/// `String::push` puts the character behind the text.
pub assume_specification [ String::push ](s: &mut String, ch: char)
    ensures
        final(s)@ == old(s)@.push(ch),
;

/// `str::to_lowercase` maps the text by the Unicode tables, whatever the locale. Its result goes
/// by the name `lowercase`.
pub assume_specification [ str::to_lowercase ](s: &str) -> (lower: String)
    ensures
        lower@ == lowercase(s@),
;

/// The characters of a text.
pub fn chars_of(s: &str) -> (chars: Vec<char>)
    ensures
        chars@ == s@,
{
    let mut chars: Vec<char> = Vec::new();
    for c in it: s.chars()
        invariant
            chars@ == it.seq().take(it.index()),
            it.seq() == s@,
    {
        chars.push(c);
        assert(it.seq().take(it.index() + 1) == it.seq().take(it.index()).push(c));
    }
    assert(s@.take(s@.len() as int) == s@);
    chars
}

/// Whether two texts are the same.
pub fn same_text(a: &str, b: &str) -> (same: bool)
    ensures
        same == (a@ == b@),
{
    let left: String = a.to_owned();
    let right: String = b.to_owned();
    left == right
}

/// Two texts, one behind the other.
pub fn concat2(a: &str, b: &str) -> (whole: String)
    ensures
        whole@ == a@ + b@,
{
    let mut whole: String = a.to_owned();
    whole.append(b);
    whole
}

/// Three texts, one behind the other.
pub fn concat3(a: &str, b: &str, c: &str) -> (whole: String)
    ensures
        whole@ == a@ + b@ + c@,
{
    let mut whole: String = a.to_owned();
    whole.append(b);
    whole.append(c);
    whole
}

// ---------------------------------------------------------------------------------------------
// Numbers
// ---------------------------------------------------------------------------------------------
/// The decimal digit that stands for `d`.
pub open spec fn digit_char(d: int) -> char {
    (48 + d) as char
}

/// The decimal digits of a natural number, without leading zeros.
pub open spec fn digits(n: nat) -> Seq<char>
    decreases n,
{
    if n < 10 {
        seq![digit_char(n as int)]
    } else {
        digits(n / 10).push(digit_char((n % 10) as int))
    }
}

/// A whole number in decimal, with a minus sign where it is negative.
pub open spec fn decimal(n: int) -> Seq<char> {
    if n < 0 {
        seq!['-'] + digits((-n) as nat)
    } else {
        digits(n as nat)
    }
}

fn push_digits(out: &mut String, n: u64)
    ensures
        final(out)@ == old(out)@ + digits(n as nat),
    decreases n,
{
    let ghost before = out@;
    if n >= 10 {
        push_digits(out, n / 10);
        assert((before + digits((n / 10) as nat)).push(digit_char((n % 10) as int)) =~= before
            + digits(n as nat));
    } else {
        assert(before.push(digit_char((n % 10) as int)) =~= before + digits(n as nat));
    }
    let d: u8 = (n % 10) as u8;
    out.push((48u8 + d) as char);
}

/// A natural number in decimal.
pub fn natural_text(n: u64) -> (text: String)
    ensures
        text@ == decimal(n as int),
{
    let mut text = String::new();
    push_digits(&mut text, n);
    assert(text@ =~= digits(n as nat));
    text
}

/// A count in decimal.
pub fn count_text(n: usize) -> (text: String)
    ensures
        text@ == decimal(n as int),
{
    natural_text(n as u64)
}

/// A whole number in decimal.
pub fn int_text(n: i64) -> (text: String)
    ensures
        text@ == decimal(n as int),
{
    if n >= 0 {
        return natural_text(n as u64);
    }
    let size: u64 = (-(n + 1)) as u64 + 1;
    let mut text = String::new();
    text.push('-');
    push_digits(&mut text, size);
    assert(text@ =~= seq!['-'] + digits((-n) as nat));
    text
}

pub open spec fn is_digit(c: char) -> bool {
    '0' <= c <= '9'
}

pub open spec fn digit_value(c: char) -> int {
    c as int - 48
}

/// What a row of decimal digits stands for.
pub open spec fn digits_value(s: Seq<char>) -> int
    decreases s.len(),
{
    if s.len() == 0 {
        0
    } else {
        10 * digits_value(s.drop_last()) + digit_value(s.last())
    }
}

pub open spec fn all_digits(s: Seq<char>) -> bool {
    forall|i: int| 0 <= i < s.len() ==> is_digit(#[trigger] s[i])
}

pub open spec fn has_sign(s: Seq<char>) -> bool {
    s.len() > 0 && (s[0] == '+' || s[0] == '-')
}

/// A text without its sign.
pub open spec fn unsigned_part(s: Seq<char>) -> Seq<char> {
    if has_sign(s) {
        s.skip(1)
    } else {
        s
    }
}

/// What a text of an optional sign and digits stands for.
pub open spec fn signed_value(s: Seq<char>) -> int {
    if has_sign(s) && s[0] == '-' {
        -digits_value(unsigned_part(s))
    } else {
        digits_value(unsigned_part(s))
    }
}

/// The number that a text of an optional sign and one or more digits stands for, where it is one
/// that an `i64` holds.
pub open spec fn parsed_int(s: Seq<char>) -> Option<i64> {
    if unsigned_part(s).len() > 0 && all_digits(unsigned_part(s)) && i64::MIN <= signed_value(s)
        <= i64::MAX {
        Some(signed_value(s) as i64)
    } else {
        None
    }
}

proof fn lemma_digits_value_grows(s: Seq<char>, n: int)
    requires
        0 <= n <= s.len(),
        all_digits(s),
    ensures
        0 <= digits_value(s.take(n)) <= digits_value(s),
    decreases s.len(),
{
    if n == s.len() {
        assert(s.take(n) == s);
        if s.len() > 0 {
            lemma_digits_value_grows(s.drop_last(), s.len() - 1);
            assert(s.drop_last().take(s.len() - 1) == s.drop_last());
        }
    } else {
        lemma_digits_value_grows(s.drop_last(), n);
        assert(s.drop_last().take(n) == s.take(n));
        assert(is_digit(s[s.len() - 1]));
    }
}

proof fn lemma_digits_read_back(n: nat)
    ensures
        digits(n).len() > 0,
        all_digits(digits(n)),
        digits_value(digits(n)) == n,
    decreases n,
{
    if n < 10 {
        assert(digits(n).drop_last() =~= Seq::<char>::empty());
        assert(digits_value(digits(n).drop_last()) == 0);
        assert(digits(n).last() == digit_char(n as int));
    } else {
        lemma_digits_read_back(n / 10);
        let last = digit_char((n % 10) as int);
        assert(digits(n).drop_last() =~= digits(n / 10));
        assert(is_digit(last));
    }
}

/// A number that was written in decimal reads back as that number.
pub proof fn law_number_read_back(n: i64)
    ensures
        parsed_int(decimal(n as int)) == Some(n),
{
    let text = decimal(n as int);
    if n < 0 {
        let rest = digits((-n) as nat);
        lemma_digits_read_back((-n) as nat);
        assert(text[0] == '-');
        assert(unsigned_part(text) =~= rest);
    } else {
        lemma_digits_read_back(n as nat);
        assert(is_digit(text[0]));
        assert(unsigned_part(text) == text);
    }
}

/// Reads a whole number: an optional sign, then digits only.
pub fn parse_int(s: &str) -> (value: Option<i64>)
    ensures
        value == parsed_int(s@),
{
    let chars = chars_of(s);
    let signed: bool = chars.len() > 0 && (chars[0] == '+' || chars[0] == '-');
    let negative: bool = signed && chars[0] == '-';
    let start: usize = if signed {
        1
    } else {
        0
    };
    let ghost body = unsigned_part(s@);
    if chars.len() == start {
        return None;
    }
    let mut size: u128 = 0;
    let mut i: usize = start;
    assert(body.take(0).len() == 0);
    while i < chars.len()
        invariant
            chars@ == s@,
            start <= i <= chars.len(),
            signed == has_sign(s@),
            negative == (signed && s@[0] == '-'),
            start == (if signed { 1int } else { 0 }),
            body == unsigned_part(s@),
            body.len() == chars.len() - start,
            all_digits(body.take(i - start)),
            size == digits_value(body.take(i - start)),
            size <= 9223372036854775808,
        decreases chars.len() - i,
    {
        let c: char = chars[i];
        assert(body[i - start] == c);
        if !('0' <= c && c <= '9') {
            return None;
        }
        let d: u128 = (c as u128) - 48;
        size = size * 10 + d;
        assert(body.take(i + 1 - start).drop_last() == body.take(i - start));
        assert(all_digits(body.take(i + 1 - start))) by {
            assert forall|k: int| 0 <= k < i + 1 - start implies is_digit(
                #[trigger] body.take(i + 1 - start)[k],
            ) by {
                if k < i - start {
                    assert(body.take(i - start)[k] == body[k]);
                }
            }
        }
        if size > 9223372036854775808 {
            proof {
                if all_digits(body) {
                    lemma_digits_value_grows(body, i + 1 - start);
                }
            }
            return None;
        }
        i += 1;
    }
    assert(body.take(body.len() as int) == body);
    if negative {
        if size == 9223372036854775808 {
            Some(i64::MIN)
        } else {
            Some(-(size as i64))
        }
    } else if size == 9223372036854775808 {
        None
    } else {
        Some(size as i64)
    }
}

// ---------------------------------------------------------------------------------------------
// Searching and comparing
// ---------------------------------------------------------------------------------------------
/// Whether `needle` stands in `hay` from place `i` on.
pub open spec fn occurs_at(hay: Seq<char>, needle: Seq<char>, i: int) -> bool {
    0 <= i && i + needle.len() <= hay.len() && hay.subrange(i, i + needle.len()) == needle
}

/// Whether `needle` stands anywhere in `hay`.
pub open spec fn occurs_in(hay: Seq<char>, needle: Seq<char>) -> bool {
    exists|i: int| occurs_at(hay, needle, i)
}

fn found_at(hay: &Vec<char>, needle: &Vec<char>, at: usize) -> (found: bool)
    requires
        at <= hay@.len(),
    ensures
        found == occurs_at(hay@, needle@, at as int),
{
    let end: usize = hay.len();
    if end - at < needle.len() {
        return false;
    }
    let mut j: usize = 0;
    while j < needle.len()
        invariant
            end == hay@.len(),
            at + needle@.len() <= end,
            j <= needle@.len(),
            forall|k: int| 0 <= k < j ==> hay@[at + k] == #[trigger] needle@[k],
        decreases needle.len() - j,
    {
        if hay[at + j] != needle[j] {
            assert(hay@.subrange(at as int, at + needle@.len())[j as int] != needle@[j as int]);
            return false;
        }
        j += 1;
    }
    assert(hay@.subrange(at as int, at + needle@.len()) =~= needle@);
    true
}

/// Whether one text stands in another.
pub fn contains_text(hay: &str, needle: &str) -> (found: bool)
    ensures
        found == occurs_in(hay@, needle@),
{
    let long = chars_of(hay);
    let short = chars_of(needle);
    let mut i: usize = 0;
    while i < long.len()
        invariant
            long@ == hay@,
            short@ == needle@,
            i <= long@.len(),
            forall|k: int| 0 <= k < i ==> !occurs_at(hay@, needle@, k),
        decreases long.len() - i,
    {
        if found_at(&long, &short, i) {
            return true;
        }
        i += 1;
    }
    found_at(&long, &short, i)
}

/// A letter from A to Z in lower case, any other character as it is.
pub open spec fn ascii_lower(c: char) -> char {
    if 'A' <= c <= 'Z' {
        (c as u8 + 32) as char
    } else {
        c
    }
}

/// Whether two texts differ at most in the case of letters from A to Z.
pub open spec fn same_but_case(a: Seq<char>, b: Seq<char>) -> bool {
    a.len() == b.len() && forall|i: int|
        0 <= i < a.len() ==> ascii_lower(#[trigger] a[i]) == ascii_lower(b[i])
}

fn lower(c: char) -> (small: char)
    ensures
        small == ascii_lower(c),
{
    if 'A' <= c && c <= 'Z' {
        (c as u8 + 32) as char
    } else {
        c
    }
}

/// Whether two texts differ at most in the case of letters from A to Z.
pub fn eq_ignore_ascii_case(a: &str, b: &str) -> (same: bool)
    ensures
        same == same_but_case(a@, b@),
{
    let left = chars_of(a);
    let right = chars_of(b);
    if left.len() != right.len() {
        return false;
    }
    let mut i: usize = 0;
    while i < left.len()
        invariant
            left@ == a@,
            right@ == b@,
            left@.len() == right@.len(),
            i <= left@.len(),
            forall|k: int| 0 <= k < i ==> ascii_lower(#[trigger] a@[k]) == ascii_lower(b@[k]),
        decreases left.len() - i,
    {
        if lower(left[i]) != lower(right[i]) {
            assert(ascii_lower(a@[i as int]) != ascii_lower(b@[i as int]));
            return false;
        }
        i += 1;
    }
    true
}

/// A text in which every occurrence of `from`, taken from the left and without overlap, has given
/// way to `to`.
pub open spec fn replaced(s: Seq<char>, from: Seq<char>, to: Seq<char>) -> Seq<char>
    decreases s.len(),
{
    if from.len() == 0 || s.len() < from.len() {
        s
    } else if occurs_at(s, from, 0) {
        to + replaced(s.skip(from.len() as int), from, to)
    } else {
        seq![s[0]] + replaced(s.skip(1), from, to)
    }
}

/// Replaces every occurrence of `from`, which is not empty, by `to`.
pub fn replace_text(s: &str, from: &str, to: &str) -> (text: String)
    requires
        from@.len() > 0,
    ensures
        text@ == replaced(s@, from@, to@),
{
    let chars = chars_of(s);
    let pattern = chars_of(from);
    let mut text = String::new();
    let mut i: usize = 0;
    assert(chars@.skip(0) == s@);
    assert(text@ + replaced(s@, from@, to@) =~= replaced(s@, from@, to@));
    while i < chars.len()
        invariant
            chars@ == s@,
            pattern@ == from@,
            from@.len() > 0,
            i <= chars@.len(),
            text@ + replaced(s@.skip(i as int), from@, to@) == replaced(s@, from@, to@),
        decreases chars.len() - i,
    {
        let ghost rest = s@.skip(i as int);
        let ghost before = text@;
        if found_at(&chars, &pattern, i) {
            assert(rest.subrange(0, from@.len() as int) =~= s@.subrange(
                i as int,
                i + from@.len(),
            ));
            assert(rest.skip(from@.len() as int) =~= s@.skip(i + from@.len()));
            text.append(to);
            i += pattern.len();
            assert(before + (to@ + replaced(s@.skip(i as int), from@, to@)) =~= text@ + replaced(
                s@.skip(i as int),
                from@,
                to@,
            ));
        } else {
            proof {
                if occurs_at(rest, from@, 0) {
                    assert(s@.subrange(i as int, i + from@.len()) =~= rest.subrange(
                        0,
                        from@.len() as int,
                    ));
                }
                assert(rest.skip(1) =~= s@.skip(i + 1));
                if rest.len() < from@.len() {
                    assert(rest.skip(1) == replaced(rest.skip(1), from@, to@));
                    assert(rest =~= seq![rest[0]] + rest.skip(1));
                }
                assert(rest[0] == s@[i as int]);
            }
            text.push(chars[i]);
            i += 1;
            assert(before + (seq![s@[i - 1]] + replaced(s@.skip(i as int), from@, to@)) =~= text@
                + replaced(s@.skip(i as int), from@, to@));
        }
    }
    assert(s@.skip(i as int) =~= Seq::<char>::empty());
    assert(text@ + Seq::<char>::empty() =~= text@);
    text
}

// ---------------------------------------------------------------------------------------------
// Sidebar rows
// ---------------------------------------------------------------------------------------------
pub open spec fn spaces(n: nat) -> Seq<char> {
    Seq::new(n, |i: int| ' ')
}

/// A text as one row of the sidebar column: cut short with an ellipsis where it is too long, filled
/// with spaces where it is not, and closed by the separator.
pub open spec fn sidebar_row(text: Seq<char>) -> Seq<char> {
    if text.len() > SIDEBAR_BODY {
        text.take(SIDEBAR_BODY - 1).push('…').push('│')
    } else {
        (text + spaces((SIDEBAR_BODY - text.len()) as nat)).push('│')
    }
}

/// One row of the sidebar column.
pub fn format_sidebar_column_line(text: &str) -> (line: String)
    ensures
        line@ == sidebar_row(text@),
        line@.len() == SIDEBAR_WIDTH,
{
    let chars = chars_of(text);
    let cut: bool = chars.len() > SIDEBAR_BODY;
    let kept: usize = if cut {
        SIDEBAR_BODY - 1
    } else {
        chars.len()
    };
    let mut line = String::new();
    let mut i: usize = 0;
    while i < kept
        invariant
            chars@ == text@,
            i <= kept <= chars@.len(),
            line@ == text@.take(i as int),
        decreases kept - i,
    {
        line.push(chars[i]);
        i += 1;
        assert(text@.take(i - 1).push(text@[i - 1]) =~= text@.take(i as int));
    }
    if cut {
        line.push('…');
    } else {
        let mut gap: usize = 0;
        assert(text@.take(kept as int) + spaces(0) =~= text@);
        while gap < SIDEBAR_BODY - kept
            invariant
                kept == text@.len(),
                kept <= SIDEBAR_BODY,
                gap <= SIDEBAR_BODY - kept,
                line@ == text@ + spaces(gap as nat),
            decreases SIDEBAR_BODY - kept - gap,
        {
            line.push(' ');
            gap += 1;
            assert((text@ + spaces((gap - 1) as nat)).push(' ') =~= text@ + spaces(gap as nat));
        }
    }
    line.push('│');
    line
}

} // verus!
