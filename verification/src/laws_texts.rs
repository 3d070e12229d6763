//! What holds of texts and numbers.
use crate::dap::{FloatReading, dap_int, has_fraction};
use crate::json::Json;
use crate::launch::expanded;
use crate::text::{
    all_digits, ascii_lower, decimal, digits, digits_value, has_sign, is_digit,
    law_number_read_back, occurs_at, occurs_in, parsed_int, replaced, same_but_case,
    unsigned_part,
};
use vstd::prelude::*;

verus! {

/// A number is written with digits only, behind a minus sign where it is negative, and without a zero
/// in front.
pub proof fn law_numbers_are_written_plainly(n: int)
    ensures
        ({
            let text = decimal(n);
            &&& text.len() > 0
            &&& n < 0 ==> text.len() > 1 && text[0] == '-' && forall|i: int|
                1 <= i < text.len() ==> '0' <= #[trigger] text[i] <= '9'
            &&& n >= 0 ==> forall|i: int| 0 <= i < text.len() ==> '0' <= #[trigger] text[i] <= '9'
            &&& n > 0 ==> text[0] != '0'
            &&& n < 0 ==> text[1] != '0'
            &&& n == 0 ==> text == seq!['0']
        }),
{
    if n < 0 {
        lemma_digits_plain((-n) as nat);
        let rest = digits((-n) as nat);
        assert forall|i: int| 1 <= i < decimal(n).len() implies '0' <= #[trigger] decimal(n)[i]
            <= '9' by {
            assert(decimal(n)[i] == rest[i - 1]);
        }
        assert(decimal(n)[1] == rest[0]);
    } else {
        lemma_digits_plain(n as nat);
    }
}

proof fn lemma_digits_plain(n: nat)
    ensures
        digits(n).len() > 0,
        forall|i: int| 0 <= i < digits(n).len() ==> '0' <= #[trigger] digits(n)[i] <= '9',
        n > 0 ==> digits(n)[0] != '0',
    decreases n,
{
    if n >= 10 {
        lemma_digits_plain(n / 10);
        assert(digits(n)[0] == digits(n / 10)[0]);
    }
}

/// Numbers that differ are written differently.
pub proof fn law_numbers_are_told_apart(a: i64, b: i64)
    requires
        a != b,
    ensures
        decimal(a as int) != decimal(b as int),
{
    law_number_read_back(a);
    law_number_read_back(b);
}

/// A further digit makes ten times the number, and the digit.
pub proof fn law_a_further_digit(text: Seq<char>, n: i64, digit: char)
    requires
        text.len() > 0,
        all_digits(text),
        parsed_int(text) == Some(n),
        '0' <= digit <= '9',
        10 * n + (digit as int - '0' as int) <= i64::MAX,
    ensures
        parsed_int(text.push(digit)) == Some((10 * n + (digit as int - '0' as int)) as i64),
        parsed_int(seq!['+'] + text) == Some(n),
        parsed_int(seq!['-'] + text) == Some((-n) as i64),
{
    assert(is_digit(text[0]));
    let longer = text.push(digit);
    assert(longer.drop_last() =~= text);
    assert(all_digits(longer)) by {
        assert forall|i: int| 0 <= i < longer.len() implies is_digit(#[trigger] longer[i]) by {
            if i < text.len() {
                assert(longer[i] == text[i]);
            }
        }
    }
    assert(longer[0] == text[0]);
    lemma_value_positive(text);
    assert(unsigned_part(seq!['+'] + text) =~= text);
    assert(unsigned_part(seq!['-'] + text) =~= text);
}

proof fn lemma_value_positive(text: Seq<char>)
    requires
        all_digits(text),
    ensures
        digits_value(text) >= 0,
    decreases text.len(),
{
    if text.len() > 0 {
        assert(is_digit(text[text.len() - 1]));
        lemma_value_positive(text.drop_last());
    }
}

/// A single digit is the number that it shows.
pub proof fn law_single_digits(digit: char)
    requires
        '0' <= digit <= '9',
    ensures
        parsed_int(seq![digit]) == Some((digit as int - '0' as int) as i64),
{
    let text = seq![digit];
    assert(text.drop_last() =~= Seq::<char>::empty());
    assert(digits_value(Seq::<char>::empty()) == 0);
    assert(digits_value(text) == digit as int - 48);
}

/// Only digits behind at most one sign are a number.
pub proof fn law_other_texts_are_no_numbers(text: Seq<char>, i: int)
    requires
        0 <= i < text.len(),
        !('0' <= text[i] <= '9'),
        i > 0 || (text[0] != '+' && text[0] != '-'),
    ensures
        parsed_int(text) is None,
        parsed_int(Seq::empty()) is None,
        parsed_int(seq!['-']) is None,
        parsed_int(seq!['+']) is None,
{
    let rest = unsigned_part(text);
    if has_sign(text) {
        assert(rest[i - 1] == text[i]);
    } else {
        assert(rest[i] == text[i]);
    }
    assert(seq!['-'].skip(1).len() == 0);
    assert(seq!['+'].skip(1).len() == 0);
}

/// Texts that differ in the case of letters from A to Z alone are taken for one another, and no others.
pub proof fn law_case_does_not_count(a: Seq<char>, b: Seq<char>)
    ensures
        same_but_case(a, b) <==> a.len() == b.len() && forall|i: int|
            0 <= i < a.len() ==> #[trigger] a[i] == b[i] || ('A' <= a[i] <= 'Z' && b[i] as int
                == a[i] as int + 32) || ('A' <= b[i] <= 'Z' && a[i] as int == b[i] as int + 32),
{
    assert forall|i: int| 0 <= i < a.len() && a.len() == b.len() implies (ascii_lower(a[i])
        == ascii_lower(b[i])) == (#[trigger] a[i] == b[i] || ('A' <= a[i] <= 'Z' && b[i] as int
        == a[i] as int + 32) || ('A' <= b[i] <= 'Z' && a[i] as int == b[i] as int + 32)) by {
        lemma_lower(a[i], b[i]);
    }
    if same_but_case(a, b) {
        assert forall|i: int| 0 <= i < a.len() implies #[trigger] a[i] == b[i] || ('A' <= a[i]
            <= 'Z' && b[i] as int == a[i] as int + 32) || ('A' <= b[i] <= 'Z' && a[i] as int
            == b[i] as int + 32) by {
            assert(ascii_lower(a[i]) == ascii_lower(b[i]));
        }
    }
}

proof fn lemma_lower(a: char, b: char)
    ensures
        (ascii_lower(a) == ascii_lower(b)) == (a == b || ('A' <= a <= 'Z' && b as int == a as int
            + 32) || ('A' <= b <= 'Z' && a as int == b as int + 32)),
{
}

/// A text is found in another where it stands at some place, letter by letter.
pub proof fn law_found_in(hay: Seq<char>, needle: Seq<char>)
    ensures
        occurs_in(hay, needle) <==> exists|before: Seq<char>, after: Seq<char>|
            hay == #[trigger] (before + needle + after),
{
    if occurs_in(hay, needle) {
        let i = choose|i: int| occurs_at(hay, needle, i);
        let before = hay.take(i);
        let after = hay.skip(i + needle.len());
        assert(hay =~= before + needle + after);
    }
    if exists|before: Seq<char>, after: Seq<char>| hay == #[trigger] (before + needle + after) {
        let (before, after) = choose|before: Seq<char>, after: Seq<char>|
            hay == #[trigger] (before + needle + after);
        assert((before + needle + after).subrange(
            before.len() as int,
            (before.len() + needle.len()) as int,
        ) =~= needle);
        assert(occurs_at(hay, needle, before.len() as int));
    }
}

/// The first occurrence of a text gives way to another; what stands before it stays, and what stands
/// behind it is dealt with in the same way.
pub proof fn law_first_occurrence_is_replaced(
    text: Seq<char>,
    from: Seq<char>,
    to: Seq<char>,
    i: int,
)
    requires
        from.len() > 0,
        occurs_at(text, from, i),
        forall|j: int| 0 <= j < i ==> !(#[trigger] occurs_at(text, from, j)),
    ensures
        replaced(text, from, to) == text.take(i) + to + replaced(
            text.skip(i + from.len()),
            from,
            to,
        ),
    decreases text.len(),
{
    if i == 0 {
        assert(text.take(0) + to =~= to);
    } else {
        assert(!occurs_at(text, from, 0));
        let rest = text.skip(1);
        assert(rest.subrange(i - 1, i - 1 + from.len()) =~= text.subrange(i, i + from.len()));
        assert forall|j: int| 0 <= j < i - 1 implies !(#[trigger] occurs_at(rest, from, j)) by {
            assert(rest.subrange(j, j + from.len()) =~= text.subrange(j + 1, j + 1 + from.len()));
            assert(!occurs_at(text, from, j + 1));
        }
        law_first_occurrence_is_replaced(rest, from, to, i - 1);
        assert(rest.skip(i - 1 + from.len()) =~= text.skip(i + from.len()));
        assert(seq![text[0]] + (rest.take(i - 1) + to + replaced(
            text.skip(i + from.len()),
            from,
            to,
        )) =~= text.take(i) + to + replaced(text.skip(i + from.len()), from, to));
    }
}

/// A text without an occurrence stays as it is.
pub proof fn law_nothing_to_replace(text: Seq<char>, from: Seq<char>, to: Seq<char>)
    requires
        from.len() > 0,
        forall|j: int| 0 <= j < text.len() ==> !(#[trigger] occurs_at(text, from, j)),
    ensures
        replaced(text, from, to) == text,
    decreases text.len(),
{
    if text.len() >= from.len() {
        assert(!occurs_at(text, from, 0));
        let rest = text.skip(1);
        assert forall|j: int| 0 <= j < rest.len() implies !(#[trigger] occurs_at(rest, from, j)) by {
            if j + from.len() <= rest.len() {
                assert(rest.subrange(j, j + from.len()) =~= text.subrange(
                    j + 1,
                    j + 1 + from.len(),
                ));
            }
            assert(!occurs_at(text, from, j + 1));
        }
        law_nothing_to_replace(rest, from, to);
        assert(seq![text[0]] + rest =~= text);
    }
}

/// The place holders stand for the folder of temporary files and for the process: first the one is
/// filled in everywhere, and then the other.
pub proof fn law_place_holders(text: Seq<char>, tmp_dir: Seq<char>, pid: Seq<char>)
    ensures
        expanded(Json::Text(text), tmp_dir, pid) == Json::Text(
            replaced(replaced(text, "${tmpDir}"@, tmp_dir), "${pid}"@, pid),
        ),
{
}

/// Place holders are filled in wherever texts stand in a value, and nothing else is changed.
pub proof fn law_place_holders_within(json: Json, tmp_dir: Seq<char>, pid: Seq<char>)
    ensures
        match (json, expanded(json, tmp_dir, pid)) {
            (Json::Text(_), after) => after is Text,
            (Json::Array(items), after) => after matches Json::Array(filled) && filled.len()
                == items.len() && forall|i: int|
                0 <= i < items.len() ==> #[trigger] filled[i] == expanded(items[i], tmp_dir, pid),
            (Json::Object(members), after) => after matches Json::Object(filled) && filled.dom()
                == members.dom() && forall|key: Seq<char>|
                members.contains_key(key) ==> #[trigger] filled[key] == expanded(
                    members[key],
                    tmp_dir,
                    pid,
                ),
            (other, after) => after == other,
        },
{
    if let Json::Object(members) = json {
        assert(expanded(json, tmp_dir, pid)->Object_0.dom() =~= members.dom());
    }
}

/// A text that is a place holder alone is what it stands for.
pub proof fn law_place_holder_alone(tmp_dir: Seq<char>, pid: Seq<char>)
    requires
        forall|j: int|
            0 <= j < tmp_dir.len() ==> !(#[trigger] occurs_at(tmp_dir, "${pid}"@, j)),
    ensures
        expanded(Json::Text("${tmpDir}"@), tmp_dir, pid) == Json::Text(tmp_dir),
        expanded(Json::Text("${pid}"@), tmp_dir, pid) == Json::Text(pid),
{
    reveal_strlit("${tmpDir}");
    reveal_strlit("${pid}");
    let tmp = "${tmpDir}"@;
    let process = "${pid}"@;
    assert(tmp.subrange(0, tmp.len() as int) =~= tmp);
    law_first_occurrence_is_replaced(tmp, tmp, tmp_dir, 0);
    assert(tmp.skip(tmp.len() as int) =~= Seq::<char>::empty());
    assert(replaced(Seq::<char>::empty(), tmp, tmp_dir) =~= Seq::<char>::empty());
    assert(tmp.take(0) + tmp_dir + Seq::<char>::empty() =~= tmp_dir);
    law_nothing_to_replace(tmp_dir, process, pid);
    assert(process.len() < tmp.len());
    assert(process.subrange(0, process.len() as int) =~= process);
    law_first_occurrence_is_replaced(process, process, pid, 0);
    assert(process.skip(process.len() as int) =~= Seq::<char>::empty());
    assert(replaced(Seq::<char>::empty(), process, pid) =~= Seq::<char>::empty());
    assert(process.take(0) + pid + Seq::<char>::empty() =~= pid);
}

/// A number that is not stored as an integer and has no fraction is the one of its first reading.
pub proof fn law_first_reading_counts(floats: Seq<FloatReading>, text: Seq<char>, i: int)
    requires
        0 <= i < floats.len(),
        floats[i].text@ == text,
        forall|j: int| 0 <= j < i ==> (#[trigger] floats[j]).text@ != text,
        !has_fraction(text),
    ensures
        dap_int(Json::Float(text), floats) == Some(floats[i].value),
    decreases i,
{
    if i > 0 {
        assert(floats[0].text@ != text);
        assert(forall|j: int| 0 <= j < i - 1 ==> floats.skip(1)[j] == #[trigger] floats[j + 1]);
        assert forall|j: int| 0 <= j < i - 1 implies (#[trigger] floats.skip(1)[j]).text@ != text by {
            assert(floats[j + 1].text@ != text);
        }
        law_first_reading_counts(floats.skip(1), text, i - 1);
    }
}

/// A whole number that is too large is cut down to the largest.
pub proof fn law_large_numbers_are_cut_down(n: int, floats: Seq<FloatReading>)
    requires
        i64::MAX < n <= u64::MAX,
    ensures
        dap_int(Json::Int(n), floats) == Some(i64::MAX),
{
}

/// A number in a text is read as the number, and a text that is none is read as none.
pub proof fn law_numbers_in_texts(text: Seq<char>, n: i64, floats: Seq<FloatReading>)
    ensures
        dap_int(Json::Text(decimal(n as int)), floats) == Some(n),
        dap_int(Json::Text(text), floats) == parsed_int(text),
{
    law_number_read_back(n);
}

} // verus!
