//! What trimming, searching and the notation of numbers do.

use vstd::prelude::*;

use crate::text;
use crate::text::{
    chars_of, find, is_whitespace, parse_i64, parse_usize, push_decimal, same_text, string_of, trim,
    trim_end_matches,
};

verus! {

/// White space is what Unicode calls so: the tabulator and the other breaks up to the
/// carriage return, the spaces, and the line and paragraph separators.
pub proof fn law_white_space(c: char, b: bool)
    requires
        call_ensures(is_whitespace, (c,), b),
    ensures
        ({
            let u = c as u32;
            b <==> u == 0x9 || u == 0xa || u == 0xb || u == 0xc || u == 0xd || u == 0x20 || u == 0x85
                || u == 0xa0 || u == 0x1680 || 0x2000 <= u <= 0x200a || u == 0x2028 || u == 0x2029
                || u == 0x202f || u == 0x205f || u == 0x3000
        }),
{
}

proof fn lemma_start(s: Seq<char>)
    ensures
        ({
            let t = text::trimmed_start(s);
            &&& t.len() <= s.len()
            &&& t == s.skip(s.len() - t.len())
            &&& forall|i: int| 0 <= i < s.len() - t.len() ==> text::is_space(#[trigger] s[i])
        }),
    decreases s.len(),
{
    let t = text::trimmed_start(s);
    if s.len() > 0 && text::is_space(s[0]) {
        let d = s.drop_first();
        lemma_start(d);
        assert(s.skip(s.len() - t.len()) =~= d.skip(d.len() - t.len()));
        assert forall|i: int| 0 <= i < s.len() - t.len() implies text::is_space(
            #[trigger] s[i],
        ) by {
            if i > 0 {
                assert(s[i] == d[i - 1]);
            }
        }
    } else {
        assert(s.skip(0) =~= s);
    }
}

/// Trimming takes away white space at both ends, all of it, and nothing else.
pub proof fn law_trimming(s: &[char], r: &[char]) -> (from: int)
    requires
        call_ensures(trim, (s,), r),
    ensures
        0 <= from && from + r@.len() <= s@.len(),
        r@ == s@.subrange(from, from + r@.len()),
        forall|i: int| 0 <= i < from ==> text::is_space(#[trigger] s@[i]),
        r@.len() > 0 ==> !text::is_space(r@[0]) && !text::is_space(r@.last()),
        forall|i: int| from + r@.len() <= i < s@.len() ==> text::is_space(#[trigger] s@[i]),
{
    let t = text::trimmed_start(s@);
    let from = s@.len() - t.len();
    lemma_start(s@);
    text::lemma_trimmed(s@);
    text::lemma_trimmed_end_splits(t);
    assert(r@ =~= s@.subrange(from, from + r@.len())) by {
        assert(t.take(r@.len() as int) == r@);
    }
    assert forall|i: int| from + r@.len() <= i < s@.len() implies text::is_space(
        #[trigger] s@[i],
    ) by {
        assert(t.skip(r@.len() as int)[i - from - r@.len()] == s@[i]);
    }
    from
}

/// What is found is the first of its kind.
pub proof fn law_finding(s: &[char], c: char, i: usize)
    requires
        call_ensures(find, (s, c), i),
    ensures
        i <= s@.len(),
        i < s@.len() ==> s@[i as int] == c,
        forall|j: int| 0 <= j < i ==> #[trigger] s@[j] != c,
{
    text::lemma_first_index(s@, c);
}

/// What is trimmed at the end is one character, as often as it stands there.
pub proof fn law_trimming_the_end(s: &[char], c: char, r: &[char])
    requires
        call_ensures(trim_end_matches, (s, c), r),
    ensures
        r@.len() <= s@.len(),
        r@ == s@.take(r@.len() as int),
        r@.len() > 0 ==> r@.last() != c,
        forall|i: int| r@.len() <= i < s@.len() ==> #[trigger] s@[i] == c,
{
    lemma_without_trailing(s@, c);
}

/// What is left of a text without the characters behind it.
pub proof fn lemma_without_trailing(s: Seq<char>, c: char)
    ensures
        ({
            let r = text::without_trailing(s, c);
            &&& r.len() <= s.len()
            &&& r == s.take(r.len() as int)
            &&& r.len() > 0 ==> r.last() != c
            &&& forall|i: int| r.len() <= i < s.len() ==> #[trigger] s[i] == c
        }),
    decreases s.len(),
{
    let r = text::without_trailing(s, c);
    if s.len() > 0 && s.last() == c {
        lemma_without_trailing(s.drop_last(), c);
        assert(r =~= s.take(r.len() as int));
        assert forall|i: int| r.len() <= i < s.len() implies #[trigger] s[i] == c by {
            if i < s.len() - 1 {
                assert(s.drop_last()[i] == s[i]);
            }
        }
    } else {
        assert(s.take(s.len() as int) =~= s);
    }
}

/// Characters and strings are turned into each other one for one, and compared so.
pub proof fn law_characters(s: &str, v: Vec<char>, chars: &[char], t: String, b: bool)
    ensures
        call_ensures(chars_of, (s,), v) ==> v@ == s@,
        call_ensures(string_of, (chars,), t) ==> t@ == chars@,
        call_ensures(same_text, (chars, s), b) ==> (b <==> chars@.len() == s@.len() && forall|i: int|
            0 <= i < s@.len() ==> chars@[i] == #[trigger] s@[i]),
{
    if forall|i: int| 0 <= i < s@.len() ==> chars@[i] == #[trigger] s@[i] {
        assert(chars@.len() == s@.len() ==> chars@ =~= s@);
    }
}

/// A digit stands for a number below ten.
pub open spec fn worth(c: char) -> int {
    c as int - '0' as int
}

/// An unsigned number is one digit or more, with or without a plus before them.
pub proof fn law_numbers_are_digits(s: &[char], r: Option<usize>, q: Option<i64>)
    requires
        call_ensures(parse_usize, (s,), r),
        call_ensures(parse_i64, (s,), q),
    ensures
        s@.len() == 0 ==> r is None && q is None,
        s@.len() == 1 ==> (r is Some <==> '0' <= s@[0] <= '9') && (q is Some <==> '0' <= s@[0]
            <= '9'),
        s@.len() == 1 && '0' <= s@[0] <= '9' ==> r->Some_0 == worth(s@[0]) && q->Some_0 == worth(
            s@[0],
        ),
        s@.len() == 2 && s@[0] == '+' && '0' <= s@[1] <= '9' ==> r is Some && r->Some_0 == worth(
            s@[1],
        ) && q is Some && q->Some_0 == worth(s@[1]),
        s@.len() == 2 && s@[0] == '-' && '0' <= s@[1] <= '9' ==> r is None && q is Some && q->Some_0
            == -worth(s@[1]),
{
    reveal_with_fuel(text::decimal_value, 3);
    if s@.len() == 1 {
        assert(s@[0] == s@.last());
        assert(text::is_decimal(s@) <==> text::is_digit(s@[0]));
        assert(s@.drop_first().len() == 0);
    }
    if s@.len() == 2 {
        assert(s@.drop_first().len() == 1);
        assert(s@.drop_first()[0] == s@[1]);
        assert(s@.drop_first().last() == s@[1]);
        assert(text::is_decimal(s@.drop_first()) <==> text::is_digit(s@[1]));
        assert(s@[0] == '-' ==> !text::is_digit(s@[0]));
    }
}

/// What a row of characters is worth with one more behind it.
proof fn lemma_one_more(s: Seq<char>, c: char)
    ensures
        s.len() > 0 ==> (text::is_decimal(s.push(c)) <==> text::is_decimal(s) && text::is_digit(c)),
        text::decimal_value(s.push(c)) == text::decimal_value(s) * 10 + text::digit_value(c),
{
    let t = s.push(c);
    assert(t.drop_last() =~= s);
    if s.len() > 0 {
        if text::is_decimal(t) {
            assert forall|i: int| 0 <= i < s.len() implies text::is_digit(#[trigger] s[i]) by {
                assert(t[i] == s[i]);
            }
            assert(text::is_digit(t[s.len() as int]));
        }
    }
}

/// One more digit behind a number makes it ten times as large, and adds the digit, as long
/// as the number fits. What is no number stays none, and what is no digit makes it none.
pub proof fn law_one_more_digit(
    s: &[char],
    longer: &[char],
    c: char,
    r: Option<usize>,
    more: Option<usize>,
)
    requires
        call_ensures(parse_usize, (s,), r),
        call_ensures(parse_usize, (longer,), more),
        longer@ == s@.push(c),
    ensures
        c < '0' || c > '9' ==> more is None,
        r is None && s@.len() > 0 && s@ != seq!['+'] ==> more is None,
        r is Some && '0' <= c <= '9' && 10 * r->Some_0 + worth(c) <= usize::MAX ==> more is Some
            && more->Some_0 == 10 * r->Some_0 + worth(c),
        r is Some && '0' <= c <= '9' && 10 * r->Some_0 + worth(c) > usize::MAX ==> more is None,
{
    lemma_one_more(s@, c);
    assert(longer@.last() == c);
    if s@.len() > 0 && s@[0] == '+' {
        let d = s@.drop_first();
        lemma_one_more(d, c);
        assert(longer@.drop_first() =~= d.push(c));
        if d.len() == 0 {
            assert(s@ =~= seq!['+']);
        }
    }
    if s@.len() == 0 {
        assert(c == '+' ==> longer@.drop_first().len() == 0);
    } else {
        assert(longer@[0] == s@[0]);
    }
    if text::is_decimal(longer@) {
        assert(text::is_digit(longer@[s@.len() as int]));
    }
    if text::is_decimal(longer@.drop_first()) {
        assert(longer@.drop_first().last() == longer@.last());
        assert(text::is_digit(longer@.drop_first()[longer@.len() - 2]));
    }
}

/// The same of a signed number: a minus before the digits makes it less with each.
pub proof fn law_one_more_digit_of_a_signed_number(
    s: &[char],
    longer: &[char],
    c: char,
    r: Option<i64>,
    more: Option<i64>,
)
    requires
        call_ensures(parse_i64, (s,), r),
        call_ensures(parse_i64, (longer,), more),
        longer@ == s@.push(c),
    ensures
        ({
            let negative = s@.len() > 0 && s@[0] == '-';
            let next = if negative {
                10 * r->Some_0 - worth(c)
            } else {
                10 * r->Some_0 + worth(c)
            };
            &&& c < '0' || c > '9' ==> more is None
            &&& r is None && s@.len() > 0 && s@ != seq!['+'] && s@ != seq!['-'] ==> more is None
            &&& r is Some && '0' <= c <= '9' && i64::MIN <= next <= i64::MAX ==> more is Some
                && more->Some_0 == next
            &&& r is Some && '0' <= c <= '9' && !(i64::MIN <= next <= i64::MAX) ==> more is None
        }),
{
    lemma_one_more(s@, c);
    assert(longer@.last() == c);
    if s@.len() > 0 && (s@[0] == '+' || s@[0] == '-') {
        let d = s@.drop_first();
        lemma_one_more(d, c);
        assert(longer@.drop_first() =~= d.push(c));
        if d.len() == 0 {
            assert(s@ =~= seq![s@[0]]);
        }
    }
    if s@.len() == 0 {
        assert(longer@.drop_first().len() == 0);
    } else {
        assert(longer@[0] == s@[0]);
    }
    if text::is_decimal(longer@) {
        assert(text::is_digit(longer@[s@.len() as int]));
    }
    if text::is_decimal(longer@.drop_first()) {
        assert(longer@.drop_first().last() == longer@.last());
        assert(text::is_digit(longer@.drop_first()[longer@.len() - 2]));
    }
}

proof fn lemma_no_zero_in_front(n: nat)
    ensures
        text::decimal(n).len() > 0,
        text::decimal(n)[0] == '0' ==> n == 0 && text::decimal(n).len() == 1,
    decreases n,
{
    if n >= 10 {
        lemma_no_zero_in_front(n / 10);
        assert(text::decimal(n)[0] == text::decimal(n / 10)[0]);
    } else {
        assert(text::digit_char(n) == '0' ==> n == 0);
    }
}

/// A number is written behind what stands there already, in digits that read back as the
/// number, and with no zero too many.
pub proof fn law_writing_numbers(
    out: &mut String,
    n: usize,
    done: (),
    digits: &[char],
    r: Option<usize>,
)
    requires
        call_ensures(push_decimal, (out, n), done),
        final(out)@ == old(out)@ + digits@,
        call_ensures(parse_usize, (digits,), r),
    ensures
        r == Some(n),
        digits@.len() > 0,
        forall|i: int| 0 <= i < digits@.len() ==> '0' <= #[trigger] digits@[i] <= '9',
        digits@[0] == '0' ==> n == 0 && digits@.len() == 1,
{
    let text = old(out)@ + digits@;
    assert(digits@ =~= text.skip(old(out)@.len() as int));
    assert(digits@ =~= text::decimal(n as nat));
    text::lemma_decimal_text(n as nat);
    lemma_no_zero_in_front(n as nat);
    assert forall|i: int| 0 <= i < digits@.len() implies '0' <= #[trigger] digits@[i] <= '9' by {
        assert(digits@.contains(digits@[i]));
    }
}

} // verus!
