//! Text as sequences of characters: trimming, searching, splitting and the
//! decimal notation of numbers.

use vstd::prelude::*;

verus! {

/// `String::push` of the standard library: the character is added at the end,
/// and nothing else of the string changes.
pub assume_specification[ String::push ](s: &mut String, c: char)
    ensures
        final(s)@ == old(s)@.push(c),
;

/// What the standard library makes of bytes that are meant to be UTF-8 text.
pub uninterp spec fn lossy_text(bytes: Seq<u8>) -> Seq<char>;

/// `String::from_utf8_lossy` of the standard library: the text of valid UTF-8,
/// with every invalid sequence replaced. Of bytes that are not valid UTF-8 only
/// this is claimed, that the same bytes always give the same text.
#[verifier::external_body]
pub(crate) fn from_utf8_lossy(bytes: &[u8]) -> (s: String)
    ensures
        s@ == lossy_text(bytes@),
        vstd::utf8::valid_utf8(bytes@) ==> s@ == vstd::utf8::decode_utf8(bytes@),
{
    String::from_utf8_lossy(bytes).into_owned()
}

/// Whether a character has the Unicode property White_Space.
pub open spec fn is_space(c: char) -> bool {
    let u = c as u32;
    ||| 0x9 <= u <= 0xd
    ||| u == 0x20
    ||| u == 0x85
    ||| u == 0xa0
    ||| u == 0x1680
    ||| 0x2000 <= u <= 0x200a
    ||| u == 0x2028
    ||| u == 0x2029
    ||| u == 0x202f
    ||| u == 0x205f
    ||| u == 0x3000
}

/// `s` without the white space it starts with.
pub open spec fn trimmed_start(s: Seq<char>) -> Seq<char>
    decreases s.len(),
{
    if s.len() > 0 && is_space(s[0]) {
        trimmed_start(s.drop_first())
    } else {
        s
    }
}

/// `s` without the white space it ends with.
pub open spec fn trimmed_end(s: Seq<char>) -> Seq<char>
    decreases s.len(),
{
    if s.len() > 0 && is_space(s.last()) {
        trimmed_end(s.drop_last())
    } else {
        s
    }
}

/// `s` without the white space around it.
pub open spec fn trimmed(s: Seq<char>) -> Seq<char> {
    trimmed_end(trimmed_start(s))
}

/// Whether there is no white space at either end of `s`.
pub open spec fn is_trimmed(s: Seq<char>) -> bool {
    s.len() > 0 ==> !is_space(s[0]) && !is_space(s.last())
}

/// The position of the first `c` in `s`, or the length of `s` where there is none.
pub open spec fn first_index(s: Seq<char>, c: char) -> int
    decreases s.len(),
{
    if s.len() == 0 || s[0] == c {
        0
    } else {
        1 + first_index(s.drop_first(), c)
    }
}

/// The pieces of `s` between its separators; one more than there are separators.
pub open spec fn pieces(s: Seq<char>, separator: char) -> Seq<Seq<char>>
    decreases s.len(),
    via pieces_decreases
{
    let i = first_index(s, separator);
    if i >= s.len() {
        seq![s]
    } else {
        seq![s.take(i)] + pieces(s.skip(i + 1), separator)
    }
}

#[via_fn]
proof fn pieces_decreases(s: Seq<char>, separator: char) {
    lemma_first_index(s, separator);
}

/// The sequences of `parts`, one after the other, with a separator between two.
pub open spec fn joined(parts: Seq<Seq<char>>, separator: char) -> Seq<char>
    decreases parts.len(),
{
    if parts.len() == 0 {
        Seq::empty()
    } else if parts.len() == 1 {
        parts[0]
    } else {
        parts[0].push(separator) + joined(parts.drop_first(), separator)
    }
}

/// `s` without the `c`s it ends with.
pub open spec fn without_trailing(s: Seq<char>, c: char) -> Seq<char>
    decreases s.len(),
{
    if s.len() > 0 && s.last() == c {
        without_trailing(s.drop_last(), c)
    } else {
        s
    }
}

/// Whether a character is one of the ASCII digits.
pub open spec fn is_digit(c: char) -> bool {
    '0' <= c && c <= '9'
}

/// The number that an ASCII digit stands for.
pub open spec fn digit_value(c: char) -> nat {
    (c as int - '0' as int) as nat
}

/// The ASCII digit that stands for a number below ten.
pub open spec fn digit_char(d: nat) -> char {
    (d + '0' as nat) as char
}

/// Whether `s` is one or more ASCII digits.
pub open spec fn is_decimal(s: Seq<char>) -> bool {
    s.len() > 0 && forall|i: int| 0 <= i < s.len() ==> is_digit(#[trigger] s[i])
}

/// The number that a row of digits stands for.
pub open spec fn decimal_value(s: Seq<char>) -> nat
    decreases s.len(),
{
    if s.len() == 0 {
        0
    } else {
        decimal_value(s.drop_last()) * 10 + digit_value(s.last())
    }
}

/// The shortest decimal notation of a number.
pub open spec fn decimal(n: nat) -> Seq<char>
    decreases n,
{
    if n < 10 {
        seq![digit_char(n)]
    } else {
        decimal(n / 10).push(digit_char(n % 10))
    }
}

/// The unsigned number written in `s`: digits, with an optional `+` before them.
pub open spec fn unsigned_number(s: Seq<char>) -> Option<nat> {
    let digits = if s.len() > 0 && s[0] == '+' {
        s.drop_first()
    } else {
        s
    };
    if is_decimal(digits) {
        Some(decimal_value(digits))
    } else {
        None
    }
}

/// The signed number written in `s`: digits, with an optional `+` or `-` before them.
pub open spec fn signed_number(s: Seq<char>) -> Option<int> {
    if s.len() > 0 && s[0] == '-' {
        if is_decimal(s.drop_first()) {
            Some(-decimal_value(s.drop_first()))
        } else {
            None
        }
    } else {
        match unsigned_number(s) {
            Some(n) => Some(n as int),
            None => None,
        }
    }
}

/// The number in `s`, where it is an unsigned number that a `usize` can hold.
pub open spec fn usize_number(s: Seq<char>) -> Option<usize> {
    match unsigned_number(s) {
        Some(n) => if n <= usize::MAX {
            Some(n as usize)
        } else {
            None
        },
        None => None,
    }
}

/// The number in `s`, where it is a signed number that an `i64` can hold.
pub open spec fn i64_number(s: Seq<char>) -> Option<i64> {
    match signed_number(s) {
        Some(n) => if i64::MIN <= n <= i64::MAX {
            Some(n as i64)
        } else {
            None
        },
        None => None,
    }
}

pub proof fn lemma_first_index(s: Seq<char>, c: char)
    ensures
        0 <= first_index(s, c) <= s.len(),
        first_index(s, c) < s.len() ==> s[first_index(s, c)] == c,
        forall|i: int| 0 <= i < first_index(s, c) ==> #[trigger] s[i] != c,
    decreases s.len(),
{
    if s.len() > 0 && s[0] != c {
        lemma_first_index(s.drop_first(), c);
        assert forall|i: int| 0 <= i < first_index(s, c) implies #[trigger] s[i] != c by {
            if i > 0 {
                assert(s[i] == s.drop_first()[i - 1]);
            }
        }
    }
}

/// A position that holds `c`, with no `c` before it, is the first one.
pub proof fn lemma_first_index_is(s: Seq<char>, c: char, i: int)
    requires
        0 <= i <= s.len(),
        i < s.len() ==> s[i] == c,
        forall|j: int| 0 <= j < i ==> #[trigger] s[j] != c,
    ensures
        first_index(s, c) == i,
{
    lemma_first_index(s, c);
    let k = first_index(s, c);
    if k < i {
        assert(s[k] == c);
    }
    if i < k {
        assert(s[i] != c);
    }
}

/// Text with no white space at its ends is its own trimmed form.
pub proof fn lemma_trimmed_is_itself(s: Seq<char>)
    requires
        is_trimmed(s),
    ensures
        trimmed(s) == s,
{
}

/// Text without a separator is one piece.
pub proof fn lemma_pieces_of_one(s: Seq<char>, separator: char)
    requires
        !s.contains(separator),
    ensures
        pieces(s, separator) == seq![s],
{
    assert forall|i: int| 0 <= i < s.len() implies #[trigger] s[i] != separator by {
        assert(s.contains(s[i]));
    }
    lemma_first_index_is(s, separator, s.len() as int);
}

/// What stands before the first separator is the first piece, and the pieces of
/// what follows are the others.
pub proof fn lemma_pieces_of_push(s: Seq<char>, rest: Seq<char>, separator: char)
    requires
        !s.contains(separator),
    ensures
        pieces(s.push(separator) + rest, separator) == seq![s] + pieces(rest, separator),
{
    let whole = s.push(separator) + rest;
    assert forall|i: int| 0 <= i < s.len() implies #[trigger] whole[i] != separator by {
        assert(whole[i] == s[i]);
        assert(s.contains(s[i]));
    }
    lemma_first_index_is(whole, separator, s.len() as int);
    assert(whole.take(s.len() as int) =~= s);
    assert(whole.skip(s.len() as int + 1) =~= rest);
}

/// Joining one more part puts a separator and the part at the end.
pub proof fn lemma_joined_push(parts: Seq<Seq<char>>, part: Seq<char>, separator: char)
    requires
        parts.len() > 0,
    ensures
        joined(parts.push(part), separator) == joined(parts, separator).push(separator) + part,
    decreases parts.len(),
{
    let more = parts.push(part);
    if parts.len() == 1 {
        assert(more.drop_first() =~= seq![part]);
        assert(joined(seq![part], separator) == part);
        assert(joined(more, separator) =~= joined(parts, separator).push(separator) + part);
    } else {
        assert(more.drop_first() =~= parts.drop_first().push(part));
        lemma_joined_push(parts.drop_first(), part, separator);
        assert(joined(more, separator) =~= joined(parts, separator).push(separator) + part);
    }
}

/// The pieces of joined parts are the parts, where no part holds the separator.
pub proof fn lemma_pieces_of_joined(parts: Seq<Seq<char>>, separator: char)
    requires
        parts.len() > 0,
        forall|i: int| 0 <= i < parts.len() ==> !(#[trigger] parts[i]).contains(separator),
    ensures
        pieces(joined(parts, separator), separator) == parts,
    decreases parts.len(),
{
    if parts.len() == 1 {
        lemma_pieces_of_one(parts[0], separator);
        assert(parts =~= seq![parts[0]]);
    } else {
        let rest = parts.drop_first();
        assert forall|i: int| 0 <= i < rest.len() implies !(#[trigger] rest[i]).contains(
            separator,
        ) by {
            assert(rest[i] == parts[i + 1]);
        }
        lemma_pieces_of_joined(rest, separator);
        lemma_pieces_of_push(parts[0], joined(rest, separator), separator);
        assert(seq![parts[0]] + rest =~= parts);
    }
}

/// No piece of a text holds the separator.
pub proof fn lemma_pieces_hold_no_separator(s: Seq<char>, separator: char)
    ensures
        forall|i: int|
            0 <= i < pieces(s, separator).len() ==> !(#[trigger] pieces(s, separator)[i]).contains(
                separator,
            ),
    decreases s.len(),
{
    lemma_first_index(s, separator);
    let k = first_index(s, separator);
    if k < s.len() {
        let rest = s.skip(k + 1);
        lemma_pieces_hold_no_separator(rest, separator);
        assert forall|i: int| 0 <= i < pieces(s, separator).len() implies !(#[trigger] pieces(
            s,
            separator,
        )[i]).contains(separator) by {
            if i > 0 {
                assert(pieces(s, separator)[i] == pieces(rest, separator)[i - 1]);
            }
        }
    }
}

/// Trimming leaves no white space at the ends, and adds no character.
pub proof fn lemma_trimmed(s: Seq<char>)
    ensures
        is_trimmed(trimmed(s)),
        forall|c: char| #[trigger] trimmed(s).contains(c) ==> s.contains(c),
{
    let t = trimmed_start(s);
    lemma_trimmed_start(s);
    lemma_trimmed_end(t);
    assert forall|c: char| #[trigger] trimmed(s).contains(c) implies s.contains(c) by {
        assert(t.contains(c));
    }
}

proof fn lemma_trimmed_start(s: Seq<char>)
    ensures
        trimmed_start(s).len() > 0 ==> !is_space(trimmed_start(s)[0]),
        forall|c: char| #[trigger] trimmed_start(s).contains(c) ==> s.contains(c),
    decreases s.len(),
{
    if s.len() > 0 && is_space(s[0]) {
        lemma_trimmed_start(s.drop_first());
        assert forall|c: char| #[trigger] trimmed_start(s).contains(c) implies s.contains(c) by {
            assert(s.drop_first().contains(c));
            let i = choose|i: int| 0 <= i < s.drop_first().len() && s.drop_first()[i] == c;
            assert(s[i + 1] == c);
        }
    }
}

proof fn lemma_trimmed_end(s: Seq<char>)
    ensures
        trimmed_end(s).len() > 0 ==> !is_space(trimmed_end(s).last()) && trimmed_end(s)[0] == s[0],
        trimmed_end(s).len() <= s.len(),
        forall|c: char| #[trigger] trimmed_end(s).contains(c) ==> s.contains(c),
    decreases s.len(),
{
    if s.len() > 0 && is_space(s.last()) {
        lemma_trimmed_end(s.drop_last());
        assert forall|c: char| #[trigger] trimmed_end(s).contains(c) implies s.contains(c) by {
            assert(s.drop_last().contains(c));
            let i = choose|i: int| 0 <= i < s.drop_last().len() && s.drop_last()[i] == c;
            assert(s[i] == c);
        }
    }
}

/// What is left when blanks in front are trimmed away has none in front, and no
/// character that was not there.
pub proof fn lemma_trimmed_start_keeps(s: Seq<char>)
    ensures
        trimmed_start(trimmed_start(s)) == trimmed_start(s),
        forall|c: char| #[trigger] trimmed_start(s).contains(c) ==> s.contains(c),
{
    lemma_trimmed_start(s);
}

/// Whether a text is white space throughout.
pub open spec fn is_blank(s: Seq<char>) -> bool {
    forall|i: int| 0 <= i < s.len() ==> is_space(#[trigger] s[i])
}

/// A blank text in front trims away, and what has a first character that is not
/// blank keeps what follows it.
pub proof fn lemma_trimmed_start_of_both(a: Seq<char>, b: Seq<char>)
    ensures
        trimmed_start(a).len() > 0 ==> trimmed_start(a + b) == trimmed_start(a) + b,
        trimmed_start(a).len() == 0 ==> is_blank(a) && trimmed_start(a + b) == trimmed_start(b),
    decreases a.len(),
{
    if a.len() == 0 {
        assert(a + b =~= b);
    } else if is_space(a[0]) {
        lemma_trimmed_start_of_both(a.drop_first(), b);
        assert((a + b).drop_first() =~= a.drop_first() + b);
        if trimmed_start(a).len() == 0 {
            assert forall|i: int| 0 <= i < a.len() implies is_space(#[trigger] a[i]) by {
                if i > 0 {
                    assert(a.drop_first()[i - 1] == a[i]);
                }
            }
        }
    } else {
        assert((a + b)[0] == a[0]);
    }
}

/// What ends in a character that is not blank is kept whole at the end, whatever
/// follows it.
pub proof fn lemma_trimmed_end_of_both(a: Seq<char>, b: Seq<char>)
    requires
        a.len() > 0,
        !is_space(a.last()),
    ensures
        trimmed_end(a + b) == a + trimmed_end(b),
    decreases b.len(),
{
    if b.len() == 0 {
        assert(a + b =~= a);
        assert(a + trimmed_end(b) =~= a);
    } else {
        assert((a + b).last() == b.last());
        if is_space(b.last()) {
            lemma_trimmed_end_of_both(a, b.drop_last());
            assert((a + b).drop_last() =~= a + b.drop_last());
        }
    }
}

/// A blank text behind trims away.
pub proof fn lemma_trimmed_end_drops_blank(a: Seq<char>, blank: Seq<char>)
    requires
        is_blank(blank),
    ensures
        trimmed_end(a + blank) == trimmed_end(a),
    decreases blank.len(),
{
    if blank.len() == 0 {
        assert(a + blank =~= a);
    } else {
        assert((a + blank).last() == blank.last());
        assert((a + blank).drop_last() =~= a + blank.drop_last());
        lemma_trimmed_end_drops_blank(a, blank.drop_last());
    }
}

/// Trimming a text ignores blanks behind it.
pub proof fn lemma_trimmed_drops_blank(a: Seq<char>, blank: Seq<char>)
    requires
        is_blank(blank),
    ensures
        trimmed(a + blank) == trimmed(a),
{
    lemma_trimmed_start_of_both(a, blank);
    if trimmed_start(a).len() > 0 {
        lemma_trimmed_end_drops_blank(trimmed_start(a), blank);
    } else {
        lemma_trimmed_of_blank(blank);
    }
}

proof fn lemma_trimmed_of_blank(s: Seq<char>)
    requires
        is_blank(s),
    ensures
        trimmed_start(s) == Seq::<char>::empty(),
    decreases s.len(),
{
    if s.len() > 0 {
        assert forall|i: int| 0 <= i < s.drop_first().len() implies is_space(
            #[trigger] s.drop_first()[i],
        ) by {
            assert(s.drop_first()[i] == s[i + 1]);
        }
        assert(is_space(s[0]));
        lemma_trimmed_of_blank(s.drop_first());
    }
}

/// What is trimmed away at the end of a text is blank.
pub proof fn lemma_trimmed_end_splits(s: Seq<char>)
    ensures
        trimmed_end(s).len() <= s.len(),
        s.take(trimmed_end(s).len() as int) == trimmed_end(s),
        is_blank(s.skip(trimmed_end(s).len() as int)),
    decreases s.len(),
{
    let n = trimmed_end(s).len() as int;
    if s.len() > 0 && is_space(s.last()) {
        lemma_trimmed_end_splits(s.drop_last());
        assert(s.take(n) =~= s.drop_last().take(n));
        assert forall|i: int| 0 <= i < s.skip(n).len() implies is_space(
            #[trigger] s.skip(n)[i],
        ) by {
            if i < s.skip(n).len() - 1 {
                assert(s.drop_last().skip(n)[i] == s.skip(n)[i]);
            }
        }
    } else {
        assert(s.take(n) =~= s);
    }
}

/// The pieces of two texts with a separator between them are those of the one,
/// then those of the other.
pub proof fn lemma_pieces_of_both(a: Seq<char>, b: Seq<char>, separator: char)
    ensures
        pieces(a.push(separator) + b, separator) == pieces(a, separator) + pieces(b, separator),
    decreases a.len(),
{
    lemma_first_index(a, separator);
    let k = first_index(a, separator);
    if k < a.len() {
        let first = a.take(k);
        let rest = a.skip(k + 1);
        lemma_pieces_of_both(rest, b, separator);
        assert forall|i: int| 0 <= i < first.len() implies first[i] != separator by {
            assert(a[i] != separator);
        }
        assert(!first.contains(separator));
        assert(a =~= first.push(separator) + rest);
        assert(a.push(separator) + b =~= first.push(separator) + (rest.push(separator) + b));
        lemma_pieces_of_push(first, rest.push(separator) + b, separator);
        lemma_pieces_of_push(first, rest, separator);
        assert(pieces(a.push(separator) + b, separator) =~= pieces(a, separator) + pieces(
            b,
            separator,
        ));
    } else {
        assert forall|i: int| 0 <= i < a.len() implies a[i] != separator by {}
        assert(!a.contains(separator));
        lemma_pieces_of_push(a, b, separator);
        lemma_pieces_of_one(a, separator);
    }
}

/// A text behind another, without a separator, goes to its last piece.
pub proof fn lemma_last_piece_grows(a: Seq<char>, tail: Seq<char>, separator: char)
    requires
        !tail.contains(separator),
    ensures
        pieces(a, separator).len() > 0,
        pieces(a + tail, separator) == pieces(a, separator).drop_last().push(
            pieces(a, separator).last() + tail,
        ),
    decreases a.len(),
{
    lemma_first_index(a, separator);
    let k = first_index(a, separator);
    let whole = a + tail;
    if k < a.len() {
        let first = a.take(k);
        let rest = a.skip(k + 1);
        lemma_last_piece_grows(rest, tail, separator);
        assert forall|i: int| 0 <= i < first.len() implies first[i] != separator by {
            assert(a[i] != separator);
        }
        assert(!first.contains(separator));
        assert(a =~= first.push(separator) + rest);
        assert(whole =~= first.push(separator) + (rest + tail));
        lemma_pieces_of_push(first, rest + tail, separator);
        lemma_pieces_of_push(first, rest, separator);
        assert(pieces(whole, separator) =~= pieces(a, separator).drop_last().push(
            pieces(a, separator).last() + tail,
        ));
    } else {
        assert forall|i: int| 0 <= i < whole.len() implies whole[i] != separator by {
            if i < a.len() {
                assert(a[i] != separator);
            } else {
                assert(tail.contains(tail[i - a.len()]));
            }
        }
        assert(!a.contains(separator));
        assert(!whole.contains(separator));
        lemma_pieces_of_one(a, separator);
        lemma_pieces_of_one(whole, separator);
        assert(pieces(whole, separator) =~= pieces(a, separator).drop_last().push(
            pieces(a, separator).last() + tail,
        ));
    }
}

/// The decimal notation of a number is a row of digits that stands for it.
pub proof fn lemma_decimal_text(n: nat)
    ensures
        is_decimal(decimal(n)),
        decimal_value(decimal(n)) == n,
        is_trimmed(decimal(n)),
        forall|c: char| #[trigger] decimal(n).contains(c) ==> is_digit(c),
        unsigned_number(decimal(n)) == Some(n),
        signed_number(decimal(n)) == Some(n as int),
    decreases n,
{
    let last = digit_char(n % 10);
    assert(is_digit(last) && digit_value(last) == n % 10);
    if n < 10 {
        assert(decimal(n).drop_last().len() == 0);
        assert(decimal_value(decimal(n).drop_last()) == 0);
    } else {
        lemma_decimal_text(n / 10);
        assert(decimal(n).drop_last() =~= decimal(n / 10));
    }
    assert(decimal_value(decimal(n)) == n);
    assert(is_digit(decimal(n)[0]));
}

/// The characters of a string.
pub fn chars_of(s: &str) -> (v: Vec<char>)
    ensures
        v@ == s@,
{
    let mut v: Vec<char> = Vec::new();
    for c in it: s.chars()
        invariant
            v@ == it.seq().take(it.index() as int),
    {
        v.push(c);
    }
    v
}

/// The string of the given characters.
pub fn string_of(s: &[char]) -> (t: String)
    ensures
        t@ == s@,
{
    let mut t = String::new();
    for i in 0..s.len()
        invariant
            t@ == s@.take(i as int),
    {
        t.push(s[i]);
        assert(s@.take(i + 1) =~= s@.take(i as int).push(s@[i as int]));
    }
    assert(s@.take(s@.len() as int) =~= s@);
    t
}

/// Whether the characters are those of the string.
pub fn same_text(s: &[char], t: &str) -> (b: bool)
    ensures
        b == (s@ == t@),
{
    let v = chars_of(t);
    if s.len() != v.len() {
        return false;
    }
    for i in 0..s.len()
        invariant
            s@.len() == v@.len(),
            v@ == t@,
            forall|j: int| 0 <= j < i ==> s@[j] == #[trigger] v@[j],
    {
        if s[i] != v[i] {
            return false;
        }
    }
    assert(s@ =~= t@);
    true
}

/// Whether a character is white space.
pub fn is_whitespace(c: char) -> (b: bool)
    ensures
        b == is_space(c),
{
    let u: u32 = c as u32;
    (0x9 <= u && u <= 0xd) || u == 0x20 || u == 0x85 || u == 0xa0 || u == 0x1680 || (0x2000 <= u
        && u <= 0x200a) || u == 0x2028 || u == 0x2029 || u == 0x202f || u == 0x205f || u == 0x3000
}

/// The characters without the white space around them.
pub fn trim(s: &[char]) -> (r: &[char])
    ensures
        r@ == trimmed(s@),
{
    let mut from: usize = 0;
    let n: usize = s.len();
    assert(s@.skip(0) =~= s@);
    while from < n && is_whitespace(s[from])
        invariant
            from <= n,
            n == s@.len(),
            trimmed_start(s@) == trimmed_start(s@.skip(from as int)),
        decreases n - from,
    {
        assert(s@.skip(from as int).drop_first() =~= s@.skip(from + 1));
        from += 1;
    }
    let ghost rest = s@.skip(from as int);
    assert(trimmed_start(s@) == rest);
    assert(s@.subrange(from as int, n as int) =~= rest);
    let mut to: usize = n;
    while to > from && is_whitespace(s[to - 1])
        invariant
            from <= to <= n,
            n == s@.len(),
            rest == s@.skip(from as int),
            trimmed_end(rest) == trimmed_end(s@.subrange(from as int, to as int)),
        decreases to - from,
    {
        assert(s@.subrange(from as int, to as int).drop_last() =~= s@.subrange(
            from as int,
            to - 1,
        ));
        to -= 1;
    }
    vstd::slice::slice_subrange(s, from, to)
}

/// The position of the first `c`, or the number of characters where there is none.
pub fn find(s: &[char], c: char) -> (i: usize)
    ensures
        i == first_index(s@, c),
        i <= s@.len(),
{
    let mut i: usize = 0;
    while i < s.len() && s[i] != c
        invariant
            i <= s@.len(),
            forall|j: int| 0 <= j < i ==> #[trigger] s@[j] != c,
        decreases s@.len() - i,
    {
        i += 1;
    }
    proof {
        lemma_first_index_is(s@, c, i as int);
    }
    i
}

/// The number in `s`, as far as the value stays below `limit`.
fn bounded_digits(s: &[char], limit: u64) -> (r: Option<u64>)
    ensures
        r is Some <==> is_decimal(s@) && decimal_value(s@) <= limit,
        r matches Some(n) ==> n == decimal_value(s@),
{
    if s.len() == 0 {
        return None;
    }
    let mut n: u64 = 0;
    for i in 0..s.len()
        invariant
            n == decimal_value(s@.take(i as int)),
            n <= limit,
            forall|j: int| 0 <= j < i ==> is_digit(#[trigger] s@[j]),
    {
        let c = s[i];
        assert(s@.take(i + 1).drop_last() =~= s@.take(i as int));
        if !('0' <= c && c <= '9') {
            return None;
        }
        let d: u64 = (c as u32 - '0' as u32) as u64;
        assert(decimal_value(s@.take(i + 1)) == n * 10 + d);
        if n > limit / 10 || (n == limit / 10 && d > limit % 10) {
            proof {
                lemma_decimal_value_grows(s@, i + 1);
                assert(s@.take(s@.len() as int) =~= s@);
            }
            return None;
        }
        n = n * 10 + d;
    }
    assert(s@.take(s@.len() as int) =~= s@);
    Some(n)
}

proof fn lemma_decimal_value_grows(s: Seq<char>, i: int)
    requires
        0 <= i <= s.len(),
    ensures
        decimal_value(s.take(i)) <= decimal_value(s),
    decreases s.len() - i,
{
    if i < s.len() {
        assert(s.take(i + 1).drop_last() =~= s.take(i));
        lemma_decimal_value_grows(s, i + 1);
    } else {
        assert(s.take(i) =~= s);
    }
}

/// The unsigned number written in `s`, where a `usize` can hold it.
pub fn parse_usize(s: &[char]) -> (r: Option<usize>)
    ensures
        r == usize_number(s@),
{
    let digits = if s.len() > 0 && s[0] == '+' {
        let d = vstd::slice::slice_subrange(s, 1, s.len());
        assert(d@ =~= s@.drop_first());
        d
    } else {
        s
    };
    match bounded_digits(digits, usize::MAX as u64) {
        Some(n) => Some(n as usize),
        None => None,
    }
}

/// The signed number written in `s`, where an `i64` can hold it.
pub fn parse_i64(s: &[char]) -> (r: Option<i64>)
    ensures
        r == i64_number(s@),
{
    let signed = s.len() > 0 && (s[0] == '+' || s[0] == '-');
    let digits = if signed {
        let d = vstd::slice::slice_subrange(s, 1, s.len());
        assert(d@ =~= s@.drop_first());
        d
    } else {
        s
    };
    if signed && s[0] == '-' {
        match bounded_digits(digits, 0x8000_0000_0000_0000) {
            Some(n) => if n == 0x8000_0000_0000_0000 {
                Some(i64::MIN)
            } else {
                Some(-(n as i64))
            },
            None => None,
        }
    } else {
        match bounded_digits(digits, i64::MAX as u64) {
            Some(n) => Some(n as i64),
            None => None,
        }
    }
}

/// The characters without the `c`s they end with.
pub fn trim_end_matches(s: &[char], c: char) -> (r: &[char])
    ensures
        r@ == without_trailing(s@, c),
{
    let mut to: usize = s.len();
    assert(s@.take(to as int) =~= s@);
    while to > 0 && s[to - 1] == c
        invariant
            to <= s@.len(),
            without_trailing(s@, c) == without_trailing(s@.take(to as int), c),
        decreases to,
    {
        assert(s@.take(to as int).drop_last() =~= s@.take(to - 1));
        to -= 1;
    }
    let r = vstd::slice::slice_subrange(s, 0, to);
    assert(r@ =~= s@.take(to as int));
    r
}

/// Adds the decimal notation of `n` to a string.
pub fn push_decimal(out: &mut String, n: usize)
    ensures
        final(out)@ == old(out)@ + decimal(n as nat),
    decreases n,
{
    if n >= 10 {
        push_decimal(out, n / 10);
    }
    let d: u8 = (n % 10) as u8;
    let c: char = (d + 48u8) as char;
    assert(c == digit_char((n % 10) as nat));
    out.push(c);
    assert(out@ =~= old(out)@ + decimal(n as nat));
}

} // verus!
