//! What trimming, splitting, searching, reading and writing text comes to, whatever the text.
use vstd::prelude::*;

use crate::error::{api_outcome, opt_text, ApiError, ApiErrorView};
use crate::ch_client::{opt_str, pair_texts};
use crate::io_error::{attempt, io_outcome, malformed, IoError, IoErrorKind, IoErrorView};
use crate::numbers::{
    decimal, digits_value, hex_byte, hex_char, lemma_decimal_digits, number_value,
    parse_error_message, ParseNumberError,
};
use crate::process_pool::byte_lists;
use crate::text::{
    after_last, ascii_lower, before_first, begins_with, blank, lower_char, newline_pieces, occurs,
    occurs_at, split_at_first, text_lines, texts, trim_end, trim_start, trimmed, white_space,
    without_carriage_return, words,
};

verus! {

/// Trimming takes nothing but white space, all of it at both ends, and nothing in between.
pub proof fn law_trimming_takes_white_space_at_the_ends(
    before: Seq<char>,
    kept: Seq<char>,
    after: Seq<char>,
)
    requires
        forall|i: int| 0 <= i < before.len() ==> white_space(#[trigger] before[i]),
        forall|i: int| 0 <= i < after.len() ==> white_space(#[trigger] after[i]),
        kept.len() > 0 ==> !white_space(kept[0]) && !white_space(kept[kept.len() - 1]),
    ensures
        trimmed(before + kept + after) == kept,
{
    if kept.len() == 0 {
        let whole = before + kept + after;
        assert forall|i: int| 0 <= i < whole.len() implies white_space(#[trigger] whole[i]) by {
            if i < before.len() {
                assert(whole[i] == before[i]);
            } else {
                assert(whole[i] == after[i - before.len()]);
            }
        }
        assert(blank(whole));
        crate::text::lemma_blank_is_trimmed_empty(whole);
        assert(trimmed(whole) =~= kept);
    } else {
        lemma_trim_start(before, kept + after);
        assert(before + kept + after =~= before + (kept + after));
        lemma_trim_end(kept, after);
    }
}

proof fn lemma_trim_start(before: Seq<char>, rest: Seq<char>)
    requires
        forall|i: int| 0 <= i < before.len() ==> white_space(#[trigger] before[i]),
        rest.len() > 0,
        !white_space(rest[0]),
    ensures
        trim_start(before + rest) == rest,
    decreases before.len(),
{
    if before.len() == 0 {
        assert(before + rest =~= rest);
    } else {
        assert((before + rest)[0] == before[0]);
        assert((before + rest).skip(1) =~= before.skip(1) + rest);
        assert forall|i: int| 0 <= i < before.skip(1).len() implies white_space(
            #[trigger] before.skip(1)[i],
        ) by {
            assert(before.skip(1)[i] == before[i + 1]);
        }
        lemma_trim_start(before.skip(1), rest);
    }
}

proof fn lemma_trim_end(kept: Seq<char>, after: Seq<char>)
    requires
        forall|i: int| 0 <= i < after.len() ==> white_space(#[trigger] after[i]),
        kept.len() > 0,
        !white_space(kept.last()),
    ensures
        trim_end(kept + after) == kept,
    decreases after.len(),
{
    if after.len() == 0 {
        assert(kept + after =~= kept);
    } else {
        assert((kept + after).last() == after.last());
        assert(white_space(after[after.len() - 1]));
        assert((kept + after).drop_last() =~= kept + after.drop_last());
        lemma_trim_end(kept, after.drop_last());
    }
}

/// White space is the space, the five ASCII controls from tab to carriage return, and what Unicode
/// adds to them; no printing ASCII character is.
pub proof fn law_white_space_is_what_unicode_says(c: char)
    ensures
        c as u32 <= 0x7f ==> (white_space(c) <==> c == ' ' || '\t' <= c <= '\r'),
        c as u32 > 0x7f ==> (white_space(c) <==> seq![
            0x85u32,
            0xa0,
            0x1680,
            0x2000,
            0x2001,
            0x2002,
            0x2003,
            0x2004,
            0x2005,
            0x2006,
            0x2007,
            0x2008,
            0x2009,
            0x200a,
            0x2028,
            0x2029,
            0x202f,
            0x205f,
            0x3000,
        ].contains(c as u32)),
{
    let all = seq![
        0x85u32,
        0xa0,
        0x1680,
        0x2000,
        0x2001,
        0x2002,
        0x2003,
        0x2004,
        0x2005,
        0x2006,
        0x2007,
        0x2008,
        0x2009,
        0x200a,
        0x2028,
        0x2029,
        0x202f,
        0x205f,
        0x3000,
    ];
    let n = c as u32;
    if n == 0x85 {
        assert(all[0] == n);
    } else if n == 0xa0 {
        assert(all[1] == n);
    } else if n == 0x1680 {
        assert(all[2] == n);
    } else if 0x2000 <= n <= 0x200a {
        assert(all[3 + (n - 0x2000)] == n);
    } else if n == 0x2028 {
        assert(all[14] == n);
    } else if n == 0x2029 {
        assert(all[15] == n);
    } else if n == 0x202f {
        assert(all[16] == n);
    } else if n == 0x205f {
        assert(all[17] == n);
    } else if n == 0x3000 {
        assert(all[18] == n);
    }
}

/// A text is blank exactly where no character of it is anything but white space.
pub proof fn law_blank_text_is_all_white_space(s: Seq<char>)
    ensures
        blank(s) <==> (forall|i: int| 0 <= i < s.len() ==> white_space(#[trigger] s[i])),
{
}

/// Words are what white space separates: nothing holds none, a run without white space is one, and
/// the words around a white space are those on its left and then those on its right.
pub proof fn law_words_are_separated_by_white_space(a: Seq<char>, c: char, b: Seq<char>)
    requires
        white_space(c),
    ensures
        words(Seq::empty()) == Seq::<Seq<char>>::empty(),
        words(a + seq![c] + b) == words(a) + words(b),
        a.len() > 0 && (forall|i: int| 0 <= i < a.len() ==> !white_space(#[trigger] a[i])) ==> words(
            a,
        ) == seq![a],
{
    lemma_words_join(a, c, b);
    if a.len() > 0 && (forall|i: int| 0 <= i < a.len() ==> !white_space(#[trigger] a[i])) {
        lemma_one_word(a);
    }
}

proof fn lemma_one_word(a: Seq<char>)
    requires
        a.len() > 0,
        forall|i: int| 0 <= i < a.len() ==> !white_space(#[trigger] a[i]),
    ensures
        words(a) == seq![a],
    decreases a.len(),
{
    let before = a.drop_last();
    assert(a.last() == a[a.len() - 1]);
    if a.len() == 1 {
        assert(words(before) =~= Seq::empty());
        assert(seq![a.last()] =~= a);
        assert(words(a) =~= seq![a]);
    } else {
        assert forall|i: int| 0 <= i < before.len() implies !white_space(#[trigger] before[i]) by {
            assert(before[i] == a[i]);
        }
        lemma_one_word(before);
        assert(!white_space(a[a.len() - 2]));
        assert(before.push(a.last()) =~= a);
        assert(words(a) =~= seq![a]);
    }
}

proof fn lemma_words_join(a: Seq<char>, c: char, b: Seq<char>)
    requires
        white_space(c),
    ensures
        words(a + seq![c] + b) == words(a) + words(b),
    decreases b.len(),
{
    let whole = a + seq![c] + b;
    if b.len() == 0 {
        assert(whole =~= a.push(c));
        assert(whole.drop_last() =~= a);
        assert(words(whole) =~= words(a) + words(b));
    } else {
        let rest = b.drop_last();
        assert(whole.drop_last() =~= a + seq![c] + rest);
        assert(whole.last() == b.last());
        lemma_words_join(a, c, rest);
        crate::text::lemma_words_are_not_empty(rest);
        if white_space(b.last()) {
        } else if b.len() >= 2 && !white_space(b[b.len() - 2]) {
            assert(whole[whole.len() - 2] == b[b.len() - 2]);
            assert(rest.last() == b[b.len() - 2]);
            assert(words(rest).len() > 0);
            let both = words(a) + words(rest);
            assert(both.last() == words(rest).last());
            assert(words(whole) =~= words(a) + words(b));
        } else {
            if b.len() == 1 {
                assert(whole[whole.len() - 2] == c);
            } else {
                assert(whole[whole.len() - 2] == b[b.len() - 2]);
            }
            assert(words(whole) =~= words(a) + words(b));
        }
    }
}

/// Lines are what newlines end: nothing holds none, a text without a newline is one, and a text that
/// goes on after its first newline has the line before it, without a carriage return at its end, and
/// then the lines after it.
pub proof fn law_lines_are_ended_by_newlines(a: Seq<char>, b: Seq<char>)
    requires
        forall|i: int| 0 <= i < a.len() ==> #[trigger] a[i] != '\n',
    ensures
        text_lines(Seq::empty()) == Seq::<Seq<char>>::empty(),
        a.len() > 0 ==> text_lines(a) == seq![a],
        text_lines(a + seq!['\n'] + b) == seq![
            if a.len() > 0 && a[a.len() - 1] == '\r' {
                a.take(a.len() - 1)
            } else {
                a
            },
        ] + text_lines(b),
{
    let strip = |p: Seq<char>| without_carriage_return(p);
    assert(newline_pieces(Seq::empty()) =~= seq![Seq::<char>::empty()]);
    assert(text_lines(Seq::empty()) =~= Seq::<Seq<char>>::empty());
    lemma_one_piece(a);
    if a.len() > 0 {
        assert(newline_pieces(a).drop_last() =~= Seq::empty());
        assert(text_lines(a) =~= seq![a]);
    }
    let whole = a + seq!['\n'] + b;
    lemma_pieces_join(a, b);
    lemma_pieces_exist(b);
    let pieces = newline_pieces(b);
    let stripped = without_carriage_return(a);
    assert(stripped =~= if a.len() > 0 && a[a.len() - 1] == '\r' {
        a.take(a.len() - 1)
    } else {
        a
    });
    assert((seq![a] + pieces).drop_last() =~= seq![a] + pieces.drop_last());
    assert((seq![a] + pieces).last() == pieces.last());
    assert((seq![a] + pieces.drop_last()).map_values(strip) =~= seq![stripped]
        + pieces.drop_last().map_values(strip));
    assert(text_lines(whole) =~= seq![stripped] + text_lines(b));
}

proof fn lemma_pieces_exist(s: Seq<char>)
    ensures
        newline_pieces(s).len() > 0,
    decreases s.len(),
{
    if s.len() > 0 {
        lemma_pieces_exist(s.drop_last());
    }
}

proof fn lemma_one_piece(a: Seq<char>)
    requires
        forall|i: int| 0 <= i < a.len() ==> #[trigger] a[i] != '\n',
    ensures
        newline_pieces(a) == seq![a],
    decreases a.len(),
{
    if a.len() > 0 {
        let before = a.drop_last();
        assert forall|i: int| 0 <= i < before.len() implies #[trigger] before[i] != '\n' by {
            assert(before[i] == a[i]);
        }
        lemma_one_piece(before);
        assert(a.last() == a[a.len() - 1]);
        assert(before.push(a.last()) =~= a);
        assert(newline_pieces(a) =~= seq![a]);
    } else {
        assert(a =~= Seq::<char>::empty());
    }
}

proof fn lemma_pieces_join(a: Seq<char>, b: Seq<char>)
    requires
        forall|i: int| 0 <= i < a.len() ==> #[trigger] a[i] != '\n',
    ensures
        newline_pieces(a + seq!['\n'] + b) == seq![a] + newline_pieces(b),
    decreases b.len(),
{
    let whole = a + seq!['\n'] + b;
    if b.len() == 0 {
        assert(whole =~= a.push('\n'));
        assert(whole.drop_last() =~= a);
        lemma_one_piece(a);
        assert(newline_pieces(whole) =~= seq![a] + newline_pieces(b));
    } else {
        let rest = b.drop_last();
        assert(whole.drop_last() =~= a + seq!['\n'] + rest);
        assert(whole.last() == b.last());
        lemma_pieces_join(a, rest);
        lemma_pieces_exist(rest);
        let before = seq![a] + newline_pieces(rest);
        assert(before.last() == newline_pieces(rest).last());
        assert(newline_pieces(whole) =~= seq![a] + newline_pieces(b));
    }
}

/// A text is split at the first place where the character stands, and only where it stands.
pub proof fn law_splitting_finds_the_first(s: Seq<char>, c: char)
    ensures
        match split_at_first(s, c) {
            Some((a, b)) => s == a + seq![c] + b && (forall|i: int|
                0 <= i < a.len() ==> #[trigger] a[i] != c),
            None => forall|i: int| 0 <= i < s.len() ==> #[trigger] s[i] != c,
        },
{
    lemma_before_first_bound(s, c);
    let n = before_first(s, c);
    if n < s.len() {
        assert(s =~= s.take(n) + seq![c] + s.skip(n + 1));
    }
}

proof fn lemma_before_first_bound(s: Seq<char>, c: char)
    ensures
        0 <= before_first(s, c) <= s.len(),
        before_first(s, c) < s.len() ==> s[before_first(s, c)] == c,
        forall|i: int| 0 <= i < before_first(s, c) ==> #[trigger] s[i] != c,
    decreases s.len(),
{
    if s.len() > 0 && s[0] != c {
        let rest = s.skip(1);
        lemma_before_first_bound(rest, c);
        assert forall|i: int| 0 <= i < before_first(s, c) implies #[trigger] s[i] != c by {
            if i > 0 {
                assert(rest[i - 1] == s[i]);
            }
        }
    }
}

/// What follows the last such character is preceded by it and holds none; where there is none, there
/// is nothing that follows it.
pub proof fn law_tail_follows_the_last(s: Seq<char>, c: char)
    ensures
        match after_last(s, c) {
            Some(t) => t.len() < s.len() && s[s.len() - t.len() - 1] == c && s.skip(
                s.len() - t.len(),
            ) == t && (forall|i: int| 0 <= i < t.len() ==> #[trigger] t[i] != c),
            None => forall|i: int| 0 <= i < s.len() ==> #[trigger] s[i] != c,
        },
    decreases s.len(),
{
    if s.len() > 0 {
        let before = s.drop_last();
        law_tail_follows_the_last(before, c);
        if s.last() == c {
            assert(s.skip(s.len() as int) =~= Seq::empty());
        } else {
            match after_last(before, c) {
                Some(t) => {
                    assert(s.skip(before.len() - t.len()) =~= t.push(s.last()));
                },
                None => {
                    assert forall|i: int| 0 <= i < s.len() implies #[trigger] s[i] != c by {
                        if i < before.len() {
                            assert(before[i] == s[i]);
                        }
                    }
                },
            }
        }
    }
}

/// Folding keeps every character but the capital letters of ASCII, which become the small ones.
pub proof fn law_folding_changes_ascii_capitals(s: Seq<char>, i: int)
    requires
        0 <= i < s.len(),
    ensures
        ascii_lower(s).len() == s.len(),
        65 <= s[i] as u32 <= 90 ==> ascii_lower(s)[i] as u32 == s[i] as u32 + 32,
        !(65 <= s[i] as u32 <= 90) ==> ascii_lower(s)[i] == s[i],
{
    assert(ascii_lower(s)[i] == lower_char(s[i]));
}

/// A pattern occurs in a text exactly when the text is something, the pattern, and something more.
pub proof fn law_pattern_occurs_within(a: Seq<char>, pattern: Seq<char>, b: Seq<char>, s: Seq<char>)
    ensures
        occurs(a + pattern + b, pattern),
        occurs(s, pattern) ==> exists|head: Seq<char>, tail: Seq<char>| s == #[trigger] ((head
            + pattern) + tail),
{
    let whole = a + pattern + b;
    assert(whole.subrange(a.len() as int, (a.len() + pattern.len()) as int) =~= pattern);
    assert(occurs_at(whole, pattern, a.len() as int));
    if occurs(s, pattern) {
        let at = choose|at: int| #[trigger] occurs_at(s, pattern, at);
        let head = s.take(at);
        let tail = s.skip(at + pattern.len());
        assert(s =~= head + s.subrange(at, (at + pattern.len()) as int) + tail);
        assert(s == (head + pattern) + tail);
    }
}

/// A text begins with a prefix exactly when it is the prefix and something more.
pub proof fn law_beginning_is_a_prefix(s: Seq<char>, prefix: Seq<char>, rest: Seq<char>)
    ensures
        begins_with(prefix + rest, prefix),
        begins_with(s, prefix) ==> s == prefix + s.skip(prefix.len() as int),
{
    assert((prefix + rest).take(prefix.len() as int) =~= prefix);
    if begins_with(s, prefix) {
        assert(s =~= s.take(prefix.len() as int) + s.skip(prefix.len() as int));
    }
}

/// A number is read digit by digit from the left: one digit more makes it ten times as large and
/// adds the digit, unless that is over the bound; a character that is no digit spoils it.
pub proof fn law_numbers_are_read_in_base_ten(s: Seq<char>, c: char, max: nat)
    requires
        s.len() > 0,
        s != seq!['+'],
    ensures
        number_value(s, max) matches Err(e) ==> number_value(s.push(c), max) == Err::<
            nat,
            ParseNumberError,
        >(e),
        number_value(s, max) matches Ok(v) ==> number_value(s.push(c), max) == (if !(48 <= c as u32
            <= 57) {
            Err::<nat, ParseNumberError>(ParseNumberError::InvalidDigit)
        } else if v * 10 + (c as u32 - 48) > max {
            Err(ParseNumberError::TooLarge)
        } else {
            Ok((v * 10 + (c as u32 - 48)) as nat)
        }),
{
    let t = s.push(c);
    assert(t[0] == s[0]);
    if s[0] == '+' {
        assert(s.len() > 1) by {
            if s.len() == 1 {
                assert(s =~= seq!['+']);
            }
        }
        assert(t.skip(1).drop_last() =~= s.skip(1));
    } else {
        assert(t.drop_last() =~= s);
    }
}

/// A number of one character is a digit, and a plus sign before a number changes nothing; nothing,
/// or a plus sign alone, is no number.
pub proof fn law_numbers_begin_with_a_digit_or_a_plus(c: char, s: Seq<char>, max: nat)
    ensures
        number_value(Seq::empty(), max) == Err::<nat, ParseNumberError>(ParseNumberError::Empty),
        48 <= c as u32 <= 57 && c as u32 - 48 <= max ==> number_value(seq![c], max) == Ok::<
            nat,
            ParseNumberError,
        >((c as u32 - 48) as nat),
        48 <= c as u32 <= 57 && c as u32 - 48 > max ==> number_value(seq![c], max) == Err::<
            nat,
            ParseNumberError,
        >(ParseNumberError::TooLarge),
        !(48 <= c as u32 <= 57) ==> number_value(seq![c], max) == Err::<nat, ParseNumberError>(
            ParseNumberError::InvalidDigit,
        ),
        s.len() > 0 && s[0] != '+' ==> number_value(seq!['+'] + s, max) == number_value(s, max),
        number_value(seq!['+', '+'], max) == Err::<nat, ParseNumberError>(
            ParseNumberError::InvalidDigit,
        ),
{
    let two = seq!['+', '+'];
    assert(two.skip(1) =~= seq!['+']);
    assert(two.skip(1).drop_last() =~= Seq::<char>::empty());
    let one = seq![c];
    assert(one.drop_last() =~= Seq::<char>::empty());
    assert(digits_value(Seq::<char>::empty(), max) == Ok::<nat, ParseNumberError>(0));
    if s.len() > 0 && s[0] != '+' {
        assert((seq!['+'] + s).skip(1) =~= s);
    }
}

/// The decimal text of a number has no leading zero, unless it is that of zero.
pub proof fn law_decimal_has_no_leading_zero(n: nat)
    ensures
        n < 10 ==> decimal(n).len() == 1,
        n >= 10 ==> decimal(n).len() > 1 && decimal(n)[0] != '0',
        forall|i: int| 0 <= i < decimal(n).len() ==> 48 <= #[trigger] decimal(n)[i] as u32 <= 57,
    decreases n,
{
    lemma_decimal_digits(n);
    if n >= 10 {
        law_decimal_has_no_leading_zero(n / 10);
        assert(decimal(n)[0] == decimal(n / 10)[0]);
    }
}

/// The value of a hexadecimal digit in lower case.
pub open spec fn hex_value(c: char) -> int {
    if 48 <= c as u32 <= 57 {
        c as u32 - 48
    } else if 97 <= c as u32 <= 102 {
        c as u32 - 87
    } else {
        -1
    }
}

/// The text of a byte is two hexadecimal digits that stand for it.
pub proof fn law_hex_text_stands_for_its_byte(b: u8)
    ensures
        hex_byte(b).len() == 2,
        hex_value(hex_byte(b)[0]) * 16 + hex_value(hex_byte(b)[1]) == b,
        0 <= hex_value(hex_byte(b)[0]) < 16,
        0 <= hex_value(hex_byte(b)[1]) < 16,
        hex_byte(b)[0] == "0123456789abcdef"@[b as int / 16],
        hex_byte(b)[1] == "0123456789abcdef"@[b as int % 16],
{
    reveal_strlit("0123456789abcdef");
    assert(hex_byte(b)[0] == hex_char(b as int / 16));
    assert(hex_byte(b)[1] == hex_char(b as int % 16));
}

/// Why a text is no number reads as the standard library says it.
pub proof fn law_number_faults_read_well()
    ensures
        parse_error_message(ParseNumberError::Empty) == "cannot parse integer from empty string"@,
        parse_error_message(ParseNumberError::InvalidDigit) == "invalid digit found in string"@,
        parse_error_message(ParseNumberError::TooLarge)
            == "number too large to fit in target type"@,
{
}

/// Lists and options are shown with all that they hold, in order.
pub proof fn law_contents_are_shown_in_full(
    list: Seq<String>,
    bytes: Seq<Vec<u8>>,
    pairs: Seq<(String, String)>,
    i: int,
    text: String,
    part: &str,
)
    ensures
        texts(list).len() == list.len(),
        byte_lists(bytes).len() == bytes.len(),
        pair_texts(pairs).len() == pairs.len(),
        0 <= i < list.len() ==> texts(list)[i] == list[i]@,
        0 <= i < bytes.len() ==> byte_lists(bytes)[i] == bytes[i]@,
        0 <= i < pairs.len() ==> pair_texts(pairs)[i] == (pairs[i].0@, pairs[i].1@),
        opt_text(Some(text)) == Some(text@),
        opt_text(None) is None,
        opt_str(Some(part)) == Some(part@),
        opt_str(None) is None,
{
}

/// Outcomes and errors are shown with all that they say.
pub proof fn law_outcomes_are_shown_in_full<T>(
    value: T,
    io: IoError,
    api: ApiError,
    reason: String,
    message: Seq<char>,
)
    ensures
        io_outcome::<T>(Ok(value)) == Ok::<T, IoErrorView>(value),
        io_outcome::<T>(Err(io)) == Err::<T, IoErrorView>(
            IoErrorView { kind: io.kind, message: io.message@ },
        ),
        malformed(message) == (IoErrorView { kind: IoErrorKind::InvalidData, message }),
        attempt::<T>(Ok(value)) == Ok::<T, Seq<char>>(value),
        attempt::<T>(Err(reason)) == Err::<T, Seq<char>>(reason@),
        api_outcome::<T>(Ok(value)) == Ok::<T, ApiErrorView>(value),
        api_outcome::<T>(Err(api)) == Err::<T, ApiErrorView>(api@),
        ApiError::NotFound(reason)@ == ApiErrorView::NotFound(reason@),
        ApiError::Conflict(reason)@ == ApiErrorView::Conflict(reason@),
        ApiError::PoolExhausted(reason)@ == ApiErrorView::PoolExhausted(reason@),
        ApiError::Backend(reason)@ == ApiErrorView::Backend(reason@),
        (ApiError::Validation { field: Some(reason), error: reason })@
            == (ApiErrorView::Validation { field: Some(reason@), error: reason@ }),
        (ApiError::Validation { field: None, error: reason })@ == (ApiErrorView::Validation {
            field: None,
            error: reason@,
        }),
{
}

} // verus!
