//! Text primitives: what a string holds after trimming, splitting, case folding and searching.
//!
//! Every function works on Unicode scalar values and is stated over `Seq<char>`.
use vstd::prelude::*;
use vstd::utf8::{decode_utf8, valid_utf8};

verus! {

/// `String::push` of the standard library appends one character.
pub assume_specification[ String::push ](s: &mut String, c: char)
    ensures
        final(s)@ == old(s)@.push(c),
;

/// What `String::from_utf8_lossy` of the standard library reads out of bytes.
pub uninterp spec fn lossy_text(bytes: Seq<u8>) -> Seq<char>;

/// `String::from_utf8_lossy` reads bytes as UTF-8 text, with a replacement character where they are
/// not; bytes that are valid UTF-8 are read as the text they encode.
#[verifier::external_body]
pub(crate) fn from_utf8_lossy(bytes: &Vec<u8>) -> (r: String)
    ensures
        r@ == lossy_text(bytes@),
        valid_utf8(bytes@) ==> r@ == decode_utf8(bytes@),
{
    String::from_utf8_lossy(bytes).into_owned()
}

/// The Unicode `White_Space` property.
pub open spec fn white_space(c: char) -> bool {
    let n = c as u32;
    ||| 0x9 <= n <= 0xd
    ||| n == 0x20
    ||| n == 0x85
    ||| n == 0xa0
    ||| n == 0x1680
    ||| 0x2000 <= n <= 0x200a
    ||| n == 0x2028
    ||| n == 0x2029
    ||| n == 0x202f
    ||| n == 0x205f
    ||| n == 0x3000
}

/// Whether `c` has the Unicode `White_Space` property.
pub fn is_white_space(c: char) -> (r: bool)
    ensures
        r == white_space(c),
{
    let n: u32 = c as u32;
    (0x9 <= n && n <= 0xd) || n == 0x20 || n == 0x85 || n == 0xa0 || n == 0x1680 || (0x2000 <= n
        && n <= 0x200a) || n == 0x2028 || n == 0x2029 || n == 0x202f || n == 0x205f || n == 0x3000
}

/// The characters of `s`, in order.
pub fn chars_of(s: &str) -> (r: Vec<char>)
    ensures
        r@ == s@,
{
    let mut out: Vec<char> = Vec::new();
    for c in it: s.chars()
        invariant
            it.seq() == s@,
            out@ == s@.take(it.index() as int),
    {
        out.push(c);
    }
    out
}

/// The characters of `chars` from `from` up to `to`, as a string.
pub fn text_between(chars: &Vec<char>, from: usize, to: usize) -> (r: String)
    requires
        from <= to <= chars@.len(),
    ensures
        r@ == chars@.subrange(from as int, to as int),
{
    let mut out = String::new();
    let mut i: usize = from;
    while i < to
        invariant
            from <= i <= to <= chars@.len(),
            out@ == chars@.subrange(from as int, i as int),
        decreases to - i,
    {
        out.push(chars[i]);
        i += 1;
    }
    out
}

/// Whether two texts hold the same characters.
pub fn same_text(a: &str, b: &str) -> (r: bool)
    ensures
        r == (a@ == b@),
{
    let x = chars_of(a);
    let y = chars_of(b);
    if x.len() != y.len() {
        return false;
    }
    let mut i: usize = 0;
    while i < x.len()
        invariant
            x@ == a@,
            y@ == b@,
            x@.len() == y@.len(),
            i <= x@.len(),
            forall|j: int| 0 <= j < i ==> x@[j] == y@[j],
        decreases x@.len() - i,
    {
        if x[i] != y[i] {
            assert(a@[i as int] != b@[i as int]);
            return false;
        }
        i += 1;
    }
    assert(a@ =~= b@);
    true
}

/// `s` without its leading white space.
pub open spec fn trim_start(s: Seq<char>) -> Seq<char>
    decreases s.len(),
{
    if s.len() > 0 && white_space(s[0]) {
        trim_start(s.skip(1))
    } else {
        s
    }
}

/// `s` without its trailing white space.
pub open spec fn trim_end(s: Seq<char>) -> Seq<char>
    decreases s.len(),
{
    if s.len() > 0 && white_space(s.last()) {
        trim_end(s.drop_last())
    } else {
        s
    }
}

/// `s` without the white space at its two ends.
pub open spec fn trimmed(s: Seq<char>) -> Seq<char> {
    trim_end(trim_start(s))
}

/// A text is blank when it holds nothing but white space.
pub open spec fn blank(s: Seq<char>) -> bool {
    forall|i: int| 0 <= i < s.len() ==> white_space(#[trigger] s[i])
}

/// Removes the white space at both ends.
pub fn trim(s: &str) -> (r: String)
    ensures
        r@ == trimmed(s@),
{
    let chars = chars_of(s);
    let mut from: usize = 0;
    proof {
        assert(chars@.skip(0) =~= chars@);
    }
    while from < chars.len() && is_white_space(chars[from])
        invariant
            from <= chars@.len(),
            trim_start(chars@) == trim_start(chars@.skip(from as int)),
        decreases chars@.len() - from,
    {
        proof {
            assert(chars@.skip(from as int)[0] == chars@[from as int]);
            assert(chars@.skip(from as int).skip(1) =~= chars@.skip(from + 1));
        }
        from += 1;
    }
    let ghost rest = chars@.skip(from as int);
    proof {
        if from < chars@.len() {
            assert(rest[0] == chars@[from as int]);
        }
        assert(trim_start(chars@) == rest);
    }
    let mut to: usize = chars.len();
    proof {
        assert(chars@.subrange(from as int, to as int) =~= rest);
    }
    while from < to && is_white_space(chars[to - 1])
        invariant
            from <= to <= chars@.len(),
            trim_end(rest) == trim_end(chars@.subrange(from as int, to as int)),
        decreases to - from,
    {
        proof {
            let kept = chars@.subrange(from as int, to as int);
            assert(kept.last() == chars@[to - 1]);
            assert(kept.drop_last() =~= chars@.subrange(from as int, to - 1));
        }
        to -= 1;
    }
    proof {
        let kept = chars@.subrange(from as int, to as int);
        if from < to {
            assert(kept.last() == chars@[to - 1]);
        }
        assert(trim_end(kept) == kept);
    }
    text_between(&chars, from, to)
}

/// A text is blank exactly when nothing is left of it after trimming.
pub proof fn lemma_blank_is_trimmed_empty(s: Seq<char>)
    ensures
        blank(s) <==> trimmed(s).len() == 0,
{
    lemma_trim_start_blank(s);
    let t = trim_start(s);
    lemma_trim_start_head(s);
    if t.len() > 0 {
        lemma_trim_end_keeps_head(t);
    }
}

proof fn lemma_trim_start_blank(s: Seq<char>)
    ensures
        blank(s) <==> trim_start(s).len() == 0,
    decreases s.len(),
{
    if s.len() > 0 && white_space(s[0]) {
        lemma_trim_start_blank(s.skip(1));
        if blank(s.skip(1)) {
            assert forall|i: int| 0 <= i < s.len() implies white_space(#[trigger] s[i]) by {
                if i > 0 {
                    assert(s.skip(1)[i - 1] == s[i]);
                }
            }
        }
        if blank(s) {
            assert forall|i: int| 0 <= i < s.skip(1).len() implies white_space(
                #[trigger] s.skip(1)[i],
            ) by {
                assert(s.skip(1)[i] == s[i + 1]);
            }
        }
    } else if s.len() > 0 {
        assert(!white_space(s[0]));
    }
}

proof fn lemma_trim_start_head(s: Seq<char>)
    ensures
        trim_start(s).len() > 0 ==> !white_space(trim_start(s)[0]),
    decreases s.len(),
{
    if s.len() > 0 && white_space(s[0]) {
        lemma_trim_start_head(s.skip(1));
    }
}

proof fn lemma_trim_end_keeps_head(s: Seq<char>)
    requires
        s.len() > 0,
        !white_space(s[0]),
    ensures
        trim_end(s).len() > 0,
    decreases s.len(),
{
    if white_space(s.last()) {
        assert(s.len() > 1) by {
            if s.len() == 1 {
                assert(s.last() == s[0]);
            }
        }
        assert(s.drop_last()[0] == s[0]);
        lemma_trim_end_keeps_head(s.drop_last());
    }
}

/// Whether the text holds nothing but white space.
pub fn is_blank(s: &str) -> (r: bool)
    ensures
        r == blank(s@),
        r == (trimmed(s@).len() == 0),
{
    let t = trim(s);
    proof {
        lemma_blank_is_trimmed_empty(s@);
    }
    t.as_str().is_empty()
}

/// The contents of a list of strings.
pub open spec fn texts(list: Seq<String>) -> Seq<Seq<char>> {
    list.map_values(|s: String| s@)
}

/// The maximal runs of characters that are not white space, in order.
pub open spec fn words(s: Seq<char>) -> Seq<Seq<char>>
    decreases s.len(),
{
    if s.len() == 0 {
        Seq::empty()
    } else {
        let before = words(s.drop_last());
        if white_space(s.last()) {
            before
        } else if s.len() >= 2 && !white_space(s[s.len() - 2]) {
            before.drop_last().push(before.last().push(s.last()))
        } else {
            before.push(seq![s.last()])
        }
    }
}

/// A word holds at least one character.
pub proof fn lemma_words_are_not_empty(s: Seq<char>)
    ensures
        forall|i: int| 0 <= i < words(s).len() ==> (#[trigger] words(s)[i]).len() > 0,
        s.len() > 0 && !white_space(s.last()) ==> words(s).len() > 0,
    decreases s.len(),
{
    if s.len() > 0 {
        let before = words(s.drop_last());
        lemma_words_are_not_empty(s.drop_last());
        if !white_space(s.last()) && s.len() >= 2 && !white_space(s[s.len() - 2]) {
            assert(s.drop_last().last() == s[s.len() - 2]);
            assert(words(s) == before.drop_last().push(before.last().push(s.last())));
            assert forall|i: int| 0 <= i < words(s).len() implies (
            #[trigger] words(s)[i]).len() > 0 by {
                if i < before.len() - 1 {
                    assert(words(s)[i] == before[i]);
                }
            }
        } else if !white_space(s.last()) {
            assert(words(s) == before.push(seq![s.last()]));
            assert forall|i: int| 0 <= i < words(s).len() implies (
            #[trigger] words(s)[i]).len() > 0 by {
                if i < before.len() {
                    assert(words(s)[i] == before[i]);
                }
            }
        }
    }
}

/// Splits at white space.
pub fn split_whitespace(s: &str) -> (r: Vec<String>)
    ensures
        texts(r@) == words(s@),
{
    let chars = chars_of(s);
    let mut out: Vec<String> = Vec::new();
    let mut word = String::new();
    let mut open = false;
    let mut i: usize = 0;
    proof {
        assert(chars@.take(0) =~= Seq::empty());
        assert(texts(out@) =~= Seq::empty());
    }
    while i < chars.len()
        invariant
            chars@ == s@,
            i <= chars@.len(),
            open == (i > 0 && !white_space(chars@[i - 1])),
            open ==> words(chars@.take(i as int)) == texts(out@).push(word@),
            !open ==> words(chars@.take(i as int)) == texts(out@) && word@.len() == 0,
        decreases chars@.len() - i,
    {
        let ghost seen = chars@.take(i as int);
        let ghost next = chars@.take(i + 1);
        proof {
            assert(next.drop_last() =~= seen);
            assert(next.last() == chars@[i as int]);
            if i > 0 {
                assert(next[next.len() - 2] == chars@[i - 1]);
            }
        }
        let c = chars[i];
        if is_white_space(c) {
            if open {
                let ghost before = out@;
                let done = word;
                out.push(done);
                word = String::new();
                open = false;
                proof {
                    assert(texts(out@) =~= texts(before).push(done@));
                }
            }
        } else {
            let ghost was = word@;
            word.push(c);
            proof {
                if open {
                    assert(texts(out@).push(was).drop_last() =~= texts(out@));
                    assert(words(next) =~= texts(out@).push(word@));
                } else {
                    assert(word@ =~= seq![c]);
                }
            }
            open = true;
        }
        i += 1;
    }
    proof {
        assert(chars@.take(chars@.len() as int) =~= chars@);
    }
    if open {
        let ghost before = out@;
        let done = word;
        out.push(done);
        proof {
            assert(texts(out@) =~= texts(before).push(done@));
        }
    }
    out
}

/// The pieces of `s` between its newlines; one more than there are newlines.
pub open spec fn newline_pieces(s: Seq<char>) -> Seq<Seq<char>>
    decreases s.len(),
{
    if s.len() == 0 {
        seq![Seq::empty()]
    } else {
        let before = newline_pieces(s.drop_last());
        if s.last() == '\n' {
            before.push(Seq::empty())
        } else {
            before.drop_last().push(before.last().push(s.last()))
        }
    }
}

/// `s` without one carriage return at its end.
pub open spec fn without_carriage_return(s: Seq<char>) -> Seq<char> {
    if s.len() > 0 && s.last() == '\r' {
        s.drop_last()
    } else {
        s
    }
}

/// The lines of `s`: each ends at a newline, which may follow a carriage return; the last line may
/// end without one, and then keeps every character.
pub open spec fn text_lines(s: Seq<char>) -> Seq<Seq<char>> {
    let pieces = newline_pieces(s);
    let ended = pieces.drop_last().map_values(|p: Seq<char>| without_carriage_return(p));
    if pieces.last().len() == 0 {
        ended
    } else {
        ended.push(pieces.last())
    }
}

/// Splits into lines.
pub fn lines(s: &str) -> (r: Vec<String>)
    ensures
        texts(r@) == text_lines(s@),
{
    let chars = chars_of(s);
    let ghost strip = |p: Seq<char>| without_carriage_return(p);
    let mut out: Vec<String> = Vec::new();
    let mut start: usize = 0;
    let mut i: usize = 0;
    proof {
        assert(chars@.take(0) =~= Seq::empty());
        assert(newline_pieces(chars@.take(0)).drop_last() =~= Seq::empty());
        assert(texts(out@) =~= newline_pieces(chars@.take(0)).drop_last().map_values(strip));
        assert(newline_pieces(chars@.take(0)).last() =~= chars@.subrange(0, 0));
    }
    while i < chars.len()
        invariant
            chars@ == s@,
            start <= i <= chars@.len(),
            strip == (|p: Seq<char>| without_carriage_return(p)),
            newline_pieces(chars@.take(i as int)).len() > 0,
            texts(out@) == newline_pieces(chars@.take(i as int)).drop_last().map_values(strip),
            newline_pieces(chars@.take(i as int)).last() == chars@.subrange(start as int, i as int),
        decreases chars@.len() - i,
    {
        let ghost seen = chars@.take(i as int);
        let ghost next = chars@.take(i + 1);
        proof {
            assert(next.drop_last() =~= seen);
            assert(next.last() == chars@[i as int]);
        }
        if chars[i] == '\n' {
            let ghost piece = chars@.subrange(start as int, i as int);
            let to: usize = if start < i && chars[i - 1] == '\r' {
                i - 1
            } else {
                i
            };
            let line = text_between(&chars, start, to);
            proof {
                if start < i {
                    assert(piece.last() == chars@[i - 1]);
                }
                assert(line@ =~= without_carriage_return(piece));
            }
            let ghost before = out@;
            out.push(line);
            start = i + 1;
            proof {
                assert(newline_pieces(next).drop_last() =~= newline_pieces(seen));
                assert(newline_pieces(seen) =~= newline_pieces(seen).drop_last().push(piece));
                assert(texts(out@) =~= texts(before).push(line@));
                assert(newline_pieces(next).drop_last().map_values(strip) =~= newline_pieces(
                    seen,
                ).drop_last().map_values(strip).push(strip(piece)));
                assert(newline_pieces(next).last() =~= chars@.subrange(start as int, i + 1));
            }
        } else {
            proof {
                assert(newline_pieces(next).drop_last() =~= newline_pieces(seen).drop_last());
                assert(newline_pieces(next).last() =~= chars@.subrange(start as int, i + 1));
            }
        }
        i += 1;
    }
    proof {
        assert(chars@.take(chars@.len() as int) =~= chars@);
    }
    if start < chars.len() {
        let line = text_between(&chars, start, chars.len());
        let ghost before = out@;
        out.push(line);
        proof {
            assert(texts(out@) =~= texts(before).push(line@));
        }
    }
    out
}

/// How many characters of `s` stand before the first `c`; all of them where there is none.
pub open spec fn before_first(s: Seq<char>, c: char) -> int
    decreases s.len(),
{
    if s.len() == 0 || s[0] == c {
        0
    } else {
        1 + before_first(s.skip(1), c)
    }
}

/// The texts before and after the first `c`, where there is one.
pub open spec fn split_at_first(s: Seq<char>, c: char) -> Option<(Seq<char>, Seq<char>)> {
    let n = before_first(s, c);
    if n < s.len() {
        Some((s.take(n), s.skip(n + 1)))
    } else {
        None
    }
}

proof fn lemma_before_first(s: Seq<char>, c: char, n: int)
    requires
        0 <= n <= s.len(),
        forall|i: int| 0 <= i < n ==> s[i] != c,
        n < s.len() ==> s[n] == c,
    ensures
        before_first(s, c) == n,
    decreases s.len(),
{
    if n > 0 {
        let rest = s.skip(1);
        assert forall|i: int| 0 <= i < n - 1 implies rest[i] != c by {
            assert(rest[i] == s[i + 1]);
        }
        if n < s.len() {
            assert(rest[n - 1] == s[n]);
        }
        lemma_before_first(rest, c, n - 1);
    }
}

/// Splits at the first `c`.
pub fn split_once(s: &str, c: char) -> (r: Option<(String, String)>)
    ensures
        match r {
            Some(parts) => split_at_first(s@, c) == Some((parts.0@, parts.1@)),
            None => split_at_first(s@, c) is None,
        },
{
    let chars = chars_of(s);
    let mut i: usize = 0;
    while i < chars.len() && chars[i] != c
        invariant
            i <= chars@.len(),
            forall|j: int| 0 <= j < i ==> chars@[j] != c,
        decreases chars@.len() - i,
    {
        i += 1;
    }
    proof {
        lemma_before_first(chars@, c, i as int);
    }
    if i == chars.len() {
        return None;
    }
    let head = text_between(&chars, 0, i);
    let tail = text_between(&chars, i + 1, chars.len());
    proof {
        assert(head@ =~= s@.take(i as int));
        assert(tail@ =~= s@.skip(i + 1));
    }
    Some((head, tail))
}

/// The text after the last `c`, where there is one.
pub open spec fn after_last(s: Seq<char>, c: char) -> Option<Seq<char>>
    decreases s.len(),
{
    if s.len() == 0 {
        None
    } else if s.last() == c {
        Some(Seq::empty())
    } else {
        match after_last(s.drop_last(), c) {
            Some(tail) => Some(tail.push(s.last())),
            None => None,
        }
    }
}

proof fn lemma_after_last(s: Seq<char>, c: char, n: int)
    requires
        0 <= n <= s.len(),
        forall|i: int| n <= i < s.len() ==> s[i] != c,
        n > 0 ==> s[n - 1] == c,
    ensures
        after_last(s, c) == (if n > 0 {
            Some(s.skip(n))
        } else {
            None
        }),
    decreases s.len(),
{
    if n < s.len() {
        lemma_after_last(s.drop_last(), c, n);
        if n > 0 {
            assert(s.drop_last().skip(n).push(s.last()) =~= s.skip(n));
        }
    } else if n > 0 {
        assert(s.skip(n) =~= Seq::empty());
    }
}

/// What follows the last `c`.
pub fn rsplit_tail(s: &str, c: char) -> (r: Option<String>)
    ensures
        match r {
            Some(tail) => after_last(s@, c) == Some(tail@),
            None => after_last(s@, c) is None,
        },
{
    let chars = chars_of(s);
    let mut n: usize = chars.len();
    while n > 0 && chars[n - 1] != c
        invariant
            n <= chars@.len(),
            forall|j: int| n <= j < chars@.len() ==> chars@[j] != c,
        decreases n,
    {
        n -= 1;
    }
    proof {
        lemma_after_last(chars@, c, n as int);
    }
    if n == 0 {
        return None;
    }
    let tail = text_between(&chars, n, chars.len());
    proof {
        assert(tail@ =~= s@.skip(n as int));
    }
    Some(tail)
}

/// An ASCII letter in lower case; any other character unchanged.
pub open spec fn lower_char(c: char) -> char {
    if 'A' <= c <= 'Z' {
        ((c as u8) + 32) as char
    } else {
        c
    }
}

/// `s` with its ASCII letters in lower case.
pub open spec fn ascii_lower(s: Seq<char>) -> Seq<char> {
    s.map_values(|c: char| lower_char(c))
}

/// Folds ASCII letters to lower case.
pub fn to_ascii_lowercase(s: &str) -> (r: String)
    ensures
        r@ == ascii_lower(s@),
{
    let chars = chars_of(s);
    let mut out = String::new();
    let mut i: usize = 0;
    while i < chars.len()
        invariant
            i <= chars@.len(),
            out@ == ascii_lower(chars@.take(i as int)),
        decreases chars@.len() - i,
    {
        let c = chars[i];
        let d = if 'A' <= c && c <= 'Z' {
            ((c as u8) + 32) as char
        } else {
            c
        };
        out.push(d);
        i += 1;
        proof {
            assert(out@ =~= ascii_lower(chars@.take(i as int)));
        }
    }
    proof {
        assert(chars@.take(chars@.len() as int) =~= s@);
    }
    out
}

/// `pattern` stands in `s` from position `at` on.
pub open spec fn occurs_at(s: Seq<char>, pattern: Seq<char>, at: int) -> bool {
    0 <= at && at + pattern.len() <= s.len() && s.subrange(at, at + pattern.len()) == pattern
}

/// `pattern` stands somewhere in `s`.
pub open spec fn occurs(s: Seq<char>, pattern: Seq<char>) -> bool {
    exists|at: int| #[trigger] occurs_at(s, pattern, at)
}

/// Whether `pattern` stands somewhere in `s`.
pub fn contains(s: &str, pattern: &str) -> (r: bool)
    ensures
        r == occurs(s@, pattern@),
{
    let text = chars_of(s);
    let wanted = chars_of(pattern);
    if wanted.len() > text.len() {
        return false;
    }
    let last: usize = text.len() - wanted.len();
    let mut at: usize = 0;
    loop
        invariant
            text@ == s@,
            wanted@ == pattern@,
            at <= last,
            last + wanted@.len() == text@.len() <= usize::MAX,
            forall|i: int| 0 <= i < at ==> !occurs_at(s@, pattern@, i),
        decreases last - at,
    {
        let mut j: usize = 0;
        while j < wanted.len() && text[at + j] == wanted[j]
            invariant
                text@ == s@,
                wanted@ == pattern@,
                at + wanted@.len() <= text@.len() <= usize::MAX,
                j <= wanted@.len(),
                forall|k: int| 0 <= k < j ==> text@[at + k] == wanted@[k],
            decreases wanted@.len() - j,
        {
            j += 1;
        }
        if j == wanted.len() {
            proof {
                assert(s@.subrange(at as int, at + pattern@.len()) =~= pattern@);
                assert(occurs_at(s@, pattern@, at as int));
            }
            return true;
        }
        proof {
            if occurs_at(s@, pattern@, at as int) {
                assert(s@.subrange(at as int, at + pattern@.len())[j as int] == text@[at + j]);
            }
        }
        if at == last {
            return false;
        }
        at += 1;
    }
}

/// Whether `s` begins with `prefix`.
pub open spec fn begins_with(s: Seq<char>, prefix: Seq<char>) -> bool {
    prefix.len() <= s.len() && s.take(prefix.len() as int) == prefix
}

/// Whether `s` begins with `prefix`.
pub fn starts_with(s: &str, prefix: &str) -> (r: bool)
    ensures
        r == begins_with(s@, prefix@),
{
    let text = chars_of(s);
    let wanted = chars_of(prefix);
    if wanted.len() > text.len() {
        return false;
    }
    let head = text_between(&text, 0, wanted.len());
    proof {
        assert(head@ =~= s@.take(prefix@.len() as int));
    }
    same_text(head.as_str(), prefix)
}

} // verus!
