//! What the settings, paths, times and devices at the edge of the program come to.
use vstd::prelude::*;
use vstd::utf8::encode_utf8;

use crate::clock::{all_digits, stamp_parts, utc_stamp};
use crate::demo_vm::{after_program, api_socket, demo_body, demo_response};
use crate::net_tap::{
    attach_args, attach_failure, attached, failure_detail, tap_exists, tap_step, CommandOutput,
    TapStep, TapStepView,
};
use crate::numbers::{decimal, number_value, ParseNumberError};
use crate::paths::{
    joined, last_piece, parent_path, path_start, piece_start,
    without_blank_pieces, without_last_piece,
};
use crate::pool::PoolErrorView;
use crate::process_pool::byte_lists;
use crate::settings::{
    args_or_error, args_outcome, cooldown_or_error, encoded, env_args, found_words,
    interval_or_error, largest_size, pool_size_or_error, positive_or_error, shell_words, EnvValue,
};
use crate::text::{ascii_lower, lossy_text, occurs, texts, trimmed};

verus! {

/// A setting is a positive number; zero is refused with its own words, and anything else by what it
/// is and what was given.
pub proof fn law_settings_are_positive_numbers(
    value: Seq<char>,
    n: nat,
    max: nat,
    what: Seq<char>,
    at_least: Seq<char>,
)
    ensures
        number_value(value, max) == Ok::<nat, ParseNumberError>(n) && n > 0 ==> positive_or_error(
            value,
            max,
            what,
            at_least,
        ) == Ok::<nat, Seq<char>>(n),
        number_value(value, max) == Ok::<nat, ParseNumberError>(0) ==> positive_or_error(
            value,
            max,
            what,
            at_least,
        ) == Err::<nat, Seq<char>>(at_least),
        number_value(value, max) is Err ==> positive_or_error(value, max, what, at_least) == Err::<
            nat,
            Seq<char>,
        >("invalid "@ + what + ": "@ + value),
{
}

/// The number of slots, the cooldown and the interval are each read as a positive number of their
/// size, and each is refused in its own words.
pub proof fn law_settings_are_refused_in_their_own_words(value: Seq<char>)
    ensures
        match number_value(value, usize::MAX as nat) {
            Ok(n) => pool_size_or_error(value) == (if n == 0 {
                Err::<nat, Seq<char>>("pool size must be at least 1"@)
            } else {
                Ok(n)
            }),
            Err(_) => pool_size_or_error(value) == Err::<nat, Seq<char>>(
                "invalid "@ + "pool size"@ + ": "@ + value,
            ),
        },
        match number_value(value, u64::MAX as nat) {
            Ok(n) => cooldown_or_error(value) == (if n == 0 {
                Err::<nat, Seq<char>>("scale-down cooldown must be at least 1 second"@)
            } else {
                Ok(n)
            }) && interval_or_error(value) == (if n == 0 {
                Err::<nat, Seq<char>>("autoscale interval must be at least 1 millisecond"@)
            } else {
                Ok(n)
            }),
            Err(_) => cooldown_or_error(value) == Err::<nat, Seq<char>>(
                "invalid "@ + "cooldown seconds"@ + ": "@ + value,
            ) && interval_or_error(value) == Err::<nat, Seq<char>>(
                "invalid "@ + "autoscale interval milliseconds"@ + ": "@ + value,
            ),
        },
{
}

/// The pool grows to the size that is given, and where none is given it does not grow.
pub proof fn law_largest_size_is_the_one_given(pool_size: usize, given: usize)
    ensures
        largest_size(pool_size, Some(given)) == given,
        largest_size(pool_size, None) == pool_size,
{
}

/// The words of an argument text become arguments one by one, as their UTF-8 bytes.
pub proof fn law_words_become_arguments(list: Vec<String>, args: Vec<Vec<u8>>, reason: String, i: int)
    ensures
        found_words(Some(list)) is Some,
        found_words(Some(list))->0.len() == list@.len(),
        0 <= i < list@.len() ==> found_words(Some(list))->0[i] == list@[i]@,
        found_words(None) is None,
        args_or_error(found_words(Some(list))) is Ok,
        args_or_error(found_words(Some(list)))->Ok_0.len() == list@.len(),
        0 <= i < list@.len() ==> args_or_error(found_words(Some(list)))->Ok_0[i] == encode_utf8(
            list@[i]@,
        ),
        args_or_error(None) == Err::<Seq<Seq<u8>>, Seq<char>>(
            "invalid CLOUD_HYPERVISOR_ARGS: could not parse shell-style arguments"@,
        ),
        args_outcome(Ok(args)) is Ok,
        args_outcome(Ok(args))->Ok_0.len() == args@.len(),
        0 <= i < args@.len() ==> args_outcome(Ok(args))->Ok_0[i] == args@[i]@,
        args_outcome(Err(reason)) == Err::<Seq<Seq<u8>>, Seq<char>>(reason@),
{
    assert(byte_lists(args@).len() == args@.len());
    assert(encoded(texts(list@)).len() == list@.len());
}

/// The environment adds no arguments where the variable is not set, those of its text where it is,
/// and is refused where it is no text.
pub proof fn law_environment_adds_arguments(raw: String)
    ensures
        env_args(EnvValue::NotPresent) == Ok::<Seq<Seq<u8>>, Seq<char>>(Seq::empty()),
        env_args(EnvValue::NotUnicode) == Err::<Seq<Seq<u8>>, Seq<char>>(
            "invalid CLOUD_HYPERVISOR_ARGS: value is not valid Unicode"@,
        ),
        env_args(EnvValue::Present(raw)) == args_or_error(shell_words(raw@)),
{
}

/// A message says that a device is there where, in capitals or not, it holds one of three phrases.
pub proof fn law_existing_device_is_told_by_three_phrases(message: Seq<char>)
    ensures
        tap_exists(message) <==> {
            let folded = ascii_lower(message);
            ||| occurs(folded, "file exists"@)
            ||| occurs(folded, "already exists"@)
            ||| occurs(folded, "device or resource busy"@)
        },
{
}

/// A device that was created, or was there, is put on the bridge where there is one; one that could
/// not be created is a failure of the backend.
pub proof fn law_device_is_put_on_its_bridge(
    name: Seq<char>,
    bridge: Seq<char>,
    other: Option<Seq<char>>,
    error: Seq<char>,
    args: Vec<String>,
)
    ensures
        tap_step(name, None, Ok(())) == Ok::<TapStepView, PoolErrorView>(TapStepView::Ready),
        tap_step(name, Some(bridge), Ok(())) == Ok::<TapStepView, PoolErrorView>(
            TapStepView::Attach(seq!["link"@, "set"@, "dev"@, name, "master"@, bridge]),
        ),
        tap_exists(error) ==> tap_step(name, other, Err(error)) == tap_step(name, other, Ok(())),
        !tap_exists(error) ==> tap_step(name, other, Err(error)) == Err::<
            TapStepView,
            PoolErrorView,
        >(
            PoolErrorView::Backend(
                "failed to create tap interface '"@ + name + "': "@ + error,
            ),
        ),
        attach_args(name, bridge) == seq!["link"@, "set"@, "dev"@, name, "master"@, bridge],
        TapStep::Ready@ == TapStepView::Ready,
        TapStep::Attach(args)@ == TapStepView::Attach(texts(args@)),
{
}

/// Putting a device on a bridge succeeds where the command does; otherwise the failure is told by
/// why it could not be run, by what it said, or by its status where it said nothing.
pub proof fn law_failed_attachment_is_told(
    name: Seq<char>,
    bridge: Seq<char>,
    reason: String,
    output: CommandOutput,
    detail: Seq<char>,
)
    ensures
        attached(name, bridge, Err(reason)) == Err::<(), PoolErrorView>(
            PoolErrorView::Backend(
                "failed to attach tap interface '"@ + name + "' to bridge '"@ + bridge + "': "@
                    + reason@,
            ),
        ),
        output.success ==> attached(name, bridge, Ok(output)) == Ok::<(), PoolErrorView>(()),
        !output.success && trimmed(lossy_text(output.stderr@)).len() > 0 ==> attached(
            name,
            bridge,
            Ok(output),
        ) == Err::<(), PoolErrorView>(
            PoolErrorView::Backend(
                "failed to attach tap interface '"@ + name + "' to bridge '"@ + bridge + "': "@
                    + trimmed(lossy_text(output.stderr@)),
            ),
        ),
        !output.success && trimmed(lossy_text(output.stderr@)).len() == 0 ==> attached(
            name,
            bridge,
            Ok(output),
        ) == Err::<(), PoolErrorView>(
            PoolErrorView::Backend(
                "failed to attach tap interface '"@ + name + "' to bridge '"@ + bridge + "': "@ + (
                "ip link exited with status "@ + output.status@),
            ),
        ),
        attach_failure(name, bridge, detail) == "failed to attach tap interface '"@ + name
            + "' to bridge '"@ + bridge + "': "@ + detail,
        trimmed(detail).len() > 0 ==> failure_detail(detail, name) == trimmed(detail),
        trimmed(detail).len() == 0 ==> failure_detail(detail, name)
            == "ip link exited with status "@ + name,
{
}

/// The socket is the argument after the first flag that names it; without a flag, or without anything
/// after it, there is none.
pub proof fn law_socket_follows_the_first_flag(
    before: Seq<Seq<u8>>,
    path: Seq<u8>,
    after: Seq<Seq<u8>>,
)
    requires
        forall|i: int|
            0 <= i < before.len() ==> #[trigger] before[i] != encode_utf8("--api-socket"@),
    ensures
        api_socket(before) == Err::<Seq<u8>, Seq<char>>(
            "missing required argument --api-socket <PATH>"@,
        ),
        api_socket(before + seq![encode_utf8("--api-socket"@)]) == Err::<Seq<u8>, Seq<char>>(
            "missing value for --api-socket"@,
        ),
        api_socket(before + seq![encode_utf8("--api-socket"@), path] + after) == Ok::<
            Seq<u8>,
            Seq<char>,
        >(path),
    decreases before.len(),
{
    let flag = encode_utf8("--api-socket"@);
    let bare = before + seq![flag];
    let full = before + seq![flag, path] + after;
    if before.len() == 0 {
        assert(bare[0] == flag);
        assert(full[0] == flag);
        assert(full[1] == path);
    } else {
        let rest = before.skip(1);
        assert forall|i: int| 0 <= i < rest.len() implies #[trigger] rest[i] != flag by {
            assert(rest[i] == before[i + 1]);
        }
        law_socket_follows_the_first_flag(rest, path, after);
        assert(bare[0] == before[0]);
        assert(full[0] == before[0]);
        assert(bare.skip(1) =~= rest + seq![flag]);
        assert(full.skip(1) =~= rest + seq![flag, path] + after);
    }
}

/// The name of the program is not one of its arguments.
pub proof fn law_program_name_is_not_an_argument(program: Seq<u8>, args: Seq<Seq<u8>>)
    ensures
        after_program(seq![program] + args) == args,
        after_program(Seq::empty()) == Seq::<Seq<u8>>::empty(),
{
    assert((seq![program] + args).skip(1) =~= args);
}

/// Every answer of the stand-in is a head that tells the length of the body in bytes, an empty line,
/// and the body, which tells the slot.
pub proof fn law_stand_in_answers_with_its_slot(slot: Seq<char>)
    ensures
        ({
            let body = "{\"status\":\"ok\",\"vm\":\"demo-vm\",\"slot\":\""@ + slot + "\"}"@;
            &&& demo_body(slot) == body
            &&& demo_response(slot)
                == "HTTP/1.1 200 OK\r\ncontent-type: application/json\r\ncontent-length: "@
                + decimal(encode_utf8(body).len()) + "\r\nconnection: close\r\n\r\n"@ + body
        }),
{
}

/// A time is written as year, month and day, a "T", hour, minute and second with colons between, a
/// fraction of a second or none, and the offset of UTC; `year` digits and signs come first.
pub proof fn law_times_are_written_in_utc(s: Seq<char>) -> (year: int)
    requires
        utc_stamp(s),
    ensures
        year == 4 || year >= 6 && s[0] == '+',
        s.len() == year + 21 || s.len() == year + 25 || s.len() == year + 28 || s.len() == year + 31,
        forall|i: int| 1 <= i < year ==> '0' <= #[trigger] s[i] <= '9',
        year == 4 ==> '0' <= s[0] <= '9',
        s[year] == '-',
        s[year + 3] == '-',
        s[year + 6] == 'T',
        s[year + 9] == ':',
        s[year + 12] == ':',
        forall|i: int|
            year < i < year + 15 && i != year + 3 && i != year + 6 && i != year + 9 && i != year + 12
                ==> '0' <= #[trigger] s[i] <= '9',
        s.len() > year + 21 ==> s[year + 15] == '.',
        forall|i: int| year + 16 <= i < s.len() - 6 ==> '0' <= #[trigger] s[i] <= '9',
        s.skip(s.len() - 6) == "+00:00"@,
{
    let (y, d, f) = choose|y: Seq<char>, d: Seq<char>, f: Seq<char>| #[trigger]
        stamp_parts(s, y, d, f);
    reveal_strlit("+00:00");
    let n = y.len() as int;
    assert forall|i: int| 1 <= i < n implies '0' <= #[trigger] s[i] <= '9' by {
        assert(s[i] == y[i]);
        if n >= 6 {
            assert(y.skip(1)[i - 1] == y[i]);
        }
    }
    assert(s[0] == y[0]);
    assert forall|i: int| 0 <= i < 15 implies s[n + i] == #[trigger] d[i] by {}
    assert(s[n] == d[0]);
    assert(s[n + 3] == d[3]);
    assert(s[n + 6] == d[6]);
    assert(s[n + 9] == d[9]);
    assert(s[n + 12] == d[12]);
    assert forall|i: int|
        n < i < n + 15 && i != n + 3 && i != n + 6 && i != n + 9 && i != n + 12 implies '0'
        <= #[trigger] s[i] <= '9' by {
        let k = i - n;
        assert(s[i] == d[k]);
        if k < 3 {
            assert(d.subrange(1, 3)[k - 1] == d[k]);
        } else if k < 6 {
            assert(d.subrange(4, 6)[k - 4] == d[k]);
        } else if k < 9 {
            assert(d.subrange(7, 9)[k - 7] == d[k]);
        } else if k < 12 {
            assert(d.subrange(10, 12)[k - 10] == d[k]);
        } else {
            assert(d.subrange(13, 15)[k - 13] == d[k]);
        }
    }
    if f.len() > 0 {
        assert(s[n + 15] == f[0]);
    }
    assert forall|i: int| n + 16 <= i < s.len() - 6 implies '0' <= #[trigger] s[i] <= '9' by {
        let k = i - n - 15;
        assert(s[i] == f[k]);
        assert(f.skip(1)[k - 1] == f[k]);
        assert(all_digits(f.skip(1)));
    }
    assert(s.skip(s.len() - 6) =~= "+00:00"@);
    n
}

/// Every text that is so written is a time in UTC.
pub proof fn law_texts_so_written_are_times(s: Seq<char>, year: int)
    requires
        year == 4 || year >= 6 && s[0] == '+',
        s.len() == year + 21 || s.len() == year + 25 || s.len() == year + 28 || s.len() == year + 31,
        forall|i: int| 1 <= i < year ==> '0' <= #[trigger] s[i] <= '9',
        year == 4 ==> '0' <= s[0] <= '9',
        s[year] == '-',
        s[year + 3] == '-',
        s[year + 6] == 'T',
        s[year + 9] == ':',
        s[year + 12] == ':',
        forall|i: int|
            year < i < year + 15 && i != year + 3 && i != year + 6 && i != year + 9 && i != year + 12
                ==> '0' <= #[trigger] s[i] <= '9',
        s.len() > year + 21 ==> s[year + 15] == '.',
        forall|i: int| year + 16 <= i < s.len() - 6 ==> '0' <= #[trigger] s[i] <= '9',
        s.skip(s.len() - 6) == "+00:00"@,
    ensures
        utc_stamp(s),
{
    let y = s.take(year);
    let d = s.subrange(year, year + 15);
    let f = s.subrange(year + 15, s.len() - 6);
    assert(s =~= y + d + f + s.skip(s.len() - 6));
    if year == 4 {
        assert(all_digits(y));
    } else {
        assert(all_digits(y.skip(1)));
    }
    assert(all_digits(d.subrange(1, 3)));
    assert(all_digits(d.subrange(4, 6)));
    assert(all_digits(d.subrange(7, 9)));
    assert(all_digits(d.subrange(10, 12)));
    assert(all_digits(d.subrange(13, 15)));
    if f.len() > 0 {
        assert(all_digits(f.skip(1)));
    }
    assert(stamp_parts(s, y, d, f));
}

/// A name is put into a directory with one slash between them.
pub proof fn law_names_are_joined_with_one_slash(base: Seq<u8>, name: Seq<u8>)
    ensures
        base.len() == 0 || base[base.len() - 1] == '/' as u8 ==> joined(base, name) == base + name,
        base.len() > 0 && base[base.len() - 1] != '/' as u8 ==> joined(base, name) == base + seq![
            '/' as u8,
        ] + name,
{
    if base.len() > 0 && base[base.len() - 1] != '/' as u8 {
        assert(base.push(47u8) =~= base + seq!['/' as u8]);
    }
}

proof fn lemma_last_piece_of(directory: Seq<u8>, name: Seq<u8>)
    requires
        directory.len() == 0 || directory[directory.len() - 1] == 47u8,
        name.len() > 0,
        directory.len() == 0 ==> name != seq![46u8],
        forall|i: int| 0 <= i < name.len() ==> #[trigger] name[i] != 47u8,
    ensures
        ({
            let path = directory + name;
            &&& piece_start(path, path_start(path), path.len() as int) == directory.len()
            &&& path_start(path) <= directory.len()
            &&& last_piece(path) == name
            &&& directory.len() > 0 && path_start(path) == directory.len() ==> directory
                == seq![47u8]
        }),
{
    let path = directory + name;
    let at = directory.len() as int;
    let start = path_start(path);
    if at == 0 {
        assert(path =~= name);
        assert(path[0] == name[0]);
        if name.len() == 1 && name[0] == 46u8 {
            assert(name =~= seq![46u8]);
        }
        if name.len() > 1 {
            assert(name[1] != 47u8);
        }
    } else {
        assert(path[0] == directory[0]);
        assert(path[at - 1] == 47u8);
        if at == 1 {
            assert(directory =~= seq![47u8]);
        }
    }
    lemma_piece_of(path, start, at, path.len() as int);
    assert(last_piece(path) =~= name);
}

proof fn lemma_piece_of(path: Seq<u8>, from: int, at: int, to: int)
    requires
        0 <= from <= at <= to <= path.len(),
        at == from || path[at - 1] == 47u8,
        forall|i: int| at <= i < to ==> #[trigger] path[i] != 47u8,
    ensures
        piece_start(path, from, to) == at,
    decreases to,
{
    if to > at {
        assert(path[to - 1] != 47u8);
        lemma_piece_of(path, from, at, to - 1);
    }
}

/// Slashes at the end of a path, and lone dots after them, do not count; a path that ends in a name
/// is kept as it is.
pub proof fn law_path_ends_in_a_name(path: Seq<u8>, directory: Seq<u8>, name: Seq<u8>)
    requires
        path.len() > 0,
        directory.len() == 0 || directory[directory.len() - 1] == '/' as u8,
        name.len() > 0,
        name != seq!['.' as u8],
        forall|i: int| 0 <= i < name.len() ==> #[trigger] name[i] != '/' as u8,
    ensures
        without_blank_pieces(Seq::empty()) == Seq::<u8>::empty(),
        without_blank_pieces(seq!['/' as u8]) == seq!['/' as u8],
        without_blank_pieces(seq!['.' as u8]) == seq!['.' as u8],
        without_blank_pieces(path + seq!['/' as u8]) == without_blank_pieces(path),
        path[path.len() - 1] == '/' as u8 ==> without_blank_pieces(path + seq!['.' as u8])
            == without_blank_pieces(path),
        without_blank_pieces(directory + name) == directory + name,
{
    lemma_slash_does_not_count(path);
    lemma_last_piece_of(directory, name);
    if path[path.len() - 1] == 47u8 {
        let dotted = path + seq![46u8];
        lemma_last_piece_of(path, seq![46u8]);
        let at = path.len() as int;
        let start = path_start(dotted);
        if at > start {
            assert(without_last_piece(dotted) =~= path.drop_last());
            if path.len() == 1 {
                assert(dotted[0] == 47u8);
            }
            assert(path.drop_last() + seq![47u8] =~= path);
            lemma_slash_does_not_count(path.drop_last());
        } else {
            assert(without_last_piece(dotted) =~= path);
        }
    }
}

proof fn lemma_slash_does_not_count(path: Seq<u8>)
    requires
        path.len() > 0,
    ensures
        without_blank_pieces(path + seq![47u8]) == without_blank_pieces(path),
{
    let longer = path + seq![47u8];
    let len = longer.len() as int;
    assert(longer[len - 1] == 47u8);
    assert(piece_start(longer, path_start(longer), len) == len);
    assert(last_piece(longer).len() == 0);
    assert(without_last_piece(longer) =~= path);
}

/// The directory of what a path names: the path before its last name, without slashes and lone dots
/// at its end; nothing for a name alone; none for the root and for no path.
pub proof fn law_directory_is_what_comes_before_the_name(
    path: Seq<u8>,
    directory: Seq<u8>,
    name: Seq<u8>,
)
    requires
        path.len() > 0,
        directory.len() == 0 || directory[directory.len() - 1] == '/' as u8,
        name.len() > 0,
        name != seq!['.' as u8],
        forall|i: int| 0 <= i < name.len() ==> #[trigger] name[i] != '/' as u8,
    ensures
        parent_path(Seq::empty()) is None,
        parent_path(seq!['/' as u8]) is None,
        parent_path(seq!['.' as u8]) == Some(Seq::<u8>::empty()),
        parent_path(path + seq!['/' as u8]) == parent_path(path),
        path[path.len() - 1] == '/' as u8 ==> parent_path(path + seq!['.' as u8]) == parent_path(
            path,
        ),
        parent_path(directory + name) == Some(without_blank_pieces(directory)),
{
    law_path_ends_in_a_name(path, directory, name);
    lemma_last_piece_of(directory, name);
    let whole = directory + name;
    let start = path_start(whole);
    let at = directory.len() as int;
    if at > start {
        assert(without_last_piece(whole) =~= directory.drop_last());
        if at == 1 {
            assert(whole[0] == 47u8);
        }
        assert(directory.drop_last() + seq![47u8] =~= directory);
        lemma_slash_does_not_count(directory.drop_last());
    } else {
        assert(without_last_piece(whole) =~= directory);
    }
}

} // verus!
