//! What the reports under `/proc` come to, entry by entry.
use vstd::prelude::*;
use vstd::math::min;

use crate::host_metrics::{
    cpu_of, cpu_ticks, field_or_error, first_line_with, fraction_or_error, loadavg_report,
    meminfo_entries, memory_of, memory_report, process_counts, remainder, required_entry, sum_of,
    tick_values, MemoryMetrics, ProcessMetrics,
};
use crate::io_error::{IoErrorKind, IoErrorView};
use crate::numbers::{
    lemma_number_is_bounded, number_value, parse_error_message, ParseNumberError,
};
use crate::proc_text::{invalid_number, line_entry, number_or_error, saturated_bytes};
use crate::text::{after_last, split_at_first, text_lines, trimmed, words};
use crate::vm_metrics::{entry_or_zero, proc_stat, saturated_sum, status_entries, ProcStat};

verus! {

/// Kibibytes are 1024 bytes each, as far as 64 bits go.
pub proof fn law_kibibytes_are_1024_bytes(kib: u64)
    ensures
        kib * 1024 <= u64::MAX ==> saturated_bytes(kib) == kib * 1024,
        kib * 1024 > u64::MAX ==> saturated_bytes(kib) == u64::MAX,
{
}

/// Sums stop at the most that 64 bits hold, and differences at zero.
pub proof fn law_sums_and_differences_stay_in_range(a: u64, b: u64)
    ensures
        a + b <= u64::MAX ==> saturated_sum(a, b) == a + b,
        a + b > u64::MAX ==> saturated_sum(a, b) == u64::MAX,
        b <= a ==> remainder(a, b) + b == a,
        b > a ==> remainder(a, b) == 0,
{
}

/// An entry that is not there counts as zero, unless it has to be there.
pub proof fn law_missing_entries_count_as_zero(m: Map<Seq<char>, u64>, key: Seq<char>)
    ensures
        m.dom().contains(key) ==> entry_or_zero(m, key) == m[key] && required_entry(m, key) == Ok::<
            u64,
            IoErrorView,
        >(m[key]),
        !m.dom().contains(key) ==> entry_or_zero(m, key) == 0 && required_entry(m, key) == Err::<
            u64,
            IoErrorView,
        >(
            IoErrorView {
                kind: IoErrorKind::InvalidData,
                message: "missing meminfo key: "@ + key,
            },
        ),
{
}

/// The memory report says of each entry what the entry says: where the three entries that have to be
/// there are, what is available goes by `MemAvailable`, what is free by `MemFree`, and what is in use
/// is the total without what is available, whatever the other entries are.
pub proof fn law_memory_is_reported_entry_by_entry(raw: Seq<char>, m: Map<Seq<char>, u64>)
    requires
        meminfo_entries(text_lines(raw)) == Ok::<Map<Seq<char>, u64>, IoErrorView>(m),
        m.dom().contains("MemTotal"@),
        m.dom().contains("MemAvailable"@),
        m.dom().contains("MemFree"@),
    ensures
        memory_report(raw) is Ok,
        ({
            let r = memory_report(raw)->Ok_0;
            let total = m["MemTotal"@];
            let available = m["MemAvailable"@];
            &&& r.total_bytes == min(1024 * total, u64::MAX as int)
            &&& r.available_bytes == min(1024 * available, u64::MAX as int)
            &&& available <= total ==> r.used_bytes == min(
                1024 * (total - available),
                u64::MAX as int,
            )
            &&& available > total ==> r.used_bytes == 0
            &&& r.free_bytes == min(1024 * m["MemFree"@], u64::MAX as int)
        }),
{
}

/// What the report says of total, available, used and free memory follows from the three entries
/// alone: two lists of entries that agree on them are reported alike.
pub proof fn law_other_entries_do_not_change_available_memory(
    one: Map<Seq<char>, u64>,
    other: Map<Seq<char>, u64>,
)
    requires
        one.dom().contains("MemTotal"@),
        one.dom().contains("MemAvailable"@),
        one.dom().contains("MemFree"@),
        other.dom().contains("MemTotal"@),
        other.dom().contains("MemAvailable"@),
        other.dom().contains("MemFree"@),
        one["MemTotal"@] == other["MemTotal"@],
        one["MemAvailable"@] == other["MemAvailable"@],
    ensures
        memory_of(one) is Ok,
        memory_of(other) is Ok,
        memory_of(one)->Ok_0.total_bytes == memory_of(other)->Ok_0.total_bytes,
        memory_of(one)->Ok_0.available_bytes == memory_of(other)->Ok_0.available_bytes,
        memory_of(one)->Ok_0.used_bytes == memory_of(other)->Ok_0.used_bytes,
{
}

/// Whatever fits in 64 bits adds up: memory that is used and memory that is available make up the
/// total.
pub proof fn law_used_and_available_make_up_the_total(m: Map<Seq<char>, u64>)
    requires
        m.dom().contains("MemTotal"@),
        m.dom().contains("MemAvailable"@),
        m.dom().contains("MemFree"@),
        m["MemAvailable"@] <= m["MemTotal"@],
        m["MemTotal"@] * 1024 <= u64::MAX,
    ensures
        memory_of(m) is Ok,
        ({
            let r = memory_of(m)->Ok_0;
            r.used_bytes + r.available_bytes == r.total_bytes
        }),
{
}

/// The entries that need not be there: buffers, cached memory and swap, each by its own entry, and
/// swap in use as what is not free of it.
pub proof fn law_optional_memory_is_reported_entry_by_entry(
    m: Map<Seq<char>, u64>,
    r: MemoryMetrics,
)
    requires
        memory_of(m) == Ok::<MemoryMetrics, IoErrorView>(r),
    ensures
        m.dom().contains("Buffers"@) ==> r.buffers_bytes == min(
            1024 * m["Buffers"@],
            u64::MAX as int,
        ),
        !m.dom().contains("Buffers"@) ==> r.buffers_bytes == 0,
        m.dom().contains("Cached"@) ==> r.cached_bytes == min(
            1024 * m["Cached"@],
            u64::MAX as int,
        ),
        !m.dom().contains("Cached"@) ==> r.cached_bytes == 0,
        m.dom().contains("SwapTotal"@) ==> r.swap_total_bytes == min(
            1024 * m["SwapTotal"@],
            u64::MAX as int,
        ),
        !m.dom().contains("SwapTotal"@) ==> r.swap_total_bytes == 0 && r.swap_used_bytes == 0,
        m.dom().contains("SwapFree"@) ==> r.swap_free_bytes == min(
            1024 * m["SwapFree"@],
            u64::MAX as int,
        ),
        !m.dom().contains("SwapFree"@) ==> r.swap_free_bytes == 0 && r.swap_used_bytes
            == r.swap_total_bytes,
        m.dom().contains("SwapTotal"@) && m.dom().contains("SwapFree"@) && m["SwapFree"@]
            <= m["SwapTotal"@] ==> r.swap_used_bytes == min(
            1024 * (m["SwapTotal"@] - m["SwapFree"@]),
            u64::MAX as int,
        ),
        m.dom().contains("SwapTotal"@) && m.dom().contains("SwapFree"@) && m["SwapFree"@]
            > m["SwapTotal"@] ==> r.swap_used_bytes == 0,
{
}

/// A memory report without one of the entries that have to be there names the first that is missing,
/// and one with a value that cannot be read is that error.
pub proof fn law_missing_memory_entries_are_named(raw: Seq<char>, m: Map<Seq<char>, u64>)
    ensures
        meminfo_entries(text_lines(raw)) matches Err(e) ==> memory_report(raw) == Err::<
            MemoryMetrics,
            IoErrorView,
        >(e),
        meminfo_entries(text_lines(raw)) == Ok::<Map<Seq<char>, u64>, IoErrorView>(m) ==> {
            let total = m.dom().contains("MemTotal"@);
            let available = m.dom().contains("MemAvailable"@);
            let free = m.dom().contains("MemFree"@);
            &&& !total ==> memory_report(raw) == Err::<MemoryMetrics, IoErrorView>(
                IoErrorView {
                    kind: IoErrorKind::InvalidData,
                    message: "missing meminfo key: "@ + "MemTotal"@,
                },
            )
            &&& total && !available ==> memory_report(raw) == Err::<MemoryMetrics, IoErrorView>(
                IoErrorView {
                    kind: IoErrorKind::InvalidData,
                    message: "missing meminfo key: "@ + "MemAvailable"@,
                },
            )
            &&& total && available && !free ==> memory_report(raw) == Err::<
                MemoryMetrics,
                IoErrorView,
            >(
                IoErrorView {
                    kind: IoErrorKind::InvalidData,
                    message: "missing meminfo key: "@ + "MemFree"@,
                },
            )
        },
{
}

/// A line holds an entry where it has a colon and something after it: the key is what stands before
/// the first colon, without white space at its ends, and the value the first word after it.
pub proof fn law_line_is_split_at_its_first_colon(key: Seq<char>, value: Seq<char>)
    requires
        forall|i: int| 0 <= i < key.len() ==> #[trigger] key[i] != ':',
    ensures
        line_entry(key) is None,
        words(value).len() == 0 ==> line_entry(key + seq![':'] + value) is None,
        words(value).len() > 0 ==> line_entry(key + seq![':'] + value) == Some(
            (trimmed(key), words(value)[0]),
        ),
{
    lemma_split_at(key, ':', value);
    crate::text_laws::law_splitting_finds_the_first(key, ':');
    if split_at_first(key, ':') is Some {
        let (a, b) = split_at_first(key, ':')->0;
        assert(key[a.len() as int] == ':');
    }
}

/// A text is split at a character that does not stand before it.
proof fn lemma_split_at(a: Seq<char>, c: char, b: Seq<char>)
    requires
        forall|i: int| 0 <= i < a.len() ==> #[trigger] a[i] != c,
    ensures
        split_at_first(a + seq![c] + b, c) == Some((a, b)),
{
    let s = a + seq![c] + b;
    crate::text_laws::law_splitting_finds_the_first(s, c);
    assert(s[a.len() as int] == c);
    let (x, y) = split_at_first(s, c)->0;
    assert(s[x.len() as int] == c) by {
        assert((x + seq![c] + y)[x.len() as int] == c);
    }
    assert(x.len() == a.len()) by {
        if x.len() < a.len() {
            assert(s[x.len() as int] == a[x.len() as int]);
        }
        if x.len() > a.len() {
            assert((x + seq![c] + y)[a.len() as int] == x[a.len() as int]);
        }
    }
    assert(x =~= a) by {
        assert forall|i: int| 0 <= i < a.len() implies x[i] == a[i] by {
            assert((x + seq![c] + y)[i] == s[i]);
        }
    }
    assert(y =~= b) by {
        assert forall|i: int| 0 <= i < b.len() implies y[i] == b[i] by {
            assert((x + seq![c] + y)[x.len() + 1 + i] == s[a.len() + 1 + i]);
        }
    }
}

/// The entries of `/proc/meminfo` line by line: none at first; a line without an entry adds nothing,
/// one with a number puts it under its key in place of an earlier one, and one with anything else is
/// an error, which stands however many lines follow.
pub proof fn law_meminfo_is_read_line_by_line(
    before: Seq<Seq<char>>,
    line: Seq<char>,
    m: Map<Seq<char>, u64>,
)
    ensures
        meminfo_entries(Seq::empty()) == Ok::<Map<Seq<char>, u64>, IoErrorView>(Map::empty()),
        meminfo_entries(before) matches Err(e) ==> meminfo_entries(before.push(line)) == Err::<
            Map<Seq<char>, u64>,
            IoErrorView,
        >(e),
        meminfo_entries(before) == Ok::<Map<Seq<char>, u64>, IoErrorView>(m) && line_entry(
            line,
        ) is None ==> meminfo_entries(before.push(line)) == Ok::<Map<Seq<char>, u64>, IoErrorView>(
            m,
        ),
        meminfo_entries(before) == Ok::<Map<Seq<char>, u64>, IoErrorView>(m) && line_entry(
            line,
        ) is Some ==> {
            let (key, value) = line_entry(line)->0;
            match number_value(value, u64::MAX as nat) {
                Ok(n) => n <= u64::MAX && meminfo_entries(before.push(line)) == Ok::<
                    Map<Seq<char>, u64>,
                    IoErrorView,
                >(m.insert(key, n as u64)),
                Err(fault) => meminfo_entries(before.push(line)) == Err::<
                    Map<Seq<char>, u64>,
                    IoErrorView,
                >(
                    IoErrorView {
                        kind: IoErrorKind::InvalidData,
                        message: "invalid meminfo value for "@ + key + ": "@
                            + parse_error_message(fault),
                    },
                ),
            }
        },
{
    assert(before.push(line).drop_last() =~= before);
    if line_entry(line) is Some {
        lemma_number_is_bounded((line_entry(line)->0).1, u64::MAX as nat);
    }
}

/// The entries of `/proc/PID/status` line by line: the same, but what is no number is passed over.
pub proof fn law_status_is_read_line_by_line(before: Seq<Seq<char>>, line: Seq<char>)
    ensures
        status_entries(Seq::empty()) == Map::<Seq<char>, u64>::empty(),
        line_entry(line) is None ==> status_entries(before.push(line)) == status_entries(before),
        line_entry(line) is Some ==> {
            let (key, value) = line_entry(line)->0;
            match number_value(value, u64::MAX as nat) {
                Ok(n) => n <= u64::MAX && status_entries(before.push(line)) == status_entries(
                    before,
                ).insert(key, n as u64),
                Err(_) => status_entries(before.push(line)) == status_entries(before),
            }
        },
{
    assert(before.push(line).drop_last() =~= before);
    if line_entry(line) is Some {
        lemma_number_is_bounded((line_entry(line)->0).1, u64::MAX as nat);
    }
}

/// A field that is no number is reported by what it is and why it is none.
pub proof fn law_numbers_that_cannot_be_read_are_named(
    raw: Seq<char>,
    max: nat,
    what: Seq<char>,
)
    ensures
        match number_value(raw, max) {
            Ok(v) => v <= max && number_or_error(raw, max, what) == Ok::<nat, IoErrorView>(v),
            Err(fault) => number_or_error(raw, max, what) == Err::<nat, IoErrorView>(
                IoErrorView {
                    kind: IoErrorKind::InvalidData,
                    message: "invalid "@ + what + ": "@ + parse_error_message(fault),
                },
            ) && invalid_number(what, fault) == number_or_error(raw, max, what)->Err_0,
        },
{
    lemma_number_is_bounded(raw, max);
}

/// The line that is found begins with the prefix, and no earlier one does.
pub proof fn law_found_line_is_the_first_with_the_prefix(
    all: Seq<Seq<char>>,
    prefix: Seq<char>,
) -> (at: int)
    ensures
        match first_line_with(all, prefix) {
            Some(line) => {
                &&& 0 <= at < all.len()
                &&& line == all[at]
                &&& prefix.is_prefix_of(all[at])
                &&& forall|i: int| 0 <= i < at ==> !prefix.is_prefix_of(#[trigger] all[i])
            },
            None => forall|i: int| 0 <= i < all.len() ==> !prefix.is_prefix_of(#[trigger] all[i]),
        },
    decreases all.len(),
{
    if all.len() == 0 {
        0
    } else {
        assert(all[0].take(prefix.len() as int) =~= all[0].subrange(0, prefix.len() as int));
        if prefix.is_prefix_of(all[0]) {
            0
        } else {
            let rest = all.skip(1);
            let found = law_found_line_is_the_first_with_the_prefix(rest, prefix);
            let at = found + 1;
            if first_line_with(rest, prefix) is Some {
                assert(rest[found] == all[at]);
                assert forall|i: int| 0 <= i < at implies !prefix.is_prefix_of(
                    #[trigger] all[i],
                ) by {
                    if i > 0 {
                        assert(rest[i - 1] == all[i]);
                    }
                }
            } else {
                assert forall|i: int| 0 <= i < all.len() implies !prefix.is_prefix_of(
                    #[trigger] all[i],
                ) by {
                    if i > 0 {
                        assert(rest[i - 1] == all[i]);
                    }
                }
            }
            at
        }
    }
}

/// Tick counts are read word by word: each word is one count, and the first that is no number is the
/// error.
pub proof fn law_ticks_are_read_word_by_word(before: Seq<Seq<char>>, word: Seq<char>)
    ensures
        tick_values(Seq::empty()) == Ok::<Seq<u64>, IoErrorView>(Seq::empty()),
        tick_values(before) matches Err(e) ==> tick_values(before.push(word)) == Err::<
            Seq<u64>,
            IoErrorView,
        >(e),
        tick_values(before) matches Ok(ticks) ==> match number_value(word, u64::MAX as nat) {
            Ok(n) => n <= u64::MAX && tick_values(before.push(word)) == Ok::<Seq<u64>, IoErrorView>(
                ticks.push(n as u64),
            ),
            Err(fault) => tick_values(before.push(word)) == Err::<Seq<u64>, IoErrorView>(
                IoErrorView {
                    kind: IoErrorKind::InvalidData,
                    message: "invalid "@ + "cpu tick value"@ + ": "@ + parse_error_message(fault),
                },
            ),
        },
{
    assert(before.push(word).drop_last() =~= before);
    lemma_number_is_bounded(word, u64::MAX as nat);
}

/// The counts of all processors are the words after the first of the line that begins with "cpu ",
/// at least four of them.
pub proof fn law_cpu_counts_stand_in_the_cpu_line(raw: Seq<char>)
    ensures
        first_line_with(text_lines(raw), "cpu "@) is None ==> cpu_ticks(raw) == Err::<
            Seq<u64>,
            IoErrorView,
        >(IoErrorView { kind: IoErrorKind::InvalidData, message: "missing cpu stat line"@ }),
        first_line_with(text_lines(raw), "cpu "@) matches Some(line) ==> match tick_values(
            words(line).skip(1),
        ) {
            Err(e) => cpu_ticks(raw) == Err::<Seq<u64>, IoErrorView>(e),
            Ok(ticks) => cpu_ticks(raw) == (if ticks.len() < 4 {
                Err::<Seq<u64>, IoErrorView>(
                    IoErrorView {
                        kind: IoErrorKind::InvalidData,
                        message: "cpu stat line has fewer than 4 fields"@,
                    },
                )
            } else {
                Ok(ticks)
            }),
        },
{
}

/// The sum of no counts is zero, and one count more adds to it.
pub proof fn law_total_is_the_sum_of_the_counts(ticks: Seq<u64>, tick: u64)
    ensures
        sum_of(Seq::empty()) == 0,
        sum_of(ticks.push(tick)) == sum_of(ticks) + tick,
{
    assert(ticks.push(tick).drop_last() =~= ticks);
}

/// The processors' time is the sum of all counts; idle of it is the fourth count, with the fifth
/// where there is one, and the rest is busy.
pub proof fn law_idle_time_is_the_fourth_and_fifth_count(ticks: Seq<u64>, logical_cores: usize)
    requires
        ticks.len() >= 4,
        sum_of(ticks) <= u64::MAX,
    ensures
        ({
            let r = cpu_of(ticks, logical_cores);
            &&& r.logical_cores == logical_cores
            &&& r.total_ticks == sum_of(ticks)
            &&& ticks.len() == 4 ==> r.idle_ticks == ticks[3]
            &&& ticks.len() > 4 ==> r.idle_ticks == ticks[3] + ticks[4]
            &&& r.busy_ticks + r.idle_ticks == sum_of(ticks)
        }),
{
    crate::host_metrics::law_busy_and_idle_make_up_the_total(ticks, logical_cores);
    if ticks.len() > 4 {
        lemma_two_counts_are_part_of_the_sum(ticks, 5);
    }
}

proof fn lemma_two_counts_are_part_of_the_sum(ticks: Seq<u64>, n: int)
    requires
        5 <= n <= ticks.len(),
        sum_of(ticks) <= u64::MAX,
    ensures
        ticks[3] + ticks[4] <= sum_of(ticks),
    decreases ticks.len(),
{
    if ticks.len() == 5 {
        assert(ticks.drop_last().last() == ticks[3]);
        assert(sum_of(ticks.drop_last()) >= ticks[3]);
    } else {
        lemma_two_counts_are_part_of_the_sum(ticks.drop_last(), 5);
    }
}

/// A word of a text is the one at its place, counted from zero, or is missing by name.
pub proof fn law_fields_are_counted_from_zero(raw: Seq<char>, index: nat, name: Seq<char>)
    ensures
        index < words(raw).len() ==> field_or_error(raw, index, name) == Ok::<
            Seq<char>,
            IoErrorView,
        >(words(raw)[index as int]),
        index >= words(raw).len() ==> field_or_error(raw, index, name) == Err::<
            Seq<char>,
            IoErrorView,
        >(IoErrorView { kind: IoErrorKind::InvalidData, message: "missing "@ + name }),
{
}

/// A fractional number is missing by name, is wrong for the reason that is given, or is there.
pub proof fn law_fractions_are_there_and_read(
    raw: Seq<char>,
    index: nat,
    name: Seq<char>,
    what: Seq<char>,
    reason: Seq<char>,
    read: Result<(), Seq<char>>,
)
    ensures
        index >= words(raw).len() ==> fraction_or_error(raw, index, name, what, read) == Err::<
            (),
            IoErrorView,
        >(IoErrorView { kind: IoErrorKind::InvalidData, message: "missing "@ + name }),
        index < words(raw).len() ==> fraction_or_error(raw, index, name, what, Ok(())) == Ok::<
            (),
            IoErrorView,
        >(()),
        index < words(raw).len() ==> fraction_or_error(raw, index, name, what, Err(reason))
            == Err::<(), IoErrorView>(
            IoErrorView {
                kind: IoErrorKind::InvalidData,
                message: "invalid "@ + what + ": "@ + reason,
            },
        ),
{
}

/// The fourth word of `/proc/loadavg` tells the processes: how many run, a slash, how many there are.
pub proof fn law_processes_are_the_fourth_field(
    raw: Seq<char>,
    running: Seq<char>,
    total: Seq<char>,
)
    requires
        words(raw).len() > 3,
        words(raw)[3] == running + seq!['/'] + total,
        forall|i: int| 0 <= i < running.len() ==> #[trigger] running[i] != '/',
    ensures
        match number_value(running, u64::MAX as nat) {
            Err(fault) => process_counts(raw) == Err::<ProcessMetrics, IoErrorView>(
                IoErrorView {
                    kind: IoErrorKind::InvalidData,
                    message: "invalid "@ + "running process count"@ + ": "@ + parse_error_message(
                        fault,
                    ),
                },
            ),
            Ok(r) => match number_value(total, u64::MAX as nat) {
                Err(fault) => process_counts(raw) == Err::<ProcessMetrics, IoErrorView>(
                    IoErrorView {
                        kind: IoErrorKind::InvalidData,
                        message: "invalid "@ + "total process count"@ + ": "@ + parse_error_message(
                            fault,
                        ),
                    },
                ),
                Ok(t) => process_counts(raw) is Ok && process_counts(raw)->Ok_0.running == r
                    && process_counts(raw)->Ok_0.total == t,
            },
        },
{
    lemma_split_at(running, '/', total);
    lemma_number_is_bounded(running, u64::MAX as nat);
    lemma_number_is_bounded(total, u64::MAX as nat);
}

/// Without a fourth word, or without a slash in it, the processes are not told.
pub proof fn law_processes_need_a_field_with_a_slash(raw: Seq<char>)
    ensures
        words(raw).len() <= 3 ==> process_counts(raw) == Err::<ProcessMetrics, IoErrorView>(
            IoErrorView {
                kind: IoErrorKind::InvalidData,
                message: "missing "@ + "loadavg proc field"@,
            },
        ),
        words(raw).len() > 3 && !words(raw)[3].contains('/') ==> process_counts(raw) == Err::<
            ProcessMetrics,
            IoErrorView,
        >(
            IoErrorView {
                kind: IoErrorKind::InvalidData,
                message: "invalid loadavg process field format"@,
            },
        ),
{
    if words(raw).len() > 3 && !words(raw)[3].contains('/') {
        let field = words(raw)[3];
        crate::text_laws::law_splitting_finds_the_first(field, '/');
        if split_at_first(field, '/') is Some {
            let (a, b) = split_at_first(field, '/')->0;
            assert(field[a.len() as int] == '/');
        }
    }
}

/// What is said of processes comes after the three load averages, the first thing that is wrong is
/// what is reported, and nothing else of the averages matters.
pub proof fn law_load_averages_come_first(
    raw: Seq<char>,
    one: Seq<char>,
    five: Result<(), Seq<char>>,
    fifteen: Result<(), Seq<char>>,
    reason: Seq<char>,
)
    requires
        words(raw).len() >= 3,
    ensures
        loadavg_report(raw, Ok(()), Ok(()), Ok(())) == process_counts(raw),
        loadavg_report(raw, Err(one), five, fifteen) == Err::<ProcessMetrics, IoErrorView>(
            IoErrorView {
                kind: IoErrorKind::InvalidData,
                message: "invalid "@ + "loadavg.one"@ + ": "@ + one,
            },
        ),
        loadavg_report(raw, Ok(()), Err(reason), fifteen) == Err::<ProcessMetrics, IoErrorView>(
            IoErrorView {
                kind: IoErrorKind::InvalidData,
                message: "invalid "@ + "loadavg.five"@ + ": "@ + reason,
            },
        ),
        loadavg_report(raw, Ok(()), Ok(()), Err(reason)) == Err::<ProcessMetrics, IoErrorView>(
            IoErrorView {
                kind: IoErrorKind::InvalidData,
                message: "invalid "@ + "loadavg.fifteen"@ + ": "@ + reason,
            },
        ),
{
}

/// A load average that is missing is named, unless an earlier one is wrong.
pub proof fn law_missing_load_averages_are_named(
    raw: Seq<char>,
    one: Result<(), Seq<char>>,
    five: Result<(), Seq<char>>,
    fifteen: Result<(), Seq<char>>,
)
    ensures
        words(raw).len() == 0 ==> loadavg_report(raw, one, five, fifteen) == Err::<
            ProcessMetrics,
            IoErrorView,
        >(
            IoErrorView {
                kind: IoErrorKind::InvalidData,
                message: "missing "@ + "loadavg.one"@,
            },
        ),
        words(raw).len() == 1 && one is Ok ==> loadavg_report(raw, one, five, fifteen) == Err::<
            ProcessMetrics,
            IoErrorView,
        >(
            IoErrorView {
                kind: IoErrorKind::InvalidData,
                message: "missing "@ + "loadavg.five"@,
            },
        ),
        words(raw).len() == 2 && one is Ok && five is Ok ==> loadavg_report(
            raw,
            one,
            five,
            fifteen,
        ) == Err::<ProcessMetrics, IoErrorView>(
            IoErrorView {
                kind: IoErrorKind::InvalidData,
                message: "missing "@ + "loadavg.fifteen"@,
            },
        ),
        words(raw).len() == 1 || words(raw).len() == 2 ==> (one matches Err(reason)
            ==> loadavg_report(raw, one, five, fifteen) == Err::<ProcessMetrics, IoErrorView>(
            IoErrorView {
                kind: IoErrorKind::InvalidData,
                message: "invalid "@ + "loadavg.one"@ + ": "@ + reason,
            },
        )),
        words(raw).len() == 2 && one is Ok ==> (five matches Err(reason) ==> loadavg_report(
            raw,
            one,
            five,
            fifteen,
        ) == Err::<ProcessMetrics, IoErrorView>(
            IoErrorView {
                kind: IoErrorKind::InvalidData,
                message: "invalid "@ + "loadavg.five"@ + ": "@ + reason,
            },
        )),
{
}

/// What `/proc/PID/stat` says, by the words after the last closing parenthesis: the first holds the
/// state, the twelfth and thirteenth the times, the eighteenth the number of threads.
pub proof fn law_process_is_read_by_its_fields(
    raw: Seq<char>,
    fields: Seq<Seq<char>>,
    utime: nat,
    stime: nat,
    threads: nat,
)
    requires
        after_last(raw, ')') is Some,
        fields == words(after_last(raw, ')')->0),
        fields.len() >= 18,
        number_value(fields[11], u64::MAX as nat) == Ok::<nat, ParseNumberError>(
            utime,
        ),
        number_value(fields[12], u64::MAX as nat) == Ok::<nat, ParseNumberError>(
            stime,
        ),
        number_value(fields[17], u32::MAX as nat) == Ok::<nat, ParseNumberError>(
            threads,
        ),
    ensures
        proc_stat(raw) is Ok,
        ({
            let r = proc_stat(raw)->Ok_0;
            &&& r.state == fields[0][0]
            &&& r.utime == utime
            &&& r.stime == stime
            &&& r.num_threads == threads
        }),
{
    lemma_number_is_bounded(fields[11], u64::MAX as nat);
    lemma_number_is_bounded(fields[12], u64::MAX as nat);
    lemma_number_is_bounded(fields[17], u32::MAX as nat);
}

/// What is wrong with `/proc/PID/stat` is reported: no parenthesis, too few words after it, or the
/// first of the three numbers that is none.
pub proof fn law_faults_of_a_process_are_named(raw: Seq<char>, fields: Seq<Seq<char>>)
    ensures
        after_last(raw, ')') is None ==> proc_stat(raw) == Err::<ProcStat, IoErrorView>(
            IoErrorView {
                kind: IoErrorKind::InvalidData,
                message: "invalid /proc stat format: missing ')'"@,
            },
        ),
        after_last(raw, ')') is Some && fields == words(after_last(raw, ')')->0) ==> {
            let utime = number_value(fields[11], u64::MAX as nat);
            let stime = number_value(fields[12], u64::MAX as nat);
            let threads = number_value(fields[17], u32::MAX as nat);
            &&& fields.len() < 18 ==> proc_stat(raw) == Err::<ProcStat, IoErrorView>(
                IoErrorView {
                    kind: IoErrorKind::InvalidData,
                    message: "invalid /proc stat format: too few fields"@,
                },
            )
            &&& fields.len() >= 18 && utime is Err ==> proc_stat(raw) == Err::<
                ProcStat,
                IoErrorView,
            >(
                IoErrorView {
                    kind: IoErrorKind::InvalidData,
                    message: "invalid "@ + "utime"@ + ": "@ + parse_error_message(utime->Err_0),
                },
            )
            &&& fields.len() >= 18 && utime is Ok && stime is Err ==> proc_stat(raw) == Err::<
                ProcStat,
                IoErrorView,
            >(
                IoErrorView {
                    kind: IoErrorKind::InvalidData,
                    message: "invalid "@ + "stime"@ + ": "@ + parse_error_message(stime->Err_0),
                },
            )
            &&& fields.len() >= 18 && utime is Ok && stime is Ok && threads is Err ==> proc_stat(
                raw,
            ) == Err::<ProcStat, IoErrorView>(
                IoErrorView {
                    kind: IoErrorKind::InvalidData,
                    message: "invalid "@ + "num_threads"@ + ": "@ + parse_error_message(
                        threads->Err_0,
                    ),
                },
            )
        },
{
}

} // verus!
