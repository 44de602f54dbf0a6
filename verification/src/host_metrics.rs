//! What the kernel reports of the machine that the daemon runs on.
use vstd::prelude::*;
use vstd::hash_map::StringHashMap;

use crate::io_error::{attempt, invalid_data, io_outcome, malformed, IoError, IoErrorView};
use crate::numbers::{number_value, parse_error_message, parse_number};
use crate::proc_text::{
    bytes_of_kib, line_entry, number_or_error, read_entry, read_number, saturated_bytes,
};
use crate::text::{
    begins_with, lemma_words_are_not_empty, lines, split_at_first, split_once, split_whitespace, starts_with, text_lines,
    texts, words,
};
use crate::vm_metrics::{entry_or_zero, lookup_or_zero, saturated_sum};

verus! {

/// How much the processors have worked since the machine started.
#[derive(Debug, Clone, Copy, PartialEq, Eq, Structural)]
pub struct CpuMetrics {
    pub logical_cores: usize,
    pub total_ticks: u64,
    pub idle_ticks: u64,
    pub busy_ticks: u64,
}

/// How the memory is used.
#[derive(Debug, Clone, Copy, PartialEq, Eq, Structural)]
pub struct MemoryMetrics {
    pub total_bytes: u64,
    pub available_bytes: u64,
    pub used_bytes: u64,
    pub free_bytes: u64,
    pub buffers_bytes: u64,
    pub cached_bytes: u64,
    pub swap_total_bytes: u64,
    pub swap_free_bytes: u64,
    pub swap_used_bytes: u64,
}

/// How many processes there are.
#[derive(Debug, Clone, Copy, PartialEq, Eq, Structural)]
pub struct ProcessMetrics {
    pub running: u64,
    pub total: u64,
}

/// The numbers in the lines of `/proc/meminfo`, by key; an error where a value is not a number.
pub open spec fn meminfo_entries(all: Seq<Seq<char>>) -> Result<Map<Seq<char>, u64>, IoErrorView>
    decreases all.len(),
{
    if all.len() == 0 {
        Ok(Map::empty())
    } else {
        match meminfo_entries(all.drop_last()) {
            Err(e) => Err(e),
            Ok(before) => match line_entry(all.last()) {
                None => Ok(before),
                Some((key, value)) => match number_value(value, u64::MAX as nat) {
                    Ok(n) => Ok(before.insert(key, n as u64)),
                    Err(e) => Err(
                        malformed(
                            "invalid meminfo value for "@ + key + ": "@ + parse_error_message(e),
                        ),
                    ),
                },
            },
        }
    }
}

proof fn lemma_meminfo_prefix_error(all: Seq<Seq<char>>, n: int)
    requires
        0 <= n <= all.len(),
        meminfo_entries(all.take(n)) is Err,
    ensures
        meminfo_entries(all) == meminfo_entries(all.take(n)),
    decreases all.len(),
{
    if n == all.len() {
        assert(all.take(n) =~= all);
    } else {
        assert(all.drop_last().take(n) =~= all.take(n));
        lemma_meminfo_prefix_error(all.drop_last(), n);
    }
}

/// Reads `/proc/meminfo`.
pub fn parse_meminfo_kib(raw: &str) -> (r: Result<StringHashMap<u64>, IoError>)
    ensures
        match r {
            Ok(m) => meminfo_entries(text_lines(raw@)) == Ok::<Map<Seq<char>, u64>, IoErrorView>(
                m@,
            ),
            Err(e) => meminfo_entries(text_lines(raw@)) == Err::<Map<Seq<char>, u64>, IoErrorView>(
                e@,
            ),
        },
{
    let all = lines(raw);
    let ghost seen = texts(all@);
    let mut values: StringHashMap<u64> = StringHashMap::new();
    let mut i: usize = 0;
    while i < all.len()
        invariant
            i <= all@.len(),
            seen == texts(all@),
            seen == text_lines(raw@),
            meminfo_entries(seen.take(i as int)) == Ok::<Map<Seq<char>, u64>, IoErrorView>(values@),
        decreases all@.len() - i,
    {
        proof {
            assert(seen.take(i + 1).drop_last() =~= seen.take(i as int));
            assert(seen.take(i + 1).last() == all@[i as int]@);
        }
        if let Some((key, value)) = read_entry(all[i].as_str()) {
            match parse_number(value.as_str(), u64::MAX) {
                Ok(n) => {
                    values.insert(key, n);
                },
                Err(error) => {
                    let mut message = "invalid meminfo value for ".to_owned();
                    message.append(key.as_str());
                    message.append(": ");
                    message.append(error.to_text().as_str());
                    proof {
                        lemma_meminfo_prefix_error(seen, i + 1);
                    }
                    return Err(invalid_data(message));
                },
            }
        }
        i += 1;
    }
    proof {
        assert(seen.take(all@.len() as int) =~= seen);
    }
    Ok(values)
}

/// The number under a key that has to be there.
pub open spec fn required_entry(m: Map<Seq<char>, u64>, key: Seq<char>) -> Result<u64, IoErrorView> {
    if m.contains_key(key) {
        Ok(m[key])
    } else {
        Err(malformed("missing meminfo key: "@ + key))
    }
}

/// Looks up a number that has to be there.
pub fn required_meminfo_kib(meminfo: &StringHashMap<u64>, key: &str) -> (r: Result<u64, IoError>)
    ensures
        io_outcome(r) == required_entry(meminfo@, key@),
{
    match meminfo.get(key) {
        Some(v) => Ok(*v),
        None => {
            let mut message = "missing meminfo key: ".to_owned();
            message.append(key);
            Err(invalid_data(message))
        },
    }
}

/// Turns kibibytes into bytes.
pub fn kib_to_bytes(value: u64) -> (r: u64)
    ensures
        r == saturated_bytes(value),
{
    bytes_of_kib(value)
}

/// What is left of `a` after `b` is taken away, at least nothing.
pub open spec fn remainder(a: u64, b: u64) -> u64 {
    if a >= b {
        (a - b) as u64
    } else {
        0
    }
}

/// How the memory is used, going by the numbers of `/proc/meminfo`.
pub open spec fn memory_of(m: Map<Seq<char>, u64>) -> Result<MemoryMetrics, IoErrorView> {
    match required_entry(m, "MemTotal"@) {
        Err(e) => Err(e),
        Ok(total) => match required_entry(m, "MemAvailable"@) {
            Err(e) => Err(e),
            Ok(available) => match required_entry(m, "MemFree"@) {
                Err(e) => Err(e),
                Ok(free) => {
                    let swap_total = entry_or_zero(m, "SwapTotal"@);
                    let swap_free = entry_or_zero(m, "SwapFree"@);
                    Ok(
                        MemoryMetrics {
                            total_bytes: saturated_bytes(total),
                            available_bytes: saturated_bytes(available),
                            used_bytes: saturated_bytes(remainder(total, available)),
                            free_bytes: saturated_bytes(free),
                            buffers_bytes: saturated_bytes(entry_or_zero(m, "Buffers"@)),
                            cached_bytes: saturated_bytes(entry_or_zero(m, "Cached"@)),
                            swap_total_bytes: saturated_bytes(swap_total),
                            swap_free_bytes: saturated_bytes(swap_free),
                            swap_used_bytes: saturated_bytes(remainder(swap_total, swap_free)),
                        },
                    )
                },
            },
        },
    }
}

/// How the memory is used, going by the text of `/proc/meminfo`.
pub open spec fn memory_report(raw: Seq<char>) -> Result<MemoryMetrics, IoErrorView> {
    match meminfo_entries(text_lines(raw)) {
        Ok(m) => memory_of(m),
        Err(e) => Err(e),
    }
}

/// Reads how the memory is used.
pub fn read_memory_metrics(raw: &str) -> (r: Result<MemoryMetrics, IoError>)
    ensures
        io_outcome(r) == memory_report(raw@),
{
    let meminfo = match parse_meminfo_kib(raw) {
        Ok(m) => m,
        Err(e) => {
            return Err(e);
        },
    };
    let total_kib: u64 = match required_meminfo_kib(&meminfo, "MemTotal") {
        Ok(v) => v,
        Err(e) => {
            return Err(e);
        },
    };
    let available_kib: u64 = match required_meminfo_kib(&meminfo, "MemAvailable") {
        Ok(v) => v,
        Err(e) => {
            return Err(e);
        },
    };
    let free_kib: u64 = match required_meminfo_kib(&meminfo, "MemFree") {
        Ok(v) => v,
        Err(e) => {
            return Err(e);
        },
    };
    let buffers_kib: u64 = lookup_or_zero(&meminfo, "Buffers");
    let cached_kib: u64 = lookup_or_zero(&meminfo, "Cached");
    let swap_total_kib: u64 = lookup_or_zero(&meminfo, "SwapTotal");
    let swap_free_kib: u64 = lookup_or_zero(&meminfo, "SwapFree");
    let used_kib: u64 = total_kib.saturating_sub(available_kib);
    let swap_used_kib: u64 = swap_total_kib.saturating_sub(swap_free_kib);
    Ok(
        MemoryMetrics {
            total_bytes: kib_to_bytes(total_kib),
            available_bytes: kib_to_bytes(available_kib),
            used_bytes: kib_to_bytes(used_kib),
            free_bytes: kib_to_bytes(free_kib),
            buffers_bytes: kib_to_bytes(buffers_kib),
            cached_bytes: kib_to_bytes(cached_kib),
            swap_total_bytes: kib_to_bytes(swap_total_kib),
            swap_free_bytes: kib_to_bytes(swap_free_kib),
            swap_used_bytes: kib_to_bytes(swap_used_kib),
        },
    )
}

/// No report shows more memory or swap in use than there is.
pub proof fn law_used_is_at_most_total(raw: Seq<char>)
    ensures
        memory_report(raw) matches Ok(m) ==> m.used_bytes <= m.total_bytes && m.swap_used_bytes
            <= m.swap_total_bytes,
{
}

/// The first line that begins with `prefix`.
pub open spec fn first_line_with(all: Seq<Seq<char>>, prefix: Seq<char>) -> Option<Seq<char>>
    decreases all.len(),
{
    if all.len() == 0 {
        None
    } else if begins_with(all[0], prefix) {
        Some(all[0])
    } else {
        first_line_with(all.skip(1), prefix)
    }
}

fn find_line(all: &Vec<String>, prefix: &str) -> (r: Option<usize>)
    ensures
        match r {
            Some(i) => i < all@.len() && first_line_with(texts(all@), prefix@) == Some(
                all@[i as int]@,
            ),
            None => first_line_with(texts(all@), prefix@) is None,
        },
{
    let ghost seen = texts(all@);
    let mut i: usize = 0;
    proof {
        assert(seen.skip(0) =~= seen);
    }
    while i < all.len()
        invariant
            i <= all@.len(),
            seen == texts(all@),
            first_line_with(seen, prefix@) == first_line_with(seen.skip(i as int), prefix@),
        decreases all@.len() - i,
    {
        proof {
            assert(seen.skip(i as int)[0] == all@[i as int]@);
            assert(seen.skip(i as int).skip(1) =~= seen.skip(i + 1));
        }
        if starts_with(all[i].as_str(), prefix) {
            return Some(i);
        }
        i += 1;
    }
    None
}

/// The tick counts that a list of words stands for.
pub open spec fn tick_values(fields: Seq<Seq<char>>) -> Result<Seq<u64>, IoErrorView>
    decreases fields.len(),
{
    if fields.len() == 0 {
        Ok(Seq::empty())
    } else {
        match tick_values(fields.drop_last()) {
            Err(e) => Err(e),
            Ok(before) => match number_or_error(fields.last(), u64::MAX as nat, "cpu tick value"@) {
                Ok(n) => Ok(before.push(n as u64)),
                Err(e) => Err(e),
            },
        }
    }
}

proof fn lemma_ticks_prefix_error(fields: Seq<Seq<char>>, n: int)
    requires
        0 <= n <= fields.len(),
        tick_values(fields.take(n)) is Err,
    ensures
        tick_values(fields) == tick_values(fields.take(n)),
    decreases fields.len(),
{
    if n == fields.len() {
        assert(fields.take(n) =~= fields);
    } else {
        assert(fields.drop_last().take(n) =~= fields.take(n));
        lemma_ticks_prefix_error(fields.drop_last(), n);
    }
}

/// The tick counts of all processors together, going by the text of `/proc/stat`.
pub open spec fn cpu_ticks(raw: Seq<char>) -> Result<Seq<u64>, IoErrorView> {
    match first_line_with(text_lines(raw), "cpu "@) {
        None => Err(malformed("missing cpu stat line"@)),
        Some(line) => match tick_values(words(line).skip(1)) {
            Err(e) => Err(e),
            Ok(ticks) => if ticks.len() < 4 {
                Err(malformed("cpu stat line has fewer than 4 fields"@))
            } else {
                Ok(ticks)
            },
        },
    }
}

/// Reads the tick counts of all processors together.
pub fn parse_cpu_ticks(raw: &str) -> (r: Result<Vec<u64>, IoError>)
    ensures
        match r {
            Ok(ticks) => cpu_ticks(raw@) == Ok::<Seq<u64>, IoErrorView>(ticks@),
            Err(e) => cpu_ticks(raw@) == Err::<Seq<u64>, IoErrorView>(e@),
        },
        r matches Ok(ticks) ==> ticks@.len() >= 4,
{
    let all = lines(raw);
    let at: usize = match find_line(&all, "cpu ") {
        Some(i) => i,
        None => {
            return Err(invalid_data("missing cpu stat line".to_owned()));
        },
    };
    let fields = split_whitespace(all[at].as_str());
    let ghost wanted = words(all@[at as int]@).skip(1);
    let mut ticks: Vec<u64> = Vec::new();
    proof {
        assert(texts(fields@).len() == fields@.len());
        assert(wanted.take(0) =~= Seq::empty());
    }
    let mut i: usize = 1;
    while i < fields.len()
        invariant
            1 <= i,
            fields@.len() == 0 || i <= fields@.len(),
            at < all@.len(),
            texts(fields@) == words(all@[at as int]@),
            wanted == words(all@[at as int]@).skip(1),
            fields@.len() > 0 ==> wanted.len() == fields@.len() - 1,
            first_line_with(text_lines(raw@), "cpu "@) == Some(all@[at as int]@),
            tick_values(wanted.take(i - 1)) == Ok::<Seq<u64>, IoErrorView>(ticks@),
        decreases fields@.len() - i,
    {
        proof {
            assert(wanted.take(i as int).drop_last() =~= wanted.take(i - 1));
            assert(wanted.take(i as int).last() == texts(fields@)[i as int]);
            assert(texts(fields@)[i as int] == fields@[i as int]@);
        }
        match read_number(fields[i].as_str(), u64::MAX, "cpu tick value") {
            Ok(n) => {
                ticks.push(n);
            },
            Err(e) => {
                proof {
                    lemma_ticks_prefix_error(wanted, i as int);
                }
                return Err(e);
            },
        }
        i += 1;
    }
    proof {
        if fields@.len() > 0 {
            assert(wanted.take(i - 1) =~= wanted);
        } else {
            lemma_line_with_prefix(text_lines(raw@), "cpu "@);
            lemma_cpu_line_has_words(all@[at as int]@);
        }
    }
    if ticks.len() < 4 {
        return Err(invalid_data("cpu stat line has fewer than 4 fields".to_owned()));
    }
    Ok(ticks)
}

proof fn lemma_line_with_prefix(all: Seq<Seq<char>>, prefix: Seq<char>)
    ensures
        first_line_with(all, prefix) matches Some(line) ==> begins_with(line, prefix),
    decreases all.len(),
{
    if all.len() > 0 {
        lemma_line_with_prefix(all.skip(1), prefix);
    }
}

proof fn lemma_words_of_more(s: Seq<char>, n: int)
    requires
        0 <= n <= s.len(),
    ensures
        words(s.take(n)).len() <= words(s).len(),
    decreases s.len(),
{
    lemma_words_are_not_empty(s);
    if n == s.len() {
        assert(s.take(n) =~= s);
    } else {
        assert(s.drop_last().take(n) =~= s.take(n));
        lemma_words_of_more(s.drop_last(), n);
        lemma_words_are_not_empty(s.drop_last());
    }
}

proof fn lemma_cpu_line_has_words(line: Seq<char>)
    requires
        begins_with(line, "cpu "@),
    ensures
        words(line).len() > 0,
{
    reveal_strlit("cpu ");
    assert(line.take(3).last() == line.take(4)[2]);
    assert("cpu "@[2] == 'u');
    lemma_words_are_not_empty(line.take(3));
    lemma_words_of_more(line, 3);
}

/// The sum of counters.
pub open spec fn sum_of(ticks: Seq<u64>) -> nat
    decreases ticks.len(),
{
    if ticks.len() == 0 {
        0
    } else {
        sum_of(ticks.drop_last()) + ticks.last() as nat
    }
}

proof fn lemma_sum_grows(ticks: Seq<u64>, n: int)
    requires
        0 <= n <= ticks.len(),
    ensures
        sum_of(ticks.take(n)) <= sum_of(ticks),
    decreases ticks.len(),
{
    if n == ticks.len() {
        assert(ticks.take(n) =~= ticks);
    } else {
        assert(ticks.drop_last().take(n) =~= ticks.take(n));
        lemma_sum_grows(ticks.drop_last(), n);
    }
}

/// The sum of counters, if it fits in 64 bits.
pub fn total_ticks(ticks: &Vec<u64>) -> (r: Option<u64>)
    ensures
        match r {
            Some(total) => sum_of(ticks@) == total,
            None => sum_of(ticks@) > u64::MAX,
        },
{
    let mut total: u64 = 0;
    let mut i: usize = 0;
    while i < ticks.len()
        invariant
            i <= ticks@.len(),
            total == sum_of(ticks@.take(i as int)),
        decreases ticks@.len() - i,
    {
        proof {
            assert(ticks@.take(i + 1).drop_last() =~= ticks@.take(i as int));
            lemma_sum_grows(ticks@, i + 1);
        }
        match total.checked_add(ticks[i]) {
            Some(t) => {
                total = t;
            },
            None => {
                return None;
            },
        }
        i += 1;
    }
    proof {
        assert(ticks@.take(ticks@.len() as int) =~= ticks@);
    }
    Some(total)
}

/// How much the processors have worked, going by the counts of `/proc/stat`: the fourth count is
/// idle time, and so is the fifth, where there is one.
pub open spec fn cpu_of(ticks: Seq<u64>, logical_cores: usize) -> CpuMetrics {
    let idle = saturated_sum(
        ticks[3],
        if ticks.len() > 4 {
            ticks[4]
        } else {
            0
        },
    );
    CpuMetrics {
        logical_cores,
        total_ticks: sum_of(ticks) as u64,
        idle_ticks: idle,
        busy_ticks: remainder(sum_of(ticks) as u64, idle),
    }
}

/// Reads how much the processors have worked. The counts must not add up to more than 64 bits hold.
pub fn read_cpu_metrics(raw: &str, logical_cores: usize) -> (r: Result<CpuMetrics, IoError>)
    requires
        cpu_ticks(raw@) matches Ok(ticks) ==> sum_of(ticks) <= u64::MAX,
    ensures
        io_outcome(r) == (match cpu_ticks(raw@) {
            Ok(ticks) => Ok::<CpuMetrics, IoErrorView>(cpu_of(ticks, logical_cores)),
            Err(e) => Err(e),
        }),
{
    let ticks = match parse_cpu_ticks(raw) {
        Ok(t) => t,
        Err(e) => {
            return Err(e);
        },
    };
    let idle: u64 = ticks[3];
    let iowait: u64 = if ticks.len() > 4 {
        ticks[4]
    } else {
        0
    };
    let total: u64 = match total_ticks(&ticks) {
        Some(t) => t,
        None => 0,
    };
    let idle_ticks: u64 = idle.saturating_add(iowait);
    let busy_ticks: u64 = total.saturating_sub(idle_ticks);
    Ok(CpuMetrics { logical_cores, total_ticks: total, idle_ticks, busy_ticks })
}

/// Busy and idle time make up all the time there is.
pub proof fn law_busy_and_idle_make_up_the_total(ticks: Seq<u64>, logical_cores: usize)
    requires
        ticks.len() >= 4,
        sum_of(ticks) <= u64::MAX,
    ensures
        ({
            let m = cpu_of(ticks, logical_cores);
            m.busy_ticks + m.idle_ticks == m.total_ticks
        }),
{
    let n: int = if ticks.len() > 4 {
        5
    } else {
        4
    };
    lemma_sum_grows(ticks, n);
    assert(ticks.take(n).drop_last() =~= ticks.take(n - 1));
    assert(ticks.take(n).last() == ticks[n - 1]);
    assert(sum_of(ticks.take(n)) == sum_of(ticks.take(n - 1)) + ticks[n - 1]);
    if n == 5 {
        assert(ticks.take(4).drop_last() =~= ticks.take(3));
        assert(ticks.take(4).last() == ticks[3]);
        assert(sum_of(ticks.take(4)) == sum_of(ticks.take(3)) + ticks[3]);
    }
}

/// A word of a text, or the error that names it.
pub open spec fn field_or_error(raw: Seq<char>, index: nat, name: Seq<char>) -> Result<
    Seq<char>,
    IoErrorView,
> {
    if index < words(raw).len() {
        Ok(words(raw)[index as int])
    } else {
        Err(malformed("missing "@ + name))
    }
}

/// Picks a word of a text, counting from zero.
pub fn nth_field(raw: &str, index: usize) -> (r: Option<String>)
    ensures
        match r {
            Some(word) => index < words(raw@).len() && word@ == words(raw@)[index as int],
            None => index >= words(raw@).len(),
        },
{
    let fields = split_whitespace(raw);
    proof {
        assert(texts(fields@).len() == fields@.len());
    }
    if index < fields.len() {
        proof {
            assert(texts(fields@)[index as int] == fields@[index as int]@);
        }
        Some(fields[index].clone())
    } else {
        None
    }
}

/// Picks a word of a text that has to be there.
pub fn required_field(raw: &str, index: usize, name: &str) -> (r: Result<String, IoError>)
    ensures
        match r {
            Ok(word) => field_or_error(raw@, index as nat, name@) == Ok::<Seq<char>, IoErrorView>(
                word@,
            ),
            Err(e) => field_or_error(raw@, index as nat, name@) == Err::<Seq<char>, IoErrorView>(
                e@,
            ),
        },
{
    match nth_field(raw, index) {
        Some(word) => Ok(word),
        None => {
            let mut message = "missing ".to_owned();
            message.append(name);
            Err(invalid_data(message))
        },
    }
}

/// Whether a word that has to be there reads as a fractional number; `read` is what came of reading
/// it, and says nothing where the word is not there.
pub open spec fn fraction_or_error(
    raw: Seq<char>,
    index: nat,
    name: Seq<char>,
    what: Seq<char>,
    read: Result<(), Seq<char>>,
) -> Result<(), IoErrorView> {
    match field_or_error(raw, index, name) {
        Err(e) => Err(e),
        Ok(_) => match read {
            Ok(_) => Ok(()),
            Err(reason) => Err(malformed("invalid "@ + what + ": "@ + reason)),
        },
    }
}

fn check_fraction(raw: &str, index: usize, name: &str, what: &str, read: Result<(), String>) -> (r:
    Result<(), IoError>)
    ensures
        io_outcome(r) == fraction_or_error(raw@, index as nat, name@, what@, attempt(read)),
{
    match required_field(raw, index, name) {
        Err(e) => Err(e),
        Ok(_) => match read {
            Ok(_) => Ok(()),
            Err(reason) => {
                let mut message = "invalid ".to_owned();
                message.append(what);
                message.append(": ");
                message.append(reason.as_str());
                Err(invalid_data(message))
            },
        },
    }
}

/// Checks the first word of `/proc/uptime`, given what came of reading it as a fractional number.
pub fn read_uptime_seconds(raw: &str, read: Result<(), String>) -> (r: Result<(), IoError>)
    ensures
        io_outcome(r) == fraction_or_error(raw@, 0, "uptime"@, "uptime value"@, attempt(read)),
{
    check_fraction(raw, 0, "uptime", "uptime value", read)
}

/// How many processes there are, going by the text of `/proc/loadavg`: the fourth word holds the
/// running ones and all of them, with a slash between.
pub open spec fn process_counts(raw: Seq<char>) -> Result<ProcessMetrics, IoErrorView> {
    match field_or_error(raw, 3, "loadavg proc field"@) {
        Err(e) => Err(e),
        Ok(field) => match split_at_first(field, '/') {
            None => Err(malformed("invalid loadavg process field format"@)),
            Some((running, total)) => match number_or_error(
                running,
                u64::MAX as nat,
                "running process count"@,
            ) {
                Err(e) => Err(e),
                Ok(r) => match number_or_error(total, u64::MAX as nat, "total process count"@) {
                    Err(e) => Err(e),
                    Ok(t) => Ok(ProcessMetrics { running: r as u64, total: t as u64 }),
                },
            },
        },
    }
}

/// Reads how many processes there are.
pub fn read_process_metrics(raw: &str) -> (r: Result<ProcessMetrics, IoError>)
    ensures
        io_outcome(r) == process_counts(raw@),
{
    let field = match required_field(raw, 3, "loadavg proc field") {
        Ok(f) => f,
        Err(e) => {
            return Err(e);
        },
    };
    match split_once(field.as_str(), '/') {
        None => Err(invalid_data("invalid loadavg process field format".to_owned())),
        Some((running_text, total_text)) => {
            let running: u64 = match read_number(
                running_text.as_str(),
                u64::MAX,
                "running process count",
            ) {
                Ok(v) => v,
                Err(e) => {
                    return Err(e);
                },
            };
            let total: u64 = match read_number(
                total_text.as_str(),
                u64::MAX,
                "total process count",
            ) {
                Ok(v) => v,
                Err(e) => {
                    return Err(e);
                },
            };
            Ok(ProcessMetrics { running, total })
        },
    }
}

/// What `/proc/loadavg` says of processes, once its first three words are known to be there and to
/// read as fractional numbers. The first thing that is wrong is reported.
pub open spec fn loadavg_report(
    raw: Seq<char>,
    one: Result<(), Seq<char>>,
    five: Result<(), Seq<char>>,
    fifteen: Result<(), Seq<char>>,
) -> Result<ProcessMetrics, IoErrorView> {
    match fraction_or_error(raw, 0, "loadavg.one"@, "loadavg.one"@, one) {
        Err(e) => Err(e),
        Ok(_) => match fraction_or_error(raw, 1, "loadavg.five"@, "loadavg.five"@, five) {
            Err(e) => Err(e),
            Ok(_) => match fraction_or_error(
                raw,
                2,
                "loadavg.fifteen"@,
                "loadavg.fifteen"@,
                fifteen,
            ) {
                Err(e) => Err(e),
                Ok(_) => process_counts(raw),
            },
        },
    }
}

/// Checks the load averages of `/proc/loadavg`, given what came of reading them as fractional
/// numbers, and reads how many processes there are.
pub fn read_loadavg_and_processes(
    raw: &str,
    one: Result<(), String>,
    five: Result<(), String>,
    fifteen: Result<(), String>,
) -> (r: Result<ProcessMetrics, IoError>)
    ensures
        io_outcome(r) == loadavg_report(raw@, attempt(one), attempt(five), attempt(fifteen)),
{
    if let Err(e) = check_fraction(raw, 0, "loadavg.one", "loadavg.one", one) {
        return Err(e);
    }
    if let Err(e) = check_fraction(raw, 1, "loadavg.five", "loadavg.five", five) {
        return Err(e);
    }
    if let Err(e) = check_fraction(raw, 2, "loadavg.fifteen", "loadavg.fifteen", fifteen) {
        return Err(e);
    }
    read_process_metrics(raw)
}

} // verus!
