//! What the kernel reports of the process of a machine.
use vstd::prelude::*;
use vstd::hash_map::StringHashMap;

use crate::io_error::{invalid_data, io_outcome, malformed, IoError, IoErrorView};
use crate::numbers::{number_value, parse_number};
use crate::proc_text::{
    bytes_of_kib, line_entry, number_or_error, read_entry, read_number, saturated_bytes,
};
use crate::text::{
    after_last, chars_of, lemma_words_are_not_empty, lines, rsplit_tail, split_whitespace,
    text_lines, texts, words,
};

verus! {

/// What is known of the process of a machine at one time.
#[derive(Debug)]
pub struct VmProcessMetrics {
    pub collected_at: String,
    pub pid: u32,
    pub state: String,
    pub rss_bytes: u64,
    pub virtual_memory_bytes: u64,
    pub cpu_user_ticks: u64,
    pub cpu_system_ticks: u64,
    pub cpu_total_ticks: u64,
    pub thread_count: u32,
}

/// The fields of `/proc/PID/stat` that are used.
#[derive(Debug, Clone, Copy, PartialEq, Eq, Structural)]
pub struct ProcStat {
    pub state: char,
    pub utime: u64,
    pub stime: u64,
    pub num_threads: u32,
}

/// What `/proc/PID/stat` says. The name of the process stands in parentheses and may itself hold
/// spaces and parentheses, so the fields are counted from the last closing one.
pub open spec fn proc_stat(raw: Seq<char>) -> Result<ProcStat, IoErrorView> {
    match after_last(raw, ')') {
        None => Err(malformed("invalid /proc stat format: missing ')'"@)),
        Some(after) => {
            let fields = words(after);
            if fields.len() < 18 {
                Err(malformed("invalid /proc stat format: too few fields"@))
            } else {
                match number_or_error(fields[11], u64::MAX as nat, "utime"@) {
                    Err(e) => Err(e),
                    Ok(utime) => match number_or_error(fields[12], u64::MAX as nat, "stime"@) {
                        Err(e) => Err(e),
                        Ok(stime) => match number_or_error(
                            fields[17],
                            u32::MAX as nat,
                            "num_threads"@,
                        ) {
                            Err(e) => Err(e),
                            Ok(n) => Ok(
                                ProcStat {
                                    state: fields[0][0],
                                    utime: utime as u64,
                                    stime: stime as u64,
                                    num_threads: n as u32,
                                },
                            ),
                        },
                    },
                }
            }
        },
    }
}

/// Reads `/proc/PID/stat`.
pub fn parse_proc_stat(raw: &str) -> (r: Result<ProcStat, IoError>)
    ensures
        io_outcome(r) == proc_stat(raw@),
{
    let after = match rsplit_tail(raw, ')') {
        Some(tail) => tail,
        None => {
            return Err(invalid_data("invalid /proc stat format: missing ')'".to_owned()));
        },
    };
    let fields = split_whitespace(after.as_str());
    proof {
        assert(texts(fields@).len() == fields@.len());
        assert forall|i: int| 0 <= i < fields@.len() implies #[trigger] texts(fields@)[i]
            == fields@[i]@ by {}
    }
    if fields.len() < 18 {
        return Err(invalid_data("invalid /proc stat format: too few fields".to_owned()));
    }
    proof {
        lemma_words_are_not_empty(after@);
        assert(words(after@)[0] == texts(fields@)[0]);
    }
    let state = chars_of(fields[0].as_str())[0];
    proof {
        assert(words(after@)[11] == texts(fields@)[11]);
        assert(words(after@)[12] == texts(fields@)[12]);
        assert(words(after@)[17] == texts(fields@)[17]);
    }
    let utime: u64 = match parse_u64(fields[11].as_str(), "utime") {
        Ok(v) => v,
        Err(e) => {
            return Err(e);
        },
    };
    let stime: u64 = match parse_u64(fields[12].as_str(), "stime") {
        Ok(v) => v,
        Err(e) => {
            return Err(e);
        },
    };
    let num_threads: u32 = match parse_u32(fields[17].as_str(), "num_threads") {
        Ok(v) => v,
        Err(e) => {
            return Err(e);
        },
    };
    Ok(ProcStat { state, utime, stime, num_threads })
}

/// Reads a field of 64 bits.
pub fn parse_u64(raw: &str, field: &str) -> (r: Result<u64, IoError>)
    ensures
        match r {
            Ok(v) => number_or_error(raw@, u64::MAX as nat, field@) == Ok::<nat, IoErrorView>(
                v as nat,
            ),
            Err(e) => number_or_error(raw@, u64::MAX as nat, field@) == Err::<nat, IoErrorView>(e@),
        },
{
    read_number(raw, u64::MAX, field)
}

/// Reads a field of 32 bits.
pub fn parse_u32(raw: &str, field: &str) -> (r: Result<u32, IoError>)
    ensures
        match r {
            Ok(v) => number_or_error(raw@, u32::MAX as nat, field@) == Ok::<nat, IoErrorView>(
                v as nat,
            ),
            Err(e) => number_or_error(raw@, u32::MAX as nat, field@) == Err::<nat, IoErrorView>(e@),
        },
{
    match read_number(raw, u32::MAX as u64, field) {
        Ok(v) => Ok(v as u32),
        Err(e) => Err(e),
    }
}

/// The numbers in the lines of `/proc/PID/status`, by key. Lines without a number are passed over;
/// a later line stands in place of an earlier one with the same key.
pub open spec fn status_entries(all: Seq<Seq<char>>) -> Map<Seq<char>, u64>
    decreases all.len(),
{
    if all.len() == 0 {
        Map::empty()
    } else {
        let before = status_entries(all.drop_last());
        match line_entry(all.last()) {
            None => before,
            Some((key, value)) => match number_value(value, u64::MAX as nat) {
                Ok(n) => before.insert(key, n as u64),
                Err(_) => before,
            },
        }
    }
}

/// Reads the numbers of `/proc/PID/status`.
pub fn parse_status_kib(raw: &str) -> (r: StringHashMap<u64>)
    ensures
        r@ == status_entries(text_lines(raw@)),
{
    let all = lines(raw);
    let ghost seen = texts(all@);
    let mut out: StringHashMap<u64> = StringHashMap::new();
    let mut i: usize = 0;
    while i < all.len()
        invariant
            i <= all@.len(),
            seen == texts(all@),
            out@ == status_entries(seen.take(i as int)),
        decreases all@.len() - i,
    {
        proof {
            assert(seen.take(i + 1).drop_last() =~= seen.take(i as int));
            assert(seen.take(i + 1).last() == all@[i as int]@);
        }
        if let Some((key, value)) = read_entry(all[i].as_str()) {
            if let Ok(n) = parse_number(value.as_str(), u64::MAX) {
                out.insert(key, n);
            }
        }
        i += 1;
    }
    proof {
        assert(seen.take(all@.len() as int) =~= seen);
    }
    out
}

/// Turns kibibytes into bytes.
pub fn kib_to_bytes(value: u64) -> (r: u64)
    ensures
        r == saturated_bytes(value),
{
    bytes_of_kib(value)
}

/// The number under a key, or zero.
pub open spec fn entry_or_zero(m: Map<Seq<char>, u64>, key: Seq<char>) -> u64 {
    if m.contains_key(key) {
        m[key]
    } else {
        0
    }
}

/// Looks up the number under a key.
pub fn lookup_or_zero(map: &StringHashMap<u64>, key: &str) -> (r: u64)
    ensures
        r == entry_or_zero(map@, key@),
{
    match map.get(key) {
        Some(v) => *v,
        None => 0,
    }
}

/// The sum of two counters, as far as 64 bits go.
pub open spec fn saturated_sum(a: u64, b: u64) -> u64 {
    if a + b > u64::MAX {
        u64::MAX
    } else {
        (a + b) as u64
    }
}

/// Puts together what was read of the process of a machine.
pub fn collect_vm_process_metrics(
    collected_at: String,
    pid: u32,
    stat: ProcStat,
    status: &StringHashMap<u64>,
) -> (r: VmProcessMetrics)
    ensures
        r.collected_at == collected_at,
        r.pid == pid,
        r.state@ == seq![stat.state],
        r.rss_bytes == saturated_bytes(entry_or_zero(status@, "VmRSS"@)),
        r.virtual_memory_bytes == saturated_bytes(entry_or_zero(status@, "VmSize"@)),
        r.cpu_user_ticks == stat.utime,
        r.cpu_system_ticks == stat.stime,
        r.cpu_total_ticks == saturated_sum(stat.utime, stat.stime),
        r.thread_count == stat.num_threads,
{
    let rss_kib: u64 = lookup_or_zero(status, "VmRSS");
    let vm_size_kib: u64 = lookup_or_zero(status, "VmSize");
    let mut state = String::new();
    state.push(stat.state);
    proof {
        assert(state@ =~= seq![stat.state]);
    }
    VmProcessMetrics {
        collected_at,
        pid,
        state,
        rss_bytes: kib_to_bytes(rss_kib),
        virtual_memory_bytes: kib_to_bytes(vm_size_kib),
        cpu_user_ticks: stat.utime,
        cpu_system_ticks: stat.stime,
        cpu_total_ticks: stat.utime.saturating_add(stat.stime),
        thread_count: stat.num_threads,
    }
}

/// The name of a process does not change what is read of it, whatever the name holds.
pub proof fn law_process_name_does_not_matter(
    first: Seq<char>,
    second: Seq<char>,
    fields: Seq<char>,
)
    requires
        !fields.contains(')'),
    ensures
        proc_stat(first.push(')') + fields) == proc_stat(second.push(')') + fields),
{
    lemma_after_last_of_tail(first, fields);
    lemma_after_last_of_tail(second, fields);
}

proof fn lemma_after_last_of_tail(head: Seq<char>, fields: Seq<char>)
    requires
        !fields.contains(')'),
    ensures
        after_last(head.push(')') + fields, ')') == Some(fields),
    decreases fields.len(),
{
    let s = head.push(')') + fields;
    if fields.len() == 0 {
        assert(s =~= head.push(')'));
        assert(fields =~= Seq::empty());
    } else {
        let rest = fields.drop_last();
        assert(fields.contains(fields.last()));
        assert(!rest.contains(')')) by {
            if rest.contains(')') {
                let i = choose|i: int| 0 <= i < rest.len() && rest[i] == ')';
                assert(fields[i] == ')');
            }
        }
        assert(s.drop_last() =~= head.push(')') + rest);
        lemma_after_last_of_tail(head, rest);
        assert(rest.push(fields.last()) =~= fields);
    }
}

} // verus!
