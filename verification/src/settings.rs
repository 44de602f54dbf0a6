//! What the daemon is told when it is started.
use vstd::prelude::*;
use vstd::utf8::encode_utf8;

use crate::io_error::{io_outcome, IoError, IoErrorKind, IoErrorView};
use crate::numbers::{
    decimal, law_decimal_reads_back, lemma_number_is_bounded, number_value, parse_number,
    push_decimal,
};
use crate::process_pool::byte_lists;
use crate::text::texts;

verus! {

/// A positive number no larger than `max`; otherwise why not.
pub open spec fn positive_or_error(
    value: Seq<char>,
    max: nat,
    what: Seq<char>,
    at_least: Seq<char>,
) -> Result<nat, Seq<char>> {
    match number_value(value, max) {
        Err(_) => Err("invalid "@ + what + ": "@ + value),
        Ok(n) => if n == 0 {
            Err(at_least)
        } else {
            Ok(n)
        },
    }
}

fn parse_positive(value: &str, max: u64, what: &str, at_least: &str) -> (r: Result<u64, String>)
    ensures
        match r {
            Ok(n) => positive_or_error(value@, max as nat, what@, at_least@) == Ok::<
                nat,
                Seq<char>,
            >(n as nat) && n <= max,
            Err(e) => positive_or_error(value@, max as nat, what@, at_least@) == Err::<
                nat,
                Seq<char>,
            >(e@),
        },
{
    match parse_number(value, max) {
        Err(_) => {
            let mut message = "invalid ".to_owned();
            message.append(what);
            message.append(": ");
            message.append(value);
            Err(message)
        },
        Ok(n) => {
            proof {
                lemma_number_is_bounded(value@, max as nat);
            }
            if n == 0 {
                Err(at_least.to_owned())
            } else {
                Ok(n)
            }
        },
    }
}

/// The number of slots that a text asks for.
pub open spec fn pool_size_or_error(value: Seq<char>) -> Result<nat, Seq<char>> {
    positive_or_error(value, usize::MAX as nat, "pool size"@, "pool size must be at least 1"@)
}

/// Reads a number of slots.
pub fn parse_pool_size(value: &str) -> (r: Result<usize, String>)
    ensures
        match r {
            Ok(n) => pool_size_or_error(value@) == Ok::<nat, Seq<char>>(n as nat),
            Err(e) => pool_size_or_error(value@) == Err::<nat, Seq<char>>(e@),
        },
{
    match parse_positive(
        value,
        usize::MAX as u64,
        "pool size",
        "pool size must be at least 1",
    ) {
        Ok(n) => Ok(n as usize),
        Err(e) => Err(e),
    }
}

/// The cooldown that a text asks for.
pub open spec fn cooldown_or_error(value: Seq<char>) -> Result<nat, Seq<char>> {
    positive_or_error(
        value,
        u64::MAX as nat,
        "cooldown seconds"@,
        "scale-down cooldown must be at least 1 second"@,
    )
}

/// Reads a cooldown.
pub fn parse_cooldown_secs(value: &str) -> (r: Result<u64, String>)
    ensures
        match r {
            Ok(n) => cooldown_or_error(value@) == Ok::<nat, Seq<char>>(n as nat),
            Err(e) => cooldown_or_error(value@) == Err::<nat, Seq<char>>(e@),
        },
{
    parse_positive(
        value,
        u64::MAX,
        "cooldown seconds",
        "scale-down cooldown must be at least 1 second",
    )
}

/// The interval that a text asks for.
pub open spec fn interval_or_error(value: Seq<char>) -> Result<nat, Seq<char>> {
    positive_or_error(
        value,
        u64::MAX as nat,
        "autoscale interval milliseconds"@,
        "autoscale interval must be at least 1 millisecond"@,
    )
}

/// Reads an interval.
pub fn parse_interval_ms(value: &str) -> (r: Result<u64, String>)
    ensures
        match r {
            Ok(n) => interval_or_error(value@) == Ok::<nat, Seq<char>>(n as nat),
            Err(e) => interval_or_error(value@) == Err::<nat, Seq<char>>(e@),
        },
{
    parse_positive(
        value,
        u64::MAX,
        "autoscale interval milliseconds",
        "autoscale interval must be at least 1 millisecond",
    )
}

/// The largest size of the pool: the smallest one, where no other is given.
pub open spec fn largest_size(pool_size: usize, max_pool_size: Option<usize>) -> usize {
    match max_pool_size {
        Some(n) => n,
        None => pool_size,
    }
}

/// Works out the largest size of the pool, which must not be below the smallest.
pub fn resolve_max_pool_size(pool_size: usize, max_pool_size: Option<usize>) -> (r: Result<
    usize,
    IoError,
>)
    ensures
        io_outcome(r) == ({
            let largest = largest_size(pool_size, max_pool_size);
            if largest < pool_size {
                Err::<usize, IoErrorView>(
                    IoErrorView {
                        kind: IoErrorKind::InvalidInput,
                        message: "--max-pool-size ("@ + decimal(largest as nat)
                            + ") must be >= --pool-size ("@ + decimal(pool_size as nat) + ")"@,
                    },
                )
            } else {
                Ok(largest)
            }
        }),
{
    let largest: usize = match max_pool_size {
        Some(n) => n,
        None => pool_size,
    };
    if largest < pool_size {
        let mut message = "--max-pool-size (".to_owned();
        push_decimal(&mut message, largest as u64);
        message.append(") must be >= --pool-size (");
        push_decimal(&mut message, pool_size as u64);
        message.append(")");
        return Err(IoError { kind: IoErrorKind::InvalidInput, message });
    }
    Ok(largest)
}

/// What an environment variable holds.
pub enum EnvValue {
    Present(String),
    NotPresent,
    NotUnicode,
}

/// The words that `shlex::split` finds in a text; none where the text is not well-formed.
pub uninterp spec fn shell_words(raw: Seq<char>) -> Option<Seq<Seq<char>>>;

/// The contents of the words that were found.
pub open spec fn found_words(r: Option<Vec<String>>) -> Option<Seq<Seq<char>>> {
    match r {
        Some(list) => Some(texts(list@)),
        None => None,
    }
}

/// `shlex::split` splits a text into words as a POSIX shell does, and gives none for a text that
/// ends inside quotes or after a backslash. The result depends on the text alone.
#[verifier::external_body]
fn shell_split(raw: &str) -> (r: Option<Vec<String>>)
    ensures
        found_words(r) == shell_words(raw@),
{
    shlex::split(raw)
}

/// The bytes of each text.
pub open spec fn encoded(list: Seq<Seq<char>>) -> Seq<Seq<u8>> {
    list.map_values(|s: Seq<char>| encode_utf8(s))
}

/// The arguments that a split text stands for, or how its failure reads.
pub open spec fn args_or_error(split: Option<Seq<Seq<char>>>) -> Result<Seq<Seq<u8>>, Seq<char>> {
    match split {
        Some(list) => Ok(encoded(list)),
        None => Err("invalid CLOUD_HYPERVISOR_ARGS: could not parse shell-style arguments"@),
    }
}

/// The outcome of reading arguments, with its texts as sequences.
pub open spec fn args_outcome(r: Result<Vec<Vec<u8>>, String>) -> Result<Seq<Seq<u8>>, Seq<char>> {
    match r {
        Ok(args) => Ok(byte_lists(args@)),
        Err(e) => Err(e@),
    }
}

/// Turns words into arguments.
pub fn args_from_words(split: Option<Vec<String>>) -> (r: Result<Vec<Vec<u8>>, String>)
    ensures
        args_outcome(r) == args_or_error(found_words(split)),
{
    let list = match split {
        Some(list) => list,
        None => {
            return Err(
                "invalid CLOUD_HYPERVISOR_ARGS: could not parse shell-style arguments".to_owned(),
            );
        },
    };
    let ghost wanted = encoded(texts(list@));
    let mut args: Vec<Vec<u8>> = Vec::new();
    let mut i: usize = 0;
    while i < list.len()
        invariant
            i <= list@.len(),
            wanted == encoded(texts(list@)),
            byte_lists(args@) =~= wanted.take(i as int),
        decreases list@.len() - i,
    {
        let bytes = list[i].as_str().as_bytes_vec();
        let ghost before = args@;
        args.push(bytes);
        proof {
            assert(byte_lists(args@) =~= byte_lists(before).push(bytes@));
            assert(wanted[i as int] == encode_utf8(list@[i as int]@));
        }
        i += 1;
    }
    proof {
        assert(wanted.take(list@.len() as int) =~= wanted);
    }
    Ok(args)
}

/// The arguments that an environment variable asks for: none where it is not set.
pub open spec fn env_args(value: EnvValue) -> Result<Seq<Seq<u8>>, Seq<char>> {
    match value {
        EnvValue::Present(raw) => args_or_error(shell_words(raw@)),
        EnvValue::NotPresent => Ok(Seq::empty()),
        EnvValue::NotUnicode => Err("invalid CLOUD_HYPERVISOR_ARGS: value is not valid Unicode"@),
    }
}

/// Reads the arguments that an environment variable asks for.
pub fn parse_env_args(value: EnvValue) -> (r: Result<Vec<Vec<u8>>, String>)
    ensures
        args_outcome(r) == env_args(value),
{
    match value {
        EnvValue::Present(raw) => args_from_words(shell_split(raw.as_str())),
        EnvValue::NotPresent => {
            let none: Vec<Vec<u8>> = Vec::new();
            proof {
                assert(byte_lists(none@) =~= Seq::empty());
            }
            Ok(none)
        },
        EnvValue::NotUnicode => Err(
            "invalid CLOUD_HYPERVISOR_ARGS: value is not valid Unicode".to_owned(),
        ),
    }
}

/// What hypervisors are started with: the program, and the arguments that the environment adds.
pub fn resolve_program_and_args(program: String, value: EnvValue) -> (r: Result<
    (String, Vec<Vec<u8>>),
    String,
>)
    ensures
        match r {
            Ok(found) => found.0 == program && env_args(value) == Ok::<Seq<Seq<u8>>, Seq<char>>(
                byte_lists(found.1@),
            ),
            Err(e) => env_args(value) == Err::<Seq<Seq<u8>>, Seq<char>>(e@),
        },
{
    match parse_env_args(value) {
        Ok(args) => Ok((program, args)),
        Err(e) => Err(e),
    }
}

/// A positive size is read back from its decimal text.
pub proof fn law_positive_sizes_are_read_back(n: usize)
    requires
        n > 0,
    ensures
        pool_size_or_error(decimal(n as nat)) == Ok::<nat, Seq<char>>(n as nat),
{
    law_decimal_reads_back(n as nat, usize::MAX as nat);
}

} // verus!
