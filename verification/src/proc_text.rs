//! The "key: value" lines and numbers that the kernel reports under `/proc`.
use vstd::prelude::*;

use crate::io_error::{invalid_data, malformed, IoError, IoErrorView};
use crate::numbers::{
    lemma_number_is_bounded, number_value, parse_error_message, parse_number, ParseNumberError,
};
use crate::text::{
    split_at_first, split_once, split_whitespace, texts, trim, trimmed, words,
};

verus! {

/// The key of a line and the first word of its value; none where the line has no colon or no value.
pub open spec fn line_entry(line: Seq<char>) -> Option<(Seq<char>, Seq<char>)> {
    match split_at_first(line, ':') {
        Some((key, value)) => if words(value).len() > 0 {
            Some((trimmed(key), words(value)[0]))
        } else {
            None
        },
        None => None,
    }
}

/// Reads the key of a line and the first word of its value.
pub fn read_entry(line: &str) -> (r: Option<(String, String)>)
    ensures
        match r {
            Some(entry) => line_entry(line@) == Some((entry.0@, entry.1@)),
            None => line_entry(line@) is None,
        },
{
    match split_once(line, ':') {
        Some((key, value)) => {
            let parts = split_whitespace(value.as_str());
            proof {
                assert(texts(parts@).len() == parts@.len());
            }
            if parts.len() == 0 {
                return None;
            }
            proof {
                assert(texts(parts@)[0] == parts@[0]@);
            }
            Some((trim(key.as_str()), parts[0].clone()))
        },
        None => None,
    }
}

/// "invalid WHAT: REASON".
pub open spec fn invalid_number(what: Seq<char>, e: ParseNumberError) -> IoErrorView {
    malformed("invalid "@ + what + ": "@ + parse_error_message(e))
}

/// Reports that WHAT is not a number, and why.
pub fn invalid_number_error(what: &str, error: ParseNumberError) -> (r: IoError)
    ensures
        r@ == invalid_number(what@, error),
{
    let mut message = "invalid ".to_owned();
    message.append(what);
    message.append(": ");
    message.append(error.to_text().as_str());
    invalid_data(message)
}

/// The number that `raw` stands for, no larger than `max`, or the error that names `what`.
pub open spec fn number_or_error(raw: Seq<char>, max: nat, what: Seq<char>) -> Result<
    nat,
    IoErrorView,
> {
    match number_value(raw, max) {
        Ok(v) => Ok(v),
        Err(e) => Err(invalid_number(what, e)),
    }
}

/// Reads a number, no larger than `max`.
pub fn read_number(raw: &str, max: u64, what: &str) -> (r: Result<u64, IoError>)
    ensures
        match r {
            Ok(v) => number_or_error(raw@, max as nat, what@) == Ok::<nat, IoErrorView>(v as nat)
                && v <= max,
            Err(e) => number_or_error(raw@, max as nat, what@) == Err::<nat, IoErrorView>(e@),
        },
{
    match parse_number(raw, max) {
        Ok(v) => {
            proof {
                lemma_number_is_bounded(raw@, max as nat);
            }
            Ok(v)
        },
        Err(e) => Err(invalid_number_error(what, e)),
    }
}

/// A count of kibibytes in bytes, as far as 64 bits go.
pub open spec fn saturated_bytes(kib: u64) -> u64 {
    if kib * 1024 > u64::MAX {
        u64::MAX
    } else {
        (kib * 1024) as u64
    }
}

/// Turns kibibytes into bytes.
pub fn bytes_of_kib(kib: u64) -> (r: u64)
    ensures
        r == saturated_bytes(kib),
{
    if kib > u64::MAX / 1024 {
        u64::MAX
    } else {
        kib * 1024
    }
}

} // verus!
