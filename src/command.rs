//! Commands as they arrive from a presentation layer: a command name and an
//! argument value. Decoding checks both before anything reaches the engine;
//! a duration that is not a whole, non-negative number of seconds that fits
//! in 32 bits is rejected here.
use vstd::prelude::*;
use vstd::utf8::encode_utf8;
use crate::engine::Command;
use crate::host::JsValue;

verus! {

/// The errors of the timer's boundary.
#[derive(Clone, Copy, Debug, PartialEq, Eq, Structural)]
pub enum TimerError {
    /// A new duration that is negative, not a whole number, or too large.
    InvalidConfiguration,
    /// The lock over the timer state could not be taken because an earlier
    /// holder failed.
    LockFailure,
    /// A command name that the timer does not know.
    UnknownCommand,
}

/// The largest number a duration can be.
pub const MAX_SECONDS: u64 = 4294967295;

/// Whether `b` is the byte of an ASCII decimal digit.
pub open spec fn is_digit(b: u8) -> bool {
    48 <= b <= 57
}

/// The number written by the decimal digits `d`, most significant first.
pub open spec fn digits_value(d: Seq<u8>) -> nat
    decreases d.len(),
{
    if d.len() == 0 {
        0
    } else {
        digits_value(d.drop_last()) * 10 + (d.last() - 48) as nat
    }
}

/// The digits of `b` after an optional leading `+`.
pub open spec fn unsigned_digits(b: Seq<u8>) -> Seq<u8> {
    if b.len() > 0 && b[0] == 43 {
        b.drop_first()
    } else {
        b
    }
}

/// The number of seconds the bytes `b` write: an optional `+`, then one or
/// more decimal digits, and nothing else, for a value that fits in 32 bits.
pub open spec fn parsed_seconds(b: Seq<u8>) -> Option<u32> {
    let d = unsigned_digits(b);
    if d.len() > 0 && (forall|i: int| 0 <= i < d.len() ==> is_digit(d[i])) && digits_value(d)
        <= MAX_SECONDS {
        Some(digits_value(d) as u32)
    } else {
        None
    }
}

/// Reads a number of seconds from `text`, as written in an input field.
pub fn parse_seconds(text: &str) -> (r: Option<u32>)
    ensures
        r == parsed_seconds(encode_utf8(text@)),
{
    let b = text.as_bytes();
    let ghost all = b@;
    let n = b.len();
    let start: usize = if n > 0 && b[0] == 43u8 {
        1
    } else {
        0
    };
    let ghost d = unsigned_digits(all);
    assert(d =~= all.subrange(start as int, n as int));
    if start == n {
        return None;
    }
    let mut value: u64 = 0;
    let mut k: usize = start;
    while k < n
        invariant
            b@ == all,
            all == encode_utf8(text@),
            n == all.len(),
            start <= k <= n,
            d == all.subrange(start as int, n as int),
            d == unsigned_digits(all),
            forall|i: int| start <= i < k ==> is_digit(all[i]),
            value == digits_value(all.subrange(start as int, k as int)),
            value <= MAX_SECONDS,
        decreases n - k,
    {
        let c = b[k];
        if c < 48u8 || c > 57u8 {
            assert(d[k - start] == all[k as int]);

            return None;
        }
        let ghost before = all.subrange(start as int, k as int);
        assert(all.subrange(start as int, k + 1).drop_last() =~= before);
        assert(all.subrange(start as int, k + 1).last() == c);
        let next = value * 10 + (c - 48u8) as u64;
        assert(next == digits_value(all.subrange(start as int, k + 1)));
        if next > MAX_SECONDS {
            proof {
                lemma_value_grows(d, (k + 1 - start) as int);
                assert(d.subrange(0, (k + 1 - start) as int) =~= all.subrange(
                    start as int,
                    k + 1,
                ));
            }
            return None;
        }
        value = next;
        k = k + 1;
    }
    assert(all.subrange(start as int, n as int) =~= d);
    Some(value as u32)
}

/// A number never shrinks as digits are appended to it.
proof fn lemma_value_grows(d: Seq<u8>, m: int)
    requires
        0 <= m <= d.len(),
    ensures
        digits_value(d.subrange(0, m)) <= digits_value(d),
    decreases d.len() - m,
{
    if m < d.len() {
        lemma_value_grows(d, m + 1);
        assert(d.subrange(0, m + 1).drop_last() =~= d.subrange(0, m));
    } else {
        assert(d.subrange(0, m) =~= d);
    }
}

/// The seconds argument `v` gives: a number as it is, a text as written in
/// an input field.
pub open spec fn seconds_argument(v: JsValue) -> Option<u32> {
    match v.number_of() {
        Some(n) => Some(n),
        None => match v.text_of() {
            Some(t) => parsed_seconds(encode_utf8(t)),
            None => None,
        },
    }
}

/// The command that `name` with argument `args` stands for.
pub open spec fn decoded(name: Seq<char>, args: JsValue) -> Result<Command, TimerError> {
    if name == "start_timer"@ {
        Ok(Command::Start)
    } else if name == "pause_timer"@ {
        Ok(Command::Pause)
    } else if name == "reset_timer"@ {
        Ok(Command::Reset)
    } else if name == "set_total_seconds"@ {
        match seconds_argument(args) {
            Some(n) => Ok(Command::Configure(n)),
            None => Err(TimerError::InvalidConfiguration),
        }
    } else {
        Err(TimerError::UnknownCommand)
    }
}

/// Reads the seconds argument of a configuration command.
pub fn seconds_from(args: &JsValue) -> (r: Option<u32>)
    ensures
        r == seconds_argument(*args),
{
    match args.as_number() {
        Some(n) => Some(n),
        None => match args.as_string() {
            Some(t) => parse_seconds(t.as_str()),
            None => None,
        },
    }
}

/// Decodes command `name` with argument `args`.
pub fn decode_command(name: &str, args: &JsValue) -> (r: Result<Command, TimerError>)
    ensures
        r == decoded(name@, *args),
{
    let given = name.to_owned();
    if given == "start_timer".to_owned() {
        Ok(Command::Start)
    } else if given == "pause_timer".to_owned() {
        Ok(Command::Pause)
    } else if given == "reset_timer".to_owned() {
        Ok(Command::Reset)
    } else if given == "set_total_seconds".to_owned() {
        match seconds_from(args) {
            Some(n) => Ok(Command::Configure(n)),
            None => Err(TimerError::InvalidConfiguration),
        }
    } else {
        Err(TimerError::UnknownCommand)
    }
}

} // verus!
