//! Allocation-free parsing of raw counter text.
//!
//! A counter file exposes one unsigned decimal number as ASCII text,
//! optionally newline-terminated. The reader that owns the file handle
//! re-reads it into a fixed scratch buffer on every tick; this module holds
//! the verified parse of that buffer: digits are accumulated left to right
//! until a terminator (newline, NUL, space) or the end of the data, and any
//! other byte means the input is corrupted and is reported, never guessed.

use vstd::prelude::*;
use vstd::wrapping::u64_specs;

verus! {

/// What can go wrong around one counter resource.
#[derive(Debug, Clone, Copy, PartialEq, Eq, Structural)]
pub enum CounterError {
    /// The resource could not be opened at engine construction; fatal to the
    /// one engine that owns it.
    Open,
    /// A read of the already-open resource failed (or returned no data);
    /// tolerated, the tick contributes nothing.
    Read,
    /// The resource held a byte that is neither a digit nor a terminator;
    /// treated like a failed read.
    Parse,
}

pub const BYTE_ZERO: u8 = 48;

pub const BYTE_NINE: u8 = 57;

pub const BYTE_NEWLINE: u8 = 10;

pub const BYTE_NUL: u8 = 0;

pub const BYTE_SPACE: u8 = 32;

/// Digit accumulation step: `acc * 10 + digit`, wrapping at 2^64 exactly as
/// the executable parse does.
pub open spec fn accumulate_digit(acc: u64, b: u8) -> u64 {
    u64_specs::wrapping_add(u64_specs::wrapping_mul(acc, 10), (b - BYTE_ZERO) as u64)
}

/// The left-to-right scan over the remaining bytes with accumulator `acc`:
/// digits accumulate, a terminator or the end of data yields the value so
/// far, anything else is corrupted input.
pub open spec fn scan_digits(s: Seq<u8>, acc: u64) -> Result<u64, CounterError>
    decreases s.len(),
{
    if s.len() == 0 {
        Ok(acc)
    } else if BYTE_ZERO <= s[0] <= BYTE_NINE {
        scan_digits(s.skip(1), accumulate_digit(acc, s[0]))
    } else if s[0] == BYTE_NEWLINE || s[0] == BYTE_NUL || s[0] == BYTE_SPACE {
        Ok(acc)
    } else {
        Err(CounterError::Parse)
    }
}

/// What parsing a whole read buffer means: an empty read is a read failure,
/// otherwise the digit scan from zero.
pub open spec fn parse_counter_spec(s: Seq<u8>) -> Result<u64, CounterError> {
    if s.len() == 0 {
        Err(CounterError::Read)
    } else {
        scan_digits(s, 0)
    }
}

/// Parse the bytes one read returned from a counter resource.
pub fn parse_counter(buf: &[u8]) -> (r: Result<u64, CounterError>)
    ensures
        r == parse_counter_spec(buf@),
{
    let n = buf.len();
    if n == 0 {
        return Err(CounterError::Read);
    }
    let mut num: u64 = 0;
    let mut i: usize = 0;
    proof {
        assert(buf@.skip(0) =~= buf@);
    }
    while i < n
        invariant
            i <= n,
            n == buf@.len(),
            scan_digits(buf@.skip(i as int), num) == parse_counter_spec(buf@),
        decreases n - i,
    {
        let b = buf[i];
        proof {
            assert(buf@.skip(i as int)[0] == buf@[i as int]);
            assert(buf@.skip(i as int).skip(1) =~= buf@.skip(i + 1));
        }
        if b >= BYTE_ZERO && b <= BYTE_NINE {
            num = num.wrapping_mul(10).wrapping_add((b - BYTE_ZERO) as u64);
        } else if b == BYTE_NEWLINE || b == BYTE_NUL || b == BYTE_SPACE {
            return Ok(num);
        } else {
            return Err(CounterError::Parse);
        }
        i = i + 1;
    }
    proof {
        assert(buf@.skip(n as int) =~= Seq::<u8>::empty());
    }
    Ok(num)
}

} // verus!
