//! Identifier minting. An identifier is the current clock reading in
//! milliseconds, a dash, and a four-digit random suffix. The clock and
//! the random draw come from outside; turning the two numbers into the
//! identifier string is verified, digit by digit.

use rand::Rng;
use vstd::prelude::*;
use vstd::string::StrSliceExecFns;
use vstd::string::StringExecFns;

use crate::text::digit_char;
use crate::text::digit_str;

verus! {

/// Relies on chrono's `Utc::now`, with `DateTime::timestamp_millis`
/// converting the reading to a plain count of milliseconds since the
/// Unix epoch. Nothing can be promised of a clock reading.
#[verifier::external_body]
fn now_unix_millis() -> i64 {
    chrono::Utc::now().timestamp_millis()
}

/// Relies on rand's `thread_rng`, with `Rng::gen_range` converting the
/// draw to a plain value in `0..10000`; the range is not empty, so the
/// call does not panic, and the result lies below 10000.
#[verifier::external_body]
fn random_suffix() -> (r: u16)
    ensures
        r < 10000,
{
    rand::thread_rng().gen_range(0..10000)
}

/// The decimal digits of `n`, most significant first, no sign and no
/// leading zero (a single `'0'` for zero).
pub open spec fn dec_digits(n: nat) -> Seq<char>
    decreases n,
{
    if n < 10 {
        seq![digit_char(n as int)]
    } else {
        dec_digits(n / 10) + seq![digit_char((n % 10) as int)]
    }
}

/// The decimal rendering of `t`, with a leading `'-'` when negative.
pub open spec fn dec_int(t: int) -> Seq<char> {
    if t < 0 {
        seq!['-'] + dec_digits((-t) as nat)
    } else {
        dec_digits(t as nat)
    }
}

/// The four digits of `p < 10000`, zero-padded.
pub open spec fn pad4_digits(p: int) -> Seq<char> {
    seq![
        digit_char(p / 1000 % 10),
        digit_char(p / 100 % 10),
        digit_char(p / 10 % 10),
        digit_char(p % 10),
    ]
}

/// An identifier as rendered from a clock reading `t` and a random
/// suffix `p`: the decimal of `t`, a dash, the four padded digits of
/// `p`.
pub open spec fn spec_match_id(t: int, p: int) -> Seq<char> {
    dec_int(t) + seq!['-'] + pad4_digits(p)
}

/// Renders `n` in decimal.
fn u64_dec_str(n: u64) -> (r: String)
    ensures
        r@ == dec_digits(n as nat),
        r@.len() >= 1,
    decreases n,
{
    if n < 10 {
        String::from_str(digit_str(n as usize))
    } else {
        let mut s = u64_dec_str(n / 10);
        s.append(digit_str((n % 10) as usize));
        s
    }
}

/// Renders `t` in decimal, with its sign.
fn i64_dec_str(t: i64) -> (r: String)
    ensures
        r@ == dec_int(t as int),
        r@.len() >= 1,
{
    if t >= 0 {
        u64_dec_str(t as u64)
    } else {
        let mag: u64 = if t == i64::MIN {
            9223372036854775808u64
        } else {
            (-t) as u64
        };
        assert(mag == -(t as int));
        let mut s = String::from_str("-");
        proof {
            reveal_strlit("-");
        }
        s.append(u64_dec_str(mag).as_str());
        s
    }
}

/// Renders the identifier for clock reading `t` and suffix `p`.
pub fn format_match_id(t: i64, p: u16) -> (r: String)
    requires
        p < 10000,
    ensures
        r@ == spec_match_id(t as int, p as int),
        r@.len() >= 6,
{
    let mut s = i64_dec_str(t);
    proof {
        reveal_strlit("-");
    }
    s.append("-");
    s.append(digit_str((p / 1000) as usize));
    s.append(digit_str((p / 100 % 10) as usize));
    s.append(digit_str((p / 10 % 10) as usize));
    s.append(digit_str((p % 10) as usize));
    proof {
        assert(s@ =~= spec_match_id(t as int, p as int));
    }
    s
}

/// Mints a fresh identifier from the clock and a random draw. The two
/// sources make collisions unlikely; the registry treats identifiers
/// as opaque unique strings and takes no further care against them.
pub fn generate_id() -> (r: String)
    ensures
        r@.len() >= 6,
        exists|t: int, p: int| 0 <= p < 10000 && r@ == spec_match_id(t, p),
{
    let t = now_unix_millis();
    let p = random_suffix();
    let r = format_match_id(t, p);
    proof {
        assert(r@ == spec_match_id(t as int, p as int));
    }
    r
}

} // verus!
