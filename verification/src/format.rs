//! The fixed tabular output: the data line of a completed summary and the
//! sentinel line for empty input, as ASCII bytes.

use crate::stats::FastaStats;
use vstd::prelude::*;

verus! {

/// The decimal digits of `n` in ASCII, most significant first, no sign and no
/// leading zero (a single `0` for zero).
pub open spec fn dec_digits(n: nat) -> Seq<u8>
    decreases n,
{
    if n < 10 {
        seq![(48 + n) as u8]
    } else {
        dec_digits(n / 10).push((48 + n % 10) as u8)
    }
}

/// Decimal ASCII text of `n`.
pub fn u64_to_decimal(n: u64) -> (v: Vec<u8>)
    ensures
        v@ == dec_digits(n as nat),
    decreases n,
{
    if n < 10 {
        let mut v: Vec<u8> = Vec::new();
        v.push(48 + (n as u8));
        proof {
            assert(v@ =~= dec_digits(n as nat));
        }
        v
    } else {
        let mut v = u64_to_decimal(n / 10);
        v.push(48 + ((n % 10) as u8));
        proof {
            assert(v@ =~= dec_digits(n as nat));
        }
        v
    }
}

/// The data line of a completed summary: count, total, minimum, mean and
/// maximum, tab-separated, in this exact field order.
pub open spec fn stats_line_spec(st: FastaStats) -> Seq<u8> {
    dec_digits(st.num_seqs as nat) + seq![9u8] + dec_digits(st.total as nat) + seq![9u8]
        + dec_digits(st.min_len as nat) + seq![9u8] + dec_digits(st.average_len as nat)
        + seq![9u8] + dec_digits(st.max_len as nat)
}

/// Render a completed summary as its data line.
pub fn stats_line(st: &FastaStats) -> (v: Vec<u8>)
    ensures
        v@ == stats_line_spec(*st),
{
    let mut v = u64_to_decimal(st.num_seqs);
    v.push(9);
    let mut part = u64_to_decimal(st.total);
    v.append(&mut part);
    v.push(9);
    let mut part = u64_to_decimal(st.min_len);
    v.append(&mut part);
    v.push(9);
    let mut part = u64_to_decimal(st.average_len);
    v.append(&mut part);
    v.push(9);
    let mut part = u64_to_decimal(st.max_len);
    v.append(&mut part);
    proof {
        assert(v@ =~= stats_line_spec(*st));
    }
    v
}

/// The sentinel data line for empty input: zero count and total, and `-` for
/// the undefined minimum, mean and maximum.
pub open spec fn empty_line_spec() -> Seq<u8> {
    seq![48u8, 9u8, 48u8, 9u8, 45u8, 9u8, 45u8, 9u8, 45u8]
}

/// Render the sentinel data line for empty input.
pub fn empty_line() -> (v: Vec<u8>)
    ensures
        v@ == empty_line_spec(),
{
    let mut v: Vec<u8> = Vec::new();
    v.push(48);
    v.push(9);
    v.push(48);
    v.push(9);
    v.push(45);
    v.push(9);
    v.push(45);
    v.push(9);
    v.push(45);
    proof {
        assert(v@ =~= empty_line_spec());
    }
    v
}

} // verus!
