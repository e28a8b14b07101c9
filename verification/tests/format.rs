use fasta_stats::format::{empty_line, stats_line, u64_to_decimal};
use fasta_stats::stats::FastaStats;

#[test]
fn decimal_text() {
    assert_eq!(u64_to_decimal(0), b"0");
    assert_eq!(u64_to_decimal(7), b"7");
    assert_eq!(u64_to_decimal(10), b"10");
    assert_eq!(u64_to_decimal(1234567890), b"1234567890");
    assert_eq!(u64_to_decimal(u64::MAX), b"18446744073709551615");
}

#[test]
fn data_line_field_order() {
    let st = FastaStats { num_seqs: 3, total: 18, min_len: 4, average_len: 6, max_len: 10 };
    assert_eq!(stats_line(&st), b"3\t18\t4\t6\t10");
}

#[test]
fn empty_input_sentinel_line() {
    assert_eq!(empty_line(), b"0\t0\t-\t-\t-");
}
