use fasta_stats::stats::{aggregate, AggregateState, DecodeError, FastaStats, Record};

fn record(len: usize) -> Result<Record, DecodeError> {
    Ok(Record { id: String::from("r"), seq: vec![65u8; len] })
}

fn error(msg: &str) -> Result<Record, DecodeError> {
    Err(DecodeError { message: String::from(msg) })
}

fn stats_of(lens: &[usize]) -> (Option<FastaStats>, Vec<String>) {
    let items: Vec<Result<Record, DecodeError>> = lens.iter().map(|&l| record(l)).collect();
    aggregate(&items)
}

#[test]
fn empty_input_yields_empty_result() {
    let state = AggregateState::new();
    assert!(state.finalize().is_none());

    let (summary, diags) = aggregate(&Vec::new());
    assert!(summary.is_none());
    assert!(diags.is_empty());
}

#[test]
fn single_record() {
    let (summary, diags) = stats_of(&[5]);
    let st = summary.unwrap();
    assert_eq!(st.num_seqs, 1);
    assert_eq!(st.total, 5);
    assert_eq!(st.min_len, 5);
    assert_eq!(st.average_len, 5);
    assert_eq!(st.max_len, 5);
    assert!(diags.is_empty());
}

#[test]
fn order_independence() {
    let base = [4usize, 10, 4, 0, 7];
    let permutations: [[usize; 5]; 4] = [
        [4, 10, 4, 0, 7],
        [0, 4, 4, 7, 10],
        [10, 7, 4, 4, 0],
        [7, 0, 10, 4, 4],
    ];
    let (summary, _) = stats_of(&base);
    let expected = summary.unwrap();
    for perm in permutations.iter() {
        let (summary, _) = stats_of(perm);
        let st = summary.unwrap();
        assert_eq!(st.num_seqs, expected.num_seqs);
        assert_eq!(st.total, expected.total);
        assert_eq!(st.min_len, expected.min_len);
        assert_eq!(st.average_len, expected.average_len);
        assert_eq!(st.max_len, expected.max_len);
    }
}

#[test]
fn mean_rounding_floors() {
    let (summary, _) = stats_of(&[1, 2]);
    let st = summary.unwrap();
    assert_eq!(st.average_len, 1);
}

#[test]
fn decode_errors_do_not_corrupt_aggregates() {
    let with_errors = vec![
        error("bad header"),
        record(3),
        error("truncated"),
        record(5),
        error("bad byte"),
    ];
    let (summary, diags) = aggregate(&with_errors);
    let st = summary.unwrap();
    let (clean_summary, clean_diags) = stats_of(&[3, 5]);
    let clean = clean_summary.unwrap();
    assert_eq!(st.num_seqs, clean.num_seqs);
    assert_eq!(st.total, clean.total);
    assert_eq!(st.min_len, clean.min_len);
    assert_eq!(st.average_len, clean.average_len);
    assert_eq!(st.max_len, clean.max_len);
    assert_eq!(diags.len(), 3);
    assert_eq!(diags, vec!["bad header", "truncated", "bad byte"]);
    assert!(clean_diags.is_empty());
}

#[test]
fn errors_only_input_is_empty_result() {
    let items = vec![error("one"), error("two")];
    let (summary, diags) = aggregate(&items);
    assert!(summary.is_none());
    assert_eq!(diags, vec!["one", "two"]);
}

#[test]
fn monotonic_bounds() {
    for lens in [&[4usize, 10, 4][..], &[1, 2][..], &[0, 0, 9][..], &[7][..]] {
        let (summary, _) = stats_of(lens);
        let st = summary.unwrap();
        assert!(st.min_len <= st.average_len);
        assert!(st.average_len <= st.max_len);
        assert!(st.min_len <= st.max_len);
        assert!(st.max_len <= st.total);
        if st.num_seqs == 1 {
            assert_eq!(st.min_len, st.max_len);
            assert_eq!(st.max_len, st.total);
            assert_eq!(st.average_len, st.total);
        }
    }
}

#[test]
fn zero_length_first_record_is_not_a_sentinel() {
    let (summary, _) = stats_of(&[0, 6]);
    let st = summary.unwrap();
    assert_eq!(st.num_seqs, 2);
    assert_eq!(st.total, 6);
    assert_eq!(st.min_len, 0);
    assert_eq!(st.average_len, 3);
    assert_eq!(st.max_len, 6);
}

#[test]
fn largest_length_in_one_fold() {
    let mut state = AggregateState::new();
    state.fold(u64::MAX);
    let st = state.finalize().unwrap();
    assert_eq!(st.num_seqs, 1);
    assert_eq!(st.total, u64::MAX);
    assert_eq!(st.min_len, u64::MAX);
    assert_eq!(st.average_len, u64::MAX);
    assert_eq!(st.max_len, u64::MAX);
}

#[test]
fn fold_matches_batch_aggregation() {
    let mut state = AggregateState::new();
    for len in [4u64, 10, 4] {
        state.fold(len);
    }
    let st = state.finalize().unwrap();
    assert_eq!(st.num_seqs, 3);
    assert_eq!(st.total, 18);
    assert_eq!(st.min_len, 4);
    assert_eq!(st.average_len, 6);
    assert_eq!(st.max_len, 10);
}
