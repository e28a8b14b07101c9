//! The record decoder boundary. Decoding the FASTA text format is done by the
//! `bio` crate; the one call into it stands behind a trusted wrapper whose
//! result is named by `fasta_items_of`. Everything downstream of the decoder
//! is verified against that name.

use crate::model::{err_messages, lemma_item_counts, ok_lengths, total_of};
use crate::stats::{aggregate, items_model, DecodeError, FastaStats, Record};
use vstd::prelude::*;

verus! {

/// The decoded items that the FASTA reader yields for the given input, in
/// stream order, modelled as the record's sequence length (`Ok`) or the
/// decode error's message (`Err`).
pub uninterp spec fn fasta_items_of(bytes: Seq<u8>) -> Seq<Result<nat, Seq<char>>>;

/// Relies on bio::io::fasta::Reader and its Records iterator: the decoded
/// items are a function of the input bytes alone. Every record's sequence is
/// assembled from (right-trimmed) lines of the input, pairwise disjoint, so
/// the record lengths sum to at most the input length; and on empty input the
/// first read yields an empty record, so the iterator yields no items.
#[verifier::external_body]
fn decode_fasta(bytes: &[u8]) -> (r: Vec<Result<Record, DecodeError>>)
    ensures
        items_model(r@) == fasta_items_of(bytes@),
        total_of(ok_lengths(items_model(r@))) <= bytes@.len(),
        bytes@.len() == 0 ==> r@.len() == 0,
{
    bio::io::fasta::Reader::new(bytes)
        .records()
        .map(|item| match item {
            Ok(rec) => Ok(Record { id: rec.id().to_string(), seq: rec.seq().to_vec() }),
            Err(e) => Err(DecodeError { message: e.to_string() }),
        })
        .collect()
}

/// Decode a whole FASTA input held in memory and aggregate it in one pass:
/// the summary of the successfully decoded records' sequence lengths (`None`
/// when there is none), and one diagnostic per decode error, in stream order.
pub fn aggregate_fasta_bytes(bytes: &[u8]) -> (r: (Option<FastaStats>, Vec<String>))
    ensures
        (match r.0 {
            Some(st) => st.summarizes(ok_lengths(fasta_items_of(bytes@))),
            None => ok_lengths(fasta_items_of(bytes@)).len() == 0,
        }),
        r.1@.map_values(|m: String| m@) == err_messages(fasta_items_of(bytes@)),
{
    let items = decode_fasta(bytes);
    let n: usize = bytes.len();
    proof {
        lemma_item_counts(items_model(items@));
        assert(total_of(ok_lengths(items_model(items@))) <= n);
    }
    aggregate(&items)
}

} // verus!
