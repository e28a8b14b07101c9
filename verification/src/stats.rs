//! The streaming aggregator: folds the sequence length of each successfully
//! decoded record into five running scalars, skips decode errors, and at end
//! of stream yields either a completed summary or the empty result (`None`).

use crate::model::{
    err_messages, lemma_item_counts, lemma_min_max_push, lemma_take_step, lemma_total_push,
    lemma_total_take_le, max_of, mean_of, min_of, ok_lengths, total_of,
};
use vstd::prelude::*;

verus! {

/// A decoded sequence record: an identifier and the sequence's symbols. Only
/// the sequence's length enters the aggregates.
pub struct Record {
    pub id: String,
    pub seq: Vec<u8>,
}

impl Record {
    /// The record's sequence length, the one scalar the aggregator consumes.
    pub open spec fn spec_length(&self) -> nat {
        self.seq@.len()
    }

    /// The record's sequence length.
    pub fn length(&self) -> (l: usize)
        ensures
            l == self.spec_length(),
    {
        self.seq.len()
    }
}

/// A per-record decode failure, carrying its diagnostic message. It is
/// reported and skipped; it never aborts the pass.
pub struct DecodeError {
    pub message: String,
}

/// What one decoded item contributes to the model: the record's sequence
/// length, or the error's message.
pub open spec fn item_model(item: Result<Record, DecodeError>) -> Result<nat, Seq<char>> {
    match item {
        Ok(r) => Ok(r.seq@.len()),
        Err(e) => Err(e.message@),
    }
}

/// The model of a whole decoded stream.
pub open spec fn items_model(items: Seq<Result<Record, DecodeError>>) -> Seq<
    Result<nat, Seq<char>>,
> {
    items.map_values(|it: Result<Record, DecodeError>| item_model(it))
}

/// The summary produced at end of stream from a non-empty pass.
pub struct FastaStats {
    pub num_seqs: u64,
    pub total: u64,
    pub min_len: u64,
    pub average_len: u64,
    pub max_len: u64,
}

impl FastaStats {
    /// The summary's five fields are exactly the aggregates of the given
    /// non-empty sequence of record lengths, with the mean the floor of
    /// total over count.
    pub open spec fn summarizes(&self, lens: Seq<nat>) -> bool {
        &&& lens.len() > 0
        &&& self.num_seqs == lens.len()
        &&& self.total == total_of(lens)
        &&& self.min_len == min_of(lens)
        &&& self.average_len == mean_of(lens)
        &&& self.max_len == max_of(lens)
    }
}

/// The running aggregates of one pass, together with the (ghost) history of
/// the record lengths folded so far.
pub struct AggregateState {
    pub num_seqs: u64,
    pub total: u64,
    pub min_len: u64,
    pub max_len: u64,
    /// The record lengths folded so far, in stream order.
    pub history: Ghost<Seq<nat>>,
}

impl AggregateState {
    /// The scalar aggregates agree with the folded history.
    pub open spec fn wf(&self) -> bool {
        &&& self.num_seqs == self.history@.len()
        &&& self.total == total_of(self.history@)
        &&& self.history@.len() > 0 ==> self.min_len == min_of(self.history@)
            && self.max_len == max_of(self.history@)
    }

    /// A fresh pass: nothing folded yet.
    pub fn new() -> (s: Self)
        ensures
            s.wf(),
            s.history@ == Seq::<nat>::empty(),
    {
        AggregateState { num_seqs: 0, total: 0, min_len: 0, max_len: 0, history: Ghost(Seq::empty()) }
    }

    /// Fold one successfully decoded record's sequence length into the
    /// aggregates. The first fold seeds the minimum and maximum with the
    /// length itself, so a zero-length first record is not mistaken for
    /// "nothing seen yet".
    pub fn fold(&mut self, len: u64)
        requires
            old(self).wf(),
            old(self).total + len <= u64::MAX,
            old(self).num_seqs < u64::MAX,
        ensures
            final(self).wf(),
            final(self).history@ == old(self).history@.push(len as nat),
    {
        proof {
            lemma_total_push(self.history@, len as nat);
            if self.history@.len() > 0 {
                lemma_min_max_push(self.history@, len as nat);
            }
        }
        self.num_seqs = self.num_seqs + 1;
        self.total = self.total + len;
        if self.num_seqs == 1 {
            self.min_len = len;
            self.max_len = len;
        } else {
            if len < self.min_len {
                self.min_len = len;
            }
            if len > self.max_len {
                self.max_len = len;
            }
        }
        self.history = Ghost(self.history@.push(len as nat));
    }

    /// End of stream: the completed summary, or `None` when no record was
    /// folded. The mean truncates toward zero (floor, both operands being
    /// non-negative), never rounds to nearest.
    pub fn finalize(&self) -> (r: Option<FastaStats>)
        requires
            self.wf(),
        ensures
            (match r {
                Some(st) => st.summarizes(self.history@),
                None => self.history@.len() == 0,
            }),
    {
        if self.num_seqs > 0 {
            Some(
                FastaStats {
                    num_seqs: self.num_seqs,
                    total: self.total,
                    min_len: self.min_len,
                    average_len: self.total / self.num_seqs,
                    max_len: self.max_len,
                },
            )
        } else {
            None
        }
    }
}

/// Consume a whole decoded stream in one pass, in order: fold each record's
/// length, collect each decode error's message as a diagnostic, and at end of
/// stream produce the summary, or `None` for an input without a single
/// successfully decoded record.
pub fn aggregate(items: &Vec<Result<Record, DecodeError>>) -> (r: (Option<FastaStats>, Vec<String>))
    requires
        total_of(ok_lengths(items_model(items@))) <= u64::MAX,
    ensures
        (match r.0 {
            Some(st) => st.summarizes(ok_lengths(items_model(items@))),
            None => ok_lengths(items_model(items@)).len() == 0,
        }),
        r.1@.map_values(|m: String| m@) == err_messages(items_model(items@)),
{
    let ghost m = items_model(items@);
    let mut state = AggregateState::new();
    let mut diags: Vec<String> = Vec::new();
    let mut i: usize = 0;
    while i < items.len()
        invariant
            0 <= i <= items.len(),
            m == items_model(items@),
            total_of(ok_lengths(m)) <= u64::MAX,
            state.wf(),
            state.history@ == ok_lengths(m.take(i as int)),
            diags@.map_values(|s: String| s@) == err_messages(m.take(i as int)),
        decreases items.len() - i,
    {
        proof {
            lemma_take_step(m, i as int);
        }
        match &items[i] {
            Ok(rec) => {
                let len: usize = rec.length();
                proof {
                    lemma_item_counts(m.take(i as int));
                    lemma_total_take_le(m, i as int + 1);
                    lemma_total_push(ok_lengths(m.take(i as int)), len as nat);
                }
                state.fold(len as u64);
            },
            Err(e) => {
                diags.push(e.message.clone());
                proof {
                    assert(diags@.map_values(|s: String| s@) =~= err_messages(
                        m.take(i as int + 1),
                    ));
                }
            },
        }
        i = i + 1;
    }
    proof {
        assert(m.take(items@.len() as int) =~= m);
    }
    (state.finalize(), diags)
}

} // verus!
