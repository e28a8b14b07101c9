//! Summary statistics over a stream of decoded FASTA sequence records.
//!
//! The decoder yields one item per record: either a successfully decoded
//! record or a per-record decode error. The aggregator folds each record's
//! sequence length into five running scalars (count, total, minimum, mean,
//! maximum) in a single pass; decode errors are collected as diagnostics and
//! never abort the pass. An empty stream yields a distinguished empty result
//! rather than a summary.

pub mod decode;
pub mod format;
pub mod laws;
pub mod model;
pub mod stats;
