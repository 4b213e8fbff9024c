//! Vector storage and similarity scoring for one segment of a vector-search
//! database: the dense/sparse vector union, recommendation queries and their
//! score fold, tombstone-based deletion, storage backends behind one closed
//! dispatch enum, and validation of queries against a segment's configuration.
//!
//! Vector elements and sparse weights are carried as the IEEE-754 bit pattern
//! of a 32-bit float (`f32::to_bits`); the library never computes with them.
//! Similarity scores are integers.
pub mod types;
pub mod common;
pub mod sparse_vector;
pub mod reco_query;
pub mod vectors;
pub mod named;
pub mod tombstones;
pub mod vector_storage;
pub mod quantized_scorer_builder;
