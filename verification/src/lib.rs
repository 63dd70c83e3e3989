//! Flattening of per-function software-metric trees into tabular rows.
//!
//! An analysis engine reports, for every source file, a tree of lexical
//! spaces (translation unit, functions, closures, classes, ...), each node
//! carrying a bundle of metric values. This library holds the verified part
//! of a batch tool built around that engine: projecting one space into a
//! flat row (regular or extended schema), walking the tree in pre-order to
//! produce a row sequence, normalising non-finite metric values to zero,
//! declaring the exact output schemas, deriving output file names, and the
//! option and error rules of the command line driver.
//!
//! Metric values are carried as the bit patterns of IEEE 754 binary64
//! numbers (`u64`), which keeps every rule about them — in particular
//! finiteness — a matter of integer logic. The surrounding binary converts
//! with `f64::to_bits` / `f64::from_bits` at its edges.

pub mod driver;
pub mod errors;
pub mod flatten;
pub mod options;
pub mod paths;
pub mod row;
pub mod sanitize;
pub mod schema;
pub mod space;
