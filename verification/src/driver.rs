//! Per-file driving decisions: what, if anything, is written for one
//! analysed file.
//!
//! The surrounding binary walks the input, runs the analysis engine and
//! performs the writes; everything it decides, it asks this module.

use vstd::prelude::*;

use crate::errors::CliError;
use crate::flatten::{flatten_spaces, flatten_spaces_extended};
use crate::options::OutputFormat;
use crate::row::{is_ext_row_of, is_row_of, FlattenedMetrics, FlattenedMetricsExtended};
use crate::space::{preorder, Space};

verus! {

/// What probing the input path found.
#[derive(Clone, Copy, Debug, PartialEq, Eq, Structural)]
pub enum PathKind {
    File,
    Directory,
    Missing,
}

/// An input path must name a file or a directory; anything else ends the
/// run with [`CliError::InvalidInputPath`].
pub fn validate_input(kind: PathKind, path: &String) -> (r: Result<(), CliError>)
    ensures
        r is Err <==> kind == PathKind::Missing,
        r matches Err(e) ==> e matches CliError::InvalidInputPath(p) && p@ == path@,
{
    match kind {
        PathKind::Missing => Err(CliError::InvalidInputPath(path.clone())),
        _ => Ok(()),
    }
}

/// What is written for one analysed file.
pub enum FileOutput {
    /// Nothing: no metrics were extracted, a benign outcome.
    Skip,
    /// The engine's tree, serialised hierarchically.
    Tree(Space),
    /// Regular rows, tabulated.
    Regular(Vec<FlattenedMetrics>),
    /// Extended rows, tabulated.
    Extended(Vec<FlattenedMetricsExtended>),
}

/// Decide what one analysed file produces. `fmt` is the format after
/// promotion (see [`crate::options::effective_format`]).
///
/// Without `--no-flatten` the root's nested spaces are flattened first.
/// CSV mode tabulates the rows, and a file yielding none still produces
/// its table, holding the header line alone; JSON mode writes the tree
/// itself when there are rows, as the tool always has, and nothing when
/// there are none. With `--no-flatten` the tree is written as is —
/// un-sanitised, preserving the tool's asymmetry — and CSV, which cannot
/// hold a tree, writes nothing.
pub fn plan_output(
    root: Space,
    source_file: &Option<String>,
    fmt: OutputFormat,
    no_flatten: bool,
    extended: bool,
) -> (out: FileOutput)
    requires
        source_file.is_some(),
    ensures
        no_flatten && fmt == OutputFormat::Json ==> out == FileOutput::Tree(root),
        no_flatten && fmt == OutputFormat::Csv ==> out == FileOutput::Skip,
        !no_flatten && fmt == OutputFormat::Json && preorder(root.spaces@).len() == 0 ==> out
            == FileOutput::Skip,
        !no_flatten && fmt == OutputFormat::Json && preorder(root.spaces@).len() > 0 ==> out
            == FileOutput::Tree(root),
        !no_flatten && fmt == OutputFormat::Csv && !extended ==> (out matches
            FileOutput::Regular(rows) && rows@.len() == preorder(root.spaces@).len() && forall|
                k: int,
            |
            0 <= k < rows@.len() ==> is_row_of(rows@[k], preorder(root.spaces@)[k], *source_file)),
        !no_flatten && fmt == OutputFormat::Csv && extended ==> (out matches FileOutput::Extended(
            rows,
        ) && rows@.len() == preorder(root.spaces@).len() && forall|k: int|
            0 <= k < rows@.len() ==> is_ext_row_of(
                rows@[k],
                preorder(root.spaces@)[k],
                *source_file,
            )),
{
    if no_flatten {
        if fmt == OutputFormat::Json {
            FileOutput::Tree(root)
        } else {
            FileOutput::Skip
        }
    } else if extended {
        let mut rows: Vec<FlattenedMetricsExtended> = Vec::new();
        flatten_spaces_extended(&root.spaces, source_file, &mut rows);
        if fmt == OutputFormat::Csv {
            FileOutput::Extended(rows)
        } else if rows.is_empty() {
            FileOutput::Skip
        } else {
            FileOutput::Tree(root)
        }
    } else {
        let mut rows: Vec<FlattenedMetrics> = Vec::new();
        flatten_spaces(&root.spaces, source_file, &mut rows);
        if fmt == OutputFormat::Csv {
            FileOutput::Regular(rows)
        } else if rows.is_empty() {
            FileOutput::Skip
        } else {
            FileOutput::Tree(root)
        }
    }
}

} // verus!
