//! Flat rows: the projection of one space into the regular or the
//! extended output schema.
//!
//! A row carries the identity block (`name`, `source_file`, `start_line`,
//! `end_line`, `kind`, `parent_name`) followed by the metric columns of
//! its schema, every metric value sanitised (non-finite patterns zeroed)
//! exactly once, after all columns are populated and before the row
//! leaves the builder.

use vstd::prelude::*;

use crate::sanitize::{spec_is_finite, spec_sanitize, ReplaceInfNan};
use crate::space::{
    kind_label, opt_str_view, spec_kind_label, spec_name_or_sentinel, Metrics, Space,
};

verus! {

/// A row of the regular schema.
#[allow(non_snake_case)]
pub struct FlattenedMetrics {
    pub name: Option<String>,
    pub source_file: Option<String>,
    pub start_line: usize,
    pub end_line: usize,
    pub kind: String,
    pub parent_name: Option<String>,
    pub fn_args: u64,
    pub closure_args: u64,
    pub nexits: u64,
    pub cognitive: u64,
    pub cyclomatic: u64,
    pub halstead_n1: u64,
    pub halstead_N1: u64,
    pub halstead_n2: u64,
    pub halstead_N2: u64,
    pub halstead_length: u64,
    pub halstead_estimated_program_length: u64,
    pub halstead_purity_ratio: u64,
    pub halstead_vocabulary: u64,
    pub halstead_volume: u64,
    pub halstead_difficulty: u64,
    pub halstead_level: u64,
    pub halstead_effort: u64,
    pub halstead_time: u64,
    pub halstead_bugs: u64,
    pub loc_sloc: u64,
    pub loc_ploc: u64,
    pub loc_lloc: u64,
    pub loc_cloc: u64,
    pub loc_blank: u64,
    pub nom_functions: u64,
    pub nom_closures: u64,
    pub nom_total: u64,
    pub mi_original: u64,
    pub mi_sei: u64,
    pub mi_visual_studio: u64,
}

/// A row of the extended schema: the regular columns plus, per family,
/// the aggregates over descendants (`sum`, `average`, `min`, `max`).
#[allow(non_snake_case)]
pub struct FlattenedMetricsExtended {
    pub name: Option<String>,
    pub source_file: Option<String>,
    pub start_line: usize,
    pub end_line: usize,
    pub kind: String,
    pub parent_name: Option<String>,
    pub fn_args: u64,
    pub closure_args: u64,
    pub nargs_total_functions: u64,
    pub nargs_total_closures: u64,
    pub nargs_average_functions: u64,
    pub nargs_average_closures: u64,
    pub nargs_total: u64,
    pub nargs_average: u64,
    pub nargs_functions_min: u64,
    pub nargs_functions_max: u64,
    pub nargs_closures_min: u64,
    pub nargs_closures_max: u64,
    pub nexits: u64,
    pub nexits_sum: u64,
    pub nexits_average: u64,
    pub nexits_min: u64,
    pub nexits_max: u64,
    pub cognitive: u64,
    pub cognitive_sum: u64,
    pub cognitive_average: u64,
    pub cognitive_min: u64,
    pub cognitive_max: u64,
    pub cyclomatic: u64,
    pub cyclomatic_sum: u64,
    pub cyclomatic_average: u64,
    pub cyclomatic_min: u64,
    pub cyclomatic_max: u64,
    pub halstead_n1: u64,
    pub halstead_N1: u64,
    pub halstead_n2: u64,
    pub halstead_N2: u64,
    pub halstead_length: u64,
    pub halstead_estimated_program_length: u64,
    pub halstead_purity_ratio: u64,
    pub halstead_vocabulary: u64,
    pub halstead_volume: u64,
    pub halstead_difficulty: u64,
    pub halstead_level: u64,
    pub halstead_effort: u64,
    pub halstead_time: u64,
    pub halstead_bugs: u64,
    pub loc_sloc: u64,
    pub loc_ploc: u64,
    pub loc_lloc: u64,
    pub loc_cloc: u64,
    pub loc_blank: u64,
    pub nom_functions: u64,
    pub nom_closures: u64,
    pub nom_total: u64,
    pub nom_functions_min: u64,
    pub nom_functions_max: u64,
    pub nom_closures_min: u64,
    pub nom_closures_max: u64,
    pub mi_original: u64,
    pub mi_sei: u64,
    pub mi_visual_studio: u64,
}

/// The regular metric columns of `r` are the sanitised values of `m`.
pub open spec fn row_values_sanitized(r: FlattenedMetrics, m: Metrics) -> bool {
    &&& r.fn_args == spec_sanitize(m.nargs.fn_args)
    &&& r.closure_args == spec_sanitize(m.nargs.closure_args)
    &&& r.nexits == spec_sanitize(m.nexits.exit)
    &&& r.cognitive == spec_sanitize(m.cognitive.cognitive)
    &&& r.cyclomatic == spec_sanitize(m.cyclomatic.cyclomatic)
    &&& r.halstead_n1 == spec_sanitize(m.halstead.u_operators)
    &&& r.halstead_N1 == spec_sanitize(m.halstead.operators)
    &&& r.halstead_n2 == spec_sanitize(m.halstead.u_operands)
    &&& r.halstead_N2 == spec_sanitize(m.halstead.operands)
    &&& r.halstead_length == spec_sanitize(m.halstead.length)
    &&& r.halstead_estimated_program_length == spec_sanitize(m.halstead.estimated_program_length)
    &&& r.halstead_purity_ratio == spec_sanitize(m.halstead.purity_ratio)
    &&& r.halstead_vocabulary == spec_sanitize(m.halstead.vocabulary)
    &&& r.halstead_volume == spec_sanitize(m.halstead.volume)
    &&& r.halstead_difficulty == spec_sanitize(m.halstead.difficulty)
    &&& r.halstead_level == spec_sanitize(m.halstead.level)
    &&& r.halstead_effort == spec_sanitize(m.halstead.effort)
    &&& r.halstead_time == spec_sanitize(m.halstead.time)
    &&& r.halstead_bugs == spec_sanitize(m.halstead.bugs)
    &&& r.loc_sloc == spec_sanitize(m.loc.sloc)
    &&& r.loc_ploc == spec_sanitize(m.loc.ploc)
    &&& r.loc_lloc == spec_sanitize(m.loc.lloc)
    &&& r.loc_cloc == spec_sanitize(m.loc.cloc)
    &&& r.loc_blank == spec_sanitize(m.loc.blank)
    &&& r.nom_functions == spec_sanitize(m.nom.functions)
    &&& r.nom_closures == spec_sanitize(m.nom.closures)
    &&& r.nom_total == spec_sanitize(m.nom.total)
    &&& r.mi_original == spec_sanitize(m.mi.mi_original)
    &&& r.mi_sei == spec_sanitize(m.mi.mi_sei)
    &&& r.mi_visual_studio == spec_sanitize(m.mi.mi_visual_studio)
}

/// The extended metric columns of `r` are the sanitised values of `m`.
pub open spec fn ext_row_values_sanitized(r: FlattenedMetricsExtended, m: Metrics) -> bool {
    &&& r.fn_args == spec_sanitize(m.nargs.fn_args)
    &&& r.closure_args == spec_sanitize(m.nargs.closure_args)
    &&& r.nargs_total_functions == spec_sanitize(m.nargs.fn_args_sum)
    &&& r.nargs_total_closures == spec_sanitize(m.nargs.closure_args_sum)
    &&& r.nargs_average_functions == spec_sanitize(m.nargs.fn_args_average)
    &&& r.nargs_average_closures == spec_sanitize(m.nargs.closure_args_average)
    &&& r.nargs_total == spec_sanitize(m.nargs.nargs_total)
    &&& r.nargs_average == spec_sanitize(m.nargs.nargs_average)
    &&& r.nargs_functions_min == spec_sanitize(m.nargs.fn_args_min)
    &&& r.nargs_functions_max == spec_sanitize(m.nargs.fn_args_max)
    &&& r.nargs_closures_min == spec_sanitize(m.nargs.closure_args_min)
    &&& r.nargs_closures_max == spec_sanitize(m.nargs.closure_args_max)
    &&& r.nexits == spec_sanitize(m.nexits.exit)
    &&& r.nexits_sum == spec_sanitize(m.nexits.exit_sum)
    &&& r.nexits_average == spec_sanitize(m.nexits.exit_average)
    &&& r.nexits_min == spec_sanitize(m.nexits.exit_min)
    &&& r.nexits_max == spec_sanitize(m.nexits.exit_max)
    &&& r.cognitive == spec_sanitize(m.cognitive.cognitive)
    &&& r.cognitive_sum == spec_sanitize(m.cognitive.cognitive_sum)
    &&& r.cognitive_average == spec_sanitize(m.cognitive.cognitive_average)
    &&& r.cognitive_min == spec_sanitize(m.cognitive.cognitive_min)
    &&& r.cognitive_max == spec_sanitize(m.cognitive.cognitive_max)
    &&& r.cyclomatic == spec_sanitize(m.cyclomatic.cyclomatic)
    &&& r.cyclomatic_sum == spec_sanitize(m.cyclomatic.cyclomatic_sum)
    &&& r.cyclomatic_average == spec_sanitize(m.cyclomatic.cyclomatic_average)
    &&& r.cyclomatic_min == spec_sanitize(m.cyclomatic.cyclomatic_min)
    &&& r.cyclomatic_max == spec_sanitize(m.cyclomatic.cyclomatic_max)
    &&& r.halstead_n1 == spec_sanitize(m.halstead.u_operators)
    &&& r.halstead_N1 == spec_sanitize(m.halstead.operators)
    &&& r.halstead_n2 == spec_sanitize(m.halstead.u_operands)
    &&& r.halstead_N2 == spec_sanitize(m.halstead.operands)
    &&& r.halstead_length == spec_sanitize(m.halstead.length)
    &&& r.halstead_estimated_program_length == spec_sanitize(m.halstead.estimated_program_length)
    &&& r.halstead_purity_ratio == spec_sanitize(m.halstead.purity_ratio)
    &&& r.halstead_vocabulary == spec_sanitize(m.halstead.vocabulary)
    &&& r.halstead_volume == spec_sanitize(m.halstead.volume)
    &&& r.halstead_difficulty == spec_sanitize(m.halstead.difficulty)
    &&& r.halstead_level == spec_sanitize(m.halstead.level)
    &&& r.halstead_effort == spec_sanitize(m.halstead.effort)
    &&& r.halstead_time == spec_sanitize(m.halstead.time)
    &&& r.halstead_bugs == spec_sanitize(m.halstead.bugs)
    &&& r.loc_sloc == spec_sanitize(m.loc.sloc)
    &&& r.loc_ploc == spec_sanitize(m.loc.ploc)
    &&& r.loc_lloc == spec_sanitize(m.loc.lloc)
    &&& r.loc_cloc == spec_sanitize(m.loc.cloc)
    &&& r.loc_blank == spec_sanitize(m.loc.blank)
    &&& r.nom_functions == spec_sanitize(m.nom.functions)
    &&& r.nom_closures == spec_sanitize(m.nom.closures)
    &&& r.nom_total == spec_sanitize(m.nom.total)
    &&& r.nom_functions_min == spec_sanitize(m.nom.functions_min)
    &&& r.nom_functions_max == spec_sanitize(m.nom.functions_max)
    &&& r.nom_closures_min == spec_sanitize(m.nom.closures_min)
    &&& r.nom_closures_max == spec_sanitize(m.nom.closures_max)
    &&& r.mi_original == spec_sanitize(m.mi.mi_original)
    &&& r.mi_sei == spec_sanitize(m.mi.mi_sei)
    &&& r.mi_visual_studio == spec_sanitize(m.mi.mi_visual_studio)
}

/// Every metric column of a regular row is finite.
pub open spec fn row_finite(r: FlattenedMetrics) -> bool {
    &&& spec_is_finite(r.fn_args)
    &&& spec_is_finite(r.closure_args)
    &&& spec_is_finite(r.nexits)
    &&& spec_is_finite(r.cognitive)
    &&& spec_is_finite(r.cyclomatic)
    &&& spec_is_finite(r.halstead_n1)
    &&& spec_is_finite(r.halstead_N1)
    &&& spec_is_finite(r.halstead_n2)
    &&& spec_is_finite(r.halstead_N2)
    &&& spec_is_finite(r.halstead_length)
    &&& spec_is_finite(r.halstead_estimated_program_length)
    &&& spec_is_finite(r.halstead_purity_ratio)
    &&& spec_is_finite(r.halstead_vocabulary)
    &&& spec_is_finite(r.halstead_volume)
    &&& spec_is_finite(r.halstead_difficulty)
    &&& spec_is_finite(r.halstead_level)
    &&& spec_is_finite(r.halstead_effort)
    &&& spec_is_finite(r.halstead_time)
    &&& spec_is_finite(r.halstead_bugs)
    &&& spec_is_finite(r.loc_sloc)
    &&& spec_is_finite(r.loc_ploc)
    &&& spec_is_finite(r.loc_lloc)
    &&& spec_is_finite(r.loc_cloc)
    &&& spec_is_finite(r.loc_blank)
    &&& spec_is_finite(r.nom_functions)
    &&& spec_is_finite(r.nom_closures)
    &&& spec_is_finite(r.nom_total)
    &&& spec_is_finite(r.mi_original)
    &&& spec_is_finite(r.mi_sei)
    &&& spec_is_finite(r.mi_visual_studio)
}

/// Every metric column of an extended row is finite.
pub open spec fn ext_row_finite(r: FlattenedMetricsExtended) -> bool {
    &&& spec_is_finite(r.fn_args)
    &&& spec_is_finite(r.closure_args)
    &&& spec_is_finite(r.nargs_total_functions)
    &&& spec_is_finite(r.nargs_total_closures)
    &&& spec_is_finite(r.nargs_average_functions)
    &&& spec_is_finite(r.nargs_average_closures)
    &&& spec_is_finite(r.nargs_total)
    &&& spec_is_finite(r.nargs_average)
    &&& spec_is_finite(r.nargs_functions_min)
    &&& spec_is_finite(r.nargs_functions_max)
    &&& spec_is_finite(r.nargs_closures_min)
    &&& spec_is_finite(r.nargs_closures_max)
    &&& spec_is_finite(r.nexits)
    &&& spec_is_finite(r.nexits_sum)
    &&& spec_is_finite(r.nexits_average)
    &&& spec_is_finite(r.nexits_min)
    &&& spec_is_finite(r.nexits_max)
    &&& spec_is_finite(r.cognitive)
    &&& spec_is_finite(r.cognitive_sum)
    &&& spec_is_finite(r.cognitive_average)
    &&& spec_is_finite(r.cognitive_min)
    &&& spec_is_finite(r.cognitive_max)
    &&& spec_is_finite(r.cyclomatic)
    &&& spec_is_finite(r.cyclomatic_sum)
    &&& spec_is_finite(r.cyclomatic_average)
    &&& spec_is_finite(r.cyclomatic_min)
    &&& spec_is_finite(r.cyclomatic_max)
    &&& spec_is_finite(r.halstead_n1)
    &&& spec_is_finite(r.halstead_N1)
    &&& spec_is_finite(r.halstead_n2)
    &&& spec_is_finite(r.halstead_N2)
    &&& spec_is_finite(r.halstead_length)
    &&& spec_is_finite(r.halstead_estimated_program_length)
    &&& spec_is_finite(r.halstead_purity_ratio)
    &&& spec_is_finite(r.halstead_vocabulary)
    &&& spec_is_finite(r.halstead_volume)
    &&& spec_is_finite(r.halstead_difficulty)
    &&& spec_is_finite(r.halstead_level)
    &&& spec_is_finite(r.halstead_effort)
    &&& spec_is_finite(r.halstead_time)
    &&& spec_is_finite(r.halstead_bugs)
    &&& spec_is_finite(r.loc_sloc)
    &&& spec_is_finite(r.loc_ploc)
    &&& spec_is_finite(r.loc_lloc)
    &&& spec_is_finite(r.loc_cloc)
    &&& spec_is_finite(r.loc_blank)
    &&& spec_is_finite(r.nom_functions)
    &&& spec_is_finite(r.nom_closures)
    &&& spec_is_finite(r.nom_total)
    &&& spec_is_finite(r.nom_functions_min)
    &&& spec_is_finite(r.nom_functions_max)
    &&& spec_is_finite(r.nom_closures_min)
    &&& spec_is_finite(r.nom_closures_max)
    &&& spec_is_finite(r.mi_original)
    &&& spec_is_finite(r.mi_sei)
    &&& spec_is_finite(r.mi_visual_studio)
}

/// `r` is the regular row the flattener owes for the space `s` of the
/// file `src`: identity copied from `s`, `parent_name` the space's own
/// name (or the sentinel), metric columns sanitised.
pub open spec fn is_row_of(r: FlattenedMetrics, s: Space, src: Option<String>) -> bool {
    &&& r.name == s.name
    &&& r.source_file == src
    &&& r.start_line == s.start_line
    &&& r.end_line == s.end_line
    &&& r.kind@ == spec_kind_label(s.kind)
    &&& opt_str_view(r.parent_name) == Some(spec_name_or_sentinel(s))
    &&& row_values_sanitized(r, s.metrics)
}

/// The extended counterpart of [`is_row_of`].
pub open spec fn is_ext_row_of(r: FlattenedMetricsExtended, s: Space, src: Option<String>) -> bool {
    &&& r.name == s.name
    &&& r.source_file == src
    &&& r.start_line == s.start_line
    &&& r.end_line == s.end_line
    &&& r.kind@ == spec_kind_label(s.kind)
    &&& opt_str_view(r.parent_name) == Some(spec_name_or_sentinel(s))
    &&& ext_row_values_sanitized(r, s.metrics)
}

impl ReplaceInfNan for FlattenedMetrics {
    /// Metric columns sanitised, identity untouched.
    open spec fn sanitized_from(post: FlattenedMetrics, pre: FlattenedMetrics) -> bool {
        &&& post.name == pre.name
        &&& post.source_file == pre.source_file
        &&& post.start_line == pre.start_line
        &&& post.end_line == pre.end_line
        &&& post.kind == pre.kind
        &&& post.parent_name == pre.parent_name
        &&& post.fn_args == spec_sanitize(pre.fn_args)
        &&& post.closure_args == spec_sanitize(pre.closure_args)
        &&& post.nexits == spec_sanitize(pre.nexits)
        &&& post.cognitive == spec_sanitize(pre.cognitive)
        &&& post.cyclomatic == spec_sanitize(pre.cyclomatic)
        &&& post.halstead_n1 == spec_sanitize(pre.halstead_n1)
        &&& post.halstead_N1 == spec_sanitize(pre.halstead_N1)
        &&& post.halstead_n2 == spec_sanitize(pre.halstead_n2)
        &&& post.halstead_N2 == spec_sanitize(pre.halstead_N2)
        &&& post.halstead_length == spec_sanitize(pre.halstead_length)
        &&& post.halstead_estimated_program_length == spec_sanitize(
            pre.halstead_estimated_program_length,
        )
        &&& post.halstead_purity_ratio == spec_sanitize(pre.halstead_purity_ratio)
        &&& post.halstead_vocabulary == spec_sanitize(pre.halstead_vocabulary)
        &&& post.halstead_volume == spec_sanitize(pre.halstead_volume)
        &&& post.halstead_difficulty == spec_sanitize(pre.halstead_difficulty)
        &&& post.halstead_level == spec_sanitize(pre.halstead_level)
        &&& post.halstead_effort == spec_sanitize(pre.halstead_effort)
        &&& post.halstead_time == spec_sanitize(pre.halstead_time)
        &&& post.halstead_bugs == spec_sanitize(pre.halstead_bugs)
        &&& post.loc_sloc == spec_sanitize(pre.loc_sloc)
        &&& post.loc_ploc == spec_sanitize(pre.loc_ploc)
        &&& post.loc_lloc == spec_sanitize(pre.loc_lloc)
        &&& post.loc_cloc == spec_sanitize(pre.loc_cloc)
        &&& post.loc_blank == spec_sanitize(pre.loc_blank)
        &&& post.nom_functions == spec_sanitize(pre.nom_functions)
        &&& post.nom_closures == spec_sanitize(pre.nom_closures)
        &&& post.nom_total == spec_sanitize(pre.nom_total)
        &&& post.mi_original == spec_sanitize(pre.mi_original)
        &&& post.mi_sei == spec_sanitize(pre.mi_sei)
        &&& post.mi_visual_studio == spec_sanitize(pre.mi_visual_studio)
    }

    fn replace_inf_nan(&mut self) {
        self.fn_args.replace_inf_nan();
        self.closure_args.replace_inf_nan();
        self.nexits.replace_inf_nan();
        self.cognitive.replace_inf_nan();
        self.cyclomatic.replace_inf_nan();
        self.halstead_n1.replace_inf_nan();
        self.halstead_N1.replace_inf_nan();
        self.halstead_n2.replace_inf_nan();
        self.halstead_N2.replace_inf_nan();
        self.halstead_length.replace_inf_nan();
        self.halstead_estimated_program_length.replace_inf_nan();
        self.halstead_purity_ratio.replace_inf_nan();
        self.halstead_vocabulary.replace_inf_nan();
        self.halstead_volume.replace_inf_nan();
        self.halstead_difficulty.replace_inf_nan();
        self.halstead_level.replace_inf_nan();
        self.halstead_effort.replace_inf_nan();
        self.halstead_time.replace_inf_nan();
        self.halstead_bugs.replace_inf_nan();
        self.loc_sloc.replace_inf_nan();
        self.loc_ploc.replace_inf_nan();
        self.loc_lloc.replace_inf_nan();
        self.loc_cloc.replace_inf_nan();
        self.loc_blank.replace_inf_nan();
        self.nom_functions.replace_inf_nan();
        self.nom_closures.replace_inf_nan();
        self.nom_total.replace_inf_nan();
        self.mi_original.replace_inf_nan();
        self.mi_sei.replace_inf_nan();
        self.mi_visual_studio.replace_inf_nan();
    }
}

impl ReplaceInfNan for FlattenedMetricsExtended {
    /// Metric columns sanitised, identity untouched.
    open spec fn sanitized_from(post: FlattenedMetricsExtended, pre: FlattenedMetricsExtended) -> bool {
        &&& post.name == pre.name
        &&& post.source_file == pre.source_file
        &&& post.start_line == pre.start_line
        &&& post.end_line == pre.end_line
        &&& post.kind == pre.kind
        &&& post.parent_name == pre.parent_name
        &&& post.fn_args == spec_sanitize(pre.fn_args)
        &&& post.closure_args == spec_sanitize(pre.closure_args)
        &&& post.nargs_total_functions == spec_sanitize(pre.nargs_total_functions)
        &&& post.nargs_total_closures == spec_sanitize(pre.nargs_total_closures)
        &&& post.nargs_average_functions == spec_sanitize(pre.nargs_average_functions)
        &&& post.nargs_average_closures == spec_sanitize(pre.nargs_average_closures)
        &&& post.nargs_total == spec_sanitize(pre.nargs_total)
        &&& post.nargs_average == spec_sanitize(pre.nargs_average)
        &&& post.nargs_functions_min == spec_sanitize(pre.nargs_functions_min)
        &&& post.nargs_functions_max == spec_sanitize(pre.nargs_functions_max)
        &&& post.nargs_closures_min == spec_sanitize(pre.nargs_closures_min)
        &&& post.nargs_closures_max == spec_sanitize(pre.nargs_closures_max)
        &&& post.nexits == spec_sanitize(pre.nexits)
        &&& post.nexits_sum == spec_sanitize(pre.nexits_sum)
        &&& post.nexits_average == spec_sanitize(pre.nexits_average)
        &&& post.nexits_min == spec_sanitize(pre.nexits_min)
        &&& post.nexits_max == spec_sanitize(pre.nexits_max)
        &&& post.cognitive == spec_sanitize(pre.cognitive)
        &&& post.cognitive_sum == spec_sanitize(pre.cognitive_sum)
        &&& post.cognitive_average == spec_sanitize(pre.cognitive_average)
        &&& post.cognitive_min == spec_sanitize(pre.cognitive_min)
        &&& post.cognitive_max == spec_sanitize(pre.cognitive_max)
        &&& post.cyclomatic == spec_sanitize(pre.cyclomatic)
        &&& post.cyclomatic_sum == spec_sanitize(pre.cyclomatic_sum)
        &&& post.cyclomatic_average == spec_sanitize(pre.cyclomatic_average)
        &&& post.cyclomatic_min == spec_sanitize(pre.cyclomatic_min)
        &&& post.cyclomatic_max == spec_sanitize(pre.cyclomatic_max)
        &&& post.halstead_n1 == spec_sanitize(pre.halstead_n1)
        &&& post.halstead_N1 == spec_sanitize(pre.halstead_N1)
        &&& post.halstead_n2 == spec_sanitize(pre.halstead_n2)
        &&& post.halstead_N2 == spec_sanitize(pre.halstead_N2)
        &&& post.halstead_length == spec_sanitize(pre.halstead_length)
        &&& post.halstead_estimated_program_length == spec_sanitize(
            pre.halstead_estimated_program_length,
        )
        &&& post.halstead_purity_ratio == spec_sanitize(pre.halstead_purity_ratio)
        &&& post.halstead_vocabulary == spec_sanitize(pre.halstead_vocabulary)
        &&& post.halstead_volume == spec_sanitize(pre.halstead_volume)
        &&& post.halstead_difficulty == spec_sanitize(pre.halstead_difficulty)
        &&& post.halstead_level == spec_sanitize(pre.halstead_level)
        &&& post.halstead_effort == spec_sanitize(pre.halstead_effort)
        &&& post.halstead_time == spec_sanitize(pre.halstead_time)
        &&& post.halstead_bugs == spec_sanitize(pre.halstead_bugs)
        &&& post.loc_sloc == spec_sanitize(pre.loc_sloc)
        &&& post.loc_ploc == spec_sanitize(pre.loc_ploc)
        &&& post.loc_lloc == spec_sanitize(pre.loc_lloc)
        &&& post.loc_cloc == spec_sanitize(pre.loc_cloc)
        &&& post.loc_blank == spec_sanitize(pre.loc_blank)
        &&& post.nom_functions == spec_sanitize(pre.nom_functions)
        &&& post.nom_closures == spec_sanitize(pre.nom_closures)
        &&& post.nom_total == spec_sanitize(pre.nom_total)
        &&& post.nom_functions_min == spec_sanitize(pre.nom_functions_min)
        &&& post.nom_functions_max == spec_sanitize(pre.nom_functions_max)
        &&& post.nom_closures_min == spec_sanitize(pre.nom_closures_min)
        &&& post.nom_closures_max == spec_sanitize(pre.nom_closures_max)
        &&& post.mi_original == spec_sanitize(pre.mi_original)
        &&& post.mi_sei == spec_sanitize(pre.mi_sei)
        &&& post.mi_visual_studio == spec_sanitize(pre.mi_visual_studio)
    }

    fn replace_inf_nan(&mut self) {
        self.fn_args.replace_inf_nan();
        self.closure_args.replace_inf_nan();
        self.nargs_total_functions.replace_inf_nan();
        self.nargs_total_closures.replace_inf_nan();
        self.nargs_average_functions.replace_inf_nan();
        self.nargs_average_closures.replace_inf_nan();
        self.nargs_total.replace_inf_nan();
        self.nargs_average.replace_inf_nan();
        self.nargs_functions_min.replace_inf_nan();
        self.nargs_functions_max.replace_inf_nan();
        self.nargs_closures_min.replace_inf_nan();
        self.nargs_closures_max.replace_inf_nan();
        self.nexits.replace_inf_nan();
        self.nexits_sum.replace_inf_nan();
        self.nexits_average.replace_inf_nan();
        self.nexits_min.replace_inf_nan();
        self.nexits_max.replace_inf_nan();
        self.cognitive.replace_inf_nan();
        self.cognitive_sum.replace_inf_nan();
        self.cognitive_average.replace_inf_nan();
        self.cognitive_min.replace_inf_nan();
        self.cognitive_max.replace_inf_nan();
        self.cyclomatic.replace_inf_nan();
        self.cyclomatic_sum.replace_inf_nan();
        self.cyclomatic_average.replace_inf_nan();
        self.cyclomatic_min.replace_inf_nan();
        self.cyclomatic_max.replace_inf_nan();
        self.halstead_n1.replace_inf_nan();
        self.halstead_N1.replace_inf_nan();
        self.halstead_n2.replace_inf_nan();
        self.halstead_N2.replace_inf_nan();
        self.halstead_length.replace_inf_nan();
        self.halstead_estimated_program_length.replace_inf_nan();
        self.halstead_purity_ratio.replace_inf_nan();
        self.halstead_vocabulary.replace_inf_nan();
        self.halstead_volume.replace_inf_nan();
        self.halstead_difficulty.replace_inf_nan();
        self.halstead_level.replace_inf_nan();
        self.halstead_effort.replace_inf_nan();
        self.halstead_time.replace_inf_nan();
        self.halstead_bugs.replace_inf_nan();
        self.loc_sloc.replace_inf_nan();
        self.loc_ploc.replace_inf_nan();
        self.loc_lloc.replace_inf_nan();
        self.loc_cloc.replace_inf_nan();
        self.loc_blank.replace_inf_nan();
        self.nom_functions.replace_inf_nan();
        self.nom_closures.replace_inf_nan();
        self.nom_total.replace_inf_nan();
        self.nom_functions_min.replace_inf_nan();
        self.nom_functions_max.replace_inf_nan();
        self.nom_closures_min.replace_inf_nan();
        self.nom_closures_max.replace_inf_nan();
        self.mi_original.replace_inf_nan();
        self.mi_sei.replace_inf_nan();
        self.mi_visual_studio.replace_inf_nan();
    }
}

impl FlattenedMetrics {
    /// Project one space into a regular row: identity copied, the caller's
    /// `parent_name` hint and `source_file` taken as given, every metric
    /// column populated in schema order and then sanitised once.
    pub fn from_space(
        space: &Space,
        parent_name: Option<String>,
        source_file: Option<String>,
    ) -> (r: Self)
        ensures
            r.name == space.name,
            r.source_file == source_file,
            r.start_line == space.start_line,
            r.end_line == space.end_line,
            r.kind@ == spec_kind_label(space.kind),
            r.parent_name == parent_name,
            row_values_sanitized(r, space.metrics),
            row_finite(r),
    {
        let name = match &space.name {
            Some(n) => Some(n.clone()),
            None => None,
        };
        let mut obj = Self {
            name,
            source_file,
            start_line: space.start_line,
            end_line: space.end_line,
            kind: kind_label(space.kind).to_owned(),
            parent_name,
            fn_args: space.metrics.nargs.fn_args,
            closure_args: space.metrics.nargs.closure_args,
            nexits: space.metrics.nexits.exit,
            cognitive: space.metrics.cognitive.cognitive,
            cyclomatic: space.metrics.cyclomatic.cyclomatic,
            halstead_n1: space.metrics.halstead.u_operators,
            halstead_N1: space.metrics.halstead.operators,
            halstead_n2: space.metrics.halstead.u_operands,
            halstead_N2: space.metrics.halstead.operands,
            halstead_length: space.metrics.halstead.length,
            halstead_estimated_program_length: space.metrics.halstead.estimated_program_length,
            halstead_purity_ratio: space.metrics.halstead.purity_ratio,
            halstead_vocabulary: space.metrics.halstead.vocabulary,
            halstead_volume: space.metrics.halstead.volume,
            halstead_difficulty: space.metrics.halstead.difficulty,
            halstead_level: space.metrics.halstead.level,
            halstead_effort: space.metrics.halstead.effort,
            halstead_time: space.metrics.halstead.time,
            halstead_bugs: space.metrics.halstead.bugs,
            loc_sloc: space.metrics.loc.sloc,
            loc_ploc: space.metrics.loc.ploc,
            loc_lloc: space.metrics.loc.lloc,
            loc_cloc: space.metrics.loc.cloc,
            loc_blank: space.metrics.loc.blank,
            nom_functions: space.metrics.nom.functions,
            nom_closures: space.metrics.nom.closures,
            nom_total: space.metrics.nom.total,
            mi_original: space.metrics.mi.mi_original,
            mi_sei: space.metrics.mi.mi_sei,
            mi_visual_studio: space.metrics.mi.mi_visual_studio,
        };
        let ghost raw = obj;
        obj.replace_inf_nan();
        proof {
            lemma_row_sanitized_finite(obj, raw);
        }
        obj
    }
}

impl FlattenedMetricsExtended {
    /// Project one space into an extended row: as the regular builder,
    /// with the per-family aggregates over descendants added.
    pub fn from_space(
        space: &Space,
        parent_name: Option<String>,
        source_file: Option<String>,
    ) -> (r: Self)
        ensures
            r.name == space.name,
            r.source_file == source_file,
            r.start_line == space.start_line,
            r.end_line == space.end_line,
            r.kind@ == spec_kind_label(space.kind),
            r.parent_name == parent_name,
            ext_row_values_sanitized(r, space.metrics),
            ext_row_finite(r),
    {
        let name = match &space.name {
            Some(n) => Some(n.clone()),
            None => None,
        };
        let mut obj = Self {
            name,
            source_file,
            start_line: space.start_line,
            end_line: space.end_line,
            kind: kind_label(space.kind).to_owned(),
            parent_name,
            fn_args: space.metrics.nargs.fn_args,
            closure_args: space.metrics.nargs.closure_args,
            nargs_total_functions: space.metrics.nargs.fn_args_sum,
            nargs_total_closures: space.metrics.nargs.closure_args_sum,
            nargs_average_functions: space.metrics.nargs.fn_args_average,
            nargs_average_closures: space.metrics.nargs.closure_args_average,
            nargs_total: space.metrics.nargs.nargs_total,
            nargs_average: space.metrics.nargs.nargs_average,
            nargs_functions_min: space.metrics.nargs.fn_args_min,
            nargs_functions_max: space.metrics.nargs.fn_args_max,
            nargs_closures_min: space.metrics.nargs.closure_args_min,
            nargs_closures_max: space.metrics.nargs.closure_args_max,
            nexits: space.metrics.nexits.exit,
            nexits_sum: space.metrics.nexits.exit_sum,
            nexits_average: space.metrics.nexits.exit_average,
            nexits_min: space.metrics.nexits.exit_min,
            nexits_max: space.metrics.nexits.exit_max,
            cognitive: space.metrics.cognitive.cognitive,
            cognitive_sum: space.metrics.cognitive.cognitive_sum,
            cognitive_average: space.metrics.cognitive.cognitive_average,
            cognitive_min: space.metrics.cognitive.cognitive_min,
            cognitive_max: space.metrics.cognitive.cognitive_max,
            cyclomatic: space.metrics.cyclomatic.cyclomatic,
            cyclomatic_sum: space.metrics.cyclomatic.cyclomatic_sum,
            cyclomatic_average: space.metrics.cyclomatic.cyclomatic_average,
            cyclomatic_min: space.metrics.cyclomatic.cyclomatic_min,
            cyclomatic_max: space.metrics.cyclomatic.cyclomatic_max,
            halstead_n1: space.metrics.halstead.u_operators,
            halstead_N1: space.metrics.halstead.operators,
            halstead_n2: space.metrics.halstead.u_operands,
            halstead_N2: space.metrics.halstead.operands,
            halstead_length: space.metrics.halstead.length,
            halstead_estimated_program_length: space.metrics.halstead.estimated_program_length,
            halstead_purity_ratio: space.metrics.halstead.purity_ratio,
            halstead_vocabulary: space.metrics.halstead.vocabulary,
            halstead_volume: space.metrics.halstead.volume,
            halstead_difficulty: space.metrics.halstead.difficulty,
            halstead_level: space.metrics.halstead.level,
            halstead_effort: space.metrics.halstead.effort,
            halstead_time: space.metrics.halstead.time,
            halstead_bugs: space.metrics.halstead.bugs,
            loc_sloc: space.metrics.loc.sloc,
            loc_ploc: space.metrics.loc.ploc,
            loc_lloc: space.metrics.loc.lloc,
            loc_cloc: space.metrics.loc.cloc,
            loc_blank: space.metrics.loc.blank,
            nom_functions: space.metrics.nom.functions,
            nom_closures: space.metrics.nom.closures,
            nom_total: space.metrics.nom.total,
            nom_functions_min: space.metrics.nom.functions_min,
            nom_functions_max: space.metrics.nom.functions_max,
            nom_closures_min: space.metrics.nom.closures_min,
            nom_closures_max: space.metrics.nom.closures_max,
            mi_original: space.metrics.mi.mi_original,
            mi_sei: space.metrics.mi.mi_sei,
            mi_visual_studio: space.metrics.mi.mi_visual_studio,
        };
        let ghost raw = obj;
        obj.replace_inf_nan();
        proof {
            lemma_ext_row_sanitized_finite(obj, raw);
        }
        obj
    }
}

/// A regular row that just left the sanitizer is finite in every metric
/// column.
pub proof fn lemma_row_sanitized_finite(post: FlattenedMetrics, pre: FlattenedMetrics)
    requires
        FlattenedMetrics::sanitized_from(post, pre),
    ensures
        row_finite(post),
{
    broadcast use crate::sanitize::lemma_sanitize_finite;

}

/// The extended counterpart of [`lemma_row_sanitized_finite`].
pub proof fn lemma_ext_row_sanitized_finite(
    post: FlattenedMetricsExtended,
    pre: FlattenedMetricsExtended,
)
    requires
        FlattenedMetricsExtended::sanitized_from(post, pre),
    ensures
        ext_row_finite(post),
{
    broadcast use crate::sanitize::lemma_sanitize_finite;

}

} // verus!
