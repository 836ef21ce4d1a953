use vstd::prelude::*;

use crate::config::{Config, CoverageReport};

verus! {

/// Which of the two metrics a comparison flagged.
#[derive(Clone, Copy, Debug, PartialEq, Eq, Structural)]
pub struct MetricChanges {
    pub branch: bool,
    pub line: bool,
}

impl MetricChanges {
    /// Whether at least one metric was flagged.
    pub open spec fn any(self) -> bool {
        self.branch || self.line
    }
}

/// Coverage has fallen under the required level on at least one metric.
pub open spec fn decreased(required: Config, actual: CoverageReport) -> bool {
    required.branch_coverage_level@ > actual.branch_rate@ || required.line_coverage_level@
        > actual.line_rate@
}

/// Coverage has risen over the required level on at least one metric.
pub open spec fn increased(required: Config, actual: CoverageReport) -> bool {
    required.branch_coverage_level@ < actual.branch_rate@ || required.line_coverage_level@
        < actual.line_rate@
}

/// `required` with both levels replaced by the measured rates.
pub open spec fn racheted(required: Config, actual: CoverageReport) -> Config {
    Config {
        branch_coverage_level: actual.branch_rate,
        line_coverage_level: actual.line_rate,
        ..required
    }
}

/// The metrics whose measured rate is under the required level.
pub fn regressed_metrics(required: &Config, coverage_level: &CoverageReport) -> (r: MetricChanges)
    ensures
        r.branch == (required.branch_coverage_level@ > coverage_level.branch_rate@),
        r.line == (required.line_coverage_level@ > coverage_level.line_rate@),
        r.any() == decreased(*required, *coverage_level),
{
    MetricChanges {
        branch: required.branch_coverage_level.bits > coverage_level.branch_rate.bits,
        line: required.line_coverage_level.bits > coverage_level.line_rate.bits,
    }
}

/// The metrics whose measured rate is over the required level.
pub fn improved_metrics(required: &Config, coverage_level: &CoverageReport) -> (r: MetricChanges)
    ensures
        r.branch == (required.branch_coverage_level@ < coverage_level.branch_rate@),
        r.line == (required.line_coverage_level@ < coverage_level.line_rate@),
        r.any() == increased(*required, *coverage_level),
{
    MetricChanges {
        branch: required.branch_coverage_level.bits < coverage_level.branch_rate.bits,
        line: required.line_coverage_level.bits < coverage_level.line_rate.bits,
    }
}

/// Whether coverage fell under the required level on either metric.
pub fn has_coverage_decreased(required: &Config, coverage_level: &CoverageReport) -> (r: bool)
    ensures
        r == decreased(*required, *coverage_level),
        r == (required.branch_coverage_level@ > coverage_level.branch_rate@
            || required.line_coverage_level@ > coverage_level.line_rate@),
{
    let changes = regressed_metrics(required, coverage_level);
    changes.branch || changes.line
}

/// Whether coverage rose over the required level on either metric.
pub fn has_coverage_increased(required: &Config, coverage_level: &CoverageReport) -> (r: bool)
    ensures
        r == increased(*required, *coverage_level),
        r == (required.branch_coverage_level@ < coverage_level.branch_rate@
            || required.line_coverage_level@ < coverage_level.line_rate@),
{
    let changes = improved_metrics(required, coverage_level);
    changes.branch || changes.line
}

/// A copy of `required` whose two levels are the measured rates. Both levels
/// are always replaced together, also when only one metric rose: the other is
/// then set to its measured rate, which may be lower than its level was.
pub fn get_config_with_new_requiredlevels(required: &Config, coverage_level: &CoverageReport) -> (r:
    Config)
    ensures
        r == racheted(*required, *coverage_level),
        r.branch_coverage_level == coverage_level.branch_rate,
        r.line_coverage_level == coverage_level.line_rate,
        r.upgrade_config_after_check == required.upgrade_config_after_check,
        r.coverage_level_file_path == required.coverage_level_file_path,
        coverage_level.wf() ==> r.wf(),
{
    Config {
        branch_coverage_level: coverage_level.branch_rate,
        line_coverage_level: coverage_level.line_rate,
        upgrade_config_after_check: required.upgrade_config_after_check,
        coverage_level_file_path: required.coverage_level_file_path.clone(),
    }
}

/// When the measured rates equal the required levels, coverage has neither
/// decreased nor increased.
pub proof fn lemma_equal_levels_unchanged(required: Config, actual: CoverageReport)
    requires
        required.branch_coverage_level == actual.branch_rate,
        required.line_coverage_level == actual.line_rate,
    ensures
        !decreased(required, actual),
        !increased(required, actual),
{
}

/// Both comparisons are strict and mirror each other: on each metric at most
/// one of "decreased" and "increased" holds, and coverage has neither
/// decreased nor increased exactly when both rates equal their levels.
pub proof fn lemma_strict_symmetric(required: Config, actual: CoverageReport)
    ensures
        !(required.branch_coverage_level@ > actual.branch_rate@
            && required.branch_coverage_level@ < actual.branch_rate@),
        !(required.line_coverage_level@ > actual.line_rate@ && required.line_coverage_level@
            < actual.line_rate@),
        increased(required, actual) == (actual.branch_rate@ > required.branch_coverage_level@
            || actual.line_rate@ > required.line_coverage_level@),
        (!decreased(required, actual) && !increased(required, actual)) <==> (
        required.branch_coverage_level == actual.branch_rate && required.line_coverage_level
            == actual.line_rate),
{
}

/// Ratcheting sets both levels from the measurement, whichever metric rose:
/// when only the branch rate rose and the line rate fell, the line level still
/// takes the lower measured rate.
pub proof fn lemma_rachet_sets_both(required: Config, actual: CoverageReport)
    ensures
        racheted(required, actual).branch_coverage_level == actual.branch_rate,
        racheted(required, actual).line_coverage_level == actual.line_rate,
        required.branch_coverage_level@ < actual.branch_rate@ && required.line_coverage_level@
            > actual.line_rate@ ==> racheted(required, actual).line_coverage_level@
            < required.line_coverage_level@,
{
}

} // verus!
