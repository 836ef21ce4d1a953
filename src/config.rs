use vstd::prelude::*;

use crate::rate::Rate;

verus! {

/// The accepted minimum coverage levels, and whether a run may raise them.
#[derive(Clone, Debug)]
pub struct Config {
    pub branch_coverage_level: Rate,
    pub line_coverage_level: Rate,
    pub upgrade_config_after_check: bool,
    pub coverage_level_file_path: String,
}

impl Config {
    /// Both levels encode numbers in `[0, 1]`.
    pub open spec fn wf(self) -> bool {
        self.branch_coverage_level.wf() && self.line_coverage_level.wf()
    }

    /// The configuration with the given levels, given as single-precision
    /// bit patterns, or `None` when one of them is no number in `[0, 1]`.
    pub fn new(
        branch_coverage_level: u32,
        line_coverage_level: u32,
        upgrade_config_after_check: bool,
        coverage_level_file_path: String,
    ) -> (r: Option<Config>)
        ensures
            r is Some <==> Rate::bits_in_range(branch_coverage_level)
                && Rate::bits_in_range(line_coverage_level),
            r matches Some(c) ==> c.wf() && c.branch_coverage_level@ == branch_coverage_level
                && c.line_coverage_level@ == line_coverage_level
                && c.upgrade_config_after_check == upgrade_config_after_check
                && c.coverage_level_file_path == coverage_level_file_path,
    {
        match (Rate::from_bits(branch_coverage_level), Rate::from_bits(line_coverage_level)) {
            (Some(branch), Some(line)) => Some(
                Config {
                    branch_coverage_level: branch,
                    line_coverage_level: line,
                    upgrade_config_after_check,
                    coverage_level_file_path,
                },
            ),
            _ => None,
        }
    }
}

/// One coverage measurement: the branch and line rates of a report.
#[derive(Clone, Copy, Debug, PartialEq, Eq, Structural)]
pub struct CoverageReport {
    pub branch_rate: Rate,
    pub line_rate: Rate,
}

impl CoverageReport {
    /// Both rates encode numbers in `[0, 1]`.
    pub open spec fn wf(self) -> bool {
        self.branch_rate.wf() && self.line_rate.wf()
    }

    /// The report with the given rates, given as single-precision bit
    /// patterns, or `None` when one of them is no number in `[0, 1]`.
    pub fn new(branch_rate: u32, line_rate: u32) -> (r: Option<CoverageReport>)
        ensures
            r is Some <==> Rate::bits_in_range(branch_rate) && Rate::bits_in_range(line_rate),
            r matches Some(c) ==> c.wf() && c.branch_rate@ == branch_rate && c.line_rate@
                == line_rate,
    {
        match (Rate::from_bits(branch_rate), Rate::from_bits(line_rate)) {
            (Some(branch), Some(line)) => Some(CoverageReport { branch_rate: branch, line_rate: line }),
            _ => None,
        }
    }
}

} // verus!
