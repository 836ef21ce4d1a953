use vstd::prelude::*;
use vstd::string::StringExecFns;

use crate::config::{Config, CoverageReport};
use crate::policy::{
    decreased,
    get_config_with_new_requiredlevels,
    has_coverage_decreased,
    has_coverage_increased,
    increased,
    racheted,
};

verus! {

/// Why a coverage run stops. Every one of them is fatal; only
/// `CoverageRegression` can be let through, by the bypass flag.
#[derive(Clone, Copy, Debug, PartialEq, Eq, Structural)]
pub enum GateError {
    ConfigReadError,
    ConfigParseError,
    ReportReadError,
    ReportParseError,
    ConfigWriteError,
    CoverageRegression,
}

/// How the regression check ended when it did not stop the run.
#[derive(Clone, Copy, Debug, PartialEq, Eq, Structural)]
pub enum RegressionOutcome {
    /// No metric is under its required level.
    Acceptable,
    /// Some metric is under its required level, and the bypass flag was set.
    Bypassed,
}

/// What a run that did not stop decided.
#[derive(Debug)]
pub struct GateOutcome {
    pub regression: RegressionOutcome,
    /// The configuration to write back, if any.
    pub new_config: Option<Config>,
}

/// The value that sets the bypass flag.
pub open spec fn bypass_value() -> Seq<char> {
    "true"@
}

/// Whether the bypass variable's value, if it is set, lets a regression
/// through: only the exact, case-sensitive text `true` does.
pub fn let_coverage_decrease(value: Option<String>) -> (r: bool)
    ensures
        r == (value matches Some(v) && v@ == bypass_value()),
{
    match value {
        Some(v) => {
            let expected = String::from_str("true");
            v == expected
        },
        None => false,
    }
}

/// The regression check: a regression stops the run unless the bypass flag
/// is set.
pub fn check_coverage_decrease(
    required: &Config,
    coverage_level: &CoverageReport,
    let_decrease: bool,
) -> (r: Result<RegressionOutcome, GateError>)
    ensures
        !decreased(*required, *coverage_level) ==> r == Ok::<
            RegressionOutcome,
            GateError,
        >(RegressionOutcome::Acceptable),
        decreased(*required, *coverage_level) && let_decrease ==> r == Ok::<
            RegressionOutcome,
            GateError,
        >(RegressionOutcome::Bypassed),
        decreased(*required, *coverage_level) && !let_decrease ==> r == Err::<
            RegressionOutcome,
            GateError,
        >(GateError::CoverageRegression),
{
    if has_coverage_decreased(required, coverage_level) {
        if let_decrease {
            Ok(RegressionOutcome::Bypassed)
        } else {
            Err(GateError::CoverageRegression)
        }
    } else {
        Ok(RegressionOutcome::Acceptable)
    }
}

/// The configuration to write back: `config` itself when it allows its
/// levels to be raised, else nothing.
pub fn config_to_write_if_enabled(config: Config) -> (r: Option<Config>)
    ensures
        r == (if config.upgrade_config_after_check {
            Some(config)
        } else {
            None
        }),
{
    if config.upgrade_config_after_check {
        Some(config)
    } else {
        None
    }
}

/// The ratchet: when coverage rose on some metric and `config` allows it,
/// the configuration with both levels set to the measured rates.
pub fn config_to_write_if_required(config: Config, coverage_level: &CoverageReport) -> (r: Option<
    Config,
>)
    ensures
        r == (if increased(config, *coverage_level) && config.upgrade_config_after_check {
            Some(racheted(config, *coverage_level))
        } else {
            None
        }),
{
    if has_coverage_increased(&config, coverage_level) {
        let config = get_config_with_new_requiredlevels(&config, coverage_level);
        config_to_write_if_enabled(config)
    } else {
        None
    }
}

/// One coverage run on a loaded configuration and report: the regression
/// check, then the ratchet. A regression without the bypass flag stops the
/// run before the ratchet is considered.
pub fn evaluate(config: Config, coverage_level: &CoverageReport, let_decrease: bool) -> (r: Result<
    GateOutcome,
    GateError,
>)
    ensures
        r is Err <==> decreased(config, *coverage_level) && !let_decrease,
        r matches Err(e) ==> e == GateError::CoverageRegression,
        r matches Ok(o) ==> o.regression == (if decreased(config, *coverage_level) {
            RegressionOutcome::Bypassed
        } else {
            RegressionOutcome::Acceptable
        }) && o.new_config == (if increased(config, *coverage_level)
            && config.upgrade_config_after_check {
            Some(racheted(config, *coverage_level))
        } else {
            None
        }),
{
    match check_coverage_decrease(&config, coverage_level, let_decrease) {
        Ok(regression) => {
            let new_config = config_to_write_if_required(config, coverage_level);
            Ok(GateOutcome { regression, new_config })
        },
        Err(e) => Err(e),
    }
}

/// The process exit code for the end of a run: 0 when it went through, 1
/// when any error stopped it.
pub fn exit_code(outcome: &Result<GateOutcome, GateError>) -> (r: i32)
    ensures
        r == (if outcome is Ok {
            0i32
        } else {
            1i32
        }),
{
    match outcome {
        Ok(_) => 0,
        Err(_) => 1,
    }
}

} // verus!
