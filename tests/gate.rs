use oreiller::config::{Config, CoverageReport};
use oreiller::gate::{
    check_coverage_decrease, config_to_write_if_enabled, config_to_write_if_required, evaluate,
    exit_code, let_coverage_decrease, GateError, RegressionOutcome,
};

fn config(branch: f32, line: f32, upgrade: bool) -> Config {
    Config::new(branch.to_bits(), line.to_bits(), upgrade, String::from("coverage.xml")).unwrap()
}

fn report(branch: f32, line: f32) -> CoverageReport {
    CoverageReport::new(branch.to_bits(), line.to_bits()).unwrap()
}

#[test]
fn regression_without_bypass_exits_one() {
    let outcome = evaluate(config(0.70, 0.90, true), &report(0.65, 0.90), false);
    assert!(matches!(outcome, Err(GateError::CoverageRegression)));
    assert_eq!(exit_code(&outcome), 1);
}

#[test]
fn regression_with_bypass_exits_zero() {
    let bypass = let_coverage_decrease(Some(String::from("true")));
    assert!(bypass);
    let outcome = evaluate(config(0.70, 0.90, true), &report(0.65, 0.90), bypass);
    assert_eq!(exit_code(&outcome), 0);
    let outcome = outcome.unwrap();
    assert_eq!(outcome.regression, RegressionOutcome::Bypassed);
    assert!(outcome.new_config.is_none());
}

#[test]
fn increase_with_upgrade_rewrites_config() {
    let outcome = evaluate(config(0.70, 0.90, true), &report(0.75, 0.90), false).unwrap();
    assert_eq!(outcome.regression, RegressionOutcome::Acceptable);
    let written = outcome.new_config.unwrap();
    assert_eq!(f32::from_bits(written.branch_coverage_level.to_bits()), 0.75);
    assert_eq!(f32::from_bits(written.line_coverage_level.to_bits()), 0.90);
    assert!(written.upgrade_config_after_check);
    assert_eq!(written.coverage_level_file_path, "coverage.xml");
}

#[test]
fn increase_without_upgrade_writes_nothing() {
    let outcome = evaluate(config(0.70, 0.90, false), &report(0.75, 0.90), false);
    assert_eq!(exit_code(&outcome), 0);
    assert!(outcome.unwrap().new_config.is_none());
}

#[test]
fn equal_levels_pass_without_write() {
    let outcome = evaluate(config(0.70, 0.90, true), &report(0.70, 0.90), false).unwrap();
    assert_eq!(outcome.regression, RegressionOutcome::Acceptable);
    assert!(outcome.new_config.is_none());
}

#[test]
fn bypass_needs_exact_true() {
    assert!(let_coverage_decrease(Some(String::from("true"))));
    assert!(!let_coverage_decrease(Some(String::from("TRUE"))));
    assert!(!let_coverage_decrease(Some(String::from("True"))));
    assert!(!let_coverage_decrease(Some(String::from("1"))));
    assert!(!let_coverage_decrease(Some(String::from(" true"))));
    assert!(!let_coverage_decrease(Some(String::new())));
    assert!(!let_coverage_decrease(None));
}

#[test]
fn regression_check_outcomes() {
    let required = config(0.70, 0.90, true);
    assert_eq!(
        check_coverage_decrease(&required, &report(0.70, 0.95), false),
        Ok(RegressionOutcome::Acceptable)
    );
    assert_eq!(
        check_coverage_decrease(&required, &report(0.70, 0.85), true),
        Ok(RegressionOutcome::Bypassed)
    );
    assert_eq!(
        check_coverage_decrease(&required, &report(0.70, 0.85), false),
        Err(GateError::CoverageRegression)
    );
}

#[test]
fn write_only_when_enabled() {
    assert!(config_to_write_if_enabled(config(0.5, 0.5, false)).is_none());
    let kept = config_to_write_if_enabled(config(0.5, 0.6, true)).unwrap();
    assert_eq!(f32::from_bits(kept.line_coverage_level.to_bits()), 0.6);
}

#[test]
fn ratchet_after_mixed_change_lowers_other_level() {
    let written = config_to_write_if_required(config(0.70, 0.90, true), &report(0.80, 0.85)).unwrap();
    assert_eq!(f32::from_bits(written.branch_coverage_level.to_bits()), 0.80);
    assert_eq!(f32::from_bits(written.line_coverage_level.to_bits()), 0.85);
    assert!(config_to_write_if_required(config(0.70, 0.90, true), &report(0.60, 0.85)).is_none());
}

#[test]
fn every_error_exits_one() {
    for e in [
        GateError::ConfigReadError,
        GateError::ConfigParseError,
        GateError::ReportReadError,
        GateError::ReportParseError,
        GateError::ConfigWriteError,
        GateError::CoverageRegression,
    ] {
        assert_eq!(exit_code(&Err(e)), 1);
    }
}
