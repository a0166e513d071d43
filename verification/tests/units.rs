use hbsubst::context::{MemFacts, SystemQueryError, TemplateRendererContext};
use hbsubst::decimal::{i64_dec, u64_dec};
use hbsubst::helpers::{apply_helper, eval_helper, HelperError, HelperOp};

#[test]
fn u64_numerals_are_exact() {
    assert_eq!(u64_dec(0), "0");
    assert_eq!(u64_dec(7), "7");
    assert_eq!(u64_dec(10), "10");
    assert_eq!(u64_dec(1234567890), "1234567890");
    assert_eq!(u64_dec(u64::MAX), "18446744073709551615");
}

#[test]
fn i64_numerals_are_exact() {
    assert_eq!(i64_dec(0), "0");
    assert_eq!(i64_dec(42), "42");
    assert_eq!(i64_dec(-5), "-5");
    assert_eq!(i64_dec(i64::MAX), "9223372036854775807");
    assert_eq!(i64_dec(i64::MIN), "-9223372036854775808");
}

#[test]
fn helper_arithmetic_matches_sixty_four_bit_conventions() {
    assert_eq!(eval_helper(HelperOp::Add, 2, 3), Ok(5));
    assert_eq!(eval_helper(HelperOp::Sub, 10, 4), Ok(6));
    assert_eq!(eval_helper(HelperOp::Mul, 6, 7), Ok(42));
    assert_eq!(eval_helper(HelperOp::Div, 9, 2), Ok(4));
    assert_eq!(eval_helper(HelperOp::Mod, 9, 2), Ok(1));
    // division truncates toward zero; modulo follows the dividend's sign
    assert_eq!(eval_helper(HelperOp::Div, -9, 2), Ok(-4));
    assert_eq!(eval_helper(HelperOp::Mod, -9, 2), Ok(-1));
    assert_eq!(eval_helper(HelperOp::Div, 9, -2), Ok(-4));
    assert_eq!(eval_helper(HelperOp::Mod, 9, -2), Ok(1));
}

#[test]
fn helper_addition_wraps_on_overflow() {
    assert_eq!(eval_helper(HelperOp::Add, i64::MAX, 1), Ok(i64::MIN));
    assert_eq!(eval_helper(HelperOp::Sub, i64::MIN, 1), Ok(i64::MAX));
    assert_eq!(eval_helper(HelperOp::Mul, i64::MAX, 2), Ok(-2));
}

#[test]
fn helper_division_errors() {
    assert_eq!(eval_helper(HelperOp::Div, 1, 0), Err(HelperError::DivisionByZero));
    assert_eq!(eval_helper(HelperOp::Mod, 1, 0), Err(HelperError::DivisionByZero));
    assert_eq!(eval_helper(HelperOp::Div, i64::MIN, -1), Err(HelperError::Overflow));
    assert_eq!(eval_helper(HelperOp::Mod, i64::MIN, -1), Err(HelperError::Overflow));
}

#[test]
fn apply_helper_renders_decimals_and_checks_arguments() {
    assert_eq!(apply_helper(HelperOp::Add, Some(2), Some(3)).unwrap(), "5");
    assert_eq!(apply_helper(HelperOp::Sub, Some(4), Some(10)).unwrap(), "-6");
    assert_eq!(apply_helper(HelperOp::Add, None, Some(3)), Err(HelperError::MissingArgument));
    assert_eq!(apply_helper(HelperOp::Add, Some(2), None), Err(HelperError::MissingArgument));
    assert_eq!(apply_helper(HelperOp::Div, Some(1), Some(0)), Err(HelperError::DivisionByZero));
}

#[test]
fn helper_error_messages() {
    assert_eq!(HelperError::DivisionByZero.message(), "division by zero");
    assert_eq!(HelperError::Overflow.message(), "arithmetic overflow");
    assert_eq!(HelperError::MissingArgument.message(), "helper expects two integer parameters");
}

#[test]
fn mem_facts_derive_free_from_total_and_used() {
    let m = MemFacts::new(1000, 250).unwrap();
    assert_eq!(m.total, 1000);
    assert_eq!(m.used, 250);
    assert_eq!(m.free, 750);
    assert!(MemFacts::new(250, 1000).is_none());
}

#[test]
fn context_from_parts_checks_memory_consistency() {
    let c = TemplateRendererContext::from_parts(4, 2, 100, 40, Vec::new()).unwrap();
    assert_eq!(c.cpu.logical, 4);
    assert_eq!(c.cpu.physical, 2);
    assert_eq!(c.mem.free, 60);
    assert_eq!(
        TemplateRendererContext::from_parts(4, 2, 40, 100, Vec::new()).unwrap_err(),
        SystemQueryError::InconsistentMemory
    );
}

#[test]
fn context_sections_lay_out_the_template_surface() {
    let c = TemplateRendererContext::from_parts(
        8,
        4,
        1000,
        250,
        vec![("HOME".to_string(), "/home/someone".to_string())],
    )
    .unwrap();
    let sections = c.into_sections();
    assert_eq!(sections.len(), 3);
    assert_eq!(sections[0].0, "cpu");
    assert_eq!(
        sections[0].1,
        vec![
            ("logical".to_string(), "8".to_string()),
            ("physical".to_string(), "4".to_string()),
        ]
    );
    assert_eq!(sections[1].0, "env");
    assert_eq!(sections[1].1, vec![("HOME".to_string(), "/home/someone".to_string())]);
    assert_eq!(sections[2].0, "mem");
    assert_eq!(
        sections[2].1,
        vec![
            ("total".to_string(), "1000".to_string()),
            ("used".to_string(), "250".to_string()),
            ("free".to_string(), "750".to_string()),
        ]
    );
}

#[test]
fn host_snapshot_is_sane() {
    // Queries the real host: counts are positive and the free figure
    // carries the subtraction invariant whatever the host reported.
    let c = TemplateRendererContext::new(Vec::new()).unwrap();
    assert!(c.cpu.logical >= 1);
    assert!(c.cpu.physical >= 1);
    assert!(c.mem.used <= c.mem.total);
    assert_eq!(c.mem.free, c.mem.total - c.mem.used);
}
