use hbsubst::context::TemplateRendererContext;
use hbsubst::renderer::TemplateRenderer;

fn ctx(logical: u64, physical: u64, total: u64, used: u64) -> TemplateRendererContext {
    TemplateRendererContext::from_parts(logical, physical, total, used, Vec::new()).unwrap()
}

fn render_one(template: &str, context: TemplateRendererContext) -> Result<String, String> {
    let renderer = TemplateRenderer::from(template).map_err(|e| e.message)?;
    renderer.render(context).map_err(|e| e.message)
}

#[test]
fn add_two_and_three_renders_five() {
    assert_eq!(render_one("{{add 2 3}}", ctx(4, 2, 100, 40)).unwrap(), "5");
}

#[test]
fn sub_ten_and_four_renders_six() {
    assert_eq!(render_one("{{sub 10 4}}", ctx(4, 2, 100, 40)).unwrap(), "6");
}

#[test]
fn mul_six_and_seven_renders_forty_two() {
    assert_eq!(render_one("{{mul 6 7}}", ctx(4, 2, 100, 40)).unwrap(), "42");
}

#[test]
fn div_nine_by_two_truncates_to_four() {
    assert_eq!(render_one("{{div 9 2}}", ctx(4, 2, 100, 40)).unwrap(), "4");
}

#[test]
fn mod_nine_by_two_renders_one() {
    assert_eq!(render_one("{{mod 9 2}}", ctx(4, 2, 100, 40)).unwrap(), "1");
}

#[test]
fn div_by_zero_fails_the_render() {
    let r = render_one("{{div 1 0}}", ctx(4, 2, 100, 40));
    assert!(r.is_err());
    assert!(r.unwrap_err().contains("division by zero"));
}

#[test]
fn mod_by_zero_fails_the_render() {
    assert!(render_one("{{mod 5 0}}", ctx(4, 2, 100, 40)).is_err());
}

#[test]
fn negative_helper_results_render_with_sign() {
    assert_eq!(render_one("{{sub 4 10}}", ctx(4, 2, 100, 40)).unwrap(), "-6");
}

#[test]
fn helper_with_missing_parameter_fails_the_render() {
    assert!(render_one("{{add 2}}", ctx(4, 2, 100, 40)).is_err());
}

#[test]
fn cpu_fields_substitute_exactly() {
    let out = render_one("{{cpu.logical}}/{{cpu.physical}}", ctx(8, 4, 100, 40)).unwrap();
    assert_eq!(out, "8/4");
}

#[test]
fn mem_fields_substitute_exactly() {
    let out = render_one(
        "total={{mem.total}} used={{mem.used}} free={{mem.free}}",
        ctx(4, 2, 1000, 250),
    )
    .unwrap();
    assert_eq!(out, "total=1000 used=250 free=750");
}

#[test]
fn mem_free_is_total_minus_used_as_integers() {
    let out = render_one("{{mem.free}}", ctx(4, 2, 123456, 6543)).unwrap();
    let free: u64 = out.parse().unwrap();
    assert_eq!(free, 123456 - 6543);
}

#[test]
fn env_variable_substitutes_verbatim() {
    let context = TemplateRendererContext::from_parts(
        4,
        2,
        100,
        40,
        vec![("HOME".to_string(), "/home/someone".to_string())],
    )
    .unwrap();
    assert_eq!(render_one("{{env.HOME}}", context).unwrap(), "/home/someone");
}

#[test]
fn undefined_env_variable_renders_empty() {
    // The chosen policy: lookup of an absent field is non-strict and
    // renders as the empty string rather than failing.
    let out = render_one("[{{env.DOES_NOT_EXIST}}]", ctx(4, 2, 100, 40)).unwrap();
    assert_eq!(out, "[]");
}

#[test]
fn plain_text_renders_verbatim_without_trailing_newline() {
    assert_eq!(render_one("hello world", ctx(4, 2, 100, 40)).unwrap(), "hello world");
}

#[test]
fn malformed_template_fails_to_compile() {
    assert!(TemplateRenderer::from("{{#if}").is_err());
}

#[test]
fn renderer_without_template_fails_to_render() {
    assert!(TemplateRenderer::new().render(ctx(4, 2, 100, 40)).is_err());
    assert!(TemplateRenderer::default().render(ctx(4, 2, 100, 40)).is_err());
}

#[test]
fn same_template_and_context_render_identically() {
    let template = "{{cpu.logical}} {{mem.free}} {{add 1 2}} {{env.PATH}}";
    let c1 = TemplateRendererContext::from_parts(
        4,
        2,
        100,
        40,
        vec![("PATH".to_string(), "/usr/bin".to_string())],
    )
    .unwrap();
    let c2 = c1.clone();
    let first = render_one(template, c1).unwrap();
    let second = render_one(template, c2).unwrap();
    assert_eq!(first, second);
}

#[test]
fn fields_and_helpers_compose_in_one_template() {
    // Helper parameters must be integers; the context's figures are
    // strings, so helpers take literals while the fields are
    // interpolated beside them.
    let out = render_one("{{mem.total}}+{{add 40 2}}", ctx(4, 2, 977, 55)).unwrap();
    assert_eq!(out, "977+42");
}

#[test]
fn helper_addition_wraps_in_templates() {
    let out = render_one("{{add 9223372036854775807 1}}", ctx(4, 2, 100, 40)).unwrap();
    assert_eq!(out, "-9223372036854775808");
}

#[test]
fn division_in_templates_truncates_toward_zero() {
    assert_eq!(render_one("{{div -9 2}}", ctx(4, 2, 100, 40)).unwrap(), "-4");
    assert_eq!(render_one("{{mod -9 2}}", ctx(4, 2, 100, 40)).unwrap(), "-1");
}

#[test]
fn templates_using_partials_are_refused() {
    assert!(TemplateRenderer::from("{{> something}}").is_err());
    assert!(TemplateRenderer::from("{{#> block}}fallback{{/block}}").is_err());
    assert!(TemplateRenderer::from("{{#*inline \"a\"}}{{> stdin}}{{/inline}}{{> a}}").is_err());
    assert!(TemplateRenderer::from("{{ ~ > spaced}}").is_err());
    assert!(TemplateRenderer::from("{{*decorator}}").is_err());
}

#[test]
fn block_helpers_still_compile() {
    assert!(TemplateRenderer::from("{{#if flag}}yes{{/if}}").is_ok());
}

#[test]
fn greater_than_in_plain_text_is_not_a_partial() {
    assert_eq!(render_one("1 > 0 {{add 1 1}}", ctx(4, 2, 100, 40)).unwrap(), "1 > 0 2");
}
