//! The template renderer: owns one compiled template and the five
//! arithmetic helpers, and renders the template against a context
//! snapshot.
//!
//! The templating engine itself is an outside library; what it parses and
//! what text it produces are named, not restated, and everything this
//! crate adds around it — the helper arithmetic, the context layout, the
//! error routing — is verified against those names.
//!
//! Lookup of an absent field renders as the empty string rather than
//! failing: the engine is left in its default, non-strict mode, so a
//! template naming an undefined environment variable still renders.
//!
//! Templates that use the engine's partial or decorator directives are
//! refused at compilation. The template surface of this crate — field
//! lookup and the five helpers — never needs them, and the engine puts
//! no depth limit on partial inclusion, so a template could otherwise
//! re-include itself through an inline partial and recurse until the
//! stack is exhausted.

use crate::context::{sections_view, context_data, Sections, TemplateRendererContext};
use vstd::prelude::*;
use vstd::string::StrSliceExecFns;

verus! {

/// The registry type of the engine, with its one `'static` lifetime fixed.
pub type HbRegistry = handlebars::Handlebars<'static>;

/// Whether the engine accepts a template source: compilation fails
/// exactly on the sources it cannot parse.
pub uninterp spec fn compiles(src: Seq<char>) -> bool;

/// The templates a registry holds, by name. A fresh registry holds none;
/// registering a template that parses adds exactly its entry.
pub uninterp spec fn hb_templates(reg: HbRegistry) -> Map<Seq<char>, Seq<char>>;

/// Which of this crate's five arithmetic helpers a registry holds, by
/// name, each bound to its standard glue around `apply_helper`.
pub uninterp spec fn hb_math_helpers(reg: HbRegistry) -> Set<Seq<char>>;

/// Whether a registry still carries the engine's default configuration,
/// as `Handlebars::new` builds it, with no helper registered beyond the
/// engine's built-ins and this crate's five arithmetic ones. In that
/// configuration lookup is non-strict: an absent field renders as empty
/// text rather than failing the render.
pub uninterp spec fn hb_default_config(reg: HbRegistry) -> bool;

/// What the engine renders — or fails to render — when a registry in its
/// default configuration, holding exactly the given templates and all
/// five arithmetic helpers, renders the named template against the
/// section data. Every registered template is in reach of the render,
/// as a partial, so the outcome depends on the whole template map; the
/// engine is deterministic, so it is a function of the three arguments
/// alone.
pub uninterp spec fn render_result(
    templates: Map<Seq<char>, Seq<char>>,
    name: Seq<char>,
    data: Seq<(Seq<char>, Seq<(Seq<char>, Seq<char>)>)>,
) -> Option<Seq<char>>;

/// The names of the five arithmetic helpers.
pub open spec fn standard_math_helpers() -> Set<Seq<char>> {
    set!["add"@, "div"@, "mod"@, "mul"@, "sub"@]
}

/// The name under which the one template of a renderer is registered.
pub open spec fn template_name() -> Seq<char> {
    "stdin"@
}

/// The characters the engine's grammar admits between `{{` and the `>`
/// or `*` sigil of a partial or decorator directive: whitespace, the
/// whitespace-control tilde, and the block marker.
pub open spec fn partial_skip_char(c: char) -> bool {
    c == ' ' || c == '\t' || c == '\n' || c == '\r' || c == '~' || c == '#'
}

/// A partial or decorator directive opens at position `i`: two braces,
/// then — across nothing but skippable characters — a `>` or `*` sigil
/// at position `j`.
pub open spec fn partial_marker_at(s: Seq<char>, i: int, j: int) -> bool {
    &&& 0 <= i
    &&& i + 2 <= j < s.len()
    &&& s[i] == '{'
    &&& s[i + 1] == '{'
    &&& forall|t: int| i + 2 <= t < j ==> partial_skip_char(#[trigger] s[t])
    &&& (s[j] == '>' || s[j] == '*')
}

/// Whether a template source opens a partial or decorator directive
/// anywhere. The check is conservative: every source the engine would
/// parse as using a partial or decorator is caught, and a flagged
/// source is refused whether or not it would parse.
pub open spec fn uses_partials(s: Seq<char>) -> bool {
    exists|i: int, j: int| partial_marker_at(s, i, j)
}

/// Whether every registered template is free of partial and decorator
/// directives. The engine gives partial inclusion no depth limit, so
/// only on such registries is a render known to return.
pub open spec fn partial_free(templates: Map<Seq<char>, Seq<char>>) -> bool {
    forall|k: Seq<char>| #[trigger] templates.dom().contains(k) ==> !uses_partials(templates[k])
}

/// A malformed template source, with the engine's description.
pub struct TemplateSyntaxError {
    pub message: String,
}

/// A failed render — a missing helper parameter, a failing helper, or any
/// other failure inside the engine — with the engine's description.
pub struct TemplateRenderError {
    pub message: String,
}

/// Owns a registry that holds at most one template, under one fixed name,
/// and at most this crate's five arithmetic helpers.
pub struct TemplateRenderer {
    inner: HbRegistry,
}

impl TemplateRenderer {
    /// Everything the registry holds as a template, by name; every entry
    /// is in reach of a render, as a partial.
    pub closed spec fn templates(self) -> Map<Seq<char>, Seq<char>> {
        hb_templates(self.inner)
    }

    /// The source of the compiled template, if one was registered.
    pub open spec fn template(self) -> Option<Seq<char>> {
        if self.templates().dom().contains(template_name()) {
            Some(self.templates()[template_name()])
        } else {
            None
        }
    }

    /// Which of the five arithmetic helpers the registry holds, by name.
    pub closed spec fn math_helpers(self) -> Set<Seq<char>> {
        hb_math_helpers(self.inner)
    }

    /// Whether all five arithmetic helpers are registered.
    pub open spec fn helpers_ready(self) -> bool {
        self.math_helpers() == standard_math_helpers()
    }

    /// Every renderer ever constructed holds only partial-free
    /// templates: compilation refuses the others.
    #[verifier::type_invariant]
    spec fn inv(self) -> bool {
        partial_free(hb_templates(self.inner))
    }

    /// Whether the registry is still in the engine's default, non-strict
    /// configuration, with no helper beyond the built-ins and the five.
    pub closed spec fn default_config(self) -> bool {
        hb_default_config(self.inner)
    }

    /// A renderer with no template and none of the five arithmetic
    /// helpers: rendering from it always fails.
    pub fn new() -> (r: TemplateRenderer)
        ensures
            r.templates() == Map::<Seq<char>, Seq<char>>::empty(),
            r.template() is None,
            r.math_helpers() == Set::<Seq<char>>::empty(),
            r.default_config(),
    {
        let reg = hb_new();
        proof {
            assert(partial_free(hb_templates(reg)));
        }
        TemplateRenderer { inner: reg }
    }

    /// Compiles a template source and registers the five arithmetic
    /// helpers. Fails exactly on a source the engine cannot parse or one
    /// that uses a partial or decorator directive; on success the
    /// renderer holds exactly the one template, under the fixed name,
    /// beside the five helpers, in the engine's default configuration.
    pub fn from(template: &str) -> (r: Result<TemplateRenderer, TemplateSyntaxError>)
        ensures
            r is Ok <==> compiles(template@) && !uses_partials(template@),
            r is Ok ==> r->Ok_0.templates() == Map::<Seq<char>, Seq<char>>::empty().insert(
                template_name(),
                template@,
            ),
            r is Ok ==> r->Ok_0.template() == Some(template@),
            r is Ok ==> r->Ok_0.helpers_ready(),
            r is Ok ==> r->Ok_0.default_config(),
    {
        if scan_uses_partials(template) {
            return Err(
                TemplateSyntaxError {
                    message: "partial and decorator directives are not supported".to_owned(),
                },
            );
        }
        let mut reg = hb_new();
        match hb_register_template(&mut reg, "stdin", template) {
            Ok(()) => {},
            Err(e) => {
                return Err(TemplateSyntaxError { message: template_error_message(&e) });
            },
        }
        hb_register_add(&mut reg);
        hb_register_div(&mut reg);
        hb_register_mod(&mut reg);
        hb_register_mul(&mut reg);
        hb_register_sub(&mut reg);
        proof {
            reveal_strlit("stdin");
            assert("stdin"@ =~= template_name());
            assert(hb_math_helpers(reg) =~= standard_math_helpers());
            assert(hb_templates(reg) =~= Map::<Seq<char>, Seq<char>>::empty().insert(
                template_name(),
                template@,
            ));
            assert(partial_free(hb_templates(reg)));
        }
        Ok(TemplateRenderer { inner: reg })
    }

    /// Renders the template against one context snapshot: all of the
    /// output, or an error and none of it. With no template registered
    /// the render fails; with the helpers in place and the default
    /// configuration kept, the outcome is exactly the engine's, for the
    /// registered templates and the snapshot's section data.
    pub fn render(&self, ctx: TemplateRendererContext) -> (r: Result<String, TemplateRenderError>)
        ensures
            self.template() is None ==> r is Err,
            self.helpers_ready() && self.default_config() ==> match render_result(
                self.templates(),
                template_name(),
                context_data(ctx),
            ) {
                Some(s) => r is Ok && r->Ok_0@ == s,
                None => r is Err,
            },
    {
        proof {
            use_type_invariant(self);
        }
        let sections = ctx.into_sections();
        proof {
            reveal_strlit("stdin");
            assert("stdin"@ =~= template_name());
        }
        match hb_render(&self.inner, "stdin", &sections) {
            Ok(s) => Ok(s),
            Err(e) => Err(TemplateRenderError { message: render_error_message(&e) }),
        }
    }
}

impl Default for TemplateRenderer {
    /// The same renderer as `new`: no template and no custom helpers,
    /// so every render fails.
    fn default() -> (r: TemplateRenderer)
        ensures
            r.templates() == Map::<Seq<char>, Seq<char>>::empty(),
            r.template() is None,
            r.math_helpers() == Set::<Seq<char>>::empty(),
            r.default_config(),
    {
        TemplateRenderer::new()
    }
}

/// Rendering is a function of the registered templates, the rendered
/// name and the context data alone: two runs over the same templates and
/// an unchanged context produce the same outcome, text for text.
pub proof fn lemma_render_deterministic(
    templates1: Map<Seq<char>, Seq<char>>,
    name1: Seq<char>,
    data1: Seq<(Seq<char>, Seq<(Seq<char>, Seq<char>)>)>,
    templates2: Map<Seq<char>, Seq<char>>,
    name2: Seq<char>,
    data2: Seq<(Seq<char>, Seq<(Seq<char>, Seq<char>)>)>,
)
    requires
        templates1 == templates2,
        name1 == name2,
        data1 == data2,
    ensures
        render_result(templates1, name1, data1) == render_result(templates2, name2, data2),
{
}

/// Whether this character may stand between the braces and the sigil.
fn is_skip_char(c: char) -> (b: bool)
    ensures
        b == partial_skip_char(c),
{
    c == ' ' || c == '\t' || c == '\n' || c == '\r' || c == '~' || c == '#'
}

/// Scans a template source for the opening of a partial or decorator
/// directive, exactly as `uses_partials` states it.
fn scan_uses_partials(s: &str) -> (found: bool)
    ensures
        found == uses_partials(s@),
{
    let n: usize = s.unicode_len();
    let mut i: usize = 0;
    while n >= 3 && i < n - 2
        invariant
            n == s@.len(),
            i <= n,
            forall|a: int, b: int| 0 <= a < i ==> !partial_marker_at(s@, a, b),
        decreases n - i,
    {
        if s.get_char(i) == '{' && s.get_char(i + 1) == '{' {
            let mut j: usize = i + 2;
            while j < n && is_skip_char(s.get_char(j))
                invariant
                    n == s@.len(),
                    i + 2 <= j <= n,
                    forall|t: int| i + 2 <= t < j ==> partial_skip_char(#[trigger] s@[t]),
                decreases n - j,
            {
                j = j + 1;
            }
            if j < n {
                let c = s.get_char(j);
                if c == '>' || c == '*' {
                    proof {
                        assert(partial_marker_at(s@, i as int, j as int));
                        assert(uses_partials(s@));
                    }
                    return true;
                }
                proof {
                    assert forall|b: int| !partial_marker_at(s@, i as int, b) by {
                        if partial_marker_at(s@, i as int, b) {
                            if b < j {
                                assert(partial_skip_char(s@[b]));
                            } else if b > j {
                                assert(partial_skip_char(s@[j as int]));
                            }
                        }
                    }
                }
            } else {
                proof {
                    assert forall|b: int| !partial_marker_at(s@, i as int, b) by {
                        if partial_marker_at(s@, i as int, b) {
                            assert(partial_skip_char(s@[b]));
                        }
                    }
                }
            }
        }
        i = i + 1;
    }
    proof {
        assert forall|a: int, b: int| !partial_marker_at(s@, a, b) by {
            if partial_marker_at(s@, a, b) {
                assert(a < i);
            }
        }
        assert(!uses_partials(s@));
    }
    false
}

/// A registry as `hb_new` hands it out: no template, none of this
/// crate's arithmetic helpers, and the engine's default configuration.
pub open spec fn fresh_registry(reg: HbRegistry) -> bool {
    &&& hb_templates(reg) == Map::<Seq<char>, Seq<char>>::empty()
    &&& hb_math_helpers(reg) == Set::<Seq<char>>::empty()
    &&& hb_default_config(reg)
}

/// Relies on `handlebars::Handlebars::new`: a fresh registry holds no
/// template, none of this crate's arithmetic helpers, only the built-in
/// ones, and the default flags.
#[verifier::external_body]
fn hb_new() -> (r: HbRegistry)
    ensures
        fresh_registry(r),
{
    handlebars::Handlebars::new()
}

/// Relies on `handlebars::Handlebars::register_template_string`: parses
/// the source, and on success stores it under the given name; on a parse
/// error the registry's templates are left as they were. Helpers are
/// untouched either way.
#[verifier::external_body]
fn hb_register_template(
    reg: &mut HbRegistry,
    name: &str,
    src: &str,
) -> (r: Result<(), handlebars::TemplateError>)
    ensures
        r is Ok <==> compiles(src@),
        r is Ok ==> hb_templates(*final(reg)) == hb_templates(*old(reg)).insert(name@, src@),
        r is Err ==> hb_templates(*final(reg)) == hb_templates(*old(reg)),
        hb_math_helpers(*final(reg)) == hb_math_helpers(*old(reg)),
        hb_default_config(*final(reg)) == hb_default_config(*old(reg)),
{
    reg.register_template_string(name, src)
}

/// Relies on `handlebars::Handlebars::register_helper`: binds the name
/// `add` to glue that feeds the two integer parameters to
/// `apply_helper`. Templates are untouched.
#[verifier::external_body]
fn hb_register_add(reg: &mut HbRegistry)
    ensures
        hb_math_helpers(*final(reg)) == hb_math_helpers(*old(reg)).insert("add"@),
        hb_templates(*final(reg)) == hb_templates(*old(reg)),
        hb_default_config(*final(reg)) == hb_default_config(*old(reg)),
{
    reg.register_helper(
        "add",
        Box::new(|h: &handlebars::Helper, _: &handlebars::Handlebars, _: &handlebars::Context, _: &mut handlebars::RenderContext, out: &mut dyn handlebars::Output| -> handlebars::HelperResult {
            let x = h.param(0).and_then(|p| p.value().as_i64());
            let y = h.param(1).and_then(|p| p.value().as_i64());
            match crate::helpers::apply_helper(crate::helpers::HelperOp::Add, x, y) {
                Ok(s) => { out.write(&s)?; Ok(()) }
                Err(e) => Err(handlebars::RenderErrorReason::Other(e.message()).into()),
            }
        }),
    );
}

/// Relies on `handlebars::Handlebars::register_helper`: binds the name
/// `div` to glue that feeds the two integer parameters to
/// `apply_helper`. Templates are untouched.
#[verifier::external_body]
fn hb_register_div(reg: &mut HbRegistry)
    ensures
        hb_math_helpers(*final(reg)) == hb_math_helpers(*old(reg)).insert("div"@),
        hb_templates(*final(reg)) == hb_templates(*old(reg)),
        hb_default_config(*final(reg)) == hb_default_config(*old(reg)),
{
    reg.register_helper(
        "div",
        Box::new(|h: &handlebars::Helper, _: &handlebars::Handlebars, _: &handlebars::Context, _: &mut handlebars::RenderContext, out: &mut dyn handlebars::Output| -> handlebars::HelperResult {
            let x = h.param(0).and_then(|p| p.value().as_i64());
            let y = h.param(1).and_then(|p| p.value().as_i64());
            match crate::helpers::apply_helper(crate::helpers::HelperOp::Div, x, y) {
                Ok(s) => { out.write(&s)?; Ok(()) }
                Err(e) => Err(handlebars::RenderErrorReason::Other(e.message()).into()),
            }
        }),
    );
}

/// Relies on `handlebars::Handlebars::register_helper`: binds the name
/// `mod` to glue that feeds the two integer parameters to
/// `apply_helper`. Templates are untouched.
#[verifier::external_body]
fn hb_register_mod(reg: &mut HbRegistry)
    ensures
        hb_math_helpers(*final(reg)) == hb_math_helpers(*old(reg)).insert("mod"@),
        hb_templates(*final(reg)) == hb_templates(*old(reg)),
        hb_default_config(*final(reg)) == hb_default_config(*old(reg)),
{
    reg.register_helper(
        "mod",
        Box::new(|h: &handlebars::Helper, _: &handlebars::Handlebars, _: &handlebars::Context, _: &mut handlebars::RenderContext, out: &mut dyn handlebars::Output| -> handlebars::HelperResult {
            let x = h.param(0).and_then(|p| p.value().as_i64());
            let y = h.param(1).and_then(|p| p.value().as_i64());
            match crate::helpers::apply_helper(crate::helpers::HelperOp::Mod, x, y) {
                Ok(s) => { out.write(&s)?; Ok(()) }
                Err(e) => Err(handlebars::RenderErrorReason::Other(e.message()).into()),
            }
        }),
    );
}

/// Relies on `handlebars::Handlebars::register_helper`: binds the name
/// `mul` to glue that feeds the two integer parameters to
/// `apply_helper`. Templates are untouched.
#[verifier::external_body]
fn hb_register_mul(reg: &mut HbRegistry)
    ensures
        hb_math_helpers(*final(reg)) == hb_math_helpers(*old(reg)).insert("mul"@),
        hb_templates(*final(reg)) == hb_templates(*old(reg)),
        hb_default_config(*final(reg)) == hb_default_config(*old(reg)),
{
    reg.register_helper(
        "mul",
        Box::new(|h: &handlebars::Helper, _: &handlebars::Handlebars, _: &handlebars::Context, _: &mut handlebars::RenderContext, out: &mut dyn handlebars::Output| -> handlebars::HelperResult {
            let x = h.param(0).and_then(|p| p.value().as_i64());
            let y = h.param(1).and_then(|p| p.value().as_i64());
            match crate::helpers::apply_helper(crate::helpers::HelperOp::Mul, x, y) {
                Ok(s) => { out.write(&s)?; Ok(()) }
                Err(e) => Err(handlebars::RenderErrorReason::Other(e.message()).into()),
            }
        }),
    );
}

/// Relies on `handlebars::Handlebars::register_helper`: binds the name
/// `sub` to glue that feeds the two integer parameters to
/// `apply_helper`. Templates are untouched.
#[verifier::external_body]
fn hb_register_sub(reg: &mut HbRegistry)
    ensures
        hb_math_helpers(*final(reg)) == hb_math_helpers(*old(reg)).insert("sub"@),
        hb_templates(*final(reg)) == hb_templates(*old(reg)),
        hb_default_config(*final(reg)) == hb_default_config(*old(reg)),
{
    reg.register_helper(
        "sub",
        Box::new(|h: &handlebars::Helper, _: &handlebars::Handlebars, _: &handlebars::Context, _: &mut handlebars::RenderContext, out: &mut dyn handlebars::Output| -> handlebars::HelperResult {
            let x = h.param(0).and_then(|p| p.value().as_i64());
            let y = h.param(1).and_then(|p| p.value().as_i64());
            match crate::helpers::apply_helper(crate::helpers::HelperOp::Sub, x, y) {
                Ok(s) => { out.write(&s)?; Ok(()) }
                Err(e) => Err(handlebars::RenderErrorReason::Other(e.message()).into()),
            }
        }),
    );
}

/// Relies on `handlebars::Handlebars::render`: renders the named template
/// against the section data, all of the output or none. The engine puts
/// no depth limit on partial inclusion, so only registries whose
/// templates are free of partial and decorator directives are admitted;
/// on those the call returns. An unregistered name fails; for a registry
/// in the default configuration with the five helpers in place, the
/// outcome is a function of the whole template map, the name and the
/// data alone.
#[verifier::external_body]
fn hb_render(
    reg: &HbRegistry,
    name: &str,
    sections: &Sections,
) -> (r: Result<String, handlebars::RenderError>)
    requires
        partial_free(hb_templates(*reg)),
    ensures
        !hb_templates(*reg).dom().contains(name@) ==> r is Err,
        hb_default_config(*reg) && hb_math_helpers(*reg) == standard_math_helpers()
            ==> match render_result(
            hb_templates(*reg),
            name@,
            sections_view(sections@),
        ) {
            Some(s) => r is Ok && r->Ok_0@ == s,
            None => r is Err,
        },
{
    let data: std::collections::BTreeMap<String, std::collections::BTreeMap<String, String>> =
        sections.iter().map(|(k, vs)| (k.clone(), vs.iter().cloned().collect())).collect();
    reg.render(name, &data)
}

/// Relies on the `Display` impl of `handlebars::TemplateError` for a
/// human-readable description of the parse failure.
#[verifier::external_body]
fn template_error_message(e: &handlebars::TemplateError) -> String {
    format!("{}", e)
}

/// Relies on the `Display` impl of `handlebars::RenderError` for a
/// human-readable description of the render failure.
#[verifier::external_body]
fn render_error_message(e: &handlebars::RenderError) -> String {
    format!("{}", e)
}

#[verifier::external_type_specification]
#[verifier::external_body]
pub struct ExHandlebars<'a>(handlebars::Handlebars<'a>);

#[verifier::external_type_specification]
#[verifier::external_body]
pub struct ExTemplateError(handlebars::TemplateError);

#[verifier::external_type_specification]
#[verifier::external_body]
pub struct ExRenderError(handlebars::RenderError);

} // verus!
