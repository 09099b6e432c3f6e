//! Rendering of one template file: merges the configuration's defaults with
//! caller overrides into one context and hands the named template to the
//! engine.

use vstd::prelude::*;

use crate::engine::context_bindings;
use crate::engine::context_clone;
use crate::engine::context_extend;
use crate::engine::no_bindings;
use crate::engine::tera_render;
use crate::engine::tera_resolves;
use crate::template_config::TemplateConfig;
use crate::template_config::kv_map;

verus! {

/// The bindings an optional override context supplies: none supplies none.
pub open spec fn opt_bindings(o: Option<&tera::Context>) -> Map<Seq<char>, Seq<char>> {
    match o {
        Some(c) => context_bindings(*c),
        None => no_bindings(),
    }
}

/// The resolved binding set: every configured variable bound to its default,
/// each override replacing the default of its name; overrides that name no
/// configured variable are admitted unchanged.
pub open spec fn resolved_bindings(
    vars: Seq<(Seq<char>, Seq<char>)>,
    overrides: Map<Seq<char>, Seq<char>>,
) -> Map<Seq<char>, Seq<char>> {
    kv_map(vars).union_prefer_right(overrides)
}

/// Merges the configuration's variable defaults with the caller's override
/// context into the context a render uses: the override wins on every name
/// it binds.
pub fn resolve_render_context(config: &TemplateConfig, overrides: Option<&tera::Context>) -> (r:
    tera::Context)
    ensures
        context_bindings(r) == resolved_bindings(config@.variables, opt_bindings(overrides)),
{
    let mut merged = config.get_render_context();
    match overrides {
        Some(c) => {
            context_extend(&mut merged, context_clone(c));
        },
        None => {
            proof {
                assert(context_bindings(merged).union_prefer_right(no_bindings())
                    =~= context_bindings(merged));
            }
        },
    }
    merged
}

/// Renders the named template against the configuration's defaults merged
/// with the caller's overrides (override wins), returning the engine's
/// rendered text or its error. A name the engine does not resolve always
/// fails; what text a resolved template renders to is the engine's own.
pub fn render_single_file(
    tera: &tera::Tera,
    config: &TemplateConfig,
    template_name: &str,
    context: Option<&tera::Context>,
) -> (r: Result<String, tera::Error>)
    ensures
        r is Ok ==> tera_resolves(*tera, template_name@),
{
    let final_context = resolve_render_context(config, context);
    tera_render(tera, template_name, &final_context)
}

/// Override precedence: a name bound by the overrides resolves to the
/// override's value, never the default; a configured name with no override
/// resolves to its default; an override naming no configured variable is
/// still in the resolved set.
pub proof fn lemma_override_precedence(
    vars: Seq<(Seq<char>, Seq<char>)>,
    overrides: Map<Seq<char>, Seq<char>>,
    name: Seq<char>,
)
    ensures
        overrides.dom().contains(name) ==> resolved_bindings(vars, overrides)[name]
            == overrides[name],
        !overrides.dom().contains(name) && kv_map(vars).dom().contains(name)
            ==> resolved_bindings(vars, overrides)[name] == kv_map(vars)[name],
        overrides.dom().contains(name) || kv_map(vars).dom().contains(name)
            <==> resolved_bindings(vars, overrides).dom().contains(name),
{
}

} // verus!
