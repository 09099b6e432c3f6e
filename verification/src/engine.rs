//! Trusted boundary around the `tera` templating engine: the engine handle,
//! the render context (a collection of variable bindings, modelled as a map
//! from binding name to bound text), and the render call itself.

use vstd::prelude::*;

verus! {

#[verifier::external_type_specification]
#[verifier::external_body]
pub struct ExTera(tera::Tera);

#[verifier::external_type_specification]
#[verifier::external_body]
pub struct ExContext(tera::Context);

#[verifier::external_type_specification]
#[verifier::external_body]
pub struct ExTeraError(tera::Error);

/// The bindings a render context holds: binding name to the text bound to it.
pub uninterp spec fn context_bindings(c: tera::Context) -> Map<Seq<char>, Seq<char>>;

/// Whether the engine resolves a template name to one of its registered
/// templates (tera's own contains_template notion, fallback prefixes
/// included).
pub uninterp spec fn tera_resolves(t: tera::Tera, name: Seq<char>) -> bool;

/// The bindings of a context that holds none.
pub open spec fn no_bindings() -> Map<Seq<char>, Seq<char>> {
    Map::empty()
}

/// Relies on tera::Context::new: an empty context.
#[verifier::external_body]
pub(crate) fn context_new() -> (r: tera::Context)
    ensures
        context_bindings(r) == no_bindings(),
{
    tera::Context::new()
}

/// Relies on tera::Context::insert: binds the key to the given text,
/// replacing any earlier binding of the same key.
#[verifier::external_body]
pub(crate) fn context_insert(c: &mut tera::Context, key: &str, value: &str)
    ensures
        context_bindings(*final(c)) == context_bindings(*old(c)).insert(key@, value@),
{
    c.insert(key.to_string(), value)
}

/// Relies on tera::Context::extend: every binding of `source` is added,
/// replacing the binding of any key present in both.
#[verifier::external_body]
pub(crate) fn context_extend(c: &mut tera::Context, source: tera::Context)
    ensures
        context_bindings(*final(c)) == context_bindings(*old(c)).union_prefer_right(
            context_bindings(source),
        ),
{
    c.extend(source)
}

/// Relies on tera::Context::clone: the clone holds the same bindings.
#[verifier::external_body]
pub(crate) fn context_clone(c: &tera::Context) -> (r: tera::Context)
    ensures
        context_bindings(r) == context_bindings(*c),
{
    c.clone()
}

/// Relies on tera::Tera::render: a name the engine does not resolve renders
/// to an error; what text comes back otherwise depends on the engine's
/// loaded templates and on impure built-ins, so nothing more is stated.
#[verifier::external_body]
pub(crate) fn tera_render(t: &tera::Tera, template_name: &str, context: &tera::Context) -> (r:
    Result<String, tera::Error>)
    ensures
        r is Ok ==> tera_resolves(*t, template_name@),
{
    t.render(template_name, context)
}

} // verus!
