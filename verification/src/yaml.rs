//! Trusted boundary around the saphyr YAML loader, and the parse entry that
//! takes raw configuration text.

use vstd::prelude::*;

use saphyr::LoadableYamlNode;
use saphyr::ScalarOwned;
use saphyr::YamlOwned;

use crate::document::DocNode;
use crate::document::DocView;
use crate::parse::ConfigParseError;
use crate::parse::ParseErrView;
use crate::parse::parse_config_from_document;
use crate::parse::spec_parse_config;
use crate::template_config::ConfigView;
use crate::template_config::TemplateConfig;

verus! {

#[verifier::external_type_specification]
#[verifier::external_body]
pub struct ExYamlOwned(saphyr::YamlOwned);

/// What loading YAML text yields: a scanner message on malformed text, or
/// the first document of the stream (None when the stream holds none).
/// Loading is a pure function of the text.
pub uninterp spec fn yaml_load_of(text: Seq<char>) -> Result<Option<DocView>, Seq<char>>;

/// The view of a load outcome.
pub open spec fn load_result_view(r: Result<Option<DocNode>, String>) -> Result<
    Option<DocView>,
    Seq<char>,
> {
    match r {
        Ok(None) => Ok(None),
        Ok(Some(d)) => Ok(Some(d@)),
        Err(m) => Err(m@),
    }
}

/// Converts one saphyr node into a document node: scalars keep their
/// resolved value (numbers as their canonical text), sequences and mappings
/// convert entry by entry, and every other node kind (tags, aliases,
/// unresolved representations) becomes [`DocNode::Other`].
#[verifier::external_body]
fn doc_node_of_yaml(y: &YamlOwned) -> DocNode {
    match y {
        YamlOwned::Value(ScalarOwned::Null) => DocNode::Null,
        YamlOwned::Value(ScalarOwned::Boolean(b)) => DocNode::Bool(*b),
        YamlOwned::Value(ScalarOwned::Integer(i)) => DocNode::IntText(i.to_string()),
        YamlOwned::Value(ScalarOwned::FloatingPoint(f)) => DocNode::FloatText(f.to_string()),
        YamlOwned::Value(ScalarOwned::String(s)) => DocNode::Str(s.clone()),
        YamlOwned::Sequence(items) => DocNode::Sequence(items.iter().map(doc_node_of_yaml).collect()),
        YamlOwned::Mapping(m) => DocNode::Mapping(
            m.iter().map(|(k, v)| (doc_node_of_yaml(k), doc_node_of_yaml(v))).collect(),
        ),
        _ => DocNode::Other,
    }
}

/// Relies on saphyr's YamlOwned::load_from_str: loading resolves the text
/// into a stream of documents, a pure function of the text; scan failure
/// carries the scanner's message.
#[verifier::external_body]
fn load_first_yaml_document(text: &str) -> (r: Result<Option<DocNode>, String>)
    ensures
        load_result_view(r) == yaml_load_of(text@),
{
    match YamlOwned::load_from_str(text) {
        Err(e) => Err(e.to_string()),
        Ok(docs) => Ok(docs.into_iter().next().map(|d| doc_node_of_yaml(&d))),
    }
}

/// What parsing raw configuration text yields: the loader's error, an empty
/// stream (which holds no mapping), or the parse of the first document.
pub open spec fn spec_parse_text(text: Seq<char>) -> Result<ConfigView, ParseErrView> {
    match yaml_load_of(text) {
        Err(m) => Err(ParseErrView::YamlParseError(m)),
        Ok(None) => Err(ParseErrView::ConfigMustBeAMapping),
        Ok(Some(d)) => spec_parse_config(d),
    }
}

/// Loads the given text as YAML and parses its first document into a
/// validated template configuration.
pub fn parse_config_from_yaml_string(yaml: &str) -> (r: Result<TemplateConfig, ConfigParseError>)
    ensures
        r matches Ok(c) ==> spec_parse_text(yaml@) == Ok::<ConfigView, ParseErrView>(c@)
            && c@.wf(),
        r matches Err(e) ==> spec_parse_text(yaml@) == Err::<ConfigView, ParseErrView>(e@),
{
    match load_first_yaml_document(yaml) {
        Err(m) => Err(ConfigParseError::YamlParseError(m)),
        Ok(None) => Err(ConfigParseError::ConfigMustBeAMapping),
        Ok(Some(doc)) => parse_config_from_document(&doc),
    }
}

/// Parsing is deterministic: identical configuration text yields the same
/// outcome, and so a configuration with identical query results, every time.
pub proof fn lemma_parse_deterministic(text1: Seq<char>, text2: Seq<char>)
    requires
        text1 == text2,
    ensures
        spec_parse_text(text1) == spec_parse_text(text2),
{
}

} // verus!
