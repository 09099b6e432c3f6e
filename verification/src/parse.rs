//! The configuration parser: turns a generic parsed document tree into a
//! validated [`TemplateConfig`], enforcing the schema and failing fast with a
//! tagged error on the first deviation.

use vstd::prelude::*;
use vstd::string::StringExecFns;

use crate::document::DocNode;
use crate::document::DocView;
use crate::document::doc_entries_view;
use crate::document::doc_seq_view;
use crate::document::lemma_doc_entries_view;
use crate::document::lemma_doc_seq_view;
use crate::globs::glob_build_err_of;
use crate::globs::glob_builder_patterns;
use crate::globs::glob_compiles;
use crate::globs::glob_new;
use crate::globs::glob_set_builder_add;
use crate::globs::glob_set_builder_build;
use crate::globs::glob_set_builder_new;
use crate::globs::glob_set_builds;
use crate::globs::glob_set_patterns;
use crate::template_config::ConfigView;
use crate::template_config::TemplateConfig;
use crate::template_config::TemplateOutputType;
use crate::template_config::kv_keys_unique;
use crate::template_config::kv_upsert;
use crate::template_config::kv_has_key;
use crate::template_config::opt_str_view;

verus! {

/// Every way a configuration document can deviate from the schema. Parsing
/// fails fast on the first violation encountered.
#[derive(Debug, Clone)]
pub enum ConfigParseError {
    /// The document text could not be loaded at all; carries the loader's
    /// message.
    YamlParseError(String),
    ConfigMustBeAMapping,
    NoOutputConfig,
    OutputConfigMustBeAMapping,
    NoOutputType,
    InvalidOutputType,
    NoOutputFilename,
    InvalidOutputFilename,
    NoOutputDirectory,
    InvalidOutputDirectory,
    NoIncludedFiles,
    InvalidIncludedFiles,
    TooManyIncludedFileGlobs,
    IncludedFileGlobMustBeString,
    /// A pattern failed to compile as a glob; carries the offending pattern
    /// text when known.
    IncludedFileGlobParseError(Option<String>),
    VariablesMustBeAMapping,
    VariableNameMustBeAString,
    VariableDefaultMustBeAScalar,
}

/// Mathematical model of a [`ConfigParseError`].
pub enum ParseErrView {
    YamlParseError(Seq<char>),
    ConfigMustBeAMapping,
    NoOutputConfig,
    OutputConfigMustBeAMapping,
    NoOutputType,
    InvalidOutputType,
    NoOutputFilename,
    InvalidOutputFilename,
    NoOutputDirectory,
    InvalidOutputDirectory,
    NoIncludedFiles,
    InvalidIncludedFiles,
    TooManyIncludedFileGlobs,
    IncludedFileGlobMustBeString,
    IncludedFileGlobParseError(Option<Seq<char>>),
    VariablesMustBeAMapping,
    VariableNameMustBeAString,
    VariableDefaultMustBeAScalar,
}

impl View for ConfigParseError {
    type V = ParseErrView;

    open spec fn view(&self) -> ParseErrView {
        match self {
            ConfigParseError::YamlParseError(m) => ParseErrView::YamlParseError(m@),
            ConfigParseError::ConfigMustBeAMapping => ParseErrView::ConfigMustBeAMapping,
            ConfigParseError::NoOutputConfig => ParseErrView::NoOutputConfig,
            ConfigParseError::OutputConfigMustBeAMapping => ParseErrView::OutputConfigMustBeAMapping,
            ConfigParseError::NoOutputType => ParseErrView::NoOutputType,
            ConfigParseError::InvalidOutputType => ParseErrView::InvalidOutputType,
            ConfigParseError::NoOutputFilename => ParseErrView::NoOutputFilename,
            ConfigParseError::InvalidOutputFilename => ParseErrView::InvalidOutputFilename,
            ConfigParseError::NoOutputDirectory => ParseErrView::NoOutputDirectory,
            ConfigParseError::InvalidOutputDirectory => ParseErrView::InvalidOutputDirectory,
            ConfigParseError::NoIncludedFiles => ParseErrView::NoIncludedFiles,
            ConfigParseError::InvalidIncludedFiles => ParseErrView::InvalidIncludedFiles,
            ConfigParseError::TooManyIncludedFileGlobs => ParseErrView::TooManyIncludedFileGlobs,
            ConfigParseError::IncludedFileGlobMustBeString => ParseErrView::IncludedFileGlobMustBeString,
            ConfigParseError::IncludedFileGlobParseError(p) => ParseErrView::IncludedFileGlobParseError(
                opt_str_view(*p),
            ),
            ConfigParseError::VariablesMustBeAMapping => ParseErrView::VariablesMustBeAMapping,
            ConfigParseError::VariableNameMustBeAString => ParseErrView::VariableNameMustBeAString,
            ConfigParseError::VariableDefaultMustBeAScalar => ParseErrView::VariableDefaultMustBeAScalar,
        }
    }
}

/// The value of the last mapping entry whose key is the string `key`, if any
/// (later entries win, as in a document-tree upsert).
pub open spec fn doc_lookup(entries: Seq<(DocView, DocView)>, key: Seq<char>) -> Option<DocView>
    decreases entries,
{
    if entries.len() == 0 {
        None
    } else if entries.last().0 == DocView::Str(key) {
        Some(entries.last().1)
    } else {
        doc_lookup(entries.drop_last(), key)
    }
}

/// What the `type` key yields: File, Directory, or the schema error.
pub open spec fn spec_output_type(entries: Seq<(DocView, DocView)>) -> Result<
    TemplateOutputType,
    ParseErrView,
> {
    match doc_lookup(entries, "type"@) {
        None => Err(ParseErrView::NoOutputType),
        Some(v) => match v {
            DocView::Str(s) => if s == "file"@ {
                Ok(TemplateOutputType::File)
            } else if s == "directory"@ {
                Ok(TemplateOutputType::Directory)
            } else {
                Err(ParseErrView::InvalidOutputType)
            },
            _ => Err(ParseErrView::InvalidOutputType),
        },
    }
}

/// What the `output` block yields for the given mode: the output name, or
/// the schema error.
pub open spec fn spec_output_name(
    entries: Seq<(DocView, DocView)>,
    ty: TemplateOutputType,
) -> Result<Seq<char>, ParseErrView> {
    match doc_lookup(entries, "output"@) {
        None => Err(ParseErrView::NoOutputConfig),
        Some(v) => match v {
            DocView::Mapping(out_entries) => {
                let key = if ty == TemplateOutputType::File {
                    "filename"@
                } else {
                    "directory"@
                };
                match doc_lookup(out_entries, key) {
                    None => Err(
                        if ty == TemplateOutputType::File {
                            ParseErrView::NoOutputFilename
                        } else {
                            ParseErrView::NoOutputDirectory
                        },
                    ),
                    Some(n) => match n {
                        DocView::Str(s) => Ok(s),
                        _ => Err(
                            if ty == TemplateOutputType::File {
                                ParseErrView::InvalidOutputFilename
                            } else {
                                ParseErrView::InvalidOutputDirectory
                            },
                        ),
                    },
                }
            },
            _ => Err(ParseErrView::OutputConfigMustBeAMapping),
        },
    }
}

/// What a list of glob entries yields: each entry must be a string that
/// compiles as a glob; the first deviation wins.
pub open spec fn spec_glob_list(items: Seq<DocView>) -> Result<Seq<Seq<char>>, ParseErrView>
    decreases items,
{
    if items.len() == 0 {
        Ok(Seq::empty())
    } else {
        match items[0] {
            DocView::Str(s) => if glob_compiles(s) {
                match spec_glob_list(items.drop_first()) {
                    Ok(rest) => Ok(seq![s] + rest),
                    Err(e) => Err(e),
                }
            } else {
                Err(ParseErrView::IncludedFileGlobParseError(Some(s)))
            },
            _ => Err(ParseErrView::IncludedFileGlobMustBeString),
        }
    }
}

/// What the `include` key yields for the given mode: the pattern texts, or
/// the schema error. A File-mode template may name at most one pattern.
pub open spec fn spec_included_patterns(
    entries: Seq<(DocView, DocView)>,
    ty: TemplateOutputType,
) -> Result<Seq<Seq<char>>, ParseErrView> {
    match doc_lookup(entries, "include"@) {
        None => Err(ParseErrView::NoIncludedFiles),
        Some(v) => match v {
            DocView::Str(s) => if glob_compiles(s) {
                Ok(seq![s])
            } else {
                Err(ParseErrView::IncludedFileGlobParseError(Some(s)))
            },
            DocView::Sequence(items) => if ty == TemplateOutputType::File && items.len() > 1 {
                Err(ParseErrView::TooManyIncludedFileGlobs)
            } else {
                spec_glob_list(items)
            },
            _ => Err(ParseErrView::InvalidIncludedFiles),
        },
    }
}

/// The canonical text of a scalar variable default: null coerces to the
/// empty string, booleans and numbers to their canonical form; a non-scalar
/// has none.
pub open spec fn scalar_text(v: DocView) -> Option<Seq<char>> {
    match v {
        DocView::Null => Some(Seq::empty()),
        DocView::Bool(b) => Some(if b {
            "true"@
        } else {
            "false"@
        }),
        DocView::IntText(s) => Some(s),
        DocView::FloatText(s) => Some(s),
        DocView::Str(s) => Some(s),
        _ => None,
    }
}

/// What the entries of the `variables` mapping yield, folded over an
/// accumulator: each name must be a string, each default a scalar; a later
/// occurrence of a name wins.
pub open spec fn spec_variables(
    ventries: Seq<(DocView, DocView)>,
    acc: Seq<(Seq<char>, Seq<char>)>,
) -> Result<Seq<(Seq<char>, Seq<char>)>, ParseErrView>
    decreases ventries,
{
    if ventries.len() == 0 {
        Ok(acc)
    } else {
        match ventries[0].0 {
            DocView::Str(name) => match scalar_text(ventries[0].1) {
                Some(text) => spec_variables(ventries.drop_first(), kv_upsert(acc, name, text)),
                None => Err(ParseErrView::VariableDefaultMustBeAScalar),
            },
            _ => Err(ParseErrView::VariableNameMustBeAString),
        }
    }
}

/// What the optional `variables` key yields: its absence is no error.
pub open spec fn spec_variables_section(entries: Seq<(DocView, DocView)>) -> Result<
    Seq<(Seq<char>, Seq<char>)>,
    ParseErrView,
> {
    match doc_lookup(entries, "variables"@) {
        None => Ok(Seq::empty()),
        Some(v) => match v {
            DocView::Mapping(ventries) => spec_variables(ventries, Seq::empty()),
            _ => Err(ParseErrView::VariablesMustBeAMapping),
        },
    }
}

/// What parsing a whole configuration document yields: the validated
/// configuration, or the first schema error in document-schema order
/// (root shape, output type, output block, output name, inclusion
/// patterns, variables).
pub open spec fn spec_parse_config(doc: DocView) -> Result<ConfigView, ParseErrView> {
    match doc {
        DocView::Mapping(entries) => match spec_output_type(entries) {
            Err(e) => Err(e),
            Ok(ty) => match spec_output_name(entries, ty) {
                Err(e) => Err(e),
                Ok(name) => match spec_included_patterns(entries, ty) {
                    Err(e) => Err(e),
                    Ok(patterns) => if glob_set_builds(patterns) {
                        match spec_variables_section(entries) {
                            Err(e) => Err(e),
                            Ok(vars) => Ok(
                                ConfigView {
                                    output_type: ty,
                                    output_filename: if ty == TemplateOutputType::File {
                                        Some(name)
                                    } else {
                                        None
                                    },
                                    output_directory: if ty == TemplateOutputType::Directory {
                                        Some(name)
                                    } else {
                                        None
                                    },
                                    patterns,
                                    variables: vars,
                                },
                            ),
                        }
                    } else {
                        Err(
                            ParseErrView::IncludedFileGlobParseError(
                                glob_build_err_of(patterns),
                            ),
                        )
                    },
                },
            },
        },
        _ => Err(ParseErrView::ConfigMustBeAMapping),
    }
}

/// The value of the last mapping entry keyed by the string `key`, if any.
fn mapping_get<'a>(entries: &'a Vec<(DocNode, DocNode)>, key: &str) -> (r: Option<&'a DocNode>)
    ensures
        match r {
            Some(v) => doc_lookup(doc_entries_view(entries@), key@) == Some(v@),
            None => doc_lookup(doc_entries_view(entries@), key@) is None,
        },
{
    let key_string: String = String::from_str(key);
    let ghost eview = doc_entries_view(entries@);
    proof {
        lemma_doc_entries_view(entries@);
        assert(eview.take(entries@.len() as int) =~= eview);
    }
    let mut i = entries.len();
    while i > 0
        invariant
            i <= entries.len(),
            key_string@ == key@,
            eview == doc_entries_view(entries@),
            eview.len() == entries@.len(),
            forall|j: int| 0 <= j < entries@.len() ==> eview[j] == (
            #[trigger] entries@[j].0@,
            entries@[j].1@,
            ),
            doc_lookup(eview, key@) == doc_lookup(eview.take(i as int), key@),
        decreases i,
    {
        i = i - 1;
        proof {
            assert(eview[i as int] == (entries@[i as int].0@, entries@[i as int].1@));
            assert(eview.take(i as int + 1).drop_last() =~= eview.take(i as int));
            assert(eview.take(i as int + 1).last() == eview[i as int]);
        }
        let pair = &entries[i];
        proof {
            assert(*pair == entries@[i as int]);
        }
        match &pair.0 {
            DocNode::Str(s) => {
                if *s == key_string {
                    proof {
                        assert(pair.0 == entries@[i as int].0);
                        assert(s@ == key@);
                        assert(pair.0@ == DocView::Str(s@));
                        assert(entries@[i as int].0@ == DocView::Str(key@));
                        assert(doc_lookup(eview.take(i as int + 1), key@) == Some(
                            eview[i as int].1,
                        ));
                    }
                    return Some(&pair.1);
                }
                proof {
                    assert(entries@[i as int].0@ != DocView::Str(key@));
                }
            },
            _ => {
                proof {
                    assert(entries@[i as int].0@ != DocView::Str(key@));
                }
            },
        }
    }
    proof {
        assert(eview.take(0) =~= Seq::<(DocView, DocView)>::empty());
    }
    None
}

/// The canonical text of a scalar document node, if it is a scalar.
fn scalar_text_of(v: &DocNode) -> (r: Option<String>)
    ensures
        opt_str_view(r) == scalar_text(v@),
{
    match v {
        DocNode::Null => Some(String::new()),
        DocNode::Bool(b) => Some(
            if *b {
                String::from_str("true")
            } else {
                String::from_str("false")
            },
        ),
        DocNode::IntText(s) => Some(s.clone()),
        DocNode::FloatText(s) => Some(s.clone()),
        DocNode::Str(s) => Some(s.clone()),
        DocNode::Sequence(_) => None,
        DocNode::Mapping(_) => None,
        DocNode::Other => None,
    }
}

/// Converts a parsed document tree into a validated template configuration,
/// enforcing the schema in order: the root must be a mapping; `type` must be
/// the string `file` or `directory`; `output` must be a mapping holding the
/// mode's name under `filename` or `directory`; `include` must be a string
/// or a list of strings, each compiling as a glob, at most one in File mode;
/// the optional `variables` mapping must bind string names to scalars.
pub fn parse_config_from_document(doc: &DocNode) -> (r: Result<TemplateConfig, ConfigParseError>)
    ensures
        r matches Ok(c) ==> spec_parse_config(doc@) == Ok::<ConfigView, ParseErrView>(c@)
            && c@.wf(),
        r matches Err(e) ==> spec_parse_config(doc@) == Err::<ConfigView, ParseErrView>(e@),
{
    let entries = match doc {
        DocNode::Mapping(entries) => entries,
        _ => {
            return Err(ConfigParseError::ConfigMustBeAMapping);
        },
    };
    let ghost eview = doc_entries_view(entries@);

    // The output type.
    let file_text: String = String::from_str("file");
    let directory_text: String = String::from_str("directory");
    let ty = match mapping_get(entries, "type") {
        None => {
            return Err(ConfigParseError::NoOutputType);
        },
        Some(v) => match v {
            DocNode::Str(s) => {
                if *s == file_text {
                    TemplateOutputType::File
                } else if *s == directory_text {
                    TemplateOutputType::Directory
                } else {
                    return Err(ConfigParseError::InvalidOutputType);
                }
            },
            _ => {
                return Err(ConfigParseError::InvalidOutputType);
            },
        },
    };
    assert(spec_output_type(eview) == Ok::<TemplateOutputType, ParseErrView>(ty));

    // The output block and the mode's output name.
    let output_name: String = match mapping_get(entries, "output") {
        None => {
            return Err(ConfigParseError::NoOutputConfig);
        },
        Some(out_node) => match out_node {
            DocNode::Mapping(out_entries) => {
                if ty == TemplateOutputType::File {
                    match mapping_get(out_entries, "filename") {
                        None => {
                            return Err(ConfigParseError::NoOutputFilename);
                        },
                        Some(DocNode::Str(s)) => s.clone(),
                        Some(_) => {
                            return Err(ConfigParseError::InvalidOutputFilename);
                        },
                    }
                } else {
                    match mapping_get(out_entries, "directory") {
                        None => {
                            return Err(ConfigParseError::NoOutputDirectory);
                        },
                        Some(DocNode::Str(s)) => s.clone(),
                        Some(_) => {
                            return Err(ConfigParseError::InvalidOutputDirectory);
                        },
                    }
                }
            },
            _ => {
                return Err(ConfigParseError::OutputConfigMustBeAMapping);
            },
        },
    };
    assert(spec_output_name(eview, ty) == Ok::<Seq<char>, ParseErrView>(output_name@));

    // The inclusion patterns.
    let mut builder = glob_set_builder_new();
    match mapping_get(entries, "include") {
        None => {
            return Err(ConfigParseError::NoIncludedFiles);
        },
        Some(inc_node) => match inc_node {
            DocNode::Str(s) => {
                match glob_new(s.as_str()) {
                    Ok(g) => {
                        glob_set_builder_add(&mut builder, g);
                        proof {
                            assert(glob_builder_patterns(builder) =~= seq![s@]);
                        }
                    },
                    Err(p) => {
                        return Err(ConfigParseError::IncludedFileGlobParseError(p));
                    },
                }
            },
            DocNode::Sequence(items) => {
                let ghost iview = doc_seq_view(items@);
                proof {
                    lemma_doc_seq_view(items@);
                }
                if ty == TemplateOutputType::File && items.len() > 1 {
                    return Err(ConfigParseError::TooManyIncludedFileGlobs);
                }
                proof {
                    assert(iview.skip(0) =~= iview);
                    assert(Seq::<Seq<char>>::empty() + spec_glob_list_rest(iview, 0) =~= spec_glob_list_rest(iview, 0));
                }
                let n = items.len();
                for i in 0..n
                    invariant
                        n == items@.len(),
                        iview == doc_seq_view(items@),
                        iview.len() == items@.len(),
                        forall|j: int| 0 <= j < items@.len() ==> iview[j] == #[trigger] items@[j]@,
                        spec_glob_list_joined(iview, glob_builder_patterns(builder), i as int),
                        doc@ == DocView::Mapping(eview),
                        spec_output_type(eview) == Ok::<TemplateOutputType, ParseErrView>(ty),
                        spec_output_name(eview, ty) == Ok::<Seq<char>, ParseErrView>(
                            output_name@,
                        ),
                        doc_lookup(eview, "include"@) == Some(DocView::Sequence(iview)),
                        !(ty == TemplateOutputType::File && iview.len() > 1),
                {
                    proof {
                        assert(iview.skip(i as int).drop_first() =~= iview.skip(i as int + 1));
                        assert(iview.skip(i as int)[0] == iview[i as int]);
                        assert(iview[i as int] == items@[i as int]@);
                    }
                    match &items[i] {
                        DocNode::Str(s) => {
                            match glob_new(s.as_str()) {
                                Ok(g) => {
                                    let ghost before = glob_builder_patterns(builder);
                                    glob_set_builder_add(&mut builder, g);
                                    proof {
                                        assert((before.push(s@)) + spec_glob_list_rest(iview, i as int + 1) =~= before + (seq![s@] + spec_glob_list_rest(iview, i as int + 1)));
                                    }
                                },
                                Err(p) => {
                                    proof {
                                        assert(spec_glob_list(iview)
                                            == Err::<Seq<Seq<char>>, ParseErrView>(
                                            ParseErrView::IncludedFileGlobParseError(Some(s@)),
                                        ));
                                        assert(spec_included_patterns(eview, ty)
                                            == Err::<Seq<Seq<char>>, ParseErrView>(
                                            ParseErrView::IncludedFileGlobParseError(Some(s@)),
                                        ));
                                    }
                                    return Err(ConfigParseError::IncludedFileGlobParseError(p));
                                },
                            }
                        },
                        _ => {
                            proof {
                                assert(spec_glob_list(iview) == Err::<
                                    Seq<Seq<char>>,
                                    ParseErrView,
                                >(ParseErrView::IncludedFileGlobMustBeString));
                                assert(spec_included_patterns(eview, ty) == Err::<
                                    Seq<Seq<char>>,
                                    ParseErrView,
                                >(ParseErrView::IncludedFileGlobMustBeString));
                            }
                            return Err(ConfigParseError::IncludedFileGlobMustBeString);
                        },
                    }
                }
                proof {
                    assert(iview.skip(n as int) =~= Seq::<DocView>::empty());
                    assert(glob_builder_patterns(builder) + Seq::<Seq<char>>::empty() =~= glob_builder_patterns(builder));
                }
            },
            _ => {
                return Err(ConfigParseError::InvalidIncludedFiles);
            },
        },
    }
    assert(spec_included_patterns(eview, ty) == Ok::<Seq<Seq<char>>, ParseErrView>(
        glob_builder_patterns(builder),
    ));
    let globset = match glob_set_builder_build(&builder) {
        Ok(s) => s,
        Err(p) => {
            return Err(ConfigParseError::IncludedFileGlobParseError(p));
        },
    };

    // Assemble the configuration.
    let ghost oname = output_name@;
    let ghost pats = glob_builder_patterns(builder);
    let mut config = TemplateConfig::new();
    config.set_output_type(ty);
    if ty == TemplateOutputType::File {
        config.set_output_filename(output_name);
    } else {
        config.set_output_directory(output_name);
    }
    config.update_included_file_patterns(globset);

    // The optional variables.
    match mapping_get(entries, "variables") {
        None => {},
        Some(vars_node) => match vars_node {
            DocNode::Mapping(ventries) => {
                let ghost vview = doc_entries_view(ventries@);
                let ghost base = config@;
                proof {
                    lemma_doc_entries_view(ventries@);
                    assert(vview.skip(0) =~= vview);
                }
                let n = ventries.len();
                for i in 0..n
                    invariant
                        n == ventries@.len(),
                        vview == doc_entries_view(ventries@),
                        vview.len() == ventries@.len(),
                        forall|j: int| 0 <= j < ventries@.len() ==> vview[j] == (
                        #[trigger] ventries@[j].0@,
                        ventries@[j].1@,
                        ),
                        config@ == (ConfigView { variables: config@.variables, ..base }),
                        kv_keys_unique(config@.variables),
                        spec_variables(vview, Seq::empty()) == spec_variables(
                            vview.skip(i as int),
                            config@.variables,
                        ),
                        doc@ == DocView::Mapping(eview),
                        spec_output_type(eview) == Ok::<TemplateOutputType, ParseErrView>(ty),
                        spec_output_name(eview, ty) == Ok::<Seq<char>, ParseErrView>(oname),
                        spec_included_patterns(eview, ty) == Ok::<Seq<Seq<char>>, ParseErrView>(
                            pats,
                        ),
                        glob_set_builds(pats),
                        doc_lookup(eview, "variables"@) == Some(DocView::Mapping(vview)),
                {
                    proof {
                        assert(vview.skip(i as int).drop_first() =~= vview.skip(i as int + 1));
                        assert(vview.skip(i as int)[0] == vview[i as int]);
                        assert(vview[i as int] == (ventries@[i as int].0@, ventries@[i as int].1@));
                    }
                    match &ventries[i].0 {
                        DocNode::Str(name) => {
                            match scalar_text_of(&ventries[i].1) {
                                Some(text) => {
                                    proof {
                                        lemma_kv_upsert_unique(
                                            config@.variables,
                                            name@,
                                            text@,
                                        );
                                    }
                                    let _ = config.add_variable(name.clone(), text);
                                },
                                None => {
                                    proof {
                                        assert(spec_variables(vview, Seq::empty()) == Err::<
                                            Seq<(Seq<char>, Seq<char>)>,
                                            ParseErrView,
                                        >(ParseErrView::VariableDefaultMustBeAScalar));
                                        assert(spec_variables_section(eview) == Err::<
                                            Seq<(Seq<char>, Seq<char>)>,
                                            ParseErrView,
                                        >(ParseErrView::VariableDefaultMustBeAScalar));
                                    }
                                    return Err(ConfigParseError::VariableDefaultMustBeAScalar);
                                },
                            }
                        },
                        _ => {
                            proof {
                                assert(spec_variables(vview, Seq::empty()) == Err::<
                                    Seq<(Seq<char>, Seq<char>)>,
                                    ParseErrView,
                                >(ParseErrView::VariableNameMustBeAString));
                                assert(spec_variables_section(eview) == Err::<
                                    Seq<(Seq<char>, Seq<char>)>,
                                    ParseErrView,
                                >(ParseErrView::VariableNameMustBeAString));
                            }
                            return Err(ConfigParseError::VariableNameMustBeAString);
                        },
                    }
                }
                proof {
                    assert(vview.skip(n as int) =~= Seq::<(DocView, DocView)>::empty());
                }
            },
            _ => {
                return Err(ConfigParseError::VariablesMustBeAMapping);
            },
        },
    }
    assert(spec_variables_section(eview) == Ok::<Seq<(Seq<char>, Seq<char>)>, ParseErrView>(
        config@.variables,
    ));

    Ok(config)
}

/// The pattern texts a glob list yields when every entry is a valid glob.
pub open spec fn spec_glob_list_rest(items: Seq<DocView>, i: int) -> Seq<Seq<char>> {
    match spec_glob_list(items.skip(i)) {
        Ok(rest) => rest,
        Err(_) => Seq::empty(),
    }
}

/// The running shape of the glob-list scan: the whole list's outcome equals
/// the patterns gathered so far joined with the outcome of what is left.
pub open spec fn spec_glob_list_joined(
    items: Seq<DocView>,
    gathered: Seq<Seq<char>>,
    i: int,
) -> bool {
    match spec_glob_list(items.skip(i)) {
        Ok(rest) => spec_glob_list(items) == Ok::<Seq<Seq<char>>, ParseErrView>(gathered + rest),
        Err(e) => spec_glob_list(items) == Err::<Seq<Seq<char>>, ParseErrView>(e),
    }
}

/// A document missing a required key fails with exactly the matching tagged
/// error, fail-fast: no configuration is produced at all, and a deviation at
/// an earlier step wins over everything after it.
pub proof fn lemma_missing_required_key(es: Seq<(DocView, DocView)>)
    ensures
        doc_lookup(es, "type"@) is None ==> spec_parse_config(DocView::Mapping(es)) == Err::<
            ConfigView,
            ParseErrView,
        >(ParseErrView::NoOutputType),
        spec_output_type(es) is Ok && doc_lookup(es, "output"@) is None ==> spec_parse_config(
            DocView::Mapping(es),
        ) == Err::<ConfigView, ParseErrView>(ParseErrView::NoOutputConfig),
        (spec_output_type(es) == Ok::<TemplateOutputType, ParseErrView>(TemplateOutputType::File)
            && (doc_lookup(es, "output"@) matches Some(DocView::Mapping(oe)) && doc_lookup(
            oe,
            "filename"@,
        ) is None)) ==> spec_parse_config(DocView::Mapping(es)) == Err::<
            ConfigView,
            ParseErrView,
        >(ParseErrView::NoOutputFilename),
        (spec_output_type(es) == Ok::<TemplateOutputType, ParseErrView>(
            TemplateOutputType::Directory,
        ) && (doc_lookup(es, "output"@) matches Some(DocView::Mapping(oe)) && doc_lookup(
            oe,
            "directory"@,
        ) is None)) ==> spec_parse_config(DocView::Mapping(es)) == Err::<
            ConfigView,
            ParseErrView,
        >(ParseErrView::NoOutputDirectory),
        (spec_output_type(es) matches Ok(ty) && spec_output_name(es, ty) is Ok && doc_lookup(
            es,
            "include"@,
        ) is None) ==> spec_parse_config(DocView::Mapping(es)) == Err::<
            ConfigView,
            ParseErrView,
        >(ParseErrView::NoIncludedFiles),
{
}

/// File-mode defence in depth, at parse time: a File-mode document whose
/// include list names more than one pattern is refused outright, before any
/// pattern is even compiled.
pub proof fn lemma_file_mode_pattern_count(es: Seq<(DocView, DocView)>, items: Seq<DocView>)
    requires
        spec_output_type(es) == Ok::<TemplateOutputType, ParseErrView>(TemplateOutputType::File),
        spec_output_name(es, TemplateOutputType::File) is Ok,
        doc_lookup(es, "include"@) == Some(DocView::Sequence(items)),
        items.len() > 1,
    ensures
        spec_parse_config(DocView::Mapping(es)) == Err::<ConfigView, ParseErrView>(
            ParseErrView::TooManyIncludedFileGlobs,
        ),
{
}

/// Upserting preserves key uniqueness, and adds no key but the upserted one.
pub proof fn lemma_kv_upsert_unique(
    pairs: Seq<(Seq<char>, Seq<char>)>,
    name: Seq<char>,
    value: Seq<char>,
)
    requires
        kv_keys_unique(pairs),
    ensures
        kv_keys_unique(kv_upsert(pairs, name, value)),
        forall|k: Seq<char>|
            kv_has_key(kv_upsert(pairs, name, value), k) <==> (kv_has_key(pairs, k) || k
                == name),
    decreases pairs,
{
    reveal_with_fuel(kv_has_key, 3);
    reveal_with_fuel(kv_keys_unique, 3);
    let u = kv_upsert(pairs, name, value);
    if pairs.len() == 0 {
        assert(u.drop_first() =~= Seq::<(Seq<char>, Seq<char>)>::empty());
        assert(kv_keys_unique(u));
        assert forall|k: Seq<char>|
            kv_has_key(u, k) <==> (kv_has_key(pairs, k) || k == name) by {
            assert(kv_has_key(u, k) == (u[0].0 == k || kv_has_key(u.drop_first(), k)));
        }
    } else if pairs[0].0 == name {
        assert(u.drop_first() =~= pairs.drop_first());
        assert(u[0].0 == name);
        assert(kv_keys_unique(u));
        assert forall|k: Seq<char>|
            kv_has_key(u, k) <==> (kv_has_key(pairs, k) || k == name) by {
            assert(kv_has_key(u, k) == (u[0].0 == k || kv_has_key(u.drop_first(), k)));
            assert(kv_has_key(pairs, k) == (pairs[0].0 == k || kv_has_key(
                pairs.drop_first(),
                k,
            )));
        }
    } else {
        lemma_kv_upsert_unique(pairs.drop_first(), name, value);
        let urest = kv_upsert(pairs.drop_first(), name, value);
        assert(u.drop_first() =~= urest);
        assert(u[0] == pairs[0]);
        assert(!kv_has_key(urest, pairs[0].0));
        assert(kv_keys_unique(u));
        assert forall|k: Seq<char>|
            kv_has_key(u, k) <==> (kv_has_key(pairs, k) || k == name) by {
            assert(kv_has_key(u, k) == (u[0].0 == k || kv_has_key(urest, k)));
            assert(kv_has_key(pairs, k) == (pairs[0].0 == k || kv_has_key(
                pairs.drop_first(),
                k,
            )));
        }
    }
}



} // verus!
