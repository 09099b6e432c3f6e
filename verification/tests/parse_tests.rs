use utsusu::document::DocNode;
use utsusu::parse::ConfigParseError;
use utsusu::parse::parse_config_from_document;
use utsusu::template_config::TemplateOutputType;
use utsusu::yaml::parse_config_from_yaml_string;

#[test]
fn parse_file_mode_config() {
    let yaml = "
type: file
output:
  filename: test.rs
include: template.rs
";
    let config = parse_config_from_yaml_string(yaml).unwrap();
    assert_eq!(config.get_output_type(), TemplateOutputType::File);
    assert_eq!(config.get_output_filename(), Some("test.rs"));
    assert_eq!(config.get_output_directory(), None);
    assert!(config.should_include_file("template.rs"));
    assert!(!config.should_include_file("other.rs"));
}

#[test]
fn parse_directory_mode_config() {
    let yaml = "
type: directory
output:
  directory: out
include:
  - \"*.txt\"
  - \"sub/*.txt\"
";
    let config = parse_config_from_yaml_string(yaml).unwrap();
    assert_eq!(config.get_output_type(), TemplateOutputType::Directory);
    assert_eq!(config.get_output_directory(), Some("out"));
    assert_eq!(config.get_output_filename(), None);
    assert!(config.should_include_file("a.txt"));
    assert!(!config.should_include_file("a.rs"));
}

#[test]
fn parse_is_deterministic() {
    let yaml = "
type: file
output:
  filename: f.txt
include: \"*.txt\"
variables:
  name: World
  count: 3
";
    let a = parse_config_from_yaml_string(yaml).unwrap();
    let b = parse_config_from_yaml_string(yaml).unwrap();
    assert_eq!(a.get_output_type(), b.get_output_type());
    assert_eq!(a.get_output_filename(), b.get_output_filename());
    assert_eq!(a.get_output_directory(), b.get_output_directory());
    assert_eq!(a.get_variable_items(), b.get_variable_items());
    assert_eq!(
        a.should_include_file("x.txt"),
        b.should_include_file("x.txt")
    );
}

#[test]
fn variable_defaults_coerce_to_canonical_text() {
    let yaml = "
type: file
output:
  filename: f
include: t
variables:
  empty:
  flag: true
  count: 42
  ratio: 1.5
  name: World
";
    let config = parse_config_from_yaml_string(yaml).unwrap();
    let items = config.get_variable_items();
    assert_eq!(items.len(), 5);
    assert_eq!(items[0], ("empty".to_string(), "".to_string()));
    assert_eq!(items[1], ("flag".to_string(), "true".to_string()));
    assert_eq!(items[2], ("count".to_string(), "42".to_string()));
    assert_eq!(items[3], ("ratio".to_string(), "1.5".to_string()));
    assert_eq!(items[4], ("name".to_string(), "World".to_string()));
}

#[test]
fn yaml_parse_error_on_malformed_text() {
    let res = parse_config_from_yaml_string("a: [unclosed");
    assert!(matches!(res, Err(ConfigParseError::YamlParseError(_))));
}

#[test]
fn config_must_be_a_mapping() {
    let res = parse_config_from_yaml_string("- just\n- a\n- sequence\n");
    assert!(matches!(res, Err(ConfigParseError::ConfigMustBeAMapping)));
}

#[test]
fn no_output_type_when_type_key_missing() {
    let res = parse_config_from_yaml_string("output:\n  filename: f\ninclude: t\n");
    assert!(matches!(res, Err(ConfigParseError::NoOutputType)));
}

#[test]
fn invalid_output_type_on_unknown_word() {
    let res = parse_config_from_yaml_string("type: archive\noutput:\n  filename: f\ninclude: t\n");
    assert!(matches!(res, Err(ConfigParseError::InvalidOutputType)));
}

#[test]
fn invalid_output_type_on_non_string() {
    let res = parse_config_from_yaml_string("type: true\noutput:\n  filename: f\ninclude: t\n");
    assert!(matches!(res, Err(ConfigParseError::InvalidOutputType)));
}

#[test]
fn no_output_config_when_output_missing() {
    let res = parse_config_from_yaml_string("type: file\ninclude: t\n");
    assert!(matches!(res, Err(ConfigParseError::NoOutputConfig)));
}

#[test]
fn output_config_must_be_a_mapping() {
    let res = parse_config_from_yaml_string("type: file\noutput: flat\ninclude: t\n");
    assert!(matches!(res, Err(ConfigParseError::OutputConfigMustBeAMapping)));
}

#[test]
fn no_output_filename_in_file_mode() {
    let res = parse_config_from_yaml_string("type: file\noutput:\n  directory: d\ninclude: t\n");
    assert!(matches!(res, Err(ConfigParseError::NoOutputFilename)));
}

#[test]
fn invalid_output_filename_on_non_string() {
    let res =
        parse_config_from_yaml_string("type: file\noutput:\n  filename: [f]\ninclude: t\n");
    assert!(matches!(res, Err(ConfigParseError::InvalidOutputFilename)));
}

#[test]
fn no_output_directory_in_directory_mode() {
    let res =
        parse_config_from_yaml_string("type: directory\noutput:\n  filename: f\ninclude: t\n");
    assert!(matches!(res, Err(ConfigParseError::NoOutputDirectory)));
}

#[test]
fn invalid_output_directory_on_non_string() {
    let res =
        parse_config_from_yaml_string("type: directory\noutput:\n  directory: [d]\ninclude: t\n");
    assert!(matches!(res, Err(ConfigParseError::InvalidOutputDirectory)));
}

#[test]
fn no_included_files_when_include_missing() {
    // The configuration must fail before any file enumeration could even be
    // attempted: parsing alone already yields the error.
    let res = parse_config_from_yaml_string("type: file\noutput:\n  filename: f\n");
    assert!(matches!(res, Err(ConfigParseError::NoIncludedFiles)));
}

#[test]
fn invalid_included_files_on_wrong_shape() {
    let res =
        parse_config_from_yaml_string("type: file\noutput:\n  filename: f\ninclude:\n  a: b\n");
    assert!(matches!(res, Err(ConfigParseError::InvalidIncludedFiles)));
}

#[test]
fn too_many_included_file_globs_in_file_mode() {
    let res = parse_config_from_yaml_string(
        "type: file\noutput:\n  filename: f\ninclude:\n  - a.txt\n  - b.txt\n",
    );
    assert!(matches!(res, Err(ConfigParseError::TooManyIncludedFileGlobs)));
}

#[test]
fn two_globs_are_fine_in_directory_mode() {
    let res = parse_config_from_yaml_string(
        "type: directory\noutput:\n  directory: d\ninclude:\n  - a.txt\n  - b.txt\n",
    );
    assert!(res.is_ok());
}

#[test]
fn included_file_glob_must_be_string() {
    let res = parse_config_from_yaml_string(
        "type: directory\noutput:\n  directory: d\ninclude:\n  - 7\n",
    );
    assert!(matches!(res, Err(ConfigParseError::IncludedFileGlobMustBeString)));
}

#[test]
fn included_file_glob_parse_error_carries_pattern() {
    let res = parse_config_from_yaml_string(
        "type: file\noutput:\n  filename: f\ninclude: \"a[\"\n",
    );
    match res {
        Err(ConfigParseError::IncludedFileGlobParseError(glob)) => {
            assert_eq!(glob.as_deref(), Some("a["));
        },
        other => panic!("expected a glob parse error, got {:?}", other.is_ok()),
    }
}

#[test]
fn variables_must_be_a_mapping() {
    let res = parse_config_from_yaml_string(
        "type: file\noutput:\n  filename: f\ninclude: t\nvariables:\n  - a\n",
    );
    assert!(matches!(res, Err(ConfigParseError::VariablesMustBeAMapping)));
}

#[test]
fn variable_name_must_be_a_string() {
    let res = parse_config_from_yaml_string(
        "type: file\noutput:\n  filename: f\ninclude: t\nvariables:\n  7: x\n",
    );
    assert!(matches!(res, Err(ConfigParseError::VariableNameMustBeAString)));
}

#[test]
fn variable_default_must_be_a_scalar() {
    let res = parse_config_from_yaml_string(
        "type: file\noutput:\n  filename: f\ninclude: t\nvariables:\n  a:\n    b: c\n",
    );
    assert!(matches!(res, Err(ConfigParseError::VariableDefaultMustBeAScalar)));
}

#[test]
fn missing_variables_key_is_not_an_error() {
    let res = parse_config_from_yaml_string("type: file\noutput:\n  filename: f\ninclude: t\n");
    let config = res.unwrap();
    assert!(config.get_variable_items().is_empty());
}

#[test]
fn document_tree_duplicate_key_last_wins() {
    let doc = DocNode::Mapping(vec![
        (
            DocNode::Str("type".to_string()),
            DocNode::Str("file".to_string()),
        ),
        (
            DocNode::Str("output".to_string()),
            DocNode::Mapping(vec![(
                DocNode::Str("filename".to_string()),
                DocNode::Str("first.txt".to_string()),
            )]),
        ),
        (
            DocNode::Str("include".to_string()),
            DocNode::Str("t.txt".to_string()),
        ),
        (
            DocNode::Str("output".to_string()),
            DocNode::Mapping(vec![(
                DocNode::Str("filename".to_string()),
                DocNode::Str("last.txt".to_string()),
            )]),
        ),
    ]);
    let config = parse_config_from_document(&doc).unwrap();
    assert_eq!(config.get_output_filename(), Some("last.txt"));
}

#[test]
fn duplicate_variable_name_last_wins() {
    let doc = DocNode::Mapping(vec![
        (
            DocNode::Str("type".to_string()),
            DocNode::Str("file".to_string()),
        ),
        (
            DocNode::Str("output".to_string()),
            DocNode::Mapping(vec![(
                DocNode::Str("filename".to_string()),
                DocNode::Str("f.txt".to_string()),
            )]),
        ),
        (
            DocNode::Str("include".to_string()),
            DocNode::Str("t.txt".to_string()),
        ),
        (
            DocNode::Str("variables".to_string()),
            DocNode::Mapping(vec![
                (
                    DocNode::Str("name".to_string()),
                    DocNode::Str("first".to_string()),
                ),
                (
                    DocNode::Str("name".to_string()),
                    DocNode::Str("second".to_string()),
                ),
            ]),
        ),
    ]);
    let config = parse_config_from_document(&doc).unwrap();
    assert_eq!(
        config.get_variable_items(),
        vec![("name".to_string(), "second".to_string())]
    );
}
