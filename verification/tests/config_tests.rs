use utsusu::template_config::TemplateConfig;
use utsusu::template_config::TemplateOutputType;

#[test]
fn new_config_is_empty_file_mode() {
    let config = TemplateConfig::new();
    assert_eq!(config.get_output_type(), TemplateOutputType::File);
    assert_eq!(config.get_output_filename(), None);
    assert_eq!(config.get_output_directory(), None);
    assert!(config.get_variable_items().is_empty());
    assert!(!config.should_include_file("anything"));
}

#[test]
fn add_variable_upserts_and_returns_prior() {
    let mut config = TemplateConfig::new();
    assert_eq!(config.add_variable("a".to_string(), "1".to_string()), None);
    assert_eq!(config.add_variable("b".to_string(), "2".to_string()), None);
    assert_eq!(
        config.add_variable("a".to_string(), "3".to_string()),
        Some("1".to_string())
    );
    assert_eq!(
        config.get_variable_items(),
        vec![
            ("a".to_string(), "3".to_string()),
            ("b".to_string(), "2".to_string())
        ]
    );
}

#[test]
fn variable_items_are_a_snapshot() {
    let mut config = TemplateConfig::new();
    let _ = config.add_variable("a".to_string(), "1".to_string());
    let items = config.get_variable_items();
    let _ = config.add_variable("a".to_string(), "changed".to_string());
    assert_eq!(items, vec![("a".to_string(), "1".to_string())]);
}

#[test]
fn set_output_type_wipes_stale_name_on_change() {
    let mut config = TemplateConfig::new();
    config.set_output_filename("f.txt".to_string());
    assert_eq!(config.get_output_filename(), Some("f.txt"));

    config.set_output_type(TemplateOutputType::Directory);
    assert_eq!(config.get_output_type(), TemplateOutputType::Directory);
    assert_eq!(config.get_output_filename(), None);

    config.set_output_directory("out".to_string());
    assert_eq!(config.get_output_directory(), Some("out"));

    config.set_output_type(TemplateOutputType::File);
    assert_eq!(config.get_output_type(), TemplateOutputType::File);
    assert_eq!(config.get_output_directory(), None);
}

#[test]
fn set_output_type_keeps_name_when_unchanged() {
    let mut config = TemplateConfig::new();
    config.set_output_filename("f.txt".to_string());
    config.set_output_type(TemplateOutputType::File);
    assert_eq!(config.get_output_filename(), Some("f.txt"));
}

#[test]
fn output_name_setters_respect_mode() {
    let mut config = TemplateConfig::new();
    // File mode: setting a directory name does nothing.
    config.set_output_directory("out".to_string());
    assert_eq!(config.get_output_directory(), None);

    config.set_output_type(TemplateOutputType::Directory);
    // Directory mode: setting a filename does nothing.
    config.set_output_filename("f.txt".to_string());
    assert_eq!(config.get_output_filename(), None);
}

#[test]
fn inclusion_matching_follows_the_compiled_set() {
    let mut config = TemplateConfig::new();
    let mut builder = globset::GlobSet::builder();
    builder.add(globset::Glob::new("*.txt").unwrap());
    builder.add(globset::Glob::new("sub/*.md").unwrap());
    config.update_included_file_patterns(builder.build().unwrap());

    assert!(config.should_include_file("a.txt"));
    assert!(config.should_include_file("sub/b.md"));
    assert!(!config.should_include_file("a.rs"));
}

#[test]
fn clone_answers_queries_like_the_original() {
    let mut config = TemplateConfig::new();
    let _ = config.add_variable("name".to_string(), "World".to_string());
    config.set_output_filename("f.txt".to_string());
    let mut builder = globset::GlobSet::builder();
    builder.add(globset::Glob::new("*.txt").unwrap());
    config.update_included_file_patterns(builder.build().unwrap());

    let copy = config.clone();
    assert_eq!(copy.get_output_type(), config.get_output_type());
    assert_eq!(copy.get_output_filename(), config.get_output_filename());
    assert_eq!(copy.get_output_directory(), config.get_output_directory());
    assert_eq!(copy.get_variable_items(), config.get_variable_items());
    assert_eq!(
        copy.should_include_file("a.txt"),
        config.should_include_file("a.txt")
    );
    assert_eq!(
        copy.should_include_file("a.rs"),
        config.should_include_file("a.rs")
    );
}
