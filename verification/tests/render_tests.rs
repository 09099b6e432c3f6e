use utsusu::template_rendering::RenderPlan;
use utsusu::template_rendering::RenderSelectionError;
use utsusu::template_rendering::plan_render;
use utsusu::template_rendering::render_all_files;
use utsusu::template_rendering::select_included_files;
use utsusu::template_rendering::single_file_render::render_single_file;
use utsusu::yaml::parse_config_from_yaml_string;

#[test]
fn literal_template_renders_unchanged() {
    // Round-trip: a template with no placeholders comes back exactly as
    // written, whatever bindings are in force.
    let text = "plain text, no placeholders at all.\n";
    let config = parse_config_from_yaml_string(
        "type: file\noutput:\n  filename: o\ninclude: t.txt\nvariables:\n  name: World\n  other: x\n",
    )
    .unwrap();
    let mut tera = tera::Tera::default();
    tera.add_raw_template("t.txt", text).unwrap();

    let mut overrides = tera::Context::new();
    overrides.insert("name", "Someone");
    let rendered = render_single_file(&tera, &config, "t.txt", Some(&overrides)).unwrap();
    assert_eq!(rendered, text);

    let rendered_plain = render_single_file(&tera, &config, "t.txt", None).unwrap();
    assert_eq!(rendered_plain, text);
}

#[test]
fn override_wins_over_default() {
    let config = parse_config_from_yaml_string(
        "type: file\noutput:\n  filename: o\ninclude: t.txt\nvariables:\n  name: Default\n",
    )
    .unwrap();
    let mut tera = tera::Tera::default();
    tera.add_raw_template("t.txt", "Hello {{name}}").unwrap();

    let mut overrides = tera::Context::new();
    overrides.insert("name", "Override");
    let rendered = render_single_file(&tera, &config, "t.txt", Some(&overrides)).unwrap();
    assert_eq!(rendered, "Hello Override");

    let rendered_default = render_single_file(&tera, &config, "t.txt", None).unwrap();
    assert_eq!(rendered_default, "Hello Default");
}

#[test]
fn undeclared_override_is_admitted() {
    let config = parse_config_from_yaml_string(
        "type: file\noutput:\n  filename: o\ninclude: t.txt\n",
    )
    .unwrap();
    let mut tera = tera::Tera::default();
    tera.add_raw_template("t.txt", "Hi {{extra}}").unwrap();

    let mut overrides = tera::Context::new();
    overrides.insert("extra", "there");
    let rendered = render_single_file(&tera, &config, "t.txt", Some(&overrides)).unwrap();
    assert_eq!(rendered, "Hi there");
}

#[test]
fn file_mode_scenario_renders_hello_world() {
    let config = parse_config_from_yaml_string(
        "type: file\ninclude: template.txt\noutput:\n  filename: out.txt\nvariables:\n  name: World\n",
    )
    .unwrap();
    let candidates = vec!["template.txt".to_string()];
    let selected = select_included_files(&config, &candidates);
    assert_eq!(selected, vec!["template.txt".to_string()]);

    let plan = plan_render(&config, selected, None).unwrap();
    match plan {
        RenderPlan::SingleFile { source, output_filename } => {
            assert_eq!(source, "template.txt");
            assert_eq!(output_filename, "out.txt");

            let mut tera = tera::Tera::default();
            tera.add_raw_template("template.txt", "Hello {{name}}").unwrap();
            let rendered = render_single_file(&tera, &config, &source, None).unwrap();
            assert_eq!(rendered, "Hello World");
        },
        RenderPlan::DirectoryTree { .. } => panic!("file mode must plan a single file"),
    }
}

#[test]
fn directory_mode_scenario_renders_all_three() {
    let config = parse_config_from_yaml_string(
        "type: directory\noutput:\n  directory: out\ninclude:\n  - \"*.txt\"\n  - \"sub/*.txt\"\n",
    )
    .unwrap();
    let candidates = vec![
        "a.txt".to_string(),
        "b.txt".to_string(),
        "sub/c.txt".to_string(),
        "ignored.rs".to_string(),
    ];
    let selected = select_included_files(&config, &candidates);
    assert_eq!(
        selected,
        vec![
            "a.txt".to_string(),
            "b.txt".to_string(),
            "sub/c.txt".to_string()
        ]
    );

    let plan = plan_render(&config, selected, None).unwrap();
    match plan {
        RenderPlan::DirectoryTree { output_directory, sources } => {
            assert_eq!(output_directory, "out");
            assert_eq!(sources.len(), 3);

            let mut tera = tera::Tera::default();
            tera.add_raw_template("a.txt", "A").unwrap();
            tera.add_raw_template("b.txt", "B").unwrap();
            tera.add_raw_template("sub/c.txt", "C").unwrap();
            let outs = render_all_files(&tera, &config, &sources, None).unwrap();
            assert_eq!(outs.len(), 3);
            assert_eq!(outs[0], ("a.txt".to_string(), "A".to_string()));
            assert_eq!(outs[1], ("b.txt".to_string(), "B".to_string()));
            assert_eq!(outs[2], ("sub/c.txt".to_string(), "C".to_string()));
        },
        RenderPlan::SingleFile { .. } => panic!("directory mode must plan a tree"),
    }
}

#[test]
fn file_mode_with_two_matches_is_refused() {
    // The single wildcard compiles fine at parse time; the surplus match is
    // caught at dispatch time, before anything is rendered or written.
    let config = parse_config_from_yaml_string(
        "type: file\noutput:\n  filename: o\ninclude: \"*.txt\"\n",
    )
    .unwrap();
    let candidates = vec!["one.txt".to_string(), "two.txt".to_string()];
    let selected = select_included_files(&config, &candidates);
    assert_eq!(selected.len(), 2);

    let plan = plan_render(&config, selected, None);
    assert!(matches!(plan, Err(RenderSelectionError::TooManyMatchingFiles)));
}

#[test]
fn no_matching_files_is_refused() {
    let config = parse_config_from_yaml_string(
        "type: file\noutput:\n  filename: o\ninclude: \"*.txt\"\n",
    )
    .unwrap();
    let candidates = vec!["readme.md".to_string()];
    let selected = select_included_files(&config, &candidates);
    assert!(selected.is_empty());

    let plan = plan_render(&config, selected, None);
    assert!(matches!(plan, Err(RenderSelectionError::NoMatchingFiles)));
}

#[test]
fn explicit_output_override_beats_configured_name() {
    let config = parse_config_from_yaml_string(
        "type: file\noutput:\n  filename: configured.txt\ninclude: t.txt\n",
    )
    .unwrap();
    let selected = vec!["t.txt".to_string()];
    let plan = plan_render(&config, selected, Some("chosen.txt".to_string())).unwrap();
    match plan {
        RenderPlan::SingleFile { output_filename, .. } => {
            assert_eq!(output_filename, "chosen.txt");
        },
        RenderPlan::DirectoryTree { .. } => panic!("file mode must plan a single file"),
    }
}

#[test]
fn render_failure_carries_offending_path() {
    let config = parse_config_from_yaml_string(
        "type: directory\noutput:\n  directory: out\ninclude: \"*.txt\"\n",
    )
    .unwrap();
    let sources = vec!["known.txt".to_string(), "missing.txt".to_string()];
    let mut tera = tera::Tera::default();
    tera.add_raw_template("known.txt", "ok").unwrap();
    let err = render_all_files(&tera, &config, &sources, None).unwrap_err();
    assert_eq!(err.0, "missing.txt");
}
