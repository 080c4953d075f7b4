use feature_generator::generation::gen_context::{AppCtx, Config};
use feature_generator::generation::render::{
    add_line_to_file, append_line_below, contains_pattern, join_lines, split_lines,
};
use feature_generator::generation::{amend_existing_files, generate_config, ModuleKind};

const APPLICATION_FIXTURE: &str = "package test.base.package.testapp\n\nimport test.base.package.other.impl.root.OtherFeatureRoot\n\nclass Application {\n    val features = listOf(\n        OtherFeatureRoot::class,\n    )\n}\n";

fn fixture_lines() -> Vec<String> {
    split_lines(APPLICATION_FIXTURE)
}

#[test]
fn contains_pattern_finds_substrings() {
    assert!(contains_pattern("    val features = listOf(", "features ="));
    assert!(contains_pattern("import a.b.c", "import "));
    assert!(!contains_pattern("val libraries = listOf(", "features ="));
    assert!(contains_pattern("anything", ""));
    assert!(!contains_pattern("", "x"));
    assert!(contains_pattern("aab", "ab"));
}

#[test]
fn split_lines_matches_line_reading() {
    let lines = fixture_lines();
    assert_eq!(9, lines.len());
    assert_eq!("package test.base.package.testapp", lines[0].as_str());
    assert_eq!("", lines[1].as_str());
    assert_eq!("    val features = listOf(", lines[5].as_str());
    assert_eq!("}", lines[8].as_str());
}

#[test]
fn split_lines_handles_carriage_returns_and_final_line() {
    let lines = split_lines("a\r\nb\nc");
    assert_eq!(vec!["a".to_string(), "b".to_string(), "c".to_string()], lines);
    assert_eq!(Vec::<String>::new(), split_lines(""));
    assert_eq!(vec!["".to_string()], split_lines("\n"));
}

#[test]
fn amendment_inserts_directly_below_first_match() {
    let lines = fixture_lines();
    let app_ctx = AppCtx {
        is_testing: false,
        app_name: "test-app".to_string(),
        base_package: "test.base.package".to_string(),
    };
    let ops = amend_existing_files(&app_ctx, ModuleKind::Feature, "home");

    let after_class = append_line_below(&lines, "features =", ops[0].line.as_str());
    let marker = after_class
        .iter()
        .position(|l| contains_pattern(l, "features ="))
        .expect("the fixture holds the registry marker");
    assert_eq!("        HomeFeatureRoot::class,", after_class[marker + 1].as_str());
    assert_eq!(lines.len() + 1, after_class.len());

    let after_import = append_line_below(&after_class, "import ", ops[1].line.as_str());
    let import_at = after_import
        .iter()
        .position(|l| contains_pattern(l, "import "))
        .expect("the fixture holds an import");
    assert_eq!(
        "import test.base.package.home.impl.root.HomeFeatureRoot",
        after_import[import_at + 1].as_str()
    );
}

#[test]
fn amendment_inserts_below_only_the_first_match() {
    let lines = vec![
        "dependencies {".to_string(),
        "dependencies {".to_string(),
    ];
    let out = append_line_below(&lines, "dependencies", "    inserted");
    assert_eq!(
        vec![
            "dependencies {".to_string(),
            "    inserted".to_string(),
            "dependencies {".to_string(),
        ],
        out
    );
}

#[test]
fn amendment_without_match_changes_nothing() {
    let lines = fixture_lines();
    let out = append_line_below(&lines, "libraries =", "        Unused::class,");
    assert_eq!(lines, out);
}

#[test]
fn add_line_appends_at_end() {
    let lines = vec!["include(\":app\")".to_string()];
    let out = add_line_to_file(&lines, "include(\":feature:home:api\")");
    assert_eq!(
        vec![
            "include(\":app\")".to_string(),
            "include(\":feature:home:api\")".to_string(),
        ],
        out
    );
}

#[test]
fn config_round_trip() {
    let config = Config {
        app_name: Some("my-app".to_string()),
        base_package_name: Some("com.my.app".to_string()),
        global: false,
    };
    let lines = generate_config(&config);
    let contents = join_lines(&lines);
    assert_eq!("base-package = \"com.my.app\"\napp-name = \"my-app\"\n", contents.as_str());

    let read_back = split_lines(contents.as_str());
    assert_eq!(lines, read_back);
    assert_eq!("base-package = \"com.my.app\"", read_back[0].as_str());
    assert_eq!("app-name = \"my-app\"", read_back[1].as_str());
}

#[test]
fn join_then_split_keeps_amended_lines() {
    let lines = fixture_lines();
    let amended = add_line_to_file(&lines, "include(\":feature:home:api\")");
    let round = split_lines(join_lines(&amended).as_str());
    assert_eq!(amended, round);
}
