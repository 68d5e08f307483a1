use depcmd::catalog::suggested_features;
use depcmd::error::{DepError, Op};
use depcmd::invocation::{add_args, feature_choice, join_commas, pick};
use depcmd::manifest::declared_dependencies;
use depcmd::names::{keep_non_empty, parse_name_list, split_trimmed};

fn strings(xs: &[&str]) -> Vec<String> {
    xs.iter().map(|x| x.to_string()).collect()
}

#[test]
fn catalog_known_and_unknown() {
    assert_eq!(suggested_features(&"serde".to_string()), Some(strings(&["derive"])));
    assert_eq!(
        suggested_features(&"clap".to_string()),
        Some(strings(&["derive", "cargo", "env", "wrap_help"]))
    );
    assert_eq!(suggested_features(&"Serde".to_string()), None);
    assert_eq!(suggested_features(&"rand".to_string()), None);
}

#[test]
fn name_line_is_trimmed_and_filtered() {
    assert_eq!(parse_name_list(" serde, tokio ,,\tregex "), strings(&["serde", "tokio", "regex"]));
    assert_eq!(parse_name_list(""), Vec::<String>::new());
    assert_eq!(split_trimmed(" a ,, b"), strings(&["a", "", "b"]));
    assert_eq!(keep_non_empty(strings(&["", "x", ""])), strings(&["x"]));
}

#[test]
fn manifest_tables_in_order() {
    let text = "dependencies = { a = \"1\", b = \"2\" }\ndev-dependencies = { c = \"1\" }\n";
    assert_eq!(declared_dependencies(text), Ok(strings(&["a", "b", "c"])));
}

#[test]
fn manifest_build_table_and_duplicates() {
    let text = "[dependencies]\nx = \"1\"\n[build-dependencies]\ncc = \"1\"\nx = \"1\"\n";
    assert_eq!(declared_dependencies(text), Ok(strings(&["x", "cc", "x"])));
}

#[test]
fn manifest_malformed() {
    assert_eq!(declared_dependencies("dependencies = {"), Err(DepError::ManifestMalformed));
}

#[test]
fn add_arguments_in_order() {
    let args = add_args(&"x".to_string(), true, &Some("a,b".to_string()), &Some("2".to_string()));
    assert_eq!(args, strings(&["add", "x", "--dev", "--features", "a,b", "--version", "2"]));
    assert_eq!(add_args(&"x".to_string(), false, &None, &None), strings(&["add", "x"]));
}

#[test]
fn selection_join() {
    let options = strings(&["full", "rt", "rt-multi-thread", "macros"]);
    assert_eq!(feature_choice(&options, &vec![1, 3]), Some("rt,macros".to_string()));
    assert_eq!(feature_choice(&options, &vec![]), None);
    assert_eq!(pick(&options, &vec![3, 0]), strings(&["macros", "full"]));
    assert_eq!(join_commas(&strings(&["a"])), "a");
}

#[test]
fn error_duplicate_keeps_fields() {
    let e = DepError::ToolFailed { op: Op::Add, name: "x".to_string(), stderr: "bad".to_string() };
    assert_eq!(e.duplicate(), e);
}
