use rey::classify::{is_ignored_dir, is_ignored_file, is_relevant, is_watched_source, relevant_changes};

#[test]
fn ignored_dir_wins_over_watched_extension() {
    assert!(is_ignored_dir("build/app.rs"));
    assert!(!is_relevant("build/app.rs"));
    assert!(is_ignored_dir("front/build"));
    assert!(is_ignored_dir("build/../target/app.rs"));
    assert!(is_ignored_dir("target/app.rs"));
    assert!(is_watched_source("target/app.rs"));
    assert!(!is_relevant("target/app.rs"));
    assert!(is_ignored_dir("/home/me/site/node_modules/pkg/index.ts"));
    assert!(is_ignored_dir(".git/config.toml"));
    assert!(is_ignored_dir("front/public"));
    assert!(is_ignored_dir("dist/styles.scss"));
}

#[test]
fn ignored_dir_needs_a_whole_component() {
    assert!(!is_ignored_dir("src/targets/app.rs"));
    assert!(!is_ignored_dir("src/builder/app.rs"));
    assert!(!is_ignored_dir("src/my_public/app.rs"));
    assert!(!is_ignored_dir("src/Target/app.rs"));
    assert!(!is_ignored_dir(""));
}

#[test]
fn relevant_examples() {
    assert!(is_relevant("src/main.rs"));
    assert!(is_relevant("front/app.ts"));
    assert!(is_relevant("front/style.scss"));
    assert!(is_relevant("front/view.tsx"));
    assert!(is_relevant("front/theme.sass"));
    assert!(is_relevant("Cargo.toml"));
    assert!(!is_relevant("front/app.css"));
    assert!(!is_relevant("x.rs~"));
    assert!(!is_relevant("tsconfig.tsbuildinfo"));
    assert!(!is_relevant("README.md"));
}

#[test]
fn ignored_files() {
    assert!(is_ignored_file("x.rs~"));
    assert!(is_ignored_file("front/tsconfig.tsbuildinfo"));
    assert!(is_ignored_file("front/app.css"));
    assert!(is_ignored_file("front/app.js"));
    assert!(is_ignored_file("front/app.js.map"));
    assert!(is_ignored_file("src/.main.rs.swp"));
    assert!(is_ignored_file("src/.main.rs.swo"));
    assert!(is_ignored_file("src/cache.tmp"));
    assert!(!is_ignored_file("src/main.rs"));
    assert!(!is_ignored_file("src/"));
}

#[test]
fn file_name_and_extension_follow_path_rules() {
    // A leading dot alone is no extension.
    assert!(!is_watched_source("src/.rs"));
    assert!(is_watched_source("src/.x.rs"));
    // Trailing separators and `.` components are skipped.
    assert!(is_watched_source("src/main.rs/"));
    assert!(is_watched_source("src/main.rs/."));
    // A final `..` has no file name.
    assert!(!is_watched_source("src/main.rs/.."));
    assert!(!is_watched_source("src/main."));
    assert!(!is_watched_source("src/main"));
    assert!(is_watched_source("a.b/c.toml"));
    assert!(!is_watched_source("a.rs/c"));
}

#[test]
fn batch_keeps_relevant_paths_in_order() {
    let batch = vec![
        "src/b.rs".to_string(),
        "target/debug/out.rs".to_string(),
        "front/app.css".to_string(),
        "src/a.rs".to_string(),
        "notes.txt".to_string(),
    ];
    assert_eq!(relevant_changes(&batch), vec!["src/b.rs".to_string(), "src/a.rs".to_string()]);
    assert!(relevant_changes(&vec![]).is_empty());
}
