use rey::console::{Console, Question, Run};
use rey::text::split_words;
use rey::input::{validate_file_name, validate_uri, InputError};
use rey::licenses::Licenses;
use rey::views::{
    asset_admin_path, asset_web_path, project_dirs, script_admin_path, script_web_path,
    test_admin_path, test_web_path, view_admin_path, view_files, view_web_path, ViewType,
};

#[test]
fn compile_plan_for_all_kinds() {
    let steps = Console::compile_steps(&["ts", "scss", "rs"]);
    let shown: Vec<String> =
        steps.iter().map(|c| format!("{} {}", c.program, c.args.join(" "))).collect();
    assert_eq!(
        shown,
        vec![
            "npx tsc --project tsconfig.json".to_string(),
            "npx sass front/web/scss/web.scss:public/css/web.css --style=compressed".to_string(),
            "npx sass front/admin/scss/admin.scss:public/css/admin.css --style=compressed"
                .to_string(),
            "cargo clippy".to_string(),
        ]
    );
}

#[test]
fn compile_plan_keeps_its_own_order() {
    let steps = Console::compile_steps(&["rs", "ts"]);
    assert_eq!(steps.len(), 2);
    assert_eq!(steps[0].args[0], "tsc");
    assert_eq!(steps[1].program, "cargo");
    assert!(Console::compile_steps(&[]).is_empty());
    assert!(Console::compile_steps(&["css", "TS"]).is_empty());
}

#[test]
fn uri_validation() {
    assert_eq!(validate_uri(""), Err(InputError::EmptyUri));
    assert_eq!(validate_uri("ftp://x"), Err(InputError::UriNotHttp));
    assert_eq!(validate_uri("htt"), Err(InputError::UriNotHttp));
    assert_eq!(validate_uri("http://example.com"), Ok(()));
    assert_eq!(validate_uri("https://example.com"), Ok(()));
    assert_eq!(InputError::EmptyUri.message(), "URI is empty");
    assert_eq!(InputError::UriNotHttp.message(), "URI must start with http or https");
}

#[test]
fn file_name_validation() {
    assert_eq!(validate_file_name(""), Err(InputError::EmptyFileName));
    assert_eq!(validate_file_name("LICENSE"), Ok(()));
    assert_eq!(InputError::EmptyFileName.message(), "File name is empty");
}

#[test]
fn license_names_round_trip() {
    let names = Licenses::variants();
    assert_eq!(names.len(), 13);
    assert_eq!(names[0], "MIT");
    assert_eq!(names[12], "None");
    for n in &names {
        assert_eq!(Licenses::from_str(n).to_str(), n.as_str());
    }
    assert_eq!(Licenses::from_str("GPL-3.0"), Licenses::GPL3);
    assert_eq!(Licenses::from_str("whatever"), Licenses::NoLicense);
    assert_eq!(Licenses::from_str("mit"), Licenses::NoLicense);
}

#[test]
fn license_urls() {
    assert_eq!(
        Licenses::MIT.download_url(),
        Some("https://raw.githubusercontent.com/hackiado/licenses/refs/heads/main/MIT")
    );
    assert_eq!(
        Licenses::AGPL3.download_url(),
        Some("https://raw.githubusercontent.com/hackiado/licenses/refs/heads/main/AGPL_V3")
    );
    assert_eq!(Licenses::NoLicense.download_url(), None);
}

#[test]
fn web_view_paths() {
    assert_eq!(view_web_path("index"), "./templates/web/index.html.tera");
    assert_eq!(asset_web_path("index"), "./front/web/scss/_index.scss");
    assert_eq!(script_web_path("index"), "./front/web/ts/index.ts");
    assert_eq!(test_web_path("index"), "./front/web/tests/index_test..tests.ts");
}

#[test]
fn admin_view_paths() {
    assert_eq!(view_admin_path("dashboard"), "templates/admin/dashboard.html.tera");
    assert_eq!(asset_admin_path("dashboard"), "./front/admin/scss/_dashboard.scss");
    assert_eq!(script_admin_path("dashboard"), "./front/admin/ts/dashboard.ts");
    assert_eq!(test_admin_path("dashboard"), "./front/admin/tests/dashboard_test..tests.ts");
}

#[test]
fn view_file_sets() {
    let web = view_files(ViewType::Web, "a");
    assert_eq!(web, vec![view_web_path("a"), asset_web_path("a"), script_web_path("a"), test_web_path("a")]);
    let admin = view_files(ViewType::Admin, "b");
    assert_eq!(admin[0], "templates/admin/b.html.tera");
    assert_eq!(admin[3], "./front/admin/tests/b_test..tests.ts");
    let dirs = project_dirs();
    assert_eq!(dirs.len(), 10);
    assert_eq!(dirs[0], "./front/web");
    assert_eq!(dirs[9], "./front/admin/tests");
}

#[test]
fn default_answers() {
    assert!(Question::default_yes(Some("y")));
    assert!(Question::default_yes(Some("YES")));
    assert!(Question::default_yes(Some("Y")));
    assert!(Question::default_yes(Some("1")));
    assert!(!Question::default_yes(Some("n")));
    assert!(!Question::default_yes(Some("yeah")));
    assert!(!Question::default_yes(None));
    assert!(Question::is_yes_word("yes"));
    assert!(!Question::is_yes_word("YES"));
}

#[test]
fn script_arguments() {
    assert_eq!(Run::shell_args("npm  run\tbuild "), vec!["-c", "npm", "run", "build"]);
    assert_eq!(Run::shell_args(""), vec!["-c"]);
    assert_eq!(split_words("  a\u{3000}bc \n d"), vec!["a", "bc", "d"]);
    assert_eq!(split_words("x"), vec!["x"]);
    assert!(split_words(" \t ").is_empty());
}
