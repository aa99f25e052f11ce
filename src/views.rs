//! Where the files of a view live: a template, a style sheet, a script and a
//! test for each view of the public site and of the administration site.
use vstd::prelude::*;
use vstd::string::StringExecFns;

verus! {

/// The two sites of a project.
#[derive(Clone, Copy, Debug, PartialEq, Eq, Structural)]
pub enum ViewType {
    Web,
    Admin,
}

/// `a` followed by `b` and `c`.
fn join3(a: &str, b: &str, c: &str) -> (r: String)
    ensures
        r@ == a@ + b@ + c@,
{
    let mut s = a.to_owned();
    s.append(b);
    s.append(c);
    s
}

/// Template of web view `name`.
pub fn view_web_path(name: &str) -> (r: String)
    ensures
        r@ == "./templates/web/"@ + name@ + ".html.tera"@,
{
    join3("./templates/web/", name, ".html.tera")
}

/// Style sheet partial of web view `name`.
pub fn asset_web_path(name: &str) -> (r: String)
    ensures
        r@ == "./front/web/scss/_"@ + name@ + ".scss"@,
{
    join3("./front/web/scss/_", name, ".scss")
}

/// Script of web view `name`.
pub fn script_web_path(name: &str) -> (r: String)
    ensures
        r@ == "./front/web/ts/"@ + name@ + ".ts"@,
{
    join3("./front/web/ts/", name, ".ts")
}

/// Script test of web view `name`.
pub fn test_web_path(name: &str) -> (r: String)
    ensures
        r@ == "./front/web/tests/"@ + name@ + "_test..tests.ts"@,
{
    join3("./front/web/tests/", name, "_test..tests.ts")
}

/// Template of administration view `name`.
pub fn view_admin_path(name: &str) -> (r: String)
    ensures
        r@ == "templates/admin/"@ + name@ + ".html.tera"@,
{
    join3("templates/admin/", name, ".html.tera")
}

/// Style sheet partial of administration view `name`.
pub fn asset_admin_path(name: &str) -> (r: String)
    ensures
        r@ == "./front/admin/scss/_"@ + name@ + ".scss"@,
{
    join3("./front/admin/scss/_", name, ".scss")
}

/// Script of administration view `name`.
pub fn script_admin_path(name: &str) -> (r: String)
    ensures
        r@ == "./front/admin/ts/"@ + name@ + ".ts"@,
{
    join3("./front/admin/ts/", name, ".ts")
}

/// Script test of administration view `name`.
pub fn test_admin_path(name: &str) -> (r: String)
    ensures
        r@ == "./front/admin/tests/"@ + name@ + "_test..tests.ts"@,
{
    join3("./front/admin/tests/", name, "_test..tests.ts")
}

/// The four files of view `name` of the given site: template, style sheet,
/// script and test, in that order.
pub fn view_files(kind: ViewType, name: &str) -> (r: Vec<String>)
    ensures
        r@.len() == 4,
        kind == ViewType::Web ==> r@[0]@ == "./templates/web/"@ + name@ + ".html.tera"@
            && r@[1]@ == "./front/web/scss/_"@ + name@ + ".scss"@
            && r@[2]@ == "./front/web/ts/"@ + name@ + ".ts"@
            && r@[3]@ == "./front/web/tests/"@ + name@ + "_test..tests.ts"@,
        kind == ViewType::Admin ==> r@[0]@ == "templates/admin/"@ + name@ + ".html.tera"@
            && r@[1]@ == "./front/admin/scss/_"@ + name@ + ".scss"@
            && r@[2]@ == "./front/admin/ts/"@ + name@ + ".ts"@
            && r@[3]@ == "./front/admin/tests/"@ + name@ + "_test..tests.ts"@,
{
    let mut r: Vec<String> = Vec::new();
    match kind {
        ViewType::Web => {
            r.push(view_web_path(name));
            r.push(asset_web_path(name));
            r.push(script_web_path(name));
            r.push(test_web_path(name));
        },
        ViewType::Admin => {
            r.push(view_admin_path(name));
            r.push(asset_admin_path(name));
            r.push(script_admin_path(name));
            r.push(test_admin_path(name));
        },
    }
    r
}

/// The directories whose presence marks an initialized project.
pub open spec fn project_dir_names() -> Seq<Seq<char>> {
    seq![
        "./front/web"@,
        "./front/admin"@,
        "./templates/web"@,
        "./front/web/scss"@,
        "./front/web/ts"@,
        "./front/web/tests"@,
        "./templates/admin"@,
        "./front/admin/scss"@,
        "./front/admin/ts"@,
        "./front/admin/tests"@,
    ]
}

/// The directories that must all exist for a project to count as initialized.
pub fn project_dirs() -> (r: Vec<&'static str>)
    ensures
        r@.map_values(|s: &str| s@) == project_dir_names(),
{
    let mut r: Vec<&'static str> = Vec::new();
    r.push("./front/web");
    r.push("./front/admin");
    r.push("./templates/web");
    r.push("./front/web/scss");
    r.push("./front/web/ts");
    r.push("./front/web/tests");
    r.push("./templates/admin");
    r.push("./front/admin/scss");
    r.push("./front/admin/ts");
    r.push("./front/admin/tests");
    assert(r@.map_values(|s: &str| s@) =~= project_dir_names());
    r
}

/// What cleaning a project removes, in order; a name ending in `/` is a
/// directory, removed with its contents.
pub open spec fn clean_target_names() -> Seq<Seq<char>> {
    seq![
        "logs/"@,
        "front/"@,
        "templates/"@,
        "src/"@,
        "Cargo.toml"@,
        "Rocket.toml"@,
        ".hgignore"@,
        "README.md"@,
        "LICENSE"@,
        "tsconfig.json"@,
        "package.json"@,
        "tests/"@,
        "public/"@,
        "target/"@,
        "Cargo.lock"@,
        "node_modules/"@,
        "yarn.lock"@,
        "pnpm-lock.yaml"@,
    ]
}

/// The files and directories that cleaning a project removes, in order.
pub fn clean_targets() -> (r: Vec<&'static str>)
    ensures
        r@.map_values(|s: &str| s@) == clean_target_names(),
{
    let mut r: Vec<&'static str> = Vec::new();
    r.push("logs/");
    r.push("front/");
    r.push("templates/");
    r.push("src/");
    r.push("Cargo.toml");
    r.push("Rocket.toml");
    r.push(".hgignore");
    r.push("README.md");
    r.push("LICENSE");
    r.push("tsconfig.json");
    r.push("package.json");
    r.push("tests/");
    r.push("public/");
    r.push("target/");
    r.push("Cargo.lock");
    r.push("node_modules/");
    r.push("yarn.lock");
    r.push("pnpm-lock.yaml");
    assert(r@.map_values(|s: &str| s@) =~= clean_target_names());
    r
}

} // verus!
