//! The rebuild step: which external commands a rebuild runs, in order.
use crate::console::Console;
use crate::text::{contains_text, has_text, texts};
use vstd::prelude::*;

verus! {

/// One external command: a program and its arguments. Exit status 0 means
/// success; no output is interpreted.
pub struct BuildCommand {
    pub program: String,
    pub args: Vec<String>,
}

impl View for BuildCommand {
    type V = (Seq<char>, Seq<Seq<char>>);

    open spec fn view(&self) -> (Seq<char>, Seq<Seq<char>>) {
        (self.program@, texts(self.args@))
    }
}

pub open spec fn command_views(v: Seq<BuildCommand>) -> Seq<(Seq<char>, Seq<Seq<char>>)> {
    v.map_values(|c: BuildCommand| c@)
}

/// The type-checker run over the project's scripts.
pub open spec fn typescript_step() -> (Seq<char>, Seq<Seq<char>>) {
    ("npx"@, seq!["tsc"@, "--project"@, "tsconfig.json"@])
}

/// The style-sheet compiler run for the public site.
pub open spec fn web_styles_step() -> (Seq<char>, Seq<Seq<char>>) {
    ("npx"@, seq!["sass"@, "front/web/scss/web.scss:public/css/web.css"@, "--style=compressed"@])
}

/// The style-sheet compiler run for the administration site.
pub open spec fn admin_styles_step() -> (Seq<char>, Seq<Seq<char>>) {
    (
        "npx"@,
        seq!["sass"@, "front/admin/scss/admin.scss:public/css/admin.css"@, "--style=compressed"@],
    )
}

/// The lint pass over the server code.
pub open spec fn rust_check_step() -> (Seq<char>, Seq<Seq<char>>) {
    ("cargo"@, seq!["clippy"@])
}

/// The commands of a rebuild, given which source kinds it covers: scripts
/// first, then both style sheets, then the server code.
pub open spec fn compile_plan(ts: bool, scss: bool, rs: bool) -> Seq<(Seq<char>, Seq<Seq<char>>)> {
    (if ts {
        seq![typescript_step()]
    } else {
        seq![]
    }) + (if scss {
        seq![web_styles_step(), admin_styles_step()]
    } else {
        seq![]
    }) + (if rs {
        seq![rust_check_step()]
    } else {
        seq![]
    })
}

fn command(program: &str, a: &str, b: &str, c: &str, n: usize) -> (r: BuildCommand)
    requires
        1 <= n <= 3,
    ensures
        r@.0 == program@,
        n == 1 ==> r@.1 == seq![a@],
        n == 3 ==> r@.1 == seq![a@, b@, c@],
{
    let mut args: Vec<String> = Vec::new();
    args.push(a.to_owned());
    if n >= 2 {
        args.push(b.to_owned());
    }
    if n >= 3 {
        args.push(c.to_owned());
    }
    let r = BuildCommand { program: program.to_owned(), args };
    assert(n == 1 ==> r@.1 =~= seq![a@]);
    assert(n == 3 ==> r@.1 =~= seq![a@, b@, c@]);
    r
}

impl Console {
    /// The commands a rebuild runs for the given source kinds (`"ts"`, `"scss"`,
    /// `"rs"`), in the order they run.
    pub fn compile_steps(kinds: &[&str]) -> (r: Vec<BuildCommand>)
        ensures
            command_views(r@) == compile_plan(
                contains_text(kinds@, "ts"@),
                contains_text(kinds@, "scss"@),
                contains_text(kinds@, "rs"@),
            ),
    {
        let ts = has_text(kinds, "ts");
        let scss = has_text(kinds, "scss");
        let rs = has_text(kinds, "rs");
        let mut r: Vec<BuildCommand> = Vec::new();
        if ts {
            r.push(command("npx", "tsc", "--project", "tsconfig.json", 3));
        }
        let ghost after_ts = command_views(r@);
        assert(after_ts =~= (if ts {
            seq![typescript_step()]
        } else {
            seq![]
        }));
        if scss {
            r.push(command("npx", "sass", "front/web/scss/web.scss:public/css/web.css", "--style=compressed", 3));
            r.push(command("npx", "sass", "front/admin/scss/admin.scss:public/css/admin.css", "--style=compressed", 3));
        }
        let ghost after_scss = command_views(r@);
        assert(after_scss =~= after_ts + (if scss {
            seq![web_styles_step(), admin_styles_step()]
        } else {
            seq![]
        }));
        if rs {
            r.push(command("cargo", "clippy", "", "", 1));
        }
        assert(command_views(r@) =~= after_scss + (if rs {
            seq![rust_check_step()]
        } else {
            seq![]
        }));
        r
    }
}

} // verus!
